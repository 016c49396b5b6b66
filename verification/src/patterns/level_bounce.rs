//! The bounce finder: a level-touching setup candle (BSU) followed by two
//! consecutive same-side confirmation candles (BPU 1 and BPU 2) within an
//! absolute point allowance.

use crate::candle::CandleInstance;
use crate::how_candle_crosses_level::{classify_spec, HowCandleCrossesLevel};
use crate::stop_loss::Luft;
use vstd::prelude::*;

verus! {

/// The indices of a found bounce: the setup candle and its two
/// confirmation candles, as positions in the scanned slice.
#[derive(Debug, Clone, Copy, PartialEq, Eq, Structural)]
pub struct BsuBpiIndex {
    pub bsu_index: usize,
    pub bpu_1_index: usize,
    pub bpu_2_index: usize,
}

/// A setup candle: its high or its low equals the level exactly.
pub open spec fn is_setup(c: CandleInstance, level: u64) -> bool {
    c.high == level || c.low == level
}

/// A qualifying confirmation pair: the first candle touches the level, the
/// second candle's classification distance from the level (zero if it is
/// itself a touch) is at most `luft` ticks, and the second candle is not on
/// the strictly opposite side of the first.
pub open spec fn bpu_pair_spec(first: CandleInstance, second: CandleInstance, level: u64, luft: u64) -> bool {
    let c1 = classify_spec(first, level);
    c1.is_touch_spec() && match classify_spec(second, level) {
        HowCandleCrossesLevel::CandleIsAbove { distance } => !c1.is_below_or_touches_below_spec()
            && distance <= luft,
        HowCandleCrossesLevel::CandleIsBelow { distance } => !c1.is_above_or_touches_above_spec()
            && distance <= luft,
        HowCandleCrossesLevel::CandleTouchesAbove => !c1.is_below_or_touches_below_spec(),
        HowCandleCrossesLevel::CandleTouchesBelow => !c1.is_above_or_touches_above_spec(),
        _ => false,
    }
}

/// The position of the first setup candle at or after `i`, scanning
/// oldest to newest.
pub open spec fn first_setup_from(s: Seq<CandleInstance>, level: u64, i: int) -> Option<int>
    decreases s.len() - i,
{
    if i < 0 || i >= s.len() {
        None
    } else if is_setup(s[i], level) {
        Some(i)
    } else {
        first_setup_from(s, level, i + 1)
    }
}

/// The position of the first qualifying adjacent pair `(i, i + 1)` at or
/// after `i`, where the pair's second member must not be the newest candle's
/// successor — pairs run only up to `(len - 2, len - 1)`.
pub open spec fn first_pair_from(s: Seq<CandleInstance>, level: u64, luft: u64, i: int) -> Option<
    int,
>
    decreases s.len() - i,
{
    if i < 0 || i + 1 >= s.len() {
        None
    } else if bpu_pair_spec(s[i], s[i + 1], level, luft) {
        Some(i)
    } else {
        first_pair_from(s, level, luft, i + 1)
    }
}

/// What the bounce finder returns: with fewer than three candles, nothing;
/// otherwise the first setup candle anchors the scan, and the first
/// qualifying pair after it gives the confirmation indices.
pub open spec fn bounce_spec(s: Seq<CandleInstance>, level: u64, luft: u64) -> Option<BsuBpiIndex> {
    if s.len() < 3 {
        None
    } else {
        match first_setup_from(s, level, 0) {
            None => None,
            Some(bsu) => match first_pair_from(s, level, luft, bsu + 1) {
                None => None,
                Some(p) => Some(
                    BsuBpiIndex {
                        bsu_index: bsu as usize,
                        bpu_1_index: p as usize,
                        bpu_2_index: (p + 1) as usize,
                    },
                ),
            },
        }
    }
}

proof fn lemma_first_setup_skip(s: Seq<CandleInstance>, level: u64, i: int)
    requires
        0 <= i <= s.len(),
        forall|j: int| 0 <= j < i ==> !is_setup(s[j], level),
    ensures
        first_setup_from(s, level, 0) == first_setup_from(s, level, i),
    decreases i,
{
    if i > 0 {
        lemma_first_setup_skip(s, level, i - 1);
    }
}

proof fn lemma_first_pair_skip(s: Seq<CandleInstance>, level: u64, luft: u64, start: int, i: int)
    requires
        0 <= start <= i <= s.len(),
        forall|j: int|
            start <= j < i ==> !(j + 1 < s.len() && #[trigger] bpu_pair_spec(
                s[j],
                s[j + 1],
                level,
                luft,
            )),
    ensures
        first_pair_from(s, level, luft, start) == first_pair_from(s, level, luft, i),
    decreases i - start,
{
    if start < i {
        lemma_first_pair_skip(s, level, luft, start + 1, i);
    }
}

/// Finds the first bounce in `candles` (oldest first) against `level`,
/// with `luft` ticks of confirmation allowance.
pub fn find_bpu_bsu(candles: &[CandleInstance], level: u64, luft: Luft) -> (r: Option<BsuBpiIndex>)
    ensures
        r == bounce_spec(candles@, level, luft@),
{
    let n: usize = candles.len();
    if n < 3 {
        return None;
    }
    let mut index: usize = 0;
    while index < n && !(candles[index].high == level || candles[index].low == level)
        invariant
            n == candles@.len(),
            0 <= index <= n,
            forall|j: int| 0 <= j < index ==> !is_setup(candles@[j], level),
        decreases n - index,
    {
        index = index + 1;
    }
    proof {
        lemma_first_setup_skip(candles@, level, index as int);
    }
    if index == n {
        return None;
    }
    let bsu_index: usize = index;
    proof {
        assert(first_setup_from(candles@, level, 0) == Some(bsu_index as int));
    }
    let mut i: usize = bsu_index + 1;
    while i < n - 1
        invariant
            n == candles@.len(),
            n >= 3,
            bsu_index < n,
            bsu_index + 1 <= i,
            i <= n,
            first_setup_from(candles@, level, 0) == Some(bsu_index as int),
            forall|j: int|
                bsu_index + 1 <= j < i ==> !(j + 1 < candles@.len() && #[trigger] bpu_pair_spec(
                    candles@[j],
                    candles@[j + 1],
                    level,
                    luft@,
                )),
        decreases n - i,
    {
        let bpu_1_to_check = &candles[i];
        let bpu_2_to_check = &candles[i + 1];
        if are_candles_bpu1_and_bpu2(bpu_1_to_check, bpu_2_to_check, level, luft) {
            proof {
                lemma_first_pair_skip(candles@, level, luft@, bsu_index as int + 1, i as int);
            }
            return Some(
                BsuBpiIndex { bsu_index, bpu_1_index: i, bpu_2_index: i + 1 },
            );
        }
        i = i + 1;
    }
    proof {
        lemma_first_pair_skip(candles@, level, luft@, bsu_index as int + 1, i as int);
        if i < candles@.len() {
            assert(first_pair_from(candles@, level, luft@, i as int) is None);
        }
    }
    None
}

/// Whether `bpu_1` and `bpu_2` form a qualifying confirmation pair.
pub fn are_candles_bpu1_and_bpu2(
    bpu_1: &CandleInstance,
    bpu_2: &CandleInstance,
    level: u64,
    luft: Luft,
) -> (r: bool)
    ensures
        r == bpu_pair_spec(*bpu_1, *bpu_2, level, luft@),
{
    let bpu_1_touch = HowCandleCrossesLevel::from_candle_and_level(bpu_1, level);
    if !bpu_1_touch.is_candle_touches_the_level() {
        return false;
    }
    let bpu_2_touch = HowCandleCrossesLevel::from_candle_and_level(bpu_2, level);
    let distance: u64 = match bpu_2_touch {
        HowCandleCrossesLevel::CandleIsAbove { distance } => {
            if bpu_1_touch.is_below_or_touches_below() {
                return false;
            }
            distance
        },
        HowCandleCrossesLevel::CandleIsBelow { distance } => {
            if bpu_1_touch.is_above_or_touches_above() {
                return false;
            }
            distance
        },
        HowCandleCrossesLevel::CandleTouchesAbove => {
            if bpu_1_touch.is_below_or_touches_below() {
                return false;
            }
            0
        },
        HowCandleCrossesLevel::CandleTouchesBelow => {
            if bpu_1_touch.is_above_or_touches_above() {
                return false;
            }
            0
        },
        _ => {
            return false;
        },
    };
    distance <= luft.to_value()
}

proof fn lemma_first_setup_props(s: Seq<CandleInstance>, level: u64, i: int)
    requires
        0 <= i,
    ensures
        match first_setup_from(s, level, i) {
            Some(k) => i <= k < s.len() && is_setup(s[k], level) && (forall|j: int|
                i <= j < k ==> !is_setup(s[j], level)),
            None => forall|j: int| i <= j < s.len() ==> !is_setup(s[j], level),
        },
    decreases s.len() - i,
{
    if i < s.len() && !is_setup(s[i], level) {
        lemma_first_setup_props(s, level, i + 1);
    }
}

proof fn lemma_first_pair_props(s: Seq<CandleInstance>, level: u64, luft: u64, i: int)
    requires
        0 <= i,
    ensures
        match first_pair_from(s, level, luft, i) {
            Some(k) => i <= k && k + 1 < s.len() && bpu_pair_spec(s[k], s[k + 1], level, luft),
            None => true,
        },
    decreases s.len() - i,
{
    if i + 1 < s.len() && !bpu_pair_spec(s[i], s[i + 1], level, luft) {
        lemma_first_pair_props(s, level, luft, i + 1);
    }
}

/// Law: a reported bounce names a setup candle whose wick touches the
/// level exactly — the earliest such candle — and two adjacent
/// confirmation candles after it that form a qualifying pair.
pub proof fn lemma_bounce_shape(s: Seq<CandleInstance>, level: u64, luft: u64)
    requires
        s.len() <= usize::MAX,
    ensures
        match bounce_spec(s, level, luft) {
            Some(idx) => idx.bsu_index < idx.bpu_1_index && idx.bpu_2_index == idx.bpu_1_index + 1
                && idx.bpu_2_index < s.len() && is_setup(s[idx.bsu_index as int], level) && (
            forall|j: int| 0 <= j < idx.bsu_index ==> !is_setup(s[j], level)) && bpu_pair_spec(
                s[idx.bpu_1_index as int],
                s[idx.bpu_2_index as int],
                level,
                luft,
            ),
            None => true,
        },
{
    if s.len() >= 3 {
        lemma_first_setup_props(s, level, 0);
        if let Some(bsu) = first_setup_from(s, level, 0) {
            lemma_first_pair_props(s, level, luft, bsu + 1);
            if let Some(p) = first_pair_from(s, level, luft, bsu + 1) {
                let idx = BsuBpiIndex {
                    bsu_index: bsu as usize,
                    bpu_1_index: p as usize,
                    bpu_2_index: (p + 1) as usize,
                };
                assert(bounce_spec(s, level, luft) == Some(idx));
                assert(idx.bsu_index as int == bsu);
                assert(idx.bpu_1_index as int == p);
                assert(idx.bpu_2_index as int == p + 1);
            }
        }
    }
}

/// Law: with fewer than three candles the bounce finder always fails.
pub proof fn lemma_bounce_min_depth(s: Seq<CandleInstance>, level: u64, luft: u64)
    ensures
        s.len() < 3 ==> bounce_spec(s, level, luft) is None,
{
}

} // verus!
