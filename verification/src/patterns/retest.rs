//! The retest detector: repeated touches of a level in recent history,
//! graded near or far, rejecting a level still actively under test.

use crate::analyzer::{PatternResult, PatternType, SignalDirection};
use crate::candle::{CandleInstance, CandleSeries};
use crate::{price_within_band, within_band};
use vstd::prelude::*;

verus! {

pub const LEVEL_TOLERANCE_BP: u32 = 200;

pub const CLOSE_PERIOD: usize = 10;

pub const LONG_PERIOD: usize = 30;

/// How recent the confirming touch was: within the close period or only
/// within the longer lookback.
#[derive(Debug, Clone, Copy, PartialEq, Hash, Ord, PartialOrd, Eq, Structural)]
pub enum RetestPatternType {
    Close,
    Long,
}

/// Which side a candle bumped into the level from.
#[derive(Debug, Clone, Copy, PartialEq, Hash, Ord, PartialOrd, Eq, Structural)]
pub enum BumpDirection {
    FromBelow,
    FromAbove,
}

/// Retest configuration: the percent band (in basis points) that counts as
/// a touch, and the two lookback windows in candles.
#[derive(Debug, Clone, Copy)]
pub struct RetestPattern {
    pub tolerance_bp: u32,
    pub close_period: usize,
    pub long_period: usize,
}

impl Default for RetestPattern {
    fn default() -> (r: Self)
        ensures
            r.tolerance_bp == LEVEL_TOLERANCE_BP,
            r.close_period == CLOSE_PERIOD,
            r.long_period == LONG_PERIOD,
    {
        Self {
            tolerance_bp: LEVEL_TOLERANCE_BP,
            close_period: CLOSE_PERIOD,
            long_period: LONG_PERIOD,
        }
    }
}

/// How a candle bumps into the level, if at all: by its high reaching into
/// the band (from below), else by its low reaching into it (from above).
pub open spec fn bump_spec(c: CandleInstance, level: u64, tolerance_bp: u32) -> Option<
    BumpDirection,
> {
    if within_band(c.high as int, level as int, tolerance_bp as int) {
        Some(BumpDirection::FromBelow)
    } else if within_band(c.low as int, level as int, tolerance_bp as int) {
        Some(BumpDirection::FromAbove)
    } else {
        None
    }
}

/// The candle at scan position `i`, counting `0` as the most recent.
pub open spec fn rev_at(s: Seq<CandleInstance>, i: int) -> CandleInstance {
    s[s.len() - 1 - i]
}

/// The first scan position at or after `i` whose candle bumps the level.
pub open spec fn first_bump_from(s: Seq<CandleInstance>, level: u64, tolerance_bp: u32, i: int) -> Option<int>
    decreases s.len() - i,
{
    if i < 0 || i >= s.len() {
        None
    } else if bump_spec(rev_at(s, i), level, tolerance_bp) is Some {
        Some(i)
    } else {
        first_bump_from(s, level, tolerance_bp, i + 1)
    }
}

/// What the retest scan reports. With fewer than three candles, nothing.
/// The most recent candle must itself bump the level; the second-to-most-
/// recent must not (the level would still be actively contested). The next
/// bump back must agree in side with the most recent one; if it lies within
/// the close period the retest is Close, within the long period Long, and
/// further back nothing.
pub open spec fn retest_spec(
    s: Seq<CandleInstance>,
    level: u64,
    tolerance_bp: u32,
    close_period: int,
    long_period: int,
) -> Option<(BumpDirection, RetestPatternType)> {
    if s.len() < 3 {
        None
    } else {
        match bump_spec(rev_at(s, 0), level, tolerance_bp) {
            None => None,
            Some(dir) => {
                if bump_spec(rev_at(s, 1), level, tolerance_bp) is Some {
                    None
                } else {
                    match first_bump_from(s, level, tolerance_bp, 2) {
                        None => None,
                        Some(k) => {
                            if bump_spec(rev_at(s, k), level, tolerance_bp) != Some(dir) {
                                None
                            } else if k <= close_period {
                                Some((dir, RetestPatternType::Close))
                            } else if k <= long_period {
                                Some((dir, RetestPatternType::Long))
                            } else {
                                None
                            }
                        },
                    }
                }
            },
        }
    }
}

/// The retest signal built from `retest_spec`: a bump from below makes a
/// bullish signal, a bump from above a bearish one.
pub open spec fn retest_signal_spec(
    s: Seq<CandleInstance>,
    level: u64,
    tolerance_bp: u32,
    close_period: int,
    long_period: int,
) -> Option<PatternResult> {
    match retest_spec(s, level, tolerance_bp, close_period, long_period) {
        None => None,
        Some((dir, t)) => Some(
            PatternResult {
                direction: match dir {
                    BumpDirection::FromBelow => SignalDirection::Bullish,
                    BumpDirection::FromAbove => SignalDirection::Bearish,
                },
                pattern_type: match t {
                    RetestPatternType::Close => PatternType::CloseRetest,
                    RetestPatternType::Long => PatternType::LongRetest,
                },
                level: Some(level),
                time_key: None,
                confidence: None,
            },
        ),
    }
}

/// Whether `candle` bumps into `level` within the percent band.
pub fn bumped_into_level(candle: &CandleInstance, level: u64, tolerance_bp: u32) -> (r: Option<
    BumpDirection,
>)
    ensures
        r == bump_spec(*candle, level, tolerance_bp),
{
    if price_within_band(candle.high, level, tolerance_bp) {
        return Some(BumpDirection::FromBelow);
    }
    if price_within_band(candle.low, level, tolerance_bp) {
        return Some(BumpDirection::FromAbove);
    }
    None
}

proof fn lemma_first_bump_skip(
    s: Seq<CandleInstance>,
    level: u64,
    tolerance_bp: u32,
    start: int,
    i: int,
)
    requires
        0 <= start <= i <= s.len(),
        forall|j: int| start <= j < i ==> #[trigger] bump_spec(rev_at(s, j), level, tolerance_bp) is None,
    ensures
        first_bump_from(s, level, tolerance_bp, start) == first_bump_from(s, level, tolerance_bp, i),
    decreases i - start,
{
    if start < i {
        lemma_first_bump_skip(s, level, tolerance_bp, start + 1, i);
    }
}

impl RetestPattern {
    /// Scans `candles` most recent first and grades a retest of `level`.
    pub fn get_type(&self, candles: &CandleSeries, level: u64) -> (r: Option<
        (BumpDirection, RetestPatternType),
    >)
        ensures
            r == retest_spec(
                candles@,
                level,
                self.tolerance_bp,
                self.close_period as int,
                self.long_period as int,
            ),
    {
        let n: usize = candles.len();
        if n < 3 {
            return None;
        }
        let dir: BumpDirection = match bumped_into_level(candles.get(n - 1), level, self.tolerance_bp) {
            None => {
                return None;
            },
            Some(d) => d,
        };
        if bumped_into_level(candles.get(n - 2), level, self.tolerance_bp).is_some() {
            return None;
        }
        let mut i: usize = 2;
        while i < n
            invariant
                2 <= i <= n,
                n == candles@.len(),
                n >= 3,
                bump_spec(rev_at(candles@, 0), level, self.tolerance_bp) == Some(dir),
                bump_spec(rev_at(candles@, 1), level, self.tolerance_bp) is None,
                forall|j: int|
                    2 <= j < i ==> #[trigger] bump_spec(rev_at(candles@, j), level, self.tolerance_bp) is None,
            decreases n - i,
        {
            match bumped_into_level(candles.get(n - 1 - i), level, self.tolerance_bp) {
                None => {
                    proof {
                        assert(rev_at(candles@, i as int) == candles@[n - 1 - i as int]);
                    }
                    i = i + 1;
                },
                Some(d) => {
                    proof {
                        assert(rev_at(candles@, i as int) == candles@[n - 1 - i as int]);
                        lemma_first_bump_skip(candles@, level, self.tolerance_bp, 2, i as int);
                        assert(first_bump_from(candles@, level, self.tolerance_bp, 2) == Some(
                            i as int,
                        ));
                    }
                    if d != dir {
                        return None;
                    }
                    if i <= self.close_period {
                        return Some((d, RetestPatternType::Close));
                    }
                    if i <= self.long_period {
                        return Some((d, RetestPatternType::Long));
                    }
                    return None;
                },
            }
        }
        proof {
            lemma_first_bump_skip(candles@, level, self.tolerance_bp, 2, n as int);
        }
        None
    }

    /// Evaluates the retest detector and wraps a found retest as a signal.
    pub fn matches(&self, candles: &CandleSeries, level: u64) -> (r: Option<PatternResult>)
        ensures
            r == retest_signal_spec(
                candles@,
                level,
                self.tolerance_bp,
                self.close_period as int,
                self.long_period as int,
            ),
    {
        match self.get_type(candles, level) {
            None => None,
            Some((dir, t)) => Some(
                PatternResult {
                    direction: match dir {
                        BumpDirection::FromBelow => SignalDirection::Bullish,
                        BumpDirection::FromAbove => SignalDirection::Bearish,
                    },
                    pattern_type: match t {
                        RetestPatternType::Close => PatternType::CloseRetest,
                        RetestPatternType::Long => PatternType::LongRetest,
                    },
                    level: Some(level),
                    time_key: None,
                    confidence: None,
                },
            ),
        }
    }
}

/// Law: freshness — whenever the second-to-most-recent candle itself
/// touches the level's band, the retest detector reports nothing,
/// regardless of how many earlier touches there are.
pub proof fn lemma_retest_freshness(
    s: Seq<CandleInstance>,
    level: u64,
    tolerance_bp: u32,
    close_period: int,
    long_period: int,
)
    requires
        s.len() >= 2,
        bump_spec(rev_at(s, 1), level, tolerance_bp) is Some,
    ensures
        retest_spec(s, level, tolerance_bp, close_period, long_period) is None,
{
}

/// Law: a retest needs current proximity — if the most recent candle does
/// not touch the level's band, the detector reports nothing.
pub proof fn lemma_retest_needs_current_touch(
    s: Seq<CandleInstance>,
    level: u64,
    tolerance_bp: u32,
    close_period: int,
    long_period: int,
)
    requires
        bump_spec(rev_at(s, 0), level, tolerance_bp) is None,
    ensures
        retest_spec(s, level, tolerance_bp, close_period, long_period) is None,
{
}

/// Law: the retest detector is pure — `get_type`'s contract pins its
/// result to `retest_spec`, a function of the series, level and
/// configuration alone, so two calls on identical inputs give identical
/// results.
pub proof fn lemma_retest_purity(
    s: Seq<CandleInstance>,
    level: u64,
    tolerance_bp: u32,
    close_period: int,
    long_period: int,
    r1: Option<(BumpDirection, RetestPatternType)>,
    r2: Option<(BumpDirection, RetestPatternType)>,
)
    requires
        r1 == retest_spec(s, level, tolerance_bp, close_period, long_period),
        r2 == retest_spec(s, level, tolerance_bp, close_period, long_period),
    ensures
        r1 == r2,
{
}

/// Law: with fewer than three candles the retest detector reports nothing.
pub proof fn lemma_retest_min_depth(
    s: Seq<CandleInstance>,
    level: u64,
    tolerance_bp: u32,
    close_period: int,
    long_period: int,
)
    ensures
        s.len() < 3 ==> retest_spec(s, level, tolerance_bp, close_period, long_period) is None,
{
}

} // verus!
