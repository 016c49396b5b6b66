//! The pressure-buildup detector: the most recent N candles compress
//! against one side of the level within a percent band.

use crate::analyzer::{PatternResult, PatternType, SignalDirection};
use crate::candle::{CandleInstance, CandleSeries};
use crate::{below_band_top, price_below_band_top, price_within_band, within_band};
use vstd::prelude::*;

verus! {

pub const TOLERANCE_BP: u32 = 200;

pub const PERIOD: usize = 4;

/// Pressure-buildup configuration: the percent band (in basis points)
/// around the level and the number of most recent candles examined.
#[derive(Debug, Clone, Copy)]
pub struct PressureBuildupPattern {
    pub tolerance_bp: u32,
    pub period: usize,
}

impl Default for PressureBuildupPattern {
    fn default() -> (r: Self)
        ensures
            r.tolerance_bp == TOLERANCE_BP,
            r.period == PERIOD,
    {
        Self { tolerance_bp: TOLERANCE_BP, period: PERIOD }
    }
}

/// A candle's side flag: true when its high stays at or under the band's
/// upper edge (pressing from below), false otherwise (holding above).
pub open spec fn under_flag(c: CandleInstance, level: u64, tolerance_bp: u32) -> bool {
    below_band_top(c.high as int, level as int, tolerance_bp as int)
}

/// The side-relevant price: the high when pressing from below, else the low.
pub open spec fn side_price(c: CandleInstance, under: bool) -> u64 {
    if under {
        c.high
    } else {
        c.low
    }
}

/// The window of the `period` most recent candles, oldest first.
pub open spec fn pressure_window(s: Seq<CandleInstance>, period: int) -> Seq<CandleInstance> {
    s.subrange(s.len() - period, s.len() as int)
}

/// What the pressure-buildup detector reports. With fewer than `period`
/// candles, nothing. Every candle of the window must carry the same side
/// flag as the first (a flip aborts), and every candle's side-relevant
/// price must lie within the band; then pressure built from below makes a
/// bearish signal (pressing into resistance), from above a bullish one.
pub open spec fn pressure_spec(
    s: Seq<CandleInstance>,
    level: u64,
    tolerance_bp: u32,
    period: int,
) -> Option<PatternResult> {
    if s.len() < period {
        None
    } else {
        let w = pressure_window(s, period);
        let flag = under_flag(w[0], level, tolerance_bp);
        if (forall|i: int| 0 <= i < w.len() ==> #[trigger] under_flag(w[i], level, tolerance_bp) == flag)
            && (forall|i: int|
            0 <= i < w.len() ==> within_band(
                side_price(#[trigger] w[i], flag) as int,
                level as int,
                tolerance_bp as int,
            )) {
            Some(
                PatternResult {
                    direction: if flag {
                        SignalDirection::Bearish
                    } else {
                        SignalDirection::Bullish
                    },
                    pattern_type: PatternType::PressureBuildup,
                    level: Some(level),
                    time_key: None,
                    confidence: None,
                },
            )
        } else {
            None
        }
    }
}

impl PressureBuildupPattern {
    /// Scans the `period` most recent candles, oldest first, and reports
    /// a compression against one side of `level`.
    pub fn matches(&self, candles: &CandleSeries, level: u64) -> (r: Option<PatternResult>)
        requires
            self.period >= 1,
        ensures
            r == pressure_spec(candles@, level, self.tolerance_bp, self.period as int),
    {
        let n: usize = candles.len();
        if n < self.period {
            return None;
        }
        let start: usize = n - self.period;
        let ghost w = pressure_window(candles@, self.period as int);
        proof {
            assert(w.len() == self.period);
            assert(forall|i: int| 0 <= i < w.len() ==> w[i] == candles@[start + i]);
        }
        let first = candles.get(start);
        let flag: bool = price_below_band_top(first.high, level, self.tolerance_bp);
        let first_price: u64 = if flag {
            first.high
        } else {
            first.low
        };
        if !price_within_band(first_price, level, self.tolerance_bp) {
            proof {
                assert(!within_band(side_price(w[0], flag) as int, level as int, self.tolerance_bp as int));
            }
            return None;
        }
        let mut i: usize = 1;
        while i < self.period
            invariant
                1 <= i <= self.period,
                self.period <= n,
                n == candles@.len(),
                start == n - self.period,
                w == pressure_window(candles@, self.period as int),
                w.len() == self.period,
                forall|j: int| 0 <= j < w.len() ==> w[j] == candles@[start + j],
                flag == under_flag(w[0], level, self.tolerance_bp),
                forall|j: int| 0 <= j < i ==> #[trigger] under_flag(w[j], level, self.tolerance_bp) == flag,
                forall|j: int|
                    0 <= j < i ==> within_band(
                        side_price(#[trigger] w[j], flag) as int,
                        level as int,
                        self.tolerance_bp as int,
                    ),
            decreases self.period - i,
        {
            let c = candles.get(start + i);
            let current: bool = price_below_band_top(c.high, level, self.tolerance_bp);
            if current != flag {
                proof {
                    assert(under_flag(w[i as int], level, self.tolerance_bp) != flag);
                }
                return None;
            }
            let price: u64 = if current {
                c.high
            } else {
                c.low
            };
            if !price_within_band(price, level, self.tolerance_bp) {
                proof {
                    assert(!within_band(
                        side_price(w[i as int], flag) as int,
                        level as int,
                        self.tolerance_bp as int,
                    ));
                }
                return None;
            }
            i = i + 1;
        }
        Some(
            PatternResult {
                direction: if flag {
                    SignalDirection::Bearish
                } else {
                    SignalDirection::Bullish
                },
                pattern_type: PatternType::PressureBuildup,
                level: Some(level),
                time_key: None,
                confidence: None,
            },
        )
    }
}

/// Law: a side flip anywhere in the window forces an absent result, even
/// if every side-relevant price lies within the tolerance band.
pub proof fn lemma_pressure_side_flip(
    s: Seq<CandleInstance>,
    level: u64,
    tolerance_bp: u32,
    period: int,
    a: int,
    b: int,
)
    requires
        0 < period <= s.len(),
        0 <= a < period,
        0 <= b < period,
        under_flag(pressure_window(s, period)[a], level, tolerance_bp) != under_flag(
            pressure_window(s, period)[b],
            level,
            tolerance_bp,
        ),
    ensures
        pressure_spec(s, level, tolerance_bp, period) is None,
{
    let w = pressure_window(s, period);
    let flag = under_flag(w[0], level, tolerance_bp);
    assert(under_flag(w[a], level, tolerance_bp) != flag || under_flag(w[b], level, tolerance_bp)
        != flag);
}

/// Law: with fewer than `period` candles the detector reports nothing.
pub proof fn lemma_pressure_min_depth(
    s: Seq<CandleInstance>,
    level: u64,
    tolerance_bp: u32,
    period: int,
)
    ensures
        s.len() < period ==> pressure_spec(s, level, tolerance_bp, period) is None,
{
}

} // verus!
