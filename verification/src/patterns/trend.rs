//! Higher-high / lower-low trend detection over adjacent candle pairs.

use crate::candle::{CandleInstance, CandleSeries};
use vstd::prelude::*;

verus! {

/// The direction the series trends in.
#[derive(Debug, Clone, Copy, PartialEq, Eq, Structural)]
pub enum TrendDirection {
    Up,
    Down,
    Sideways,
}

/// Trend configuration: the fraction of adjacent pairs, in basis points,
/// that must confirm a direction.
#[derive(Debug, Clone, Copy)]
pub struct HHLLTrendDetector {
    pub min_confirmation_bp: u32,
}

/// How many adjacent chronological pairs make a higher high (the newer
/// candle's high strictly above the older one's).
pub open spec fn higher_high_count(s: Seq<CandleInstance>) -> int
    decreases s.len(),
{
    if s.len() < 2 {
        0
    } else {
        higher_high_count(s.drop_last()) + if s.last().high > s[s.len() - 2].high {
            1int
        } else {
            0int
        }
    }
}

/// How many adjacent chronological pairs make a lower low.
pub open spec fn lower_low_count(s: Seq<CandleInstance>) -> int
    decreases s.len(),
{
    if s.len() < 2 {
        0
    } else {
        lower_low_count(s.drop_last()) + if s.last().low < s[s.len() - 2].low {
            1int
        } else {
            0int
        }
    }
}

/// The number of confirmations demanded of `total` pairs at
/// `min_confirmation_bp` basis points: `total * bp / 10000` rounded up.
pub open spec fn required_confirmations(total: int, min_confirmation_bp: int) -> int {
    (total * min_confirmation_bp + 9999) / 10000
}

/// What the trend detector reports: nothing below two candles; otherwise
/// Up when the higher-high count reaches the requirement, else Down when
/// the lower-low count does, else Sideways.
pub open spec fn trend_spec(s: Seq<CandleInstance>, min_confirmation_bp: int) -> Option<
    TrendDirection,
> {
    if s.len() < 2 {
        None
    } else if higher_high_count(s) >= required_confirmations(s.len() - 1, min_confirmation_bp) {
        Some(TrendDirection::Up)
    } else if lower_low_count(s) >= required_confirmations(s.len() - 1, min_confirmation_bp) {
        Some(TrendDirection::Down)
    } else {
        Some(TrendDirection::Sideways)
    }
}

impl HHLLTrendDetector {
    /// Counts higher highs and lower lows over adjacent pairs and grades
    /// the series against the confirmation requirement.
    pub fn detect_trend(&self, candles: &CandleSeries) -> (r: Option<TrendDirection>)
        ensures
            r == trend_spec(candles@, self.min_confirmation_bp as int),
    {
        let n: usize = candles.len();
        if n < 2 {
            return None;
        }
        let mut higher_highs: usize = 0;
        let mut lower_lows: usize = 0;
        let mut i: usize = 1;
        while i < n
            invariant
                1 <= i <= n,
                n == candles@.len(),
                higher_highs <= i - 1,
                lower_lows <= i - 1,
                higher_highs == higher_high_count(candles@.take(i as int)),
                lower_lows == lower_low_count(candles@.take(i as int)),
            decreases n - i,
        {
            proof {
                let p = candles@.take(i + 1);
                assert(p.drop_last() =~= candles@.take(i as int));
                assert(p.last() == candles@[i as int]);
                assert(p[p.len() - 2] == candles@[i - 1]);
            }
            let curr = candles.get(i);
            let prev = candles.get(i - 1);
            if curr.high > prev.high {
                higher_highs = higher_highs + 1;
            }
            if curr.low < prev.low {
                lower_lows = lower_lows + 1;
            }
            i = i + 1;
        }
        proof {
            assert(candles@.take(n as int) =~= candles@);
        }
        let total_checks: usize = n - 1;
        proof {
            assert((total_checks as u128) * (self.min_confirmation_bp as u128) <= (u64::MAX
                as u128) * (u32::MAX as u128)) by (nonlinear_arith)
                requires
                    total_checks <= u64::MAX,
                    self.min_confirmation_bp <= u32::MAX,
            ;
        }
        let required: u128 = ((total_checks as u128) * (self.min_confirmation_bp as u128) + 9999)
            / 10000;
        if (higher_highs as u128) >= required {
            Some(TrendDirection::Up)
        } else if (lower_lows as u128) >= required {
            Some(TrendDirection::Down)
        } else {
            Some(TrendDirection::Sideways)
        }
    }
}

/// Law: with fewer than two candles no trend is reported; with two or more
/// a trend grade is always reported.
pub proof fn lemma_trend_totality(s: Seq<CandleInstance>, min_confirmation_bp: int)
    ensures
        s.len() < 2 ==> trend_spec(s, min_confirmation_bp) is None,
        s.len() >= 2 ==> trend_spec(s, min_confirmation_bp) is Some,
{
}

} // verus!
