//! The hammer heuristic: the most recent candle's body is smaller than its
//! lower wick and larger than its upper wick.

use crate::analyzer::{PatternResult, PatternType, SignalDirection};
use crate::candle::{CandleInstance, CandleSeries};
use vstd::prelude::*;

verus! {

/// Hammer configuration: the levels of interest; a level lying inside the
/// hammer candle's range is reported with the signal.
pub struct Hammer {
    pub levels: Vec<u64>,
}

/// The candle's body span.
pub open spec fn body_of(c: CandleInstance) -> int {
    if c.open >= c.close {
        c.open - c.close
    } else {
        c.close - c.open
    }
}

/// The candle's lower wick: body bottom minus low. Negative when the low
/// sits above the body.
pub open spec fn lower_wick_of(c: CandleInstance) -> int {
    (if c.open <= c.close {
        c.open
    } else {
        c.close
    }) - c.low
}

/// The candle's upper wick: high minus body top. Negative when the high
/// sits below the body.
pub open spec fn upper_wick_of(c: CandleInstance) -> int {
    c.high - (if c.open >= c.close {
        c.open
    } else {
        c.close
    })
}

/// A hammer: the body strictly smaller than the lower wick and the upper
/// wick strictly smaller than the body.
pub open spec fn is_hammer_spec(c: CandleInstance) -> bool {
    body_of(c) < lower_wick_of(c) && upper_wick_of(c) < body_of(c)
}

/// The first configured level lying inside `[c.low, c.high]`.
pub open spec fn first_level_in_range(levels: Seq<u64>, c: CandleInstance, i: int) -> Option<u64>
    decreases levels.len() - i,
{
    if i < 0 || i >= levels.len() {
        None
    } else if c.low <= levels[i] <= c.high {
        Some(levels[i])
    } else {
        first_level_in_range(levels, c, i + 1)
    }
}

/// What the hammer heuristic reports: a bullish signal when the most
/// recent candle is a hammer, carrying the first configured level inside
/// that candle's range, if any.
pub open spec fn hammer_spec(s: Seq<CandleInstance>, levels: Seq<u64>) -> Option<PatternResult> {
    if s.len() == 0 || !is_hammer_spec(s[s.len() - 1]) {
        None
    } else {
        Some(
            PatternResult {
                direction: SignalDirection::Bullish,
                pattern_type: PatternType::Hammer,
                level: first_level_in_range(levels, s[s.len() - 1], 0),
                time_key: None,
                confidence: None,
            },
        )
    }
}

proof fn lemma_first_level_skip(levels: Seq<u64>, c: CandleInstance, i: int)
    requires
        0 <= i <= levels.len(),
        forall|j: int| 0 <= j < i ==> !(c.low <= #[trigger] levels[j] <= c.high),
    ensures
        first_level_in_range(levels, c, 0) == first_level_in_range(levels, c, i),
    decreases i,
{
    if i > 0 {
        lemma_first_level_skip(levels, c, i - 1);
    }
}

impl Hammer {
    /// Tests the most recent candle for the hammer shape.
    pub fn matches(&self, candles: &CandleSeries) -> (r: Option<PatternResult>)
        ensures
            r == hammer_spec(candles@, self.levels@),
    {
        let last = match candles.last() {
            None => {
                return None;
            },
            Some(c) => *c,
        };
        let open: i128 = last.open as i128;
        let close: i128 = last.close as i128;
        let high: i128 = last.high as i128;
        let low: i128 = last.low as i128;
        let body: i128 = if open >= close {
            open - close
        } else {
            close - open
        };
        let lower_wick: i128 = (if open <= close {
            open
        } else {
            close
        }) - low;
        let upper_wick: i128 = high - (if open >= close {
            open
        } else {
            close
        });
        if !(body < lower_wick && upper_wick < body) {
            return None;
        }
        let mut i: usize = 0;
        let n: usize = self.levels.len();
        while i < n && !(last.low <= self.levels[i] && self.levels[i] <= last.high)
            invariant
                0 <= i <= n,
                n == self.levels@.len(),
                forall|j: int| 0 <= j < i ==> !(last.low <= #[trigger] self.levels@[j] <= last.high),
            decreases n - i,
        {
            i = i + 1;
        }
        proof {
            lemma_first_level_skip(self.levels@, last, i as int);
        }
        let level: Option<u64> = if i < n {
            Some(self.levels[i])
        } else {
            None
        };
        Some(
            PatternResult {
                direction: SignalDirection::Bullish,
                pattern_type: PatternType::Hammer,
                level,
                time_key: None,
                confidence: None,
            },
        )
    }
}

} // verus!
