//! The level-relative geometric classifier: one candle against one level.

use crate::candle::CandleInstance;
use vstd::prelude::*;

verus! {

/// Exactly one of seven mutually exclusive geometric states of a candle
/// relative to a level. `distance` is the wick-to-level gap in ticks.
#[derive(Debug, Clone, Copy, PartialEq, Eq, Structural)]
pub enum HowCandleCrossesLevel {
    CandleIsBelow { distance: u64 },
    CandleTouchesBelow,
    CandleIsAbove { distance: u64 },
    CandleTouchesAbove,
    BodyIsBelow,
    BodyIsAbove,
    BodyCrossesTheLevel,
}

/// The classification decision tree. The order is fixed: high and low are
/// tested before open and close, so a wick-only touch is distinguished from
/// a body cross, and each later test assumes the earlier ones failed.
pub open spec fn classify_spec(c: CandleInstance, level: u64) -> HowCandleCrossesLevel {
    if c.high < level {
        HowCandleCrossesLevel::CandleIsBelow { distance: (level - c.high) as u64 }
    } else if c.high == level {
        HowCandleCrossesLevel::CandleTouchesBelow
    } else if level < c.low {
        HowCandleCrossesLevel::CandleIsAbove { distance: (c.low - level) as u64 }
    } else if level == c.low {
        HowCandleCrossesLevel::CandleTouchesAbove
    } else if level < c.open && level < c.close {
        HowCandleCrossesLevel::BodyIsAbove
    } else if level > c.open && level > c.close {
        HowCandleCrossesLevel::BodyIsBelow
    } else {
        HowCandleCrossesLevel::BodyCrossesTheLevel
    }
}

impl HowCandleCrossesLevel {
    /// True only for the two wick-touch states.
    pub open spec fn is_touch_spec(&self) -> bool {
        match self {
            HowCandleCrossesLevel::CandleTouchesBelow => true,
            HowCandleCrossesLevel::CandleTouchesAbove => true,
            _ => false,
        }
    }

    /// The negation of `is_touch_spec`: every non-touch state.
    pub open spec fn is_cross_spec(&self) -> bool {
        match self {
            HowCandleCrossesLevel::CandleTouchesBelow => false,
            HowCandleCrossesLevel::CandleTouchesAbove => false,
            _ => true,
        }
    }

    pub open spec fn is_above_or_touches_above_spec(&self) -> bool {
        match self {
            HowCandleCrossesLevel::CandleIsAbove { .. } => true,
            HowCandleCrossesLevel::CandleTouchesAbove => true,
            _ => false,
        }
    }

    pub open spec fn is_below_or_touches_below_spec(&self) -> bool {
        match self {
            HowCandleCrossesLevel::CandleIsBelow { .. } => true,
            HowCandleCrossesLevel::CandleTouchesBelow => true,
            _ => false,
        }
    }

    /// Classifies `c` against `level`, following the fixed decision order.
    pub fn from_candle_and_level(c: &CandleInstance, level: u64) -> (r: Self)
        ensures
            r == classify_spec(*c, level),
    {
        let high: u64 = c.high;
        if high < level {
            return Self::CandleIsBelow { distance: level - high };
        }
        if high == level {
            return Self::CandleTouchesBelow;
        }
        let low: u64 = c.low;
        if level < low {
            return Self::CandleIsAbove { distance: low - level };
        }
        if level == low {
            return Self::CandleTouchesAbove;
        }
        let open: u64 = c.open;
        let close: u64 = c.close;
        if level < open && level < close {
            return Self::BodyIsAbove;
        }
        if level > open && level > close {
            return Self::BodyIsBelow;
        }
        Self::BodyCrossesTheLevel
    }

    pub fn is_candle_touches_the_level(&self) -> (r: bool)
        ensures
            r == self.is_touch_spec(),
    {
        match self {
            HowCandleCrossesLevel::CandleTouchesBelow => true,
            HowCandleCrossesLevel::CandleTouchesAbove => true,
            _ => false,
        }
    }

    pub fn is_candle_crosses_the_level(&self) -> (r: bool)
        ensures
            r == self.is_cross_spec(),
    {
        match self {
            HowCandleCrossesLevel::CandleTouchesBelow => false,
            HowCandleCrossesLevel::CandleTouchesAbove => false,
            _ => true,
        }
    }

    pub fn is_above_or_touches_above(&self) -> (r: bool)
        ensures
            r == self.is_above_or_touches_above_spec(),
    {
        match self {
            HowCandleCrossesLevel::CandleIsAbove { distance: _ } => true,
            HowCandleCrossesLevel::CandleTouchesAbove => true,
            _ => false,
        }
    }

    pub fn is_below_or_touches_below(&self) -> (r: bool)
        ensures
            r == self.is_below_or_touches_below_spec(),
    {
        match self {
            HowCandleCrossesLevel::CandleIsBelow { distance: _ } => true,
            HowCandleCrossesLevel::CandleTouchesBelow => true,
            _ => false,
        }
    }
}

/// Law: over the touch/cross axis the two derived predicates are mutually
/// exclusive and exhaustive — every state is exactly one of touch or cross.
pub proof fn lemma_touch_cross_dichotomy(state: HowCandleCrossesLevel)
    ensures
        state.is_touch_spec() <==> !state.is_cross_spec(),
{
}

/// Law: the two side predicates are mutually exclusive — no state is both
/// above-or-touching-above and below-or-touching-below. (That exactly one
/// of the seven states results from any input is `from_candle_and_level`'s
/// contract: its result equals `classify_spec`, a total function whose
/// branches pick a single variant.)
pub proof fn lemma_sides_exclusive(state: HowCandleCrossesLevel)
    ensures
        !(state.is_above_or_touches_above_spec() && state.is_below_or_touches_below_spec()),
{
}

/// Law: a reported distance is the exact wick-to-level gap, and it is only
/// reported when that gap is positive.
pub proof fn lemma_classify_distance(c: CandleInstance, level: u64)
    ensures
        forall|d: u64|
            classify_spec(c, level) == (HowCandleCrossesLevel::CandleIsBelow { distance: d })
                ==> c.high < level && d == level - c.high,
        forall|d: u64|
            classify_spec(c, level) == (HowCandleCrossesLevel::CandleIsAbove { distance: d })
                ==> level < c.low && d == c.low - level,
{
}

} // verus!
