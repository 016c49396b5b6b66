//! The shared vocabulary of detector results.

use vstd::prelude::*;

verus! {

/// Which detector produced a result.
#[derive(Debug, Clone, Copy, PartialEq, Eq, Structural)]
pub enum PatternType {
    CloseRetest,
    LongRetest,
    PressureBuildup,
    AtrSpike,
    Hammer,
    SmallBarApproach,
}

/// The direction a signal points in.
#[derive(Debug, Clone, Copy, PartialEq, Eq, Structural)]
pub enum SignalDirection {
    Bullish,
    Bearish,
    Neutral,
}

/// A detection signal: the direction and kind of the match, the level it
/// concerns, and optionally the time key of the anchoring candle and a
/// confidence grade in hundredths (0 to 100). The core detectors do not
/// calibrate confidence and leave it absent.
#[derive(Debug, Clone, Copy, PartialEq, Eq, Structural)]
pub struct PatternResult {
    pub direction: SignalDirection,
    pub pattern_type: PatternType,
    pub level: Option<u64>,
    pub time_key: Option<u64>,
    pub confidence: Option<u32>,
}

} // verus!
