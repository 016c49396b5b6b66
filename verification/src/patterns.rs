//! The temporal window detectors over an ordered candle series.

pub mod hammer;
pub mod level_bounce;
pub mod limit_trader;
pub mod pressure_buildup;
pub mod retest;
pub mod trend;

pub use hammer::Hammer;
pub use trend::HHLLTrendDetector;
pub use trend::TrendDirection;
pub use level_bounce::BsuBpiIndex;
pub use limit_trader::LimitTraderDetectorPattern;
pub use limit_trader::LimitTraderSide;
pub use limit_trader::LimitTraderSignal;
pub use pressure_buildup::PressureBuildupPattern;
pub use retest::BumpDirection;
pub use retest::RetestPattern;
pub use retest::RetestPatternType;
