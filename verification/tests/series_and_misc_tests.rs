// Series construction, tolerance arithmetic, hammer, and market-session
// tests.

use candle_patterns::analyzer::{PatternType, SignalDirection};
use candle_patterns::candle::{CandleInstance, CandleSeries};
use candle_patterns::patterns::Hammer;
use candle_patterns::{get_bounds, in_range, price_within_band, UsMarketMoment};

fn candle(time_key: u64, open: u64, high: u64, low: u64, close: u64) -> CandleInstance {
    CandleInstance { time_key, open, high, low, close }
}

#[test]
fn series_accepts_strictly_increasing_keys() {
    let series = CandleSeries::from_candles(vec![
        candle(1, 10, 20, 5, 15),
        candle(2, 15, 21, 6, 16),
        candle(5, 16, 23, 7, 17),
    ])
    .unwrap();
    assert_eq!(series.len(), 3);
    assert_eq!(series.get(0).time_key, 1);
    assert_eq!(series.last().unwrap().time_key, 5);
}

#[test]
fn series_rejects_unordered_or_duplicate_keys() {
    assert!(CandleSeries::from_candles(vec![
        candle(2, 10, 20, 5, 15),
        candle(1, 15, 21, 6, 16),
    ])
    .is_none());
    assert!(CandleSeries::from_candles(vec![
        candle(1, 10, 20, 5, 15),
        candle(1, 15, 21, 6, 16),
    ])
    .is_none());
}

#[test]
fn empty_series_has_no_last_candle() {
    let series = CandleSeries::from_candles(Vec::new()).unwrap();
    assert_eq!(series.len(), 0);
    assert!(series.last().is_none());
}

// The saturated integer band of get_bounds decides exactly the rational
// percent band: at level 700 and 2 percent the band is [686, 714].
#[test]
fn bounds_of_a_two_percent_band() {
    let (lower, upper) = get_bounds(700, 200);
    assert_eq!((lower, upper), (686, 714));
    assert!(in_range(686, lower, upper));
    assert!(in_range(714, lower, upper));
    assert!(!in_range(685, lower, upper));
    assert!(!in_range(715, lower, upper));

    assert!(price_within_band(686, 700, 200));
    assert!(price_within_band(714, 700, 200));
    assert!(!price_within_band(685, 700, 200));
    assert!(!price_within_band(715, 700, 200));
}

#[test]
fn bounds_saturate_at_zero() {
    // 200 percent of the level exceeds the level itself.
    let (lower, upper) = get_bounds(100, 20000);
    assert_eq!(lower, 0);
    assert_eq!(upper, 300);
}

#[test]
fn hammer_detected_with_level_inside_range() {
    // Body 2, lower wick 8, upper wick 1: a hammer.
    let series = CandleSeries::from_candles(vec![candle(1, 100, 101, 90, 98)]).unwrap();
    let hammer = Hammer { levels: vec![80, 95, 97] };
    let result = hammer.matches(&series).unwrap();
    assert_eq!(result.direction, SignalDirection::Bullish);
    assert_eq!(result.pattern_type, PatternType::Hammer);
    assert_eq!(result.level, Some(95));
    assert_eq!(result.confidence, None);
}

#[test]
fn hammer_rejects_large_upper_wick() {
    // Upper wick 5 exceeds the body of 2.
    let series = CandleSeries::from_candles(vec![candle(1, 100, 105, 90, 98)]).unwrap();
    let hammer = Hammer { levels: vec![] };
    assert!(hammer.matches(&series).is_none());
}

#[test]
fn hammer_needs_a_candle() {
    let series = CandleSeries::from_candles(Vec::new()).unwrap();
    let hammer = Hammer { levels: vec![100] };
    assert!(hammer.matches(&series).is_none());
}

#[test]
fn session_for_eastern_parts() {
    // Tuesday mid-session.
    assert!(UsMarketMoment::from_eastern_parts(1, 10, 0).is_working());
    // The open boundary: 09:29 is pre-market, 09:30 works.
    assert!(!UsMarketMoment::from_eastern_parts(0, 9, 29).is_working());
    assert!(UsMarketMoment::from_eastern_parts(0, 9, 30).is_working());
    // The close boundary: 16:00 is post-market.
    assert!(matches!(
        UsMarketMoment::from_eastern_parts(0, 16, 0),
        UsMarketMoment::PostMarket
    ));
    // Early morning and late night are off.
    assert!(matches!(UsMarketMoment::from_eastern_parts(0, 3, 59), UsMarketMoment::DayOff));
    assert!(matches!(UsMarketMoment::from_eastern_parts(0, 20, 0), UsMarketMoment::DayOff));
    assert!(matches!(UsMarketMoment::from_eastern_parts(0, 4, 0), UsMarketMoment::PreMarket));
    // Weekends are off at any hour.
    assert!(matches!(UsMarketMoment::from_eastern_parts(5, 10, 0), UsMarketMoment::DayOff));
    assert!(matches!(UsMarketMoment::from_eastern_parts(6, 10, 0), UsMarketMoment::DayOff));
}

#[test]
fn session_from_timestamp() {
    // 2021-06-15 15:00:00 UTC is a Tuesday, 11:00 in New York (EDT).
    let micros: i64 = 1_623_769_200_000_000;
    let moment = UsMarketMoment::from(micros).unwrap();
    assert!(moment.is_working());

    // 2021-06-19 12:00:00 UTC is a Saturday.
    let saturday_micros: i64 = 1_624_104_000_000_000;
    let weekend = UsMarketMoment::from(saturday_micros).unwrap();
    assert!(!weekend.is_working());
    assert!(matches!(weekend, UsMarketMoment::DayOff));

    // 2021-12-15 15:00:00 UTC is a Wednesday, 10:00 in New York (EST).
    let winter_micros: i64 = 1_639_580_400_000_000;
    assert!(UsMarketMoment::from(winter_micros).unwrap().is_working());
}
