// Limit-participant detector tests. Prices are ticks of 10^-accuracy
// price units: at accuracy 2, 105.09 becomes 10509 and the default
// tolerance of 2 points means 2 ticks.

use candle_patterns::candle::{CandleInstance, CandleSeries};
use candle_patterns::patterns::limit_trader::{
    LimitTraderDetectorPattern, LimitTraderSide, LTD_DEFAULT_TOLERANCE, LTD_MIN_WINDOW_SIZE,
};
use std::collections::BTreeMap;

fn candle(time_key: u64, open: u64, close: u64, high: u64, low: u64) -> CandleInstance {
    CandleInstance { time_key, open, high, low, close }
}

fn series(candles: Vec<CandleInstance>) -> CandleSeries {
    let map: BTreeMap<u64, CandleInstance> = candles.into_iter().map(|c| (c.time_key, c)).collect();
    let ordered: Vec<CandleInstance> = map.into_values().collect();
    CandleSeries::from_candles(ordered).unwrap()
}

#[test]
fn limit_trader_detector_detects_limit_seller() {
    let signal_level: u64 = 10509;
    let accuracy: u32 = 2;
    let candles = vec![
        candle(1, 10000, 9900, 10500, 9800),
        candle(2, 9900, 10050, 10509, 9750),
        candle(3, 10100, 10000, 10510, 9900),
        candle(4, 10100, 10000, 10508, 9900),
        candle(5, 10100, 10000, 10575, 9900),
    ];

    let detector =
        LimitTraderDetectorPattern::new(accuracy, LTD_DEFAULT_TOLERANCE, LTD_MIN_WINDOW_SIZE);
    let result = detector.detect(&series(candles));

    assert!(result.is_some());
    let signal = result.unwrap();
    assert_eq!(signal.side, LimitTraderSide::Seller);
    println!("Detected {} at level {}", signal.side.as_str(), signal.level);
    assert_eq!(signal.level, signal_level);
    assert_eq!(signal.date_time_key, 4);
}

#[test]
fn limit_trader_detector_detects_limit_buyer() {
    let signal_level: u64 = 9005;
    let accuracy: u32 = 2;
    let candles = vec![
        candle(1, 9500, 9650, 9650, 9000),
        candle(2, 9600, 9500, 9480, 9004),
        candle(3, 9450, 9600, 9680, 9006),
        candle(4, 9450, 9600, 9980, 9005),
        candle(5, 9450, 9600, 9680, 9075),
    ];

    let detector =
        LimitTraderDetectorPattern::new(accuracy, LTD_DEFAULT_TOLERANCE, LTD_MIN_WINDOW_SIZE);
    let result = detector.detect(&series(candles));

    assert!(result.is_some());
    let signal = result.unwrap();
    assert_eq!(signal.side, LimitTraderSide::Buyer);
    println!("Detected {} at level {}", signal.side.as_str(), signal.level);
    assert_eq!(signal.level, signal_level);
}

#[test]
fn no_detection_when_not_enough_window_size() {
    let accuracy: u32 = 1;
    let candles = vec![
        candle(1, 1000, 990, 1025, 920),
        candle(2, 990, 1005, 1068, 975),
    ];

    let detector =
        LimitTraderDetectorPattern::new(accuracy, LTD_DEFAULT_TOLERANCE, LTD_MIN_WINDOW_SIZE);
    let result = detector.detect(&series(candles));

    assert!(result.is_none());
}

#[test]
fn no_detection_when_tolerance_is_to_low() {
    let accuracy: u32 = 1;
    let candles = vec![
        candle(1, 1000, 990, 1025, 920),
        candle(2, 990, 1005, 1068, 975),
        candle(3, 1010, 1000, 1081, 1000),
    ];

    let detector =
        LimitTraderDetectorPattern::new(accuracy, LTD_DEFAULT_TOLERANCE, LTD_MIN_WINDOW_SIZE);
    let result = detector.detect(&series(candles));

    assert!(result.is_none());
}

#[test]
fn detects_limit_seller_ai() {
    let signal_level: u64 = 225999;
    let accuracy: u32 = 4;
    let candles = vec![
        candle(5, 224000, 224500, 225999, 223450),
        candle(4, 224800, 224050, 225998, 224000),
        candle(3, 225751, 224900, 226001, 224659),
        candle(2, 225200, 225785, 227050, 225000),
        candle(1, 225193, 225200, 226200, 223705),
    ];

    let detector =
        LimitTraderDetectorPattern::new(accuracy, LTD_DEFAULT_TOLERANCE, LTD_MIN_WINDOW_SIZE);
    let result = detector.detect(&series(candles));

    assert!(result.is_some());
    let signal = result.unwrap();
    assert_eq!(signal.side, LimitTraderSide::Seller);
    println!("Detected {} at level {}", signal.side.as_str(), signal.level);
    assert_eq!(signal.level, signal_level);
}

#[test]
fn detects_limit_seller_aal() {
    let signal_level: u64 = 105899;
    let accuracy: u32 = 4;
    let candles = vec![
        candle(2025050115, 100950, 100393, 101800, 100300),
        candle(2025050116, 100319, 100691, 100850, 99800),
        candle(2025050117, 100650, 100400, 101000, 100400),
        candle(2025050118, 100491, 100550, 101000, 100200),
        candle(2025050119, 100550, 100300, 101300, 100100),
        candle(2025050213, 102500, 103650, 105899, 102500),
        candle(2025050214, 103600, 105049, 105899, 103552),
        candle(2025050215, 105111, 105100, 105900, 104800),
        candle(2025050216, 105100, 106100, 106900, 105050),
        candle(2025050217, 106050, 105499, 106194, 105200),
        candle(2025050218, 105500, 104950, 106000, 104900),
        candle(2025050219, 104900, 105300, 105493, 104800),
    ];

    let detector =
        LimitTraderDetectorPattern::new(accuracy, LTD_DEFAULT_TOLERANCE, LTD_MIN_WINDOW_SIZE);
    let result = detector.detect(&series(candles));

    assert!(result.is_some());
    let signal = result.unwrap();
    assert_eq!(signal.side, LimitTraderSide::Seller);
    println!("Detected {} at level {}", signal.side.as_str(), signal.level);
    assert_eq!(signal.level, signal_level);
    assert_eq!(signal.date_time_key, 2025050215);
}

// Highs spread wider than the absolute tolerance never cluster: the same
// shape passes only when the spread tightens to within tolerance of the
// rounded average.
#[test]
fn clustering_requires_tight_spread() {
    let accuracy: u32 = 2;
    let wide = vec![
        candle(1, 10000, 9900, 10500, 9800),
        candle(2, 9900, 10050, 10509, 9750),
        candle(3, 10100, 10000, 10510, 9900),
    ];
    let detector =
        LimitTraderDetectorPattern::new(accuracy, LTD_DEFAULT_TOLERANCE, LTD_MIN_WINDOW_SIZE);
    assert!(detector.detect(&series(wide)).is_none());

    let tight = vec![
        candle(1, 10000, 9900, 10508, 9800),
        candle(2, 9900, 10050, 10509, 9700),
        candle(3, 10100, 10000, 10510, 9900),
    ];
    let signal = detector.detect(&series(tight)).unwrap();
    assert_eq!(signal.side, LimitTraderSide::Seller);
    assert_eq!(signal.level, 10509);
}

#[test]
fn side_names_and_tolerance() {
    assert_eq!(LimitTraderSide::Buyer.as_str(), "Buyer");
    assert_eq!(LimitTraderSide::Seller.as_str(), "Seller");
    let detector = LimitTraderDetectorPattern::new(2, 5, 3);
    assert_eq!(detector.calc_points_tolerance(), 5);
}
