// Bounce finder tests: prices in ticks of 0.01, so 7.0 becomes 700 and a
// luft of 0.02 becomes 2 ticks.

use candle_patterns::candle::CandleInstance;
use candle_patterns::patterns::level_bounce::find_bpu_bsu;
use candle_patterns::stop_loss::Luft;

fn candle(time_key: u64, high: u64, open: u64, close: u64, low: u64) -> CandleInstance {
    CandleInstance { time_key, open, high, low, close }
}

#[test]
fn have_bsu_and_bpu1_and_bpu2_below() {
    let candles = vec![
        candle(0, 700, 500, 600, 400),
        candle(1, 600, 400, 500, 300),
        candle(0, 700, 500, 600, 400),
        candle(0, 700, 500, 600, 400),
    ];

    let result = find_bpu_bsu(&candles, 700, Luft::new(2)).unwrap();

    assert_eq!(0, result.bsu_index);
    assert_eq!(2, result.bpu_1_index);
    assert_eq!(3, result.bpu_2_index);
}

#[test]
fn have_bsu_above_and_bpu1_and_bpu2_below() {
    let candles = vec![
        candle(0, 1000, 800, 900, 700),
        candle(1, 600, 400, 500, 300),
        candle(0, 700, 500, 600, 400),
        candle(0, 700, 500, 600, 400),
    ];

    let result = find_bpu_bsu(&candles, 700, Luft::new(2)).unwrap();

    assert_eq!(0, result.bsu_index);
    assert_eq!(2, result.bpu_1_index);
    assert_eq!(3, result.bpu_2_index);
}

#[test]
fn have_bsu_above_and_bpu1_below_and_bpu2_above() {
    let candles = vec![
        candle(0, 1000, 800, 900, 700),
        candle(1, 600, 400, 500, 300),
        candle(0, 700, 500, 600, 400),
        candle(0, 1000, 800, 900, 700),
    ];

    let result = find_bpu_bsu(&candles, 700, Luft::new(2));
    assert!(result.is_none());
}

#[test]
fn have_bsu_and_bpu1_and_bpu2_with_luft_below() {
    let candles = vec![
        candle(0, 700, 500, 600, 400),
        candle(1, 600, 400, 500, 300),
        candle(2, 700, 500, 600, 400),
        candle(0, 680, 500, 600, 400),
    ];

    let result = find_bpu_bsu(&candles, 700, Luft::new(50)).unwrap();

    assert_eq!(0, result.bsu_index);
    assert_eq!(2, result.bpu_1_index);
    assert_eq!(3, result.bpu_2_index);
}

#[test]
fn have_bsu_and_bpu1_and_bpu2_with_luft_not_enough_below() {
    let candles = vec![
        candle(0, 700, 500, 600, 400),
        candle(1, 600, 400, 500, 300),
        candle(0, 700, 500, 600, 400),
        candle(0, 680, 500, 600, 400),
    ];

    let result = find_bpu_bsu(&candles, 700, Luft::new(5));
    assert!(result.is_none());
}

// Exactly the minimum depth of three candles can carry a bounce; one
// candle fewer always fails.
#[test]
fn bounce_boundary_minimum_depth() {
    let three = vec![
        candle(0, 700, 500, 600, 400),
        candle(1, 700, 500, 600, 400),
        candle(2, 700, 500, 600, 400),
    ];
    let result = find_bpu_bsu(&three, 700, Luft::new(2)).unwrap();
    assert_eq!(0, result.bsu_index);
    assert_eq!(1, result.bpu_1_index);
    assert_eq!(2, result.bpu_2_index);

    let two = vec![candle(0, 700, 500, 600, 400), candle(1, 700, 500, 600, 400)];
    assert!(find_bpu_bsu(&two, 700, Luft::new(2)).is_none());
}

#[test]
fn bounce_fails_without_setup_touch() {
    let candles = vec![
        candle(0, 690, 500, 600, 400),
        candle(1, 690, 500, 600, 400),
        candle(2, 690, 500, 600, 400),
    ];
    assert!(find_bpu_bsu(&candles, 700, Luft::new(50)).is_none());
}

#[test]
fn luft_accessors_return_the_value() {
    let luft = Luft::new(42);
    assert_eq!(luft.to_value(), 42);
    assert_eq!(luft.as_ref(), 42);
}
