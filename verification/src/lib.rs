//! Level-relative candle pattern detection.
//!
//! Recognizes recurring micro-patterns in how a time-ordered series of price
//! bars ("candles") interacts with a single price level of interest: repeated
//! retests, pressure building against one side, clustered highs or lows of a
//! hidden limit participant, and clean bounces off the level.
//!
//! Prices are integer tick counts: the caller picks a tick size (for an
//! instrument quoted to `d` decimal places, one tick is `10^-d` price units)
//! and expresses every open/high/low/close value, level and absolute
//! tolerance in ticks. All detector arithmetic is then exact; percent bands
//! are compared by cross-multiplication, so no rounding enters a decision.

pub mod analyzer;
pub mod candle;
pub mod how_candle_crosses_level;
pub mod patterns;
pub mod stop_loss;
pub mod dt_utils;

pub use how_candle_crosses_level::HowCandleCrossesLevel;
pub use dt_utils::UsMarketMoment;

use vstd::prelude::*;

verus! {

/// Percent tolerances are given in basis points (hundredths of a percent);
/// this is the denominator of that scale.
pub const BASIS_POINT_SCALE: u64 = 10000;

/// The absolute difference of two prices.
pub open spec fn price_dist(a: int, b: int) -> int {
    if a >= b {
        a - b
    } else {
        b - a
    }
}

/// Whether `price` lies within `tolerance_bp` basis points of `level`:
/// the exact rational condition `|price - level| <= level * tolerance_bp / 10000`,
/// stated without division.
pub open spec fn within_band(price: int, level: int, tolerance_bp: int) -> bool {
    (BASIS_POINT_SCALE as int) * price_dist(price, level) <= level * tolerance_bp
}

/// Whether `price` does not exceed the band's upper edge
/// `level + level * tolerance_bp / 10000`, stated without division.
pub open spec fn below_band_top(price: int, level: int, tolerance_bp: int) -> bool {
    (BASIS_POINT_SCALE as int) * price <= (BASIS_POINT_SCALE as int) * level + level * tolerance_bp
}

/// The band's half-width in whole ticks: `level * tolerance_bp / 10000`,
/// rounded down.
pub open spec fn band_tolerance(level: int, tolerance_bp: int) -> int {
    (level * tolerance_bp) / (BASIS_POINT_SCALE as int)
}

/// Whether `value` lies in the closed interval `[lower_bound, upper_bound]`.
pub fn in_range(value: u64, lower_bound: u64, upper_bound: u64) -> (r: bool)
    ensures
        r == (lower_bound <= value <= upper_bound),
{
    value >= lower_bound && value <= upper_bound
}

/// Decides `within_band` on tick prices by exact cross-multiplication.
pub fn price_within_band(price: u64, level: u64, tolerance_bp: u32) -> (r: bool)
    ensures
        r == within_band(price as int, level as int, tolerance_bp as int),
{
    let diff: u128 = if price >= level {
        (price - level) as u128
    } else {
        (level - price) as u128
    };
    proof {
        assert(BASIS_POINT_SCALE == 10000);
        assert(diff <= u64::MAX as u128);
        assert((level as u128) * (tolerance_bp as u128) <= (u64::MAX as u128) * (u32::MAX
            as u128)) by (nonlinear_arith)
            requires
                level <= u64::MAX,
                tolerance_bp <= u32::MAX,
        ;
    }
    diff * 10000u128 <= (level as u128) * (tolerance_bp as u128)
}

/// Decides `below_band_top` on tick prices by exact cross-multiplication.
pub fn price_below_band_top(price: u64, level: u64, tolerance_bp: u32) -> (r: bool)
    ensures
        r == below_band_top(price as int, level as int, tolerance_bp as int),
{
    proof {
        assert(BASIS_POINT_SCALE == 10000);
        assert((price as u128) <= u64::MAX as u128);
        assert((level as u128) <= u64::MAX as u128);
        assert((level as u128) * (tolerance_bp as u128) <= (u64::MAX as u128) * (u32::MAX
            as u128)) by (nonlinear_arith)
            requires
                level <= u64::MAX,
                tolerance_bp <= u32::MAX,
        ;
    }
    (price as u128) * 10000u128 <= (level as u128) * 10000u128 + (level as u128) * (tolerance_bp
        as u128)
}

/// The saturated integer band `[level - w, level + w]` with
/// `w = band_tolerance(level, tolerance_bp)`. Because prices are integers,
/// membership in this interval coincides with `within_band`.
pub fn get_bounds(level: u64, tolerance_bp: u32) -> (r: (u64, u64))
    ensures
        r.0 == if band_tolerance(level as int, tolerance_bp as int) >= level as int {
            0
        } else {
            level - band_tolerance(level as int, tolerance_bp as int)
        },
        r.1 == if level as int + band_tolerance(level as int, tolerance_bp as int) > u64::MAX
            as int {
            u64::MAX as int
        } else {
            level as int + band_tolerance(level as int, tolerance_bp as int)
        },
{
    proof {
        assert((level as u128) * (tolerance_bp as u128) <= (u64::MAX as u128) * (u32::MAX
            as u128)) by (nonlinear_arith)
            requires
                level <= u64::MAX,
                tolerance_bp <= u32::MAX,
        ;
        vstd::arithmetic::div_mod::lemma_div_pos_is_pos(
            (level as int) * (tolerance_bp as int),
            BASIS_POINT_SCALE as int,
        );
        vstd::arithmetic::mul::lemma_mul_nonnegative(level as int, tolerance_bp as int);
    }
    let width: u128 = (level as u128) * (tolerance_bp as u128) / 10000u128;
    let lower: u64 = if width >= level as u128 {
        0
    } else {
        level - (width as u64)
    };
    let upper: u64 = if width > (u64::MAX - level) as u128 {
        u64::MAX
    } else {
        level + (width as u64)
    };
    (lower, upper)
}

/// Law: for tick prices, membership in the saturated integer interval
/// that `get_bounds` returns decides exactly the rational percent band —
/// rounding the half-width down loses nothing on integer prices.
pub proof fn lemma_band_bounds_exact(price: u64, level: u64, tolerance_bp: u32)
    ensures
        ({
            let width = band_tolerance(level as int, tolerance_bp as int);
            let lower: int = if width >= level as int {
                0
            } else {
                level as int - width
            };
            let upper: int = if level as int + width > u64::MAX as int {
                u64::MAX as int
            } else {
                level as int + width
            };
            (lower <= price as int <= upper) == within_band(
                price as int,
                level as int,
                tolerance_bp as int,
            )
        }),
{
    let p = price as int;
    let l = level as int;
    let m = BASIS_POINT_SCALE as int;
    let x = l * (tolerance_bp as int);
    let w = x / m;
    vstd::arithmetic::mul::lemma_mul_nonnegative(l, tolerance_bp as int);
    vstd::arithmetic::div_mod::lemma_div_pos_is_pos(x, m);
    vstd::arithmetic::div_mod::lemma_fundamental_div_mod(x, m);
    vstd::arithmetic::div_mod::lemma_mod_division_less_than_divisor(x, m);
    let d = price_dist(p, l);
    if d <= w {
        vstd::arithmetic::mul::lemma_mul_inequality(d, w, m);
    }
    if m * d <= x && d > w {
        vstd::arithmetic::mul::lemma_mul_inequality(w + 1, d, m);
        assert(false);
    }
}

} // verus!
