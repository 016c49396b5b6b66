//! The limit-participant detector: a short run of candles whose highs (or
//! lows) cluster tightly around their rounded average while the candle
//! directions still oscillate — hidden distribution (or accumulation) by a
//! large limit trader.
//!
//! Of the possible clustering rules this detector deliberately uses the
//! rounded average of the window's extremes with an absolute point
//! tolerance, the most numerically stable choice: with prices in ticks of
//! `10^-accuracy` price units, rounding the mean to `accuracy` decimals is
//! exactly rounding the tick mean to the nearest whole tick.

use crate::candle::{CandleInstance, CandleSeries};
use crate::price_dist;
use vstd::prelude::*;

verus! {

pub const LTD_DEFAULT_TOLERANCE: u32 = 2;

pub const LTD_MIN_WINDOW_SIZE: usize = 3;

/// Limit-participant configuration: the tick scale's decimal accuracy, the
/// absolute tolerance in points (ticks), and the sliding window size.
#[derive(Debug, Clone, Copy)]
pub struct LimitTraderDetectorPattern {
    pub accuracy: u32,
    pub points_tolerance: u32,
    pub window_size: usize,
}

/// A found limit participant: the clustered price, the time key of the
/// window's most recent candle, and which side the participant sits on.
#[derive(Debug, Clone, Copy, PartialEq, Eq, Structural)]
pub struct LimitTraderSignal {
    pub level: u64,
    pub date_time_key: u64,
    pub side: LimitTraderSide,
}

#[derive(Debug, PartialEq, Eq, Clone, Copy, Structural)]
pub enum LimitTraderSide {
    Buyer,
    Seller,
}

impl LimitTraderSide {
    pub fn as_str(&self) -> (r: &'static str)
        ensures
            *self == LimitTraderSide::Buyer ==> r@ == "Buyer"@,
            *self == LimitTraderSide::Seller ==> r@ == "Seller"@,
    {
        match self {
            LimitTraderSide::Buyer => "Buyer",
            LimitTraderSide::Seller => "Seller",
        }
    }
}

/// The sum of the highs of `s`, in ticks.
pub open spec fn sum_highs(s: Seq<CandleInstance>) -> int
    decreases s.len(),
{
    if s.len() == 0 {
        0
    } else {
        sum_highs(s.drop_last()) + s.last().high
    }
}

/// The sum of the lows of `s`, in ticks.
pub open spec fn sum_lows(s: Seq<CandleInstance>) -> int
    decreases s.len(),
{
    if s.len() == 0 {
        0
    } else {
        sum_lows(s.drop_last()) + s.last().low
    }
}

/// `sum / n` rounded to the nearest integer, halves away from zero
/// (for the nonnegative sums used here, halves up). `n` must be positive.
pub open spec fn rounded_avg(sum: int, n: int) -> int {
    if 2 * (sum % n) >= n {
        sum / n + 1
    } else {
        sum / n
    }
}

/// The `j`-th sliding window of `ws` candles, most recent window first:
/// chronological positions `[len - ws - j, len - j)`.
pub open spec fn ltd_window(s: Seq<CandleInstance>, j: int, ws: int) -> Seq<CandleInstance> {
    s.subrange(s.len() - ws - j, s.len() - j)
}

pub open spec fn window_avg_high(s: Seq<CandleInstance>, j: int, ws: int) -> int {
    rounded_avg(sum_highs(ltd_window(s, j, ws)), ws)
}

pub open spec fn window_avg_low(s: Seq<CandleInstance>, j: int, ws: int) -> int {
    rounded_avg(sum_lows(ltd_window(s, j, ws)), ws)
}

pub open spec fn is_up_candle(c: CandleInstance) -> bool {
    c.close > c.open
}

pub open spec fn is_down_candle(c: CandleInstance) -> bool {
    c.close < c.open
}

/// Mixed direction: the window holds at least one up-candle and one
/// down-candle.
pub open spec fn mixed_directions(w: Seq<CandleInstance>) -> bool {
    (exists|i: int| 0 <= i < w.len() && is_up_candle(#[trigger] w[i])) && (exists|i: int|
        0 <= i < w.len() && is_down_candle(#[trigger] w[i]))
}

pub open spec fn high_near(c: CandleInstance, avg: int, tol: int) -> bool {
    price_dist(c.high as int, avg) <= tol
}

pub open spec fn low_near(c: CandleInstance, avg: int, tol: int) -> bool {
    price_dist(c.low as int, avg) <= tol
}

/// Highs clustered: every high within `tol` ticks of the rounded average.
pub open spec fn highs_clustered(w: Seq<CandleInstance>, avg: int, tol: int) -> bool {
    forall|i: int| 0 <= i < w.len() ==> #[trigger] high_near(w[i], avg, tol)
}

pub open spec fn lows_clustered(w: Seq<CandleInstance>, avg: int, tol: int) -> bool {
    forall|i: int| 0 <= i < w.len() ==> #[trigger] low_near(w[i], avg, tol)
}

/// The signal window `j` yields, if any: clustered highs with mixed
/// directions make a seller at the clustered high; otherwise clustered
/// lows with mixed directions make a buyer at the clustered low. The time
/// key is that of the window's most recent candle.
pub open spec fn ltd_signal_at(s: Seq<CandleInstance>, j: int, ws: int, tol: int) -> Option<
    LimitTraderSignal,
> {
    let w = ltd_window(s, j, ws);
    if highs_clustered(w, window_avg_high(s, j, ws), tol) && mixed_directions(w) {
        Some(
            LimitTraderSignal {
                level: window_avg_high(s, j, ws) as u64,
                date_time_key: s[s.len() - 1 - j].time_key,
                side: LimitTraderSide::Seller,
            },
        )
    } else if lows_clustered(w, window_avg_low(s, j, ws), tol) && mixed_directions(w) {
        Some(
            LimitTraderSignal {
                level: window_avg_low(s, j, ws) as u64,
                date_time_key: s[s.len() - 1 - j].time_key,
                side: LimitTraderSide::Buyer,
            },
        )
    } else {
        None
    }
}

/// The first window at or after `j` (most recent first) that yields a
/// signal.
pub open spec fn ltd_first_from(s: Seq<CandleInstance>, ws: int, tol: int, j: int) -> Option<
    LimitTraderSignal,
>
    decreases s.len() - j,
{
    if ws <= 0 || j < 0 || j + ws > s.len() {
        None
    } else if ltd_signal_at(s, j, ws, tol) is Some {
        ltd_signal_at(s, j, ws, tol)
    } else {
        ltd_first_from(s, ws, tol, j + 1)
    }
}

/// What the detector returns: nothing with fewer than `ws` candles, else
/// the first qualifying window scanning from the most recent.
pub open spec fn ltd_spec(s: Seq<CandleInstance>, ws: int, tol: int) -> Option<LimitTraderSignal> {
    if s.len() < ws {
        None
    } else {
        ltd_first_from(s, ws, tol, 0)
    }
}

proof fn lemma_ltd_skip(s: Seq<CandleInstance>, ws: int, tol: int, start: int, i: int)
    requires
        0 <= start <= i,
        forall|t: int| start <= t < i ==> #[trigger] ltd_signal_at(s, t, ws, tol) is None,
    ensures
        ltd_first_from(s, ws, tol, start) == ltd_first_from(s, ws, tol, i),
    decreases i - start,
{
    if start < i {
        lemma_ltd_skip(s, ws, tol, start + 1, i);
    }
}

/// The rounded average of a nonnegative sum of `n` values each at most
/// `bound` is itself at most `bound`.
proof fn lemma_rounded_avg_le(sum: int, n: int, bound: int)
    requires
        n >= 1,
        0 <= sum,
        sum <= n * bound,
        0 <= bound,
    ensures
        0 <= rounded_avg(sum, n) <= bound,
{
    vstd::arithmetic::div_mod::lemma_div_is_ordered(sum, n * bound, n);
    vstd::arithmetic::div_mod::lemma_div_multiples_vanish(bound, n);
    vstd::arithmetic::div_mod::lemma_div_pos_is_pos(sum, n);
    if 2 * (sum % n) >= n {
        vstd::arithmetic::div_mod::lemma_fundamental_div_mod(sum, n);
        if sum / n == bound {
            assert(sum == n * bound + sum % n);
            assert(sum % n >= 1);
            assert(false);
        }
    }
}

impl LimitTraderDetectorPattern {
    pub fn new(accuracy: u32, tolerance: u32, window_size: usize) -> (r: Self)
        ensures
            r.accuracy == accuracy,
            r.points_tolerance == tolerance,
            r.window_size == window_size,
    {
        Self { accuracy, points_tolerance: tolerance, window_size }
    }

    /// The absolute tolerance in ticks. With one tick being `10^-accuracy`
    /// price units, this equals the configured point count.
    pub fn calc_points_tolerance(&self) -> (r: u64)
        ensures
            r == self.points_tolerance as u64,
    {
        self.points_tolerance as u64
    }

    /// Slides the window over the series, most recent window first, and
    /// reports the first hidden limit participant found.
    pub fn detect(&self, candles: &CandleSeries) -> (r: Option<LimitTraderSignal>)
        requires
            self.window_size >= 3,
        ensures
            r == ltd_spec(candles@, self.window_size as int, self.points_tolerance as int),
    {
        let n: usize = candles.len();
        let ws: usize = self.window_size;
        if n < ws {
            return None;
        }
        let tol: u64 = self.points_tolerance as u64;
        let ghost gtol: int = self.points_tolerance as int;
        let ghost gws: int = ws as int;
        let mut j: usize = 0;
        while j <= n - ws
            invariant
                3 <= ws <= n,
                n == candles@.len(),
                gws == ws as int,
                gtol == self.points_tolerance as int,
                tol == self.points_tolerance as u64,
                ws == self.window_size,
                0 <= j <= n - ws + 1,
                forall|t: int| 0 <= t < j ==> #[trigger] ltd_signal_at(candles@, t, gws, gtol) is None,
            decreases n - ws - j + 1,
        {
            let lo: usize = n - ws - j;
            let hi: usize = n - j;
            let ghost w = ltd_window(candles@, j as int, gws);
            proof {
                assert(w.len() == gws);
                assert(forall|x: int| 0 <= x < w.len() ==> w[x] == candles@[lo + x]);
            }
            let mut sum_h: u128 = 0;
            let mut sum_l: u128 = 0;
            let mut up: bool = false;
            let mut down: bool = false;
            let mut t: usize = 0;
            while t < ws
                invariant
                    0 <= t <= ws,
                    ws <= n,
                    lo == n - ws - j,
                    hi == n - j,
                    j <= n - ws,
                    n == candles@.len(),
                    gws == ws as int,
                    w == ltd_window(candles@, j as int, gws),
                    w.len() == gws,
                    forall|x: int| 0 <= x < w.len() ==> w[x] == candles@[lo + x],
                    sum_h == sum_highs(w.take(t as int)),
                    sum_l == sum_lows(w.take(t as int)),
                    sum_h <= (t as int) * (u64::MAX as int),
                    sum_l <= (t as int) * (u64::MAX as int),
                    up == (exists|x: int| 0 <= x < t && is_up_candle(#[trigger] w[x])),
                    down == (exists|x: int| 0 <= x < t && is_down_candle(#[trigger] w[x])),
                decreases ws - t,
            {
                let c = candles.get(lo + t);
                proof {
                    assert(w[t as int] == candles@[lo + t as int]);
                    assert(w.take(t + 1).drop_last() =~= w.take(t as int));
                    assert(w.take(t + 1).last() == w[t as int]);
                }
                sum_h = sum_h + c.high as u128;
                sum_l = sum_l + c.low as u128;
                if c.close > c.open {
                    up = true;
                    proof {
                        assert(is_up_candle(w[t as int]));
                    }
                }
                if c.close < c.open {
                    down = true;
                    proof {
                        assert(is_down_candle(w[t as int]));
                    }
                }
                t = t + 1;
            }
            proof {
                assert(w.take(gws) =~= w);
                assert(mixed_directions(w) == (up && down));
            }
            let avg_h: u64 = Self::rounded_division(sum_h, ws);
            let avg_l: u64 = Self::rounded_division(sum_l, ws);
            proof {
                assert(avg_h as int == window_avg_high(candles@, j as int, gws));
                assert(avg_l as int == window_avg_low(candles@, j as int, gws));
            }
            let mut highs_near: bool = true;
            let mut lows_near: bool = true;
            let mut t2: usize = 0;
            while t2 < ws
                invariant
                    0 <= t2 <= ws,
                    ws <= n,
                    lo == n - ws - j,
                    j <= n - ws,
                    n == candles@.len(),
                    gws == ws as int,
                    gtol == tol as int,
                    w == ltd_window(candles@, j as int, gws),
                    w.len() == gws,
                    forall|x: int| 0 <= x < w.len() ==> w[x] == candles@[lo + x],
                    highs_near == (forall|x: int|
                        0 <= x < t2 ==> #[trigger] high_near(w[x], avg_h as int, gtol)),
                    lows_near == (forall|x: int|
                        0 <= x < t2 ==> #[trigger] low_near(w[x], avg_l as int, gtol)),
                decreases ws - t2,
            {
                let c = candles.get(lo + t2);
                proof {
                    assert(w[t2 as int] == candles@[lo + t2 as int]);
                }
                let dh: u64 = if c.high >= avg_h {
                    c.high - avg_h
                } else {
                    avg_h - c.high
                };
                if dh > tol {
                    proof {
                        assert(!high_near(w[t2 as int], avg_h as int, gtol));
                    }
                    highs_near = false;
                } else {
                    proof {
                        assert(high_near(w[t2 as int], avg_h as int, gtol));
                    }
                }
                let dl: u64 = if c.low >= avg_l {
                    c.low - avg_l
                } else {
                    avg_l - c.low
                };
                if dl > tol {
                    proof {
                        assert(!low_near(w[t2 as int], avg_l as int, gtol));
                    }
                    lows_near = false;
                } else {
                    proof {
                        assert(low_near(w[t2 as int], avg_l as int, gtol));
                    }
                }
                t2 = t2 + 1;
            }
            proof {
                assert(highs_near == highs_clustered(w, avg_h as int, gtol));
                assert(lows_near == lows_clustered(w, avg_l as int, gtol));
            }
            let date_time: u64 = candles.get(hi - 1).time_key;
            proof {
                assert(candles@[hi - 1] == candles@[candles@.len() - 1 - j as int]);
            }
            if highs_near && up && down {
                let signal = LimitTraderSignal {
                    level: avg_h,
                    date_time_key: date_time,
                    side: LimitTraderSide::Seller,
                };
                proof {
                    assert(ltd_signal_at(candles@, j as int, gws, gtol) == Some(signal));
                    lemma_ltd_skip(candles@, gws, gtol, 0, j as int);
                }
                return Some(signal);
            }
            if lows_near && up && down {
                let signal = LimitTraderSignal {
                    level: avg_l,
                    date_time_key: date_time,
                    side: LimitTraderSide::Buyer,
                };
                proof {
                    assert(ltd_signal_at(candles@, j as int, gws, gtol) == Some(signal));
                    lemma_ltd_skip(candles@, gws, gtol, 0, j as int);
                }
                return Some(signal);
            }
            proof {
                assert(ltd_signal_at(candles@, j as int, gws, gtol) is None);
            }
            j = j + 1;
        }
        proof {
            lemma_ltd_skip(candles@, gws, gtol, 0, j as int);
            assert(ltd_first_from(candles@, gws, gtol, j as int) is None);
        }
        None
    }

    /// `sum / n` rounded half up, for a sum of at most `n` values that
    /// each fit in a `u64`.
    fn rounded_division(sum: u128, n: usize) -> (r: u64)
        requires
            n >= 1,
            sum <= (n as int) * (u64::MAX as int),
        ensures
            r as int == rounded_avg(sum as int, n as int),
    {
        let q: u128 = sum / (n as u128);
        let rem: u128 = sum % (n as u128);
        proof {
            lemma_rounded_avg_le(sum as int, n as int, u64::MAX as int);
        }
        if 2 * rem >= n as u128 {
            (q + 1) as u64
        } else {
            q as u64
        }
    }
}

/// Law: with fewer candles than the window size the detector reports
/// nothing.
pub proof fn lemma_ltd_min_depth(s: Seq<CandleInstance>, ws: int, tol: int)
    ensures
        s.len() < ws ==> ltd_spec(s, ws, tol) is None,
{
}

} // verus!
