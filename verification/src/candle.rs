//! The candle data model: one OHLC observation and an ordered series of them.

use vstd::prelude::*;

verus! {

/// One price bar. All four prices are tick counts (see the crate doc);
/// `time_key` identifies the bar's time bucket and orders the series.
#[derive(Debug, Clone, Copy, PartialEq, Eq, Structural)]
pub struct CandleInstance {
    pub time_key: u64,
    pub open: u64,
    pub high: u64,
    pub low: u64,
    pub close: u64,
}

/// Whether the candles appear in strictly increasing `time_key` order,
/// which also makes the keys unique.
pub open spec fn time_ordered(s: Seq<CandleInstance>) -> bool {
    forall|i: int, j: int| 0 <= i < j < s.len() ==> s[i].time_key < s[j].time_key
}

/// An ordered-by-time series of candles: chronological (oldest first),
/// strictly increasing time keys. Detectors only read it.
pub struct CandleSeries {
    candles: Vec<CandleInstance>,
}

impl View for CandleSeries {
    type V = Seq<CandleInstance>;

    closed spec fn view(&self) -> Seq<CandleInstance> {
        self.candles@
    }
}

proof fn lemma_adjacent_lt(s: Seq<CandleInstance>, i: int, j: int)
    requires
        forall|k: int| 0 <= k < s.len() - 1 ==> #[trigger] s[k].time_key < s[k + 1].time_key,
        0 <= i < j < s.len(),
    ensures
        s[i].time_key < s[j].time_key,
    decreases j - i,
{
    if i + 1 < j {
        lemma_adjacent_lt(s, i, j - 1);
    }
}

impl CandleSeries {
    /// Every series value satisfies the ordering invariant.
    pub open spec fn wf(&self) -> bool {
        time_ordered(self@)
    }

    /// Ingests a chronological snapshot. The monotonicity check rejects any
    /// vector whose time keys are not strictly increasing.
    pub fn from_candles(candles: Vec<CandleInstance>) -> (r: Option<CandleSeries>)
        ensures
            match r {
                Some(series) => series@ == candles@ && series.wf(),
                None => !time_ordered(candles@),
            },
    {
        let n: usize = candles.len();
        let mut i: usize = 1;
        while i < n
            invariant
                1 <= i,
                n == candles@.len(),
                forall|k: int|
                    0 <= k < i - 1 ==> #[trigger] candles@[k].time_key < candles@[k
                        + 1].time_key,
            decreases n - i,
        {
            if candles[i - 1].time_key >= candles[i].time_key {
                proof {
                    let s = candles@;
                    assert(!(s[i - 1].time_key < s[i as int].time_key));
                }
                return None;
            }
            i = i + 1;
        }
        proof {
            let s = candles@;
            assert forall|p: int, q: int| 0 <= p < q < s.len() implies s[p].time_key
                < s[q].time_key by {
                lemma_adjacent_lt(s, p, q);
            }
        }
        Some(CandleSeries { candles })
    }

    pub fn len(&self) -> (n: usize)
        ensures
            n == self@.len(),
    {
        self.candles.len()
    }

    pub fn get(&self, i: usize) -> (c: &CandleInstance)
        requires
            i < self@.len(),
        ensures
            *c == self@[i as int],
    {
        &self.candles[i]
    }

    /// The most recent candle, if any.
    pub fn last(&self) -> (c: Option<&CandleInstance>)
        ensures
            match c {
                Some(candle) => self@.len() > 0 && *candle == self@[self@.len() - 1],
                None => self@.len() == 0,
            },
    {
        if self.candles.len() == 0 {
            None
        } else {
            Some(&self.candles[self.candles.len() - 1])
        }
    }
}

} // verus!
