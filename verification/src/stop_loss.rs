//! The luft value: an absolute point allowance used by the bounce finder.

use vstd::prelude::*;

verus! {

/// An absolute price allowance in ticks: how far a confirmation candle may
/// sit from the level and still confirm it.
#[derive(Debug, Clone, Copy, PartialEq, Eq, Structural)]
pub struct Luft(u64);

impl View for Luft {
    type V = u64;

    closed spec fn view(&self) -> u64 {
        self.0
    }
}

impl Luft {
    pub fn new(value: u64) -> (r: Self)
        ensures
            r@ == value,
    {
        Luft(value)
    }

    pub fn to_value(&self) -> (r: u64)
        ensures
            r == self@,
    {
        self.0
    }

    pub fn as_ref(&self) -> (r: u64)
        ensures
            r == self@,
    {
        self.0
    }
}

} // verus!
