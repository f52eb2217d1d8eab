//! Busy-wait delays counted in core clock cycles.
//!
//! NOTE: this is not accurate, for accurate timing and delays consider
//! using one of the timers
use vstd::prelude::*;
use crate::clocks::Clocks;

verus! {

/// Cycles of the core clock per microsecond, at least one.
pub open spec fn cycles_per_us(clocks: Clocks) -> u32 {
    let c = clocks.core_spec().0 / 1_000_000;
    if c > 1 {
        c
    } else {
        1
    }
}

/// Number of no-op cycles that a delay of `us` microseconds spins for.
pub fn delay_us_cycles(us: u32, clocks: &Clocks) -> (r: u32)
    requires
        us * cycles_per_us(*clocks) <= u32::MAX,
    ensures
        r == us * cycles_per_us(*clocks),
{
    let per_us = clocks.core_rate().0 / 1_000_000;
    let per_us = if per_us > 1 {
        per_us
    } else {
        1
    };
    us * per_us
}

/// NOP used as a delay provider
pub struct Delay {
    clocks: Clocks,
}

impl Delay {
    pub closed spec fn clocks_spec(&self) -> Clocks {
        self.clocks
    }

    pub fn new(clocks: Clocks) -> (r: Self)
        ensures
            r.clocks_spec() == clocks,
    {
        Delay { clocks }
    }

    /// Cycles to spin for a delay of `us` microseconds.
    pub fn us_cycles(&self, us: u32) -> (r: u32)
        requires
            us * cycles_per_us(self.clocks_spec()) <= u32::MAX,
        ensures
            r == us * cycles_per_us(self.clocks_spec()),
    {
        delay_us_cycles(us, &self.clocks)
    }

    /// Cycles to spin for a delay of `ms` milliseconds.
    pub fn ms_cycles(&self, ms: u32) -> (r: u32)
        requires
            ms * 1000 <= u32::MAX,
            (ms * 1000) * cycles_per_us(self.clocks_spec()) <= u32::MAX,
        ensures
            r == (ms * 1000) * cycles_per_us(self.clocks_spec()),
    {
        self.us_cycles(ms * 1_000)
    }
}

} // verus!
