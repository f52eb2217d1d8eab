use vstd::prelude::*;

pub mod bits;
pub mod cache;
pub mod clocks;
pub mod delay;
pub mod dma;
pub mod eth;
pub mod fmt;
pub mod gpio;
pub mod i2c;
pub mod mailbox;
pub mod rng;
pub mod serial;
pub mod spi;
pub mod time;
pub mod timer;

verus! {
}
