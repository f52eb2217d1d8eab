//! CPU address bits of a bus address.
use vstd::prelude::*;

verus! {

pub const MASK: u32 = 0x3FFF_FFFF;

} // verus!
