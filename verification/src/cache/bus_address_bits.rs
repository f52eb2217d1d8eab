//! Bus address alias bits: the top two bits of a bus address select how the
//! VideoCore caches the access.
use vstd::prelude::*;

verus! {

pub const ALIAS_0_L1_L2: u32 = 0x0000_0000;

pub const ALIAS_4_L2_COHERENT: u32 = 0x4000_0000;

pub const ALIAS_8_L2: u32 = 0x8000_0000;

pub const ALIAS_C_DIRECT: u32 = 0xC000_0000;

} // verus!
