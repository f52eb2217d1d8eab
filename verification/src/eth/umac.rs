//! UniMAC setup decisions: hardware version and multicast-filter control.
use vstd::prelude::*;
use crate::eth::{Error, GENET_V5};

verus! {

/// The GENET major version that a revision-register major field stands for.
pub open spec fn genet_major(field: u32) -> u8 {
    if field == 6 {
        5
    } else {
        0
    }
}

/// Checks the fields of the GENET revision register: only GENET v5.0 with
/// no integrated PHY is supported.
pub fn check_hw_version(major: u32, minor: u32, phy: u32) -> (r: Result<(), Error>)
    ensures
        r is Ok <==> (genet_major(major) == GENET_V5 && minor as u8 == 0 && phy as u8 == 0),
        r is Err ==> r == Err::<(), Error>(Error::HwVersionNotSupported),
{
    let version_major: u8 = match major {
        6 => 5,
        _ => 0,
    };
    let version_minor: u8 = minor as u8;
    let version_phy: u8 = phy as u8;
    if (version_major != GENET_V5) || (version_minor != 0) || (version_phy != 0) {
        return Err(Error::HwVersionNotSupported);
    }
    Ok(())
}

/// The multicast-filter control word after enabling filter `index` of
/// `max_filters`: filters are enabled from the top bit down.
pub fn mdf_ctrl_value(reg: u32, max_filters: usize, index: usize) -> (r: u32)
    requires
        index <= max_filters,
        max_filters - index < 32,
    ensures
        r == reg | (1u32 << ((max_filters - index) as u32)),
{
    reg | (1u32 << ((max_filters - index) as u32))
}

} // verus!
