//! UniMAC MDIO: PHY register numbers and the register words read from them.
use vstd::prelude::*;
use crate::bits::{bit16, u16_bit};

verus! {

/// Address of the PHY on the MDIO bus.
pub const PHY_ID: u8 = 0x01;

/// PHY registers read by the driver.
#[derive(Debug, Clone, Copy, PartialEq, Eq, Structural, PartialOrd, Ord, Hash)]
pub enum Register {
    MiiBmsr,
    MiiAdvertise,
    MiiLpa,
    MiiCtrl1000,
    MiiStat1000,
}

/// The register number of a PHY register.
pub open spec fn register_number(r: Register) -> u8 {
    match r {
        Register::MiiBmsr => 0x01,
        Register::MiiAdvertise => 0x04,
        Register::MiiLpa => 0x05,
        Register::MiiCtrl1000 => 0x09,
        Register::MiiStat1000 => 0x0A,
    }
}

impl Register {
    /// The register number on the MDIO bus.
    pub fn number(self) -> (r: u8)
        ensures
            r == register_number(self),
    {
        match self {
            Register::MiiBmsr => 0x01,
            Register::MiiAdvertise => 0x04,
            Register::MiiLpa => 0x05,
            Register::MiiCtrl1000 => 0x09,
            Register::MiiStat1000 => 0x0A,
        }
    }
}

/// Basic mode status register.
#[derive(Debug, Clone, Copy, PartialEq, Eq, Structural)]
pub struct MiiBmsr(pub u16);

impl MiiBmsr {
    /// Link status
    pub fn link_status(&self) -> (r: bool)
        ensures
            r == bit16(self.0, 2),
    {
        u16_bit(self.0, 2)
    }
}

impl vstd::std_specs::convert::FromSpecImpl<u16> for MiiBmsr {
    open spec fn obeys_from_spec() -> bool {
        true
    }

    open spec fn from_spec(val: u16) -> MiiBmsr {
        MiiBmsr(val)
    }
}

impl From<u16> for MiiBmsr {
    fn from(val: u16) -> (r: MiiBmsr) {
        MiiBmsr(val)
    }
}

/// Link partner ability register.
#[derive(Debug, Clone, Copy, PartialEq, Eq, Structural)]
pub struct MiiLpa(pub u16);

impl MiiLpa {
    pub fn lpa_10_half(&self) -> (r: bool)
        ensures
            r == bit16(self.0, 5),
    {
        u16_bit(self.0, 5)
    }

    pub fn lpa_10_full(&self) -> (r: bool)
        ensures
            r == bit16(self.0, 6),
    {
        u16_bit(self.0, 6)
    }

    pub fn lpa_100_half(&self) -> (r: bool)
        ensures
            r == bit16(self.0, 7),
    {
        u16_bit(self.0, 7)
    }

    pub fn lpa_100_full(&self) -> (r: bool)
        ensures
            r == bit16(self.0, 8),
    {
        u16_bit(self.0, 8)
    }

    pub fn pause_cap(&self) -> (r: bool)
        ensures
            r == bit16(self.0, 10),
    {
        u16_bit(self.0, 10)
    }
}

impl vstd::std_specs::convert::FromSpecImpl<u16> for MiiLpa {
    open spec fn obeys_from_spec() -> bool {
        true
    }

    open spec fn from_spec(val: u16) -> MiiLpa {
        MiiLpa(val)
    }
}

impl From<u16> for MiiLpa {
    fn from(val: u16) -> (r: MiiLpa) {
        MiiLpa(val)
    }
}

/// 1000BASE-T status register.
#[derive(Debug, Clone, Copy, PartialEq, Eq, Structural)]
pub struct MiiStat1000(pub u16);

impl MiiStat1000 {
    pub fn lpa_1000_half(&self) -> (r: bool)
        ensures
            r == bit16(self.0, 10),
    {
        u16_bit(self.0, 10)
    }

    pub fn lpa_1000_full(&self) -> (r: bool)
        ensures
            r == bit16(self.0, 11),
    {
        u16_bit(self.0, 11)
    }

    /// Master/slave resolution failed
    pub fn lpa_1000_ms_fail(&self) -> (r: bool)
        ensures
            r == bit16(self.0, 15),
    {
        u16_bit(self.0, 15)
    }
}

impl vstd::std_specs::convert::FromSpecImpl<u16> for MiiStat1000 {
    open spec fn obeys_from_spec() -> bool {
        true
    }

    open spec fn from_spec(val: u16) -> MiiStat1000 {
        MiiStat1000(val)
    }
}

impl From<u16> for MiiStat1000 {
    fn from(val: u16) -> (r: MiiStat1000) {
        MiiStat1000(val)
    }
}

} // verus!
