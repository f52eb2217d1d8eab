//! BCM54213PE Gigabit Ethernet (GENET): frame buffers, descriptor ring
//! bookkeeping and PHY status decisions.
use vstd::prelude::*;

pub mod address;
pub mod control_block;
pub mod descriptor;
pub mod dma;
pub mod intr;
pub mod mdio;
pub mod mii;
pub mod phy;
pub mod rx;
pub mod rx_ring;
pub mod tx_ring;
pub mod umac;

pub use crate::eth::address::EthernetAddress;
pub use crate::eth::descriptor::Descriptor;
pub use crate::eth::phy::Status as PhyStatus;
pub use crate::eth::rx::RxPacket;

verus! {

/// The GENET major version this driver supports.
pub const GENET_V5: u8 = 5;

/// Hw adds 2 bytes for IP alignment
pub const LEADING_PAD: usize = 2;

// Body(1500) + EH_SIZE(14) + VLANTAG(4) + BRCMTAG(6) + FCS(4) = 1528.
// 1536 is multiple of 256 bytes
pub const MAX_MTU_SIZE: usize = 1536;

pub const MIN_MTU_SIZE: usize = 60;

pub const RX_BUF_LENGTH: usize = 2048;

pub const TX_BUF_LENGTH: usize = 2048;

/// Ethernet errors
#[derive(Debug, Clone, Copy, PartialEq, Eq, Structural, PartialOrd, Ord, Hash)]
pub enum Error {
    HwVersionNotSupported,
    HwError,
    HwDescError,
    Fragmented,
    Malformed,
    Exhausted,
    Dropped,
    TimedOut,
    /// No frame is waiting
    WouldBlock,
}

} // verus!
