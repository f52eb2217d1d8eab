//! DMA: control blocks and the checks made before a transfer starts.
use vstd::prelude::*;
use crate::bits::bit;
use crate::cache::bus_address_bits;

pub mod control_block;

pub use crate::dma::control_block::{
    ControlBlock, StrideWord, TransferLength, TransferWidth, TxfrInfoWord, TxfrLenWord,
    CONTROL_BLOCK_SIZE, TRANSFER_LENGTH_MAX, TRANSFER_LENGTH_MAX_LITE,
};

verus! {

/// Why a transfer may not start.
#[derive(Debug, Clone, Copy, PartialEq, Eq, Structural)]
pub enum TransferError {
    /// Control block address must be 256 bit aligned
    UnalignedControlBlock,
    /// Source address is NULL
    NullSource,
    /// Destination address is NULL
    NullDestination,
    /// LITE channel doesn't support 2D mode
    Lite2D,
    /// The length exceeds what a LITE channel can transfer
    LiteTooLong,
    /// The length exceeds what a channel can transfer
    TooLong,
    /// 2D mode caching not supported yet
    Cached2D,
}

/// The first check that a transfer of the control block `cb` at
/// `dcb_paddr` fails, in the order the channel makes them, or `Ok`.
pub open spec fn transfer_check(
    cb: control_block::ControlBlockWords,
    dcb_paddr: usize,
    is_lite: bool,
    src_cached: bool,
    dest_cached: bool,
) -> Result<(), TransferError> {
    let td_mode = bit(cb.info, 1);
    if dcb_paddr % 32 != 0 {
        Err(TransferError::UnalignedControlBlock)
    } else if cb.src == 0 {
        Err(TransferError::NullSource)
    } else if cb.dest == 0 {
        Err(TransferError::NullDestination)
    } else if is_lite && td_mode {
        Err(TransferError::Lite2D)
    } else if is_lite && cb.length > TRANSFER_LENGTH_MAX_LITE {
        Err(TransferError::LiteTooLong)
    } else if !is_lite && !td_mode && cb.length > TRANSFER_LENGTH_MAX {
        Err(TransferError::TooLong)
    } else if (src_cached || dest_cached) && td_mode {
        Err(TransferError::Cached2D)
    } else {
        Ok(())
    }
}

/// Checks a transfer before it starts (see [transfer_check]).
pub fn check_transfer(
    dcb: &ControlBlock,
    dcb_paddr: usize,
    is_lite: bool,
    src_cached: bool,
    dest_cached: bool,
) -> (r: Result<(), TransferError>)
    ensures
        r == transfer_check(dcb@, dcb_paddr, is_lite, src_cached, dest_cached),
{
    proof {
        control_block::lemma_control_block_view(dcb);
    }
    let low = dcb_paddr & 0x1F;
    assert(low == dcb_paddr % 32) by (bit_vector)
        requires
            low == dcb_paddr & 0x1F,
    ;
    if low != 0 {
        return Err(TransferError::UnalignedControlBlock);
    }
    if dcb.src == 0 {
        return Err(TransferError::NullSource);
    }
    if dcb.dest == 0 {
        return Err(TransferError::NullDestination);
    }
    let td_mode = dcb.info.td_mode();
    if is_lite {
        if td_mode {
            return Err(TransferError::Lite2D);
        }
        if dcb.length.0 > TRANSFER_LENGTH_MAX_LITE {
            return Err(TransferError::LiteTooLong);
        }
    } else {
        if !td_mode && dcb.length.0 > TRANSFER_LENGTH_MAX {
            return Err(TransferError::TooLong);
        }
    }
    if src_cached && td_mode {
        return Err(TransferError::Cached2D);
    }
    if dest_cached && td_mode {
        return Err(TransferError::Cached2D);
    }
    Ok(())
}

/// The bus address written to the channel for a control block at
/// `dcb_paddr` (the address taken as 32 bits, in the coherent alias).
pub fn dcb_bus_address(dcb_paddr: usize) -> (r: u32)
    ensures
        r == ((dcb_paddr as u32) | bus_address_bits::ALIAS_4_L2_COHERENT),
{
    dcb_paddr as u32 | bus_address_bits::ALIAS_4_L2_COHERENT
}

/// The physical address of a buffer given by its bus address, to clean or
/// invalidate it in the cache.
pub fn cached_range_start(bus_address: u32) -> (r: usize)
    ensures
        r == bus_address & !bus_address_bits::ALIAS_4_L2_COHERENT,
{
    (bus_address & !bus_address_bits::ALIAS_4_L2_COHERENT) as usize
}

/// Whether a channel reports an error: the error flag, a read-last-not-set,
/// FIFO or read error, or outstanding writes.
pub fn channel_errors(
    cs_error: bool,
    read_last_not_set_error: bool,
    fifo_error: bool,
    read_error: bool,
    outstanding_writes: u32,
) -> (r: bool)
    ensures
        r == (cs_error || read_last_not_set_error || fifo_error || read_error || outstanding_writes
            != 0),
{
    if cs_error {
        return true;
    }
    if read_last_not_set_error {
        return true;
    }
    if fifo_error {
        return true;
    }
    if read_error {
        return true;
    }
    if outstanding_writes != 0 {
        return true;
    }
    false
}

/// A 2D transfer over cached memory is never started: a transfer that
/// passes its checks with 2D mode on (bit 1 of the info word) has neither
/// buffer cached, and whenever the checks before it pass, a 2D transfer
/// with the source or the destination cached is refused with `Cached2D`.
pub proof fn lemma_cached_2d_refused(
    cb: control_block::ControlBlockWords,
    dcb_paddr: usize,
    is_lite: bool,
    src_cached: bool,
    dest_cached: bool,
)
    ensures
        ({
            let r = transfer_check(cb, dcb_paddr, is_lite, src_cached, dest_cached);
            let two_d = cb.info & 2 != 0;
            &&& r is Ok && two_d ==> !src_cached && !dest_cached
            &&& r == Err::<(), TransferError>(TransferError::Cached2D) ==> two_d && (src_cached
                || dest_cached)
            &&& transfer_check(cb, dcb_paddr, is_lite, false, false) is Ok && two_d && (
            src_cached || dest_cached) ==> r == Err::<(), TransferError>(TransferError::Cached2D)
        }),
{
    let info = cb.info;
    assert(bit(info, 1) == (info & 2 != 0)) by (bit_vector);
}

/// A transfer starts only with a 256-bit aligned control block, non-null
/// source and destination, no 2D mode on a LITE channel, and a length the
/// channel can carry (`0xFFFF` bytes on a LITE channel, `0x3FFF_FFFF` for a
/// linear transfer on a full one); each refusal names a check that fails.
pub proof fn lemma_transfer_requirements(
    cb: control_block::ControlBlockWords,
    dcb_paddr: usize,
    is_lite: bool,
    src_cached: bool,
    dest_cached: bool,
)
    ensures
        ({
            let r = transfer_check(cb, dcb_paddr, is_lite, src_cached, dest_cached);
            let two_d = cb.info & 2 != 0;
            &&& r is Ok ==> {
                &&& dcb_paddr % 32 == 0
                &&& cb.src != 0
                &&& cb.dest != 0
                &&& is_lite ==> !two_d && cb.length <= 0xFFFF
                &&& !is_lite && !two_d ==> cb.length <= 0x3FFF_FFFF
            }
            &&& r == Err::<(), TransferError>(TransferError::UnalignedControlBlock) <==> dcb_paddr
                % 32 != 0
            &&& r == Err::<(), TransferError>(TransferError::NullSource) ==> cb.src == 0
            &&& r == Err::<(), TransferError>(TransferError::NullDestination) ==> cb.dest == 0
            &&& r == Err::<(), TransferError>(TransferError::Lite2D) ==> is_lite && two_d
            &&& r == Err::<(), TransferError>(TransferError::LiteTooLong) ==> is_lite
                && cb.length > 0xFFFF
            &&& r == Err::<(), TransferError>(TransferError::TooLong) ==> !is_lite && !two_d
                && cb.length > 0x3FFF_FFFF
        }),
{
    let info = cb.info;
    assert(bit(info, 1) == (info & 2 != 0)) by (bit_vector);
}

} // verus!
