//! Descriptor ring bookkeeping of the GENET DMA engine.
use vstd::prelude::*;
use crate::eth::{Error, MAX_MTU_SIZE, MIN_MTU_SIZE};

verus! {

/// What the driver reads of a receive descriptor's length/status word.
#[derive(Debug, Clone, Copy, PartialEq, Eq, Structural)]
pub struct RxDescStatus {
    /// Length written by the DMA engine, leading pad included
    pub len: usize,
    /// Overflow, CRC error or receive error flagged
    pub error: bool,
    /// End of packet
    pub eop: bool,
    /// Start of packet
    pub sop: bool,
}

/// A received frame: the descriptor that holds it and its DMA length.
#[derive(Debug, Clone, Copy, PartialEq, Eq, Structural)]
pub struct RxFrame {
    pub desc_index: usize,
    pub length: usize,
}

/// The driver's indices into the descriptor rings.
#[derive(Debug)]
pub struct DmaRings {
    num_desc: usize,
    c_index: usize,
    rx_index: usize,
    tx_index: usize,
}

/// The view of the ring indices: number of descriptors, receive consumer
/// index, next receive descriptor, next transmit descriptor.
#[derive(Debug, Clone, Copy, PartialEq, Eq, Structural)]
pub struct DmaRingsView {
    pub num_desc: usize,
    pub c_index: usize,
    pub rx_index: usize,
    pub tx_index: usize,
}

/// The next descriptor index after `i` in a ring of `n` descriptors.
pub open spec fn next_desc(i: usize, n: usize) -> usize {
    if i + 1 >= n {
        0
    } else {
        (i + 1) as usize
    }
}

/// The outcome of receiving from descriptor `idx` with status `st`.
pub open spec fn rx_outcome(idx: usize, st: RxDescStatus) -> Result<RxFrame, Error> {
    if !st.eop || !st.sop {
        Err(Error::Fragmented)
    } else if st.error {
        Err(Error::HwDescError)
    } else if st.len == 0 {
        Err(Error::Malformed)
    } else {
        Ok(RxFrame { desc_index: idx, length: st.len })
    }
}

impl View for DmaRings {
    type V = DmaRingsView;

    closed spec fn view(&self) -> DmaRingsView {
        DmaRingsView {
            num_desc: self.num_desc,
            c_index: self.c_index,
            rx_index: self.rx_index,
            tx_index: self.tx_index,
        }
    }
}

impl DmaRings {
    /// The indices stay within their rings, and the consumer index within
    /// its 16-bit field.
    pub open spec fn wf(&self) -> bool {
        &&& self@.num_desc > 0
        &&& self@.c_index <= 0xFFFF
        &&& self@.rx_index < self@.num_desc
        &&& self@.tx_index < self@.num_desc
    }

    /// Rings of `num_desc` descriptors, every index at zero (as after
    /// `rx_descs_init`).
    pub fn new(num_desc: usize) -> (r: DmaRings)
        requires
            num_desc > 0,
        ensures
            r.wf(),
            r@ == (DmaRingsView { num_desc: num_desc, c_index: 0, rx_index: 0, tx_index: 0 }),
    {
        DmaRings { num_desc, c_index: 0, rx_index: 0, tx_index: 0 }
    }

    pub fn c_index(&self) -> (r: usize)
        ensures
            r == self@.c_index,
    {
        self.c_index
    }

    pub fn rx_index(&self) -> (r: usize)
        ensures
            r == self@.rx_index,
    {
        self.rx_index
    }

    pub fn tx_index(&self) -> (r: usize)
        ensures
            r == self@.tx_index,
    {
        self.tx_index
    }

    /// One receive step, given the producer index the MAC reports and the
    /// status of the current receive descriptor. With nothing new it answers
    /// `WouldBlock` and changes nothing; otherwise the descriptor is consumed
    /// whatever its status: the consumer index advances modulo 2^16 (the
    /// caller writes it back to the MAC) and the receive descriptor moves on,
    /// wrapping at the end of the ring.
    pub fn rx_step(&mut self, p_index: u32, status: RxDescStatus) -> (r: Result<RxFrame, Error>)
        requires
            old(self).wf(),
        ensures
            final(self).wf(),
            p_index == old(self)@.c_index ==> r == Err::<RxFrame, Error>(Error::WouldBlock)
                && final(self)@ == old(self)@,
            p_index != old(self)@.c_index ==> r == rx_outcome(old(self)@.rx_index, status)
                && final(self)@ == (DmaRingsView {
                c_index: ((old(self)@.c_index + 1) % 0x10000) as usize,
                rx_index: next_desc(old(self)@.rx_index, old(self)@.num_desc),
                ..old(self)@
            }),
    {
        if p_index as usize == self.c_index {
            return Err(Error::WouldBlock);
        }
        let result = if !status.eop || !status.sop {
            Err(Error::Fragmented)
        } else if status.error {
            Err(Error::HwDescError)
        } else if status.len == 0 {
            Err(Error::Malformed)
        } else {
            Ok(RxFrame { desc_index: self.rx_index, length: status.len })
        };
        // Tell the MAC we have consumed that last receive buffer
        let c = self.c_index;
        let next = (c + 1) & 0xFFFF;
        assert(next == (c + 1) % 0x10000) by (bit_vector)
            requires
                next == ((c + 1) as usize) & 0xFFFF,
                c <= 0xFFFF,
        ;
        self.c_index = next;
        // Forward our descriptor pointer, wrapping around if needed
        self.rx_index = self.rx_index.saturating_add(1);
        if self.rx_index >= self.num_desc {
            self.rx_index = 0;
        }
        result
    }

    /// Moves the transmit descriptor on after queueing a frame, wrapping at
    /// the end of the ring; returns the descriptor that the frame went into.
    pub fn tx_advance(&mut self) -> (r: usize)
        requires
            old(self).wf(),
        ensures
            final(self).wf(),
            r == old(self)@.tx_index,
            final(self)@ == (DmaRingsView {
                tx_index: next_desc(old(self)@.tx_index, old(self)@.num_desc),
                ..old(self)@
            }),
    {
        let used = self.tx_index;
        self.tx_index = self.tx_index.saturating_add(1);
        if self.tx_index >= self.num_desc {
            self.tx_index = 0;
        }
        used
    }
}

/// The length a frame of `length` bytes is sent with: refused above the
/// MTU, padded up to the minimum frame size.
pub fn tx_frame_length(length: usize) -> (r: Result<usize, Error>)
    ensures
        length > MAX_MTU_SIZE ==> r == Err::<usize, Error>(Error::Exhausted),
        length <= MAX_MTU_SIZE ==> r == Ok::<usize, Error>(
            if length < MIN_MTU_SIZE {
                MIN_MTU_SIZE
            } else {
                length
            },
        ),
{
    if length > MAX_MTU_SIZE {
        return Err(Error::Exhausted);
    }
    if length < MIN_MTU_SIZE {
        Ok(MIN_MTU_SIZE)
    } else {
        Ok(length)
    }
}

/// Zeroes the pad bytes of a frame of `length` bytes in `buffer`, up to the
/// minimum frame size; returns the padded length.
pub fn pad_frame(buffer: &mut [u8; 2048], length: usize) -> (r: usize)
    requires
        length <= MAX_MTU_SIZE,
    ensures
        r == (if length < MIN_MTU_SIZE {
            MIN_MTU_SIZE
        } else {
            length
        }),
        forall|i: int| 0 <= i < 2048 ==> #[trigger] final(buffer)@[i] == (if length <= i < MIN_MTU_SIZE {
            0u8
        } else {
            old(buffer)@[i]
        }),
{
    if length < MIN_MTU_SIZE {
        let mut i = length;
        while i < MIN_MTU_SIZE
            invariant
                length <= i <= MIN_MTU_SIZE,
                forall|k: int| 0 <= k < 2048 ==> #[trigger] buffer@[k] == (if length <= k < i {
                    0u8
                } else {
                    old(buffer)@[k]
                }),
            decreases MIN_MTU_SIZE - i,
        {
            buffer[i] = 0;
            i = i + 1;
        }
        MIN_MTU_SIZE
    } else {
        length
    }
}

/// Outcome of one poll while waiting for a transmission to complete.
#[derive(Debug, Clone, Copy, PartialEq, Eq, Structural)]
pub enum TxWait {
    /// The consumer index has reached the producer index
    Done,
    /// Poll again, with this many tries left
    Retry(u32),
    /// No tries left
    TimedOut,
}

/// Number of polls of the consumer index before a transmission times out.
pub const TX_WAIT_TRIES: u32 = 100;

/// One poll of the transmit consumer index against the producer index that
/// was written, with `tries` polls left.
pub fn tx_wait_step(c_index: u32, p_index: u32, tries: u32) -> (r: TxWait)
    requires
        tries > 0,
    ensures
        c_index >= p_index ==> r == TxWait::Done,
        c_index < p_index && tries == 1 ==> r == TxWait::TimedOut,
        c_index < p_index && tries > 1 ==> r == TxWait::Retry((tries - 1) as u32),
{
    if c_index >= p_index {
        return TxWait::Done;
    }
    let left = tries - 1;
    if left == 0 {
        TxWait::TimedOut
    } else {
        TxWait::Retry(left)
    }
}

/// A 64-bit bus address split into the low and high words of a descriptor.
pub fn split_address(address: u64) -> (r: (u32, u32))
    ensures
        r.0 == address % 0x1_0000_0000,
        r.1 == address / 0x1_0000_0000,
{
    let addr_low = (address & (u32::MAX as u64)) as u32;
    let addr_high = ((address >> 32) & (u32::MAX as u64)) as u32;
    assert(address & 0xffff_ffffu64 == address % 0x1_0000_0000) by (bit_vector);
    assert((address >> 32u64) & 0xffff_ffffu64 == address / 0x1_0000_0000) by (bit_vector);
    (addr_low, addr_high)
}

/// The descriptor after `i` is the following one modulo the ring size, so
/// the receive and transmit descriptors walk the ring in order.
pub proof fn lemma_next_desc_wraps(i: usize, n: usize)
    requires
        n > 0,
        i < n,
    ensures
        next_desc(i, n) < n,
        next_desc(i, n) == (i + 1) % (n as int),
{
    if i + 1 < n {
        vstd::arithmetic::div_mod::lemma_small_mod((i + 1) as nat, n as nat);
    } else {
        vstd::arithmetic::div_mod::lemma_mod_self_0(n as int);
    }
}

} // verus!
