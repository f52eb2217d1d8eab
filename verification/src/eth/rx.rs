//! A received frame.
use vstd::prelude::*;
use crate::eth::{Descriptor, Error, LEADING_PAD, RX_BUF_LENGTH};

verus! {

/// A received frame: the descriptor buffer it was written into and the
/// length the DMA engine reported, which counts the two leading pad bytes.
pub struct RxPacket<'a> {
    pub(crate) entry: &'a mut Descriptor,
    pub(crate) length: usize,
}

impl<'a> RxPacket<'a> {
    pub closed spec fn length_spec(&self) -> usize {
        self.length
    }

    pub fn new(entry: &'a mut Descriptor, length: usize) -> (r: RxPacket<'a>)
        ensures
            r.length_spec() == length,
            r.buffer_spec() == old(entry)@,
    {
        RxPacket { entry, length }
    }

    /// The bytes of the received frame that the engine wrote, in the
    /// descriptor buffer.
    pub closed spec fn buffer_spec(&self) -> Seq<u8> {
        self.entry@
    }

    /// The frame, without the leading pad the hardware adds for IP header
    /// alignment.
    pub fn payload(&self) -> (r: &[u8])
        requires
            LEADING_PAD <= self.length_spec() <= RX_BUF_LENGTH,
        ensures
            r@ == self.buffer_spec().subrange(LEADING_PAD as int, self.length_spec() as int),
            r@.len() == self.length_spec() - LEADING_PAD,
    {
        vstd::slice::slice_subrange(self.entry.as_bytes(), LEADING_PAD, self.length)
    }

    /// Copies the frame, without its leading pad, to the front of `pkt` and
    /// returns its length; `Exhausted`, with `pkt` unchanged, when the frame
    /// does not fit.
    pub fn copy_payload(&self, pkt: &mut [u8]) -> (r: Result<usize, Error>)
        requires
            LEADING_PAD <= self.length_spec() <= RX_BUF_LENGTH,
        ensures
            self.length_spec() - LEADING_PAD > old(pkt)@.len() ==> r == Err::<usize, Error>(
                Error::Exhausted,
            ) && final(pkt)@ == old(pkt)@,
            self.length_spec() - LEADING_PAD <= old(pkt)@.len() ==> r == Ok::<usize, Error>(
                (self.length_spec() - LEADING_PAD) as usize,
            ) && final(pkt)@ == self.buffer_spec().subrange(
                LEADING_PAD as int,
                self.length_spec() as int,
            ) + old(pkt)@.subrange(
                self.length_spec() - LEADING_PAD,
                old(pkt)@.len() as int,
            ),
    {
        let frame = self.payload();
        if frame.len() > pkt.len() {
            return Err(Error::Exhausted);
        }
        let ghost orig = pkt@;
        let mut i: usize = 0;
        while i < frame.len()
            invariant
                frame.len() <= pkt.len(),
                pkt@.len() == orig.len(),
                i <= frame.len(),
                forall|k: int| 0 <= k < i ==> pkt@[k] == frame@[k],
                forall|k: int| i <= k < pkt@.len() ==> pkt@[k] == orig[k],
            decreases frame.len() - i,
        {
            pkt[i] = frame[i];
            i = i + 1;
        }
        assert(pkt@ =~= frame@ + orig.subrange(frame@.len() as int, orig.len() as int));
        Ok(frame.len())
    }

    /// Length of the frame, without the leading pad.
    pub fn len(&self) -> (r: usize)
        requires
            self.length_spec() >= LEADING_PAD,
        ensures
            r == self.length_spec() - LEADING_PAD,
    {
        self.length - LEADING_PAD
    }
}

} // verus!
