//! Frame buffers handed to the DMA engine.
use vstd::prelude::*;
use crate::eth::RX_BUF_LENGTH;

verus! {

/// Hardware descriptor
pub struct Descriptor {
    /// Frame buffer
    pub(crate) buffer: [u8; RX_BUF_LENGTH],
}

impl View for Descriptor {
    type V = Seq<u8>;

    closed spec fn view(&self) -> Seq<u8> {
        self.buffer@
    }
}

impl Descriptor {
    pub fn zero() -> (r: Self)
        ensures
            r@ == Seq::new(RX_BUF_LENGTH as nat, |i: int| 0u8),
    {
        let r = Descriptor { buffer: [0; RX_BUF_LENGTH] };
        assert(r@ =~= Seq::new(RX_BUF_LENGTH as nat, |i: int| 0u8));
        r
    }
}

impl Descriptor {
    /// The frame buffer.
    pub fn as_bytes(&self) -> (r: &[u8])
        ensures
            r@ == self@,
            r@.len() == RX_BUF_LENGTH,
    {
        self.buffer.as_slice()
    }
}

} // verus!
