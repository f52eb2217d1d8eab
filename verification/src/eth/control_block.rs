//! Software control block of a ring entry.
use vstd::prelude::*;
use crate::eth::RX_BUF_LENGTH;

verus! {

pub struct ControlBlock {
    /// Index of the hw descriptor, `RxDescriptor` or `TxDescriptor`
    pub(crate) desc_index: usize,
    /// Frame buffer
    pub(crate) buffer: [u8; RX_BUF_LENGTH],
}

impl ControlBlock {
    pub closed spec fn desc_index_spec(&self) -> usize {
        self.desc_index
    }

    pub closed spec fn buffer_spec(&self) -> Seq<u8> {
        self.buffer@
    }

    pub fn zero() -> (r: Self)
        ensures
            r.desc_index_spec() == 0,
            r.buffer_spec() == Seq::new(RX_BUF_LENGTH as nat, |i: int| 0u8),
    {
        let r = ControlBlock { desc_index: 0, buffer: [0; RX_BUF_LENGTH] };
        assert(r.buffer@ =~= Seq::new(RX_BUF_LENGTH as nat, |i: int| 0u8));
        r
    }
}

} // verus!
