//! Ring of Rx buffers
use vstd::prelude::*;

verus! {

/// Ring of Rx buffers
#[derive(Debug)]
pub struct RxRing {
    /// Ring index
    pub(crate) index: usize,
    /// Ring buffer control block
    pub(crate) cbs_index: usize,
    /// Ring size
    pub(crate) size: usize,
    /// Last consumer index
    pub(crate) c_index: usize,
    /// Ring read pointer
    pub(crate) read_ptr: usize,
    /// Ring initial control block pointer
    pub(crate) cb_ptr: usize,
    /// Ring end control block pointer
    pub(crate) end_ptr: usize,
    /// Old discards
    pub(crate) old_discards: usize,
}

impl RxRing {
    /// Whether every field is zero.
    pub closed spec fn is_zero(&self) -> bool {
        &&& self.index == 0
        &&& self.cbs_index == 0
        &&& self.size == 0
        &&& self.c_index == 0
        &&& self.read_ptr == 0
        &&& self.cb_ptr == 0
        &&& self.end_ptr == 0
        &&& self.old_discards == 0
    }

    pub fn zero() -> (r: Self)
        ensures
            r.is_zero(),
    {
        RxRing {
            index: 0,
            cbs_index: 0,
            size: 0,
            c_index: 0,
            read_ptr: 0,
            cb_ptr: 0,
            end_ptr: 0,
            old_discards: 0,
        }
    }
}

} // verus!
