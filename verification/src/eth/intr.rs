//! Interrupt status decisions.
use vstd::prelude::*;
use crate::bits::bit;

verus! {

/// The lowest transmit queue, below `queues`, whose interrupt bit is set in
/// `status`, if any.
pub fn first_tx_queue_irq(status: u32, queues: usize) -> (r: Option<usize>)
    requires
        queues <= 32,
    ensures
        r is None ==> forall|i: u32| i < queues ==> !#[trigger] bit(status, i),
        r is Some ==> r->0 < queues && bit(status, r->0 as u32) && forall|i: u32|
            i < r->0 ==> !#[trigger] bit(status, i),
{
    let mut idx: usize = 0;
    while idx < queues
        invariant
            idx <= queues <= 32,
            forall|i: u32| i < idx ==> !#[trigger] bit(status, i),
        decreases queues - idx,
    {
        let sh = idx as u32;
        let b = (status >> sh) & 1;
        assert(b == 0 || b == 1) by (bit_vector)
            requires
                b == (status >> sh) & 1,
        ;
        if b != 0 {
            return Some(idx);
        }
        idx = idx + 1;
    }
    None
}

} // verus!
