//! I2C transfer decisions.
use vstd::prelude::*;
use crate::clocks::Clocks;
use crate::time::Hertz;

verus! {

/// I2C error
#[derive(Debug, Clone, Copy, PartialEq, Eq, Structural)]
pub enum Error {
    /// No acknowledge returned
    Nack,
    /// Slave held the SCL low for longer than specified
    ClockStretchTimeout,
    /// Hw reported done but didn't drain the entire buffer
    Truncated,
    /// Reserved for future errors
    _Extensible,
}

/// Depth of the transmit FIFO, in bytes.
pub const FIFO_DEPTH: usize = 16;

/// The clock divider for a bus speed.
pub fn i2c_clock_divider(speed: Hertz, clocks: &Clocks) -> (r: u32)
    requires
        speed.0 != 0,
    ensures
        r == clocks.core_spec().0 / speed.0,
{
    clocks.core_rate().0 / speed.0
}

/// Number of bytes written into the FIFO before a write transfer starts: the
/// buffer, up to the FIFO depth.
pub fn i2c_prefill_len(len: usize) -> (r: usize)
    requires
        len >= 1,
    ensures
        r == (if len < FIFO_DEPTH {
            len
        } else {
            FIFO_DEPTH
        }),
{
    let mut cnt: usize = 0;
    let mut i: usize = 0;
    while i < FIFO_DEPTH
        invariant
            i <= FIFO_DEPTH,
            cnt == i,
            cnt < len,
        decreases FIFO_DEPTH - i,
    {
        cnt += 1;
        if cnt >= len {
            return cnt;
        }
        i = i + 1;
    }
    cnt
}

/// The result of a read transfer from the status flags at its end.
pub fn i2c_read_result(err: bool, clkt: bool) -> (r: Result<(), Error>)
    ensures
        err ==> r == Err::<(), Error>(Error::Nack),
        !err && clkt ==> r == Err::<(), Error>(Error::ClockStretchTimeout),
        !err && !clkt ==> r == Ok::<(), Error>(()),
{
    if err {
        Err(Error::Nack)
    } else if clkt {
        Err(Error::ClockStretchTimeout)
    } else {
        Ok(())
    }
}

/// The result of a write transfer from the status flags at its end and the
/// number of bytes that went into the FIFO out of `len`.
pub fn i2c_write_result(err: bool, clkt: bool, sent: usize, len: usize) -> (r: Result<(), Error>)
    ensures
        err ==> r == Err::<(), Error>(Error::Nack),
        !err && clkt ==> r == Err::<(), Error>(Error::ClockStretchTimeout),
        !err && !clkt && sent != len ==> r == Err::<(), Error>(Error::Truncated),
        !err && !clkt && sent == len ==> r == Ok::<(), Error>(()),
{
    if err {
        Err(Error::Nack)
    } else if clkt {
        Err(Error::ClockStretchTimeout)
    } else if sent != len {
        Err(Error::Truncated)
    } else {
        Ok(())
    }
}

} // verus!
