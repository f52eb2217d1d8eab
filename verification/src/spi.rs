//! SPI clock arithmetic.
//!
//! Only SPI0 is supported, with software-driven chip select.
use vstd::prelude::*;
use crate::clocks::Clocks;
use crate::time::Hertz;

verus! {

/// SPI error
#[derive(Debug, Clone, Copy, PartialEq, Eq, Structural)]
pub enum Error {
    /// Reserved for future errors
    _Extensible,
}

/// Interrupt events
#[derive(Debug, Clone, Copy, PartialEq, Eq, Structural)]
pub enum Event {
    /// New data has been received
    Rxne,
    /// Data can be sent
    Txe,
    /// An error occurred
    Error,
}

/// The SPI clock divider for `freq` from a core clock of `core_hz`: 2 (the
/// fastest) at or above half the core clock, 0 (the slowest) for zero,
/// otherwise the smallest even divider that does not exceed `freq`, or 0
/// when that does not fit the 16-bit register.
pub open spec fn spi_divider_spec(freq: u32, core_hz: u32) -> u32 {
    if freq >= core_hz / 2 {
        2
    } else if freq > 0 {
        let div = (core_hz + freq - 1) / (freq as int);
        let even = div + div % 2;
        if even >= 65536 {
            0
        } else {
            even as u32
        }
    } else {
        0
    }
}

/// The SPI clock divider register value (see [spi_divider_spec]).
pub fn spi_clock_divider(freq: Hertz, clocks: &Clocks) -> (r: u32)
    requires
        0 < freq.0 < clocks.core_spec().0 / 2 ==> clocks.core_spec().0 + freq.0 <= u32::MAX,
    ensures
        r == spi_divider_spec(freq.0, clocks.core_spec().0),
{
    let core_hz = clocks.core_rate().0;
    if freq.0 >= (core_hz / 2) {
        // clk_hz/2 is the fastest we can go
        2
    } else if freq.0 > 0 {
        // CDIV must be a multiple of two
        let mut div = (core_hz + freq.0 - 1) / freq.0;
        assert(div <= core_hz) by (nonlinear_arith)
            requires
                div == (core_hz + freq.0 - 1) / (freq.0 as int),
                freq.0 >= 1,
                freq.0 < core_hz / 2,
        ;
        div += div % 2;
        if div >= 65536 {
            0
        } else {
            div
        }
    } else {
        // 0 is the slowest we can go
        0
    }
}

/// The byte received from the FIFO word.
pub fn spi_rx_byte(fifo: u32) -> (r: u8)
    ensures
        r == fifo % 256,
{
    let b = (fifo & 0xFF) as u8;
    assert(fifo & 0xFF == fifo % 256) by (bit_vector);
    b
}

/// Whether a core clock of `core_hz` divided by `d` runs at or below
/// `freq`.
pub open spec fn clock_not_above(d: int, freq: u32, core_hz: u32) -> bool {
    d * freq >= core_hz
}

/// The divider never clocks the bus above the requested frequency, and is
/// the fastest one that does not: for `0 < freq < core_hz / 2` the result
/// is 0 (the register cannot hold it) or an even divider `r >= 4` with
/// `core_hz / r <= freq`, while every smaller
/// even divider would run above `freq`; it is 0 exactly when that smallest
/// even divider does not fit the 16-bit register. At or above half the core
/// clock the divider is 2 (the fastest), and otherwise a zero frequency gives 0 (the
/// slowest).
pub proof fn lemma_spi_divider_fastest_not_above(freq: u32, core_hz: u32)
    ensures
        ({
            let r = spi_divider_spec(freq, core_hz);
            &&& freq >= core_hz / 2 ==> r == 2
            &&& freq == 0 && 0 < core_hz / 2 ==> r == 0
            &&& 0 < freq < core_hz / 2 && r != 0 ==> {
                &&& r % 2 == 0
                &&& r >= 4
                &&& r < 65536
                &&& clock_not_above(r as int, freq, core_hz)
                &&& forall|d: int|
                    0 < d < r && d % 2 == 0 ==> !#[trigger] clock_not_above(d, freq, core_hz)
            }
            &&& 0 < freq < core_hz / 2 && r == 0 ==> !clock_not_above(65534, freq, core_hz)
        }),
{
    if 0 < freq && freq < core_hz / 2 {
        let f = freq as int;
        let c = core_hz as int;
        let div = (c + f - 1) / f;
        let even = div + div % 2;
        assert(div * f >= c && (div - 1) * f < c) by (nonlinear_arith)
            requires
                f > 0,
                div == (c + f - 1) / f,
        ;
        assert(div >= 3) by (nonlinear_arith)
            requires
                f > 0,
                c >= 2 * f + 2,
                div * f >= c,
        ;
        assert(even * f >= c) by (nonlinear_arith)
            requires
                f > 0,
                even >= div,
                div * f >= c,
        ;
        assert forall|d: int| 0 < d < even && d % 2 == 0 implies !#[trigger] clock_not_above(
            d,
            freq,
            core_hz,
        ) by {
            assert(d <= div - 1);
            assert(d * f <= (div - 1) * f) by (nonlinear_arith)
                requires
                    d <= div - 1,
                    f > 0,
            ;
        }
        if even >= 65536 {
            assert(65534 * f < c) by (nonlinear_arith)
                requires
                    65534 <= div - 1,
                    (div - 1) * f < c,
                    f > 0,
            ;
        }
    }
}

} // verus!
