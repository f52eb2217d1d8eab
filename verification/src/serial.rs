//! Serial
//!
//! There are two built-in UARTS, a PL011 (UART0) and a mini UART (UART1).
//! This module holds their baud-rate arithmetic and newline handling.
use vstd::prelude::*;
use crate::clocks::Clocks;
use crate::time::Bps;
use vstd::string::StringSliceAdditionalSpecFns;

verus! {

/// Marker for the pins a UART can be used with.
pub trait Pins<UART> {

}

/// Marker for a pin that can transmit for a UART.
pub trait PinTx<UART> {

}

/// Marker for a pin that can receive for a UART.
pub trait PinRx<UART> {

}

/// A transmit pin and a receive pin of the same UART make up its pins.
impl<UART, TX, RX> Pins<UART> for (TX, RX) where TX: PinTx<UART>, RX: PinRx<UART> {

}

/// Serial abstraction
pub struct Serial<UART, PINS> {
    uart: UART,
    pins: PINS,
}

impl<UART, PINS> Serial<UART, PINS> {
    pub closed spec fn uart_spec(&self) -> UART {
        self.uart
    }

    pub closed spec fn pins_spec(&self) -> PINS {
        self.pins
    }

    /// A serial port over a configured UART and its pins.
    pub fn from_parts(uart: UART, pins: PINS) -> (r: Self)
        ensures
            r.uart_spec() == uart,
            r.pins_spec() == pins,
    {
        Serial { uart, pins }
    }

    /// The UART, to drive its registers.
    pub fn uart(&self) -> (r: &UART)
        ensures
            *r == self.uart_spec(),
    {
        &self.uart
    }

    /// Releases the UART and its pins.
    pub fn free(self) -> (r: (UART, PINS))
        ensures
            r.0 == self.uart_spec(),
            r.1 == self.pins_spec(),
    {
        (self.uart, self.pins)
    }
}

/// The PL011 baud-rate divisor in 1/64ths: with 8x oversampling above a
/// sixteenth of the UART clock, 4x below.
pub open spec fn uart0_divisor_spec(uart_clk: u32, baud: u32) -> int {
    if baud > uart_clk / 16 {
        (uart_clk * 8) / (baud as int)
    } else {
        (uart_clk * 4) / (baud as int)
    }
}

/// The PL011 baud-rate divisor (integer part in the bits above 6, the
/// fraction in 64ths below).
pub fn uart0_baud_divisor(baud_rate: Bps, clocks: &Clocks) -> (r: u32)
    requires
        baud_rate.0 != 0,
        baud_rate.0 > clocks.uart_spec().0 / 16 ==> clocks.uart_spec().0 * 8 <= u32::MAX,
        baud_rate.0 <= clocks.uart_spec().0 / 16 ==> clocks.uart_spec().0 * 4 <= u32::MAX,
    ensures
        r == uart0_divisor_spec(clocks.uart_spec().0, baud_rate.0),
{
    let uart_clk = clocks.uart().0;
    if baud_rate.0 > (uart_clk / 16) {
        (uart_clk * 8) / baud_rate.0
    } else {
        (uart_clk * 4) / baud_rate.0
    }
}

/// The integer and fractional baud-rate register values of a divisor.
pub fn uart0_divisor_parts(brr: u32) -> (r: (u32, u32))
    ensures
        r.0 == brr / 64,
        r.1 == brr % 64,
{
    let ibrd = brr >> 6u32;
    let fbrd = brr & 0x3F;
    assert(ibrd == brr / 64 && fbrd == brr % 64) by (bit_vector)
        requires
            ibrd == brr >> 6u32,
            fbrd == brr & 0x3F,
    ;
    (ibrd, fbrd)
}

/// The mini UART baud-rate register: it uses 8-times oversampling,
/// `((sys_clock / baudrate) / 8) - 1`.
pub fn uart1_baud_divisor(baud_rate: Bps, clocks: &Clocks) -> (r: u32)
    requires
        baud_rate.0 != 0,
        clocks.core_spec().0 / baud_rate.0 >= 8,
    ensures
        r == clocks.core_spec().0 / baud_rate.0 / 8 - 1,
{
    ((clocks.core_rate().0 / baud_rate.0) / 8) - 1
}

/// A byte received on the mini UART: carriage return is read as newline.
pub fn uart1_rx_byte(data: u8) -> (r: u8)
    ensures
        r == (if data == 0x0D {
            0x0Au8
        } else {
            data
        }),
{
    if data == 0x0D {
        0x0A
    } else {
        data
    }
}

/// The bytes sent for `s`: each newline is preceded by a carriage return.
pub open spec fn crlf(s: Seq<u8>) -> Seq<u8>
    decreases s.len(),
{
    if s.len() == 0 {
        Seq::empty()
    } else {
        let rest = crlf(s.drop_last());
        if s.last() == 0x0A {
            rest + seq![0x0Du8, 0x0Au8]
        } else {
            rest + seq![s.last()]
        }
    }
}

/// The bytes written to the UART for the text `s` (see [crlf]).
pub fn tx_bytes(s: &str) -> (r: Vec<u8>)
    ensures
        r@ == crlf(s.spec_bytes()),
{
    let bytes = s.as_bytes();
    let mut out: Vec<u8> = Vec::new();
    let mut i: usize = 0;
    while i < bytes.len()
        invariant
            i <= bytes@.len(),
            bytes@ == s.spec_bytes(),
            out@ == crlf(bytes@.subrange(0, i as int)),
        decreases bytes@.len() - i,
    {
        let b = bytes[i];
        // Convert '\n' to '\r\n'
        if b == 0x0A {
            out.push(0x0D);
        }
        out.push(b);
        proof {
            let next = bytes@.subrange(0, i + 1);
            assert(next.drop_last() =~= bytes@.subrange(0, i as int));
        }
        i = i + 1;
    }
    assert(bytes@.subrange(0, i as int) =~= bytes@);
    out
}

/// Text sent in pieces goes out as the same bytes as sent at once.
pub proof fn lemma_crlf_concat(a: Seq<u8>, b: Seq<u8>)
    ensures
        crlf(a + b) == crlf(a) + crlf(b),
    decreases b.len(),
{
    if b.len() == 0 {
        assert(a + b =~= a);
        assert(crlf(a) + crlf(b) =~= crlf(a));
    } else {
        lemma_crlf_concat(a, b.drop_last());
        assert((a + b).drop_last() =~= a + b.drop_last());
        assert((a + b).last() == b.last());
        if b.last() == 0x0A {
            assert(crlf(a) + crlf(b.drop_last()) + seq![0x0Du8, 0x0Au8] =~= crlf(a) + (crlf(
                b.drop_last(),
            ) + seq![0x0Du8, 0x0Au8]));
        } else {
            assert(crlf(a) + crlf(b.drop_last()) + seq![b.last()] =~= crlf(a) + (crlf(
                b.drop_last(),
            ) + seq![b.last()]));
        }
    }
}

/// Every byte other than a newline is sent as it is, and a newline as a
/// carriage return followed by it: the bytes sent for one byte.
pub proof fn lemma_crlf_byte(b: u8)
    ensures
        crlf(seq![b]) == (if b == 0x0A {
            seq![0x0Du8, 0x0Au8]
        } else {
            seq![b]
        }),
{
    assert(seq![b].drop_last() =~= Seq::<u8>::empty());
    assert(crlf(Seq::<u8>::empty()) =~= Seq::<u8>::empty());
    if b == 0x0A {
        assert(Seq::<u8>::empty() + seq![0x0Du8, 0x0Au8] =~= seq![0x0Du8, 0x0Au8]);
    } else {
        assert(Seq::<u8>::empty() + seq![b] =~= seq![b]);
    }
}

} // verus!
