use bcm2711_hal::cache::{l1_set_way_level, l2_set_way_level, range_line_address, range_line_count};
use bcm2711_hal::clocks::{clock_rate_from_response, clock_rate_request, ClockId, Clocks};
use bcm2711_hal::delay::{delay_us_cycles, Delay};
use bcm2711_hal::gpio::{pin_is_high, pin_is_low, pin_mask};
use bcm2711_hal::i2c::{self, i2c_clock_divider, i2c_prefill_len, i2c_read_result, i2c_write_result};
use bcm2711_hal::mailbox::{AllocFramebufferRepr, Error, GetClockRateRepr, RespMsg};
use bcm2711_hal::rng::{fill_from_words, words_needed};
use bcm2711_hal::serial::{tx_bytes, uart0_baud_divisor, uart0_divisor_parts, uart1_baud_divisor, uart1_rx_byte, Serial};
use bcm2711_hal::spi::{spi_clock_divider, spi_rx_byte};
use bcm2711_hal::time::{Bps, Hertz, KiloHertz, MegaHertz, U32Ext};
use bcm2711_hal::timer::{
    compare_value, deadline_passed, delay_deadline, instant_from_micros, ms_to_us,
    sys_counter_reading, sys_counter_value, timer_ticks,
};

fn clocks() -> Clocks {
    Clocks::from_rates(Hertz(500_000_000), Hertz(1_500_000_000), Hertz(48_000_000))
}

#[test]
fn frequency_units() {
    assert_eq!(115_200.bps(), Bps(115_200));
    assert_eq!(3.khz(), KiloHertz(3));
    assert_eq!(Hertz::from(KiloHertz(3)), Hertz(3000));
    assert_eq!(Hertz::from(MegaHertz(2)), Hertz(2_000_000));
    assert_eq!(KiloHertz::from(MegaHertz(2)), KiloHertz(2000));
    // Conversions wrap at 2^32
    assert_eq!(Hertz::from(MegaHertz(5000)), Hertz(5_000_000_000u64 as u32));
    assert_eq!(7.hz().0, 7);
    assert_eq!(9.mhz().0, 9);
    assert_eq!(11.ms().0, 11);
}

#[test]
fn clocks_from_responses() {
    let c = clocks();
    assert_eq!(c.core_rate(), Hertz(500_000_000));
    assert_eq!(c.arm(), Hertz(1_500_000_000));
    assert_eq!(c.uart(), Hertz(48_000_000));
    assert_eq!(clock_rate_request(ClockId::Core).clock_id(), ClockId::Core);
    let resp = RespMsg::GetClockRate(GetClockRateRepr::new(ClockId::Arm));
    assert_eq!(clock_rate_from_response(Ok(resp)), Ok(Hertz(0)));
    let fb = RespMsg::AllocFramebuffer(AllocFramebufferRepr::new());
    assert_eq!(clock_rate_from_response(Ok(fb)), Err(Error::Malformed));
    assert_eq!(clock_rate_from_response(Err(Error::BadRequest)), Err(Error::BadRequest));
}

#[test]
fn delays() {
    assert_eq!(delay_us_cycles(10, &clocks()), 5000);
    let slow = Clocks::from_rates(Hertz(100), Hertz(0), Hertz(0));
    assert_eq!(delay_us_cycles(10, &slow), 10);
    let d = Delay::new(clocks());
    assert_eq!(d.us_cycles(3), 1500);
    assert_eq!(d.ms_cycles(2), 1_000_000);
}

#[test]
fn timer_arithmetic() {
    assert_eq!(timer_ticks(Hertz(1000)), 1000);
    assert_eq!(compare_value(0xFFFF_FFF0, 0x20), 0x10);
    assert_eq!(sys_counter_value(1, 2), 0x1_0000_0002);
    assert_eq!(sys_counter_reading(1, 0xFFFF_FFFF, 2, 2, 5), 0x2_0000_0005);
    assert_eq!(sys_counter_reading(1, 7, 1, 9, 9), 0x1_0000_0007);
    assert_eq!(instant_from_micros(5_674_999).total_millis(), 5674);
    assert_eq!(delay_deadline(u64::MAX, 2), 1);
    assert!(deadline_passed(11, 10));
    assert!(!deadline_passed(10, 10));
    assert_eq!(ms_to_us(7), 7000);
}

#[test]
fn uart_divisors() {
    let c = clocks();
    assert_eq!(uart0_baud_divisor(Bps(115_200), &c), (48_000_000 * 4) / 115_200);
    assert_eq!(uart0_baud_divisor(Bps(4_000_000), &c), (48_000_000 * 8) / 4_000_000);
    assert_eq!(uart0_divisor_parts(1666), (26, 2));
    assert_eq!(uart1_baud_divisor(Bps(115_200), &c), 541);
    assert_eq!(uart1_rx_byte(b'\r'), b'\n');
    assert_eq!(uart1_rx_byte(b'a'), b'a');
    assert_eq!(tx_bytes("a\nb\n"), b"a\r\nb\r\n".to_vec());
    assert_eq!(tx_bytes(""), Vec::<u8>::new());
    let s = Serial::from_parts(1u8, 2u16);
    assert_eq!(s.free(), (1u8, 2u16));
}

#[test]
fn spi_dividers() {
    let c = clocks();
    assert_eq!(spi_clock_divider(Hertz(300_000_000), &c), 2);
    assert_eq!(spi_clock_divider(Hertz(0), &c), 0);
    assert_eq!(spi_clock_divider(Hertz(1_000_000), &c), 500);
    assert_eq!(spi_clock_divider(Hertz(3_000_000), &c), 168);
    assert_eq!(spi_clock_divider(Hertz(1_000), &c), 0);
    assert_eq!(spi_rx_byte(0x1234), 0x34);
}

#[test]
fn i2c_decisions() {
    let c = clocks();
    assert_eq!(i2c_clock_divider(Hertz(100_000), &c), 5000);
    assert_eq!(i2c_prefill_len(3), 3);
    assert_eq!(i2c_prefill_len(40), 16);
    assert_eq!(i2c_read_result(true, true), Err(i2c::Error::Nack));
    assert_eq!(i2c_read_result(false, true), Err(i2c::Error::ClockStretchTimeout));
    assert_eq!(i2c_read_result(false, false), Ok(()));
    assert_eq!(i2c_write_result(false, false, 3, 4), Err(i2c::Error::Truncated));
    assert_eq!(i2c_write_result(false, false, 4, 4), Ok(()));
}

#[test]
fn rng_bytes() {
    assert_eq!(words_needed(5), 3);
    let words = vec![0xFFFF_FFFF, 0x4433_2211, 0x0000_0055];
    assert_eq!(fill_from_words(&words, 5), vec![0x11, 0x22, 0x33, 0x44, 0x55]);
    assert_eq!(fill_from_words(&words, 0), Vec::<u8>::new());
}

#[test]
fn gpio_bits() {
    assert_eq!(pin_mask(27), 1 << 27);
    assert!(pin_is_low(0b1011, 2));
    assert!(pin_is_high(0b1011, 3));
}

#[test]
fn cache_operands() {
    assert_eq!(l1_set_way_level(1, 1), 0x8000_0040);
    assert_eq!(l2_set_way_level(2, 3), 0x3000_0082);
    assert_eq!(range_line_count(0), 2);
    assert_eq!(range_line_count(64), 3);
    assert_eq!(range_line_count(144), 4);
    assert_eq!(range_line_address(0x1000, 3), 0x10C0);
}
