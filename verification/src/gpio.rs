//! General Purpose Input / Output: pin modes and pin bits.
use vstd::prelude::*;

verus! {

pub struct AF0;

pub struct AF1;

pub struct AF2;

pub struct AF3;

pub struct AF4;

pub struct AF5;

/// Alternate function mode (type state)
pub struct Alternate<MODE> {
    _mode: core::marker::PhantomData<MODE>,
}

/// Input mode (type state)
pub struct Input<MODE> {
    _mode: core::marker::PhantomData<MODE>,
}

/// Floating input (type state)
pub struct Floating;

/// Pulled down input (type state)
pub struct PullDown;

/// Pulled up input (type state)
pub struct PullUp;

/// Open drain input or output (type state)
pub struct OpenDrain;

/// Output mode (type state)
pub struct Output<MODE> {
    _mode: core::marker::PhantomData<MODE>,
}

/// Push pull output (type state)
pub struct PushPull;

/// GPIO pull-up/down clock sequence wait cycles
pub const WAIT_CYCLES: usize = 150;

/// The bit of a pin in the set, clear and level registers.
pub fn pin_mask(pin: u32) -> (r: u32)
    requires
        pin < 32,
    ensures
        r == 1u32 << pin,
{
    1u32 << pin
}

/// Whether a pin reads low in the level register word.
pub fn pin_is_low(level: u32, pin: u32) -> (r: bool)
    requires
        pin < 32,
    ensures
        r == (level & (1u32 << pin) == 0),
        r == !crate::bits::bit(level, pin),
{
    let r = level & (1u32 << pin) == 0;
    assert((level & (1u32 << pin) == 0) == !((level >> pin) & 1 == 1)) by (bit_vector)
        requires
            pin < 32,
    ;
    r
}

/// Whether a pin reads high in the level register word.
pub fn pin_is_high(level: u32, pin: u32) -> (r: bool)
    requires
        pin < 32,
    ensures
        r == crate::bits::bit(level, pin),
{
    !pin_is_low(level, pin)
}

} // verus!
