//! Clocks
use vstd::prelude::*;
use crate::mailbox::{Error, GetClockRateRepr, RespMsg};
use crate::time::Hertz;

verus! {

/// Clock identifiers of the mailbox property interface.
#[derive(Debug, Copy, Clone, PartialEq, Eq, Structural, PartialOrd, Ord, Hash)]
pub enum ClockId {
    Emmc,
    Uart,
    Arm,
    Core,
    Unkown(u32),
}

/// The word that stands for a clock in a message.
pub open spec fn clock_word(id: ClockId) -> u32 {
    match id {
        ClockId::Emmc => 0x01,
        ClockId::Uart => 0x02,
        ClockId::Arm => 0x03,
        ClockId::Core => 0x04,
        ClockId::Unkown(v) => v,
    }
}

/// The clock that a word stands for: the four known words name their
/// clocks, every other word is kept as `Unkown`.
pub open spec fn clock_of_word(v: u32) -> ClockId {
    if v == 0x01 {
        ClockId::Emmc
    } else if v == 0x02 {
        ClockId::Uart
    } else if v == 0x03 {
        ClockId::Arm
    } else if v == 0x04 {
        ClockId::Core
    } else {
        ClockId::Unkown(v)
    }
}

/// A clock id in its canonical form: `Unkown` never carries one of the four
/// words that name a known clock.
pub open spec fn clock_id_canonical(id: ClockId) -> bool {
    match id {
        ClockId::Unkown(v) => !(1 <= v <= 4),
        _ => true,
    }
}

impl vstd::std_specs::convert::FromSpecImpl<ClockId> for u32 {
    open spec fn obeys_from_spec() -> bool {
        true
    }

    open spec fn from_spec(v: ClockId) -> u32 {
        clock_word(v)
    }
}

impl From<ClockId> for u32 {
    fn from(id: ClockId) -> (r: u32)
        ensures
            r == clock_word(id),
    {
        match id {
            ClockId::Emmc => 0x01,
            ClockId::Uart => 0x02,
            ClockId::Arm => 0x03,
            ClockId::Core => 0x04,
            ClockId::Unkown(id) => id,
        }
    }
}

impl vstd::std_specs::convert::FromSpecImpl<u32> for ClockId {
    open spec fn obeys_from_spec() -> bool {
        true
    }

    open spec fn from_spec(v: u32) -> ClockId {
        clock_of_word(v)
    }
}

impl From<u32> for ClockId {
    fn from(id: u32) -> (r: ClockId) {
        match id {
            0x01 => ClockId::Emmc,
            0x02 => ClockId::Uart,
            0x03 => ClockId::Arm,
            0x04 => ClockId::Core,
            _ => ClockId::Unkown(id),
        }
    }
}

/// Decoding the word of a clock id gives the id back exactly when the id is
/// canonical; encoding the decoding of a word gives the word back.
pub proof fn lemma_clock_word_roundtrip(id: ClockId, v: u32)
    ensures
        clock_of_word(clock_word(id)) == id <==> clock_id_canonical(id),
        clock_word(clock_of_word(v)) == v,
        clock_id_canonical(clock_of_word(v)),
{
}

/// Frozen clock frequencies
///
/// The existence of this value indicates that the clock configuration can no
/// longer be changed
#[derive(Debug, Copy, Clone, PartialEq, Eq, Structural, PartialOrd, Ord, Hash)]
pub struct Clocks {
    core_rate: Hertz,
    arm: Hertz,
    uart: Hertz,
}

impl Clocks {
    pub closed spec fn core_spec(&self) -> Hertz {
        self.core_rate
    }

    pub closed spec fn arm_spec(&self) -> Hertz {
        self.arm
    }

    pub closed spec fn uart_spec(&self) -> Hertz {
        self.uart
    }

    /// Frozen clocks from the three rates that the firmware reported.
    pub fn from_rates(core_rate: Hertz, arm: Hertz, uart: Hertz) -> (r: Clocks)
        ensures
            r.core_spec() == core_rate,
            r.arm_spec() == arm,
            r.uart_spec() == uart,
    {
        Clocks { core_rate, arm, uart }
    }

    /// Returns the frequency of the core clock
    pub fn core_rate(&self) -> (r: Hertz)
        ensures
            r == self.core_spec(),
    {
        self.core_rate
    }

    /// Returns the frequency of the ARM clock
    pub fn arm(&self) -> (r: Hertz)
        ensures
            r == self.arm_spec(),
    {
        self.arm
    }

    /// Returns the frequency of the UART clock
    pub fn uart(&self) -> (r: Hertz)
        ensures
            r == self.uart_spec(),
    {
        self.uart
    }
}

/// The request sent for a clock's rate.
pub fn clock_rate_request(id: ClockId) -> (r: GetClockRateRepr)
    ensures
        r@ == (id, Hertz(0)),
{
    GetClockRateRepr::new(id)
}

/// The rate that a mailbox call for a clock's rate returned: the call's own
/// error, the rate of a GetClockRate response, or `Malformed` for any other
/// response.
pub fn clock_rate_from_response(resp: Result<RespMsg, Error>) -> (r: Result<Hertz, Error>)
    ensures
        match resp {
            Err(e) => r == Err::<Hertz, Error>(e),
            Ok(RespMsg::GetClockRate(repr)) => r == Ok::<Hertz, Error>(repr@.1),
            Ok(_) => r == Err::<Hertz, Error>(Error::Malformed),
        },
{
    match resp {
        Err(e) => Err(e),
        Ok(RespMsg::GetClockRate(repr)) => Ok(repr.rate()),
        Ok(_) => Err(Error::Malformed),
    }
}

} // verus!
