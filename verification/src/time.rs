//! Time units
//!
//! - [Instant] is used to represent absolute time.
//! - [Duration] is used to represent relative time.
//!
//! Rates are wrapped in the newtypes [Bps], [Hertz], [KiloHertz] and
//! [MegaHertz]; [MilliSeconds] wraps a span of milliseconds.
use vstd::prelude::*;
use crate::fmt::{decimal, push_decimal, push_decimal_padded, zero_padded};
use vstd::std_specs::convert::FromSpec;
use vstd::std_specs::ops::{AddSpec, DivSpec, MulSpec, SubSpec};

verus! {

/// Quotient of `a` by a positive `b`, rounded toward zero.
pub open spec fn trunc_div(a: int, b: int) -> int {
    if a >= 0 {
        a / b
    } else {
        -((-a) / b)
    }
}

/// Remainder of `a` by a positive `b`; it takes the sign of `a`.
pub open spec fn trunc_rem(a: int, b: int) -> int {
    if a >= 0 {
        a % b
    } else {
        -((-a) % b)
    }
}

/// Bits per second
#[derive(Debug, Copy, Clone, PartialEq, Eq, Structural, PartialOrd, Ord, Hash)]
pub struct Bps(pub u32);

/// Hertz
#[derive(Debug, Copy, Clone, PartialEq, Eq, Structural, PartialOrd, Ord, Hash)]
pub struct Hertz(pub u32);

/// KiloHertz
#[derive(Debug, Copy, Clone, PartialEq, Eq, Structural, PartialOrd, Ord, Hash)]
pub struct KiloHertz(pub u32);

/// MegaHertz
#[derive(Debug, Copy, Clone, PartialEq, Eq, Structural, PartialOrd, Ord, Hash)]
pub struct MegaHertz(pub u32);

/// MilliSeconds
#[derive(Debug, Copy, Clone, PartialEq, Eq, Structural, PartialOrd, Ord, Hash)]
pub struct MilliSeconds(pub u32);

/// Extension trait that adds convenience methods to the `u32` type
pub trait U32Ext: Sized {
    /// Wrap in `Bps`
    fn bps(self) -> (r: Bps);

    /// Wrap in `Hertz`
    fn hz(self) -> (r: Hertz);

    /// Wrap in `KiloHertz`
    fn khz(self) -> (r: KiloHertz);

    /// Wrap in `MegaHertz`
    fn mhz(self) -> (r: MegaHertz);

    /// Wrap in `MilliSeconds`
    fn ms(self) -> (r: MilliSeconds);
}

impl U32Ext for u32 {
    fn bps(self) -> (r: Bps)
        ensures
            r.0 == self,
    {
        Bps(self)
    }

    fn hz(self) -> (r: Hertz)
        ensures
            r.0 == self,
    {
        Hertz(self)
    }

    fn khz(self) -> (r: KiloHertz)
        ensures
            r.0 == self,
    {
        KiloHertz(self)
    }

    fn mhz(self) -> (r: MegaHertz)
        ensures
            r.0 == self,
    {
        MegaHertz(self)
    }

    fn ms(self) -> (r: MilliSeconds)
        ensures
            r.0 == self,
    {
        MilliSeconds(self)
    }
}

impl vstd::std_specs::convert::FromSpecImpl<KiloHertz> for Hertz {
    open spec fn obeys_from_spec() -> bool {
        true
    }

    /// A thousand Hertz per KiloHertz, wrapping at 2^32.
    open spec fn from_spec(v: KiloHertz) -> Hertz {
        Hertz(((v.0 * 1000) % 0x1_0000_0000) as u32)
    }
}

impl From<KiloHertz> for Hertz {
    fn from(v: KiloHertz) -> (r: Hertz) {
        Hertz(v.0.wrapping_mul(1_000))
    }
}

impl vstd::std_specs::convert::FromSpecImpl<MegaHertz> for Hertz {
    open spec fn obeys_from_spec() -> bool {
        true
    }

    /// A million Hertz per MegaHertz, wrapping at 2^32.
    open spec fn from_spec(v: MegaHertz) -> Hertz {
        Hertz(((v.0 * 1_000_000) % 0x1_0000_0000) as u32)
    }
}

impl From<MegaHertz> for Hertz {
    fn from(v: MegaHertz) -> (r: Hertz) {
        Hertz(v.0.wrapping_mul(1_000_000))
    }
}

impl vstd::std_specs::convert::FromSpecImpl<MegaHertz> for KiloHertz {
    open spec fn obeys_from_spec() -> bool {
        true
    }

    /// A thousand KiloHertz per MegaHertz, wrapping at 2^32.
    open spec fn from_spec(v: MegaHertz) -> KiloHertz {
        KiloHertz(((v.0 * 1000) % 0x1_0000_0000) as u32)
    }
}

impl From<MegaHertz> for KiloHertz {
    fn from(v: MegaHertz) -> (r: KiloHertz) {
        KiloHertz(v.0.wrapping_mul(1_000))
    }
}

/// A representation of an absolute time value.
///
/// The `Instant` type is a wrapper around a `i64` value that
/// represents a number of milliseconds, monotonically increasing
/// since an arbitrary moment in time, such as system startup.
///
/// * A value of `0` is inherently arbitrary.
/// * A value less than `0` indicates a time before the starting point.
#[derive(Debug, Copy, Clone, PartialEq, Eq, Structural, PartialOrd, Ord)]
pub struct Instant {
    pub millis: i64,
}

impl Instant {
    /// Create a new `Instant` from a number of milliseconds.
    pub fn from_millis(millis: i64) -> (r: Instant)
        ensures
            r.millis == millis,
    {
        Instant { millis }
    }

    /// Create a new `Instant` from a number of seconds.
    pub fn from_secs(secs: i64) -> (r: Instant)
        requires
            i64::MIN <= secs * 1000 <= i64::MAX,
        ensures
            r.millis == secs * 1000,
    {
        Instant { millis: secs * 1000 }
    }

    /// The fractional number of milliseconds that have passed
    /// since the beginning of time (it carries the sign of the instant).
    pub fn millis(&self) -> (r: i64)
        ensures
            r == trunc_rem(self.millis as int, 1000),
    {
        self.millis % 1000
    }

    /// The number of whole seconds that have passed since the
    /// beginning of time (rounded toward zero).
    pub fn secs(&self) -> (r: i64)
        ensures
            r == trunc_div(self.millis as int, 1000),
    {
        self.millis / 1000
    }

    /// The total number of milliseconds that have passed since
    /// the beginning of time.
    pub fn total_millis(&self) -> (r: i64)
        ensures
            r == self.millis,
    {
        self.millis
    }

    /// The text `{secs}.{millis}s`, both parts in signed decimal, the
    /// fractional part without padding.
    pub fn to_string(&self) -> (r: String)
        ensures
            r@ == signed_decimal(trunc_div(self.millis as int, 1000)) + seq!['.']
                + signed_decimal(trunc_rem(self.millis as int, 1000)) + seq!['s'],
    {
        proof {
            reveal_strlit(".");
            reveal_strlit("s");
        }
        let mut s = String::new();
        push_signed_decimal(&mut s, self.secs());
        push_str(&mut s, ".");
        push_signed_decimal(&mut s, self.millis());
        push_str(&mut s, "s");
        assert(s@ =~= signed_decimal(trunc_div(self.millis as int, 1000)) + seq!['.']
            + signed_decimal(trunc_rem(self.millis as int, 1000)) + seq!['s']);
        s
    }
}

/// Decimal text of a signed integer: a leading `-` for negative values.
pub open spec fn signed_decimal(v: int) -> Seq<char> {
    if v < 0 {
        seq!['-'] + decimal((-v) as nat)
    } else {
        decimal(v as nat)
    }
}

fn push_signed_decimal(s: &mut String, v: i64)
    ensures
        final(s)@ == old(s)@ + signed_decimal(v as int),
{
    proof {
        reveal_strlit("-");
    }
    if v < 0 {
        push_str(s, "-");
        let mag: u64 = if v == i64::MIN {
            9_223_372_036_854_775_808u64
        } else {
            (-v) as u64
        };
        push_decimal(s, mag);
        assert(final(s)@ =~= old(s)@ + signed_decimal(v as int));
    } else {
        push_decimal(s, v as u64);
    }
}

fn push_str(s: &mut String, t: &str)
    ensures
        final(s)@ == old(s)@ + t@,
{
    s.append(t);
}

impl vstd::std_specs::ops::AddSpecImpl<Duration> for Instant {
    open spec fn obeys_add_spec() -> bool {
        true
    }

    open spec fn add_req(self, rhs: Duration) -> bool {
        i64::MIN <= self.millis + (rhs.millis as i64) <= i64::MAX
    }

    open spec fn add_spec(self, rhs: Duration) -> Instant {
        Instant { millis: (self.millis + (rhs.millis as i64)) as i64 }
    }
}

impl core::ops::Add<Duration> for Instant {
    type Output = Instant;

    fn add(self, rhs: Duration) -> (r: Instant) {
        Instant::from_millis(self.millis + rhs.total_millis() as i64)
    }
}

impl vstd::std_specs::ops::SubSpecImpl<Duration> for Instant {
    open spec fn obeys_sub_spec() -> bool {
        true
    }

    open spec fn sub_req(self, rhs: Duration) -> bool {
        i64::MIN <= self.millis - (rhs.millis as i64) <= i64::MAX
    }

    open spec fn sub_spec(self, rhs: Duration) -> Instant {
        Instant { millis: (self.millis - (rhs.millis as i64)) as i64 }
    }
}

impl core::ops::Sub<Duration> for Instant {
    type Output = Instant;

    fn sub(self, rhs: Duration) -> (r: Instant) {
        Instant::from_millis(self.millis - rhs.total_millis() as i64)
    }
}

impl core::ops::AddAssign<Duration> for Instant {
    fn add_assign(&mut self, rhs: Duration)
        requires
            i64::MIN <= old(self).millis + (rhs.millis as i64) <= i64::MAX,
        ensures
            final(self).millis == old(self).millis + (rhs.millis as i64),
    {
        self.millis += rhs.total_millis() as i64;
    }
}

/// A relative amount of time.
#[derive(Debug, Default, Copy, Clone, PartialEq, Eq, Structural, PartialOrd, Ord)]
pub struct Duration {
    pub millis: u64,
}

impl Duration {
    /// Create a new `Duration` from a number of milliseconds.
    pub fn from_millis(millis: u64) -> (r: Duration)
        ensures
            r.millis == millis,
    {
        Duration { millis }
    }

    /// Create a new `Duration` from a number of seconds.
    pub fn from_secs(secs: u64) -> (r: Duration)
        requires
            secs * 1000 <= u64::MAX,
        ensures
            r.millis == secs * 1000,
    {
        Duration { millis: secs * 1000 }
    }

    /// The fractional number of milliseconds in this `Duration`.
    pub fn millis(&self) -> (r: u64)
        ensures
            r == self.millis % 1000,
    {
        self.millis % 1000
    }

    /// The number of whole seconds in this `Duration`.
    pub fn secs(&self) -> (r: u64)
        ensures
            r == self.millis / 1000,
    {
        self.millis / 1000
    }

    /// The total number of milliseconds in this `Duration`.
    pub fn total_millis(&self) -> (r: u64)
        ensures
            r == self.millis,
    {
        self.millis
    }

    /// The text `{secs}.{millis}s`, the fractional part padded to three digits.
    pub fn to_string(&self) -> (r: String)
        ensures
            r@ == decimal((self.millis / 1000) as nat) + seq!['.'] + zero_padded(
                (self.millis % 1000) as nat,
                3,
            ) + seq!['s'],
    {
        proof {
            reveal_strlit(".");
            reveal_strlit("s");
        }
        let mut s = String::new();
        push_decimal(&mut s, self.secs());
        push_str(&mut s, ".");
        push_decimal_padded(&mut s, self.millis(), 3);
        push_str(&mut s, "s");
        assert(s@ =~= decimal((self.millis / 1000) as nat) + seq!['.'] + zero_padded(
            (self.millis % 1000) as nat,
            3,
        ) + seq!['s']);
        s
    }
}

impl core::ops::SubAssign<Duration> for Instant {
    fn sub_assign(&mut self, rhs: Duration)
        requires
            i64::MIN <= old(self).millis - (rhs.millis as i64) <= i64::MAX,
        ensures
            final(self).millis == old(self).millis - (rhs.millis as i64),
    {
        self.millis -= rhs.total_millis() as i64;
    }
}

impl vstd::std_specs::ops::SubSpecImpl<Instant> for Instant {
    open spec fn obeys_sub_spec() -> bool {
        true
    }

    open spec fn sub_req(self, rhs: Instant) -> bool {
        i64::MIN < self.millis - rhs.millis <= i64::MAX
    }

    open spec fn sub_spec(self, rhs: Instant) -> Duration {
        Duration { millis: abs_diff(self.millis as int, rhs.millis as int) as u64 }
    }
}

/// Distance between two integers.
pub open spec fn abs_diff(a: int, b: int) -> nat {
    if a >= b {
        (a - b) as nat
    } else {
        (b - a) as nat
    }
}

impl core::ops::Sub<Instant> for Instant {
    type Output = Duration;

    fn sub(self, rhs: Instant) -> (r: Duration) {
        let d = self.millis - rhs.millis;
        let a = if d < 0 {
            -d
        } else {
            d
        };
        Duration::from_millis(a as u64)
    }
}

impl vstd::std_specs::ops::AddSpecImpl<Duration> for Duration {
    open spec fn obeys_add_spec() -> bool {
        true
    }

    open spec fn add_req(self, rhs: Duration) -> bool {
        self.millis + rhs.millis <= u64::MAX
    }

    open spec fn add_spec(self, rhs: Duration) -> Duration {
        Duration { millis: (self.millis + rhs.millis) as u64 }
    }
}

impl core::ops::Add<Duration> for Duration {
    type Output = Duration;

    fn add(self, rhs: Duration) -> (r: Duration) {
        Duration::from_millis(self.millis + rhs.total_millis())
    }
}

impl core::ops::AddAssign<Duration> for Duration {
    fn add_assign(&mut self, rhs: Duration)
        requires
            old(self).millis + rhs.millis <= u64::MAX,
        ensures
            final(self).millis == old(self).millis + rhs.millis,
    {
        self.millis += rhs.total_millis();
    }
}

impl vstd::std_specs::ops::SubSpecImpl<Duration> for Duration {
    open spec fn obeys_sub_spec() -> bool {
        true
    }

    /// Subtracting a longer duration is refused (the subtraction would go
    /// below zero).
    open spec fn sub_req(self, rhs: Duration) -> bool {
        rhs.millis <= self.millis
    }

    open spec fn sub_spec(self, rhs: Duration) -> Duration {
        Duration { millis: (self.millis - rhs.millis) as u64 }
    }
}

impl core::ops::Sub<Duration> for Duration {
    type Output = Duration;

    fn sub(self, rhs: Duration) -> (r: Duration) {
        Duration::from_millis(self.millis - rhs.total_millis())
    }
}

impl core::ops::SubAssign<Duration> for Duration {
    fn sub_assign(&mut self, rhs: Duration)
        requires
            rhs.millis <= old(self).millis,
        ensures
            final(self).millis == old(self).millis - rhs.millis,
    {
        self.millis = self.millis - rhs.total_millis();
    }
}

impl vstd::std_specs::ops::MulSpecImpl<u32> for Duration {
    open spec fn obeys_mul_spec() -> bool {
        true
    }

    open spec fn mul_req(self, rhs: u32) -> bool {
        self.millis * rhs <= u64::MAX
    }

    open spec fn mul_spec(self, rhs: u32) -> Duration {
        Duration { millis: (self.millis * rhs) as u64 }
    }
}

impl core::ops::Mul<u32> for Duration {
    type Output = Duration;

    fn mul(self, rhs: u32) -> (r: Duration) {
        Duration::from_millis(self.millis * rhs as u64)
    }
}

impl core::ops::MulAssign<u32> for Duration {
    fn mul_assign(&mut self, rhs: u32)
        requires
            old(self).millis * rhs <= u64::MAX,
        ensures
            final(self).millis == old(self).millis * rhs,
    {
        self.millis = self.millis * rhs as u64;
    }
}

impl vstd::std_specs::ops::DivSpecImpl<u32> for Duration {
    open spec fn obeys_div_spec() -> bool {
        true
    }

    /// Division by zero is refused.
    open spec fn div_req(self, rhs: u32) -> bool {
        rhs != 0
    }

    open spec fn div_spec(self, rhs: u32) -> Duration {
        Duration { millis: self.millis / (rhs as u64) }
    }
}

impl core::ops::Div<u32> for Duration {
    type Output = Duration;

    fn div(self, rhs: u32) -> (r: Duration) {
        Duration::from_millis(self.millis / rhs as u64)
    }
}

impl core::ops::DivAssign<u32> for Duration {
    fn div_assign(&mut self, rhs: u32)
        requires
            rhs != 0,
        ensures
            final(self).millis == old(self).millis / (rhs as u64),
    {
        self.millis = self.millis / rhs as u64;
    }
}

impl Duration {
    /// The duration of `secs` whole seconds and `subsec_nanos` nanoseconds,
    /// truncated to milliseconds; the count wraps at 2^64.
    pub fn from_secs_and_nanos(secs: u64, subsec_nanos: u32) -> (r: Duration)
        ensures
            r.millis == (secs * 1000 + subsec_nanos / 1_000_000) % 0x1_0000_0000_0000_0000,
    {
        let m = secs.wrapping_mul(1000);
        let f = (subsec_nanos / 1_000_000) as u64;
        let r = m.wrapping_add(f);
        assert(r == (secs * 1000 + subsec_nanos / 1_000_000) % 0x1_0000_0000_0000_0000) by (nonlinear_arith)
            requires
                m == (secs * 1000) % 0x1_0000_0000_0000_0000,
                r == (m + f) % 0x1_0000_0000_0000_0000,
                f == subsec_nanos / 1_000_000,
        ;
        Duration::from_millis(r)
    }
}

/// The whole seconds of a `core::time::Duration`, as
/// `core::time::Duration::as_secs` returns them.
pub uninterp spec fn core_secs_of(d: core::time::Duration) -> u64;

/// The fractional part of a `core::time::Duration` in nanoseconds, as
/// `core::time::Duration::subsec_nanos` returns it.
pub uninterp spec fn core_subsec_nanos_of(d: core::time::Duration) -> u32;

/// The `core::time::Duration` that `core::time::Duration::from_millis`
/// builds from a count of milliseconds.
pub uninterp spec fn core_from_millis(millis: u64) -> core::time::Duration;

/// Whole seconds of a `core::time::Duration`
/// (`core::time::Duration::as_secs`).
#[verifier::external_body]
fn core_duration_secs(d: &core::time::Duration) -> (r: u64)
    ensures
        r == core_secs_of(*d),
{
    d.as_secs()
}

/// Fractional part of a `core::time::Duration` in nanoseconds
/// (`core::time::Duration::subsec_nanos`), which its documentation
/// promises to be below one billion.
#[verifier::external_body]
fn core_duration_subsec_nanos(d: &core::time::Duration) -> (r: u32)
    ensures
        r == core_subsec_nanos_of(*d),
        r < 1_000_000_000,
{
    d.subsec_nanos()
}

/// A `core::time::Duration` of `millis` milliseconds
/// (`core::time::Duration::from_millis`). Its documentation and source build
/// it from `millis / 1000` whole seconds and `(millis % 1000) * 1_000_000`
/// nanoseconds, which `as_secs` and `subsec_nanos` give back.
#[verifier::external_body]
fn core_duration_from_millis(millis: u64) -> (r: core::time::Duration)
    ensures
        r == core_from_millis(millis),
        core_secs_of(r) == millis / 1000,
        core_subsec_nanos_of(r) == (millis % 1000) * 1_000_000,
{
    core::time::Duration::from_millis(millis)
}

/// The duration in whole milliseconds of a `core::time::Duration`, with the
/// count wrapping at 2^64.
pub open spec fn millis_of_core(v: core::time::Duration) -> u64 {
    ((core_secs_of(v) * 1000 + core_subsec_nanos_of(v) / 1_000_000) % 0x1_0000_0000_0000_0000) as u64
}

impl vstd::std_specs::convert::FromSpecImpl<core::time::Duration> for Duration {
    open spec fn obeys_from_spec() -> bool {
        true
    }

    open spec fn from_spec(v: core::time::Duration) -> Duration {
        Duration { millis: millis_of_core(v) }
    }
}

impl From<core::time::Duration> for Duration {
    fn from(other: core::time::Duration) -> (r: Duration) {
        let secs = core_duration_secs(&other);
        let nanos = core_duration_subsec_nanos(&other);
        Duration::from_secs_and_nanos(secs, nanos)
    }
}

impl vstd::std_specs::convert::FromSpecImpl<Duration> for core::time::Duration {
    open spec fn obeys_from_spec() -> bool {
        true
    }

    open spec fn from_spec(v: Duration) -> core::time::Duration {
        core_from_millis(v.millis)
    }
}

impl From<Duration> for core::time::Duration {
    fn from(d: Duration) -> (r: core::time::Duration)
        ensures
            core_secs_of(r) == d.millis / 1000,
            core_subsec_nanos_of(r) == (d.millis % 1000) * 1_000_000,
    {
        core_duration_from_millis(d.total_millis())
    }
}

/// Converting a duration to a `core::time::Duration` and back gives the
/// same duration: the whole seconds and nanoseconds that the conversion
/// produces make up its milliseconds again.
pub proof fn lemma_core_duration_round_trip(d: Duration, v: core::time::Duration)
    requires
        core_secs_of(v) == d.millis / 1000,
        core_subsec_nanos_of(v) == (d.millis % 1000) * 1_000_000,
    ensures
        millis_of_core(v) == d.millis,
{
    let m = d.millis;
    assert(((m % 1000) * 1_000_000) / 1_000_000 == m % 1000) by (nonlinear_arith);
    assert((m / 1000) * 1000 + m % 1000 == m) by (nonlinear_arith);
    vstd::arithmetic::div_mod::lemma_small_mod(m as nat, 0x1_0000_0000_0000_0000nat);
}

/// The whole seconds and the fractional milliseconds of an instant make up
/// its total (`secs() * 1000 + millis() == total_millis()`), and the
/// fraction lies strictly between -1000 and 1000 with the instant's sign.
pub proof fn lemma_instant_parts(i: Instant)
    ensures
        trunc_div(i.millis as int, 1000) * 1000 + trunc_rem(i.millis as int, 1000) == i.millis,
        -1000 < trunc_rem(i.millis as int, 1000) < 1000,
        i.millis >= 0 ==> trunc_rem(i.millis as int, 1000) >= 0,
        i.millis < 0 ==> trunc_rem(i.millis as int, 1000) <= 0,
{
}

/// The whole seconds and the fractional milliseconds of a duration make up
/// its total (`secs() * 1000 + millis() == total_millis()`).
pub proof fn lemma_duration_parts(d: Duration)
    ensures
        (d.millis / 1000) * 1000 + d.millis % 1000 == d.millis,
        d.millis % 1000 < 1000,
{
}

/// Adding a duration to an instant and subtracting it again gives the
/// instant back, and the distance between the two instants is the duration.
pub proof fn lemma_instant_add_sub(i: Instant, d: Duration)
    requires
        d.millis <= i64::MAX,
        i.add_req(d),
    ensures
        i.add_spec(d).sub_req(d),
        i.add_spec(d).sub_spec(d) == i,
        i.add_spec(d).sub_req(i),
        i.add_spec(d).sub_spec(i) == d,
{
}

/// The distance between two instants does not depend on their order.
pub proof fn lemma_instant_distance_symmetric(a: Instant, b: Instant)
    requires
        a.sub_req(b),
        b.sub_req(a),
    ensures
        a.sub_spec(b) == b.sub_spec(a),
{
}

/// Adding a duration and subtracting it again gives the duration back.
pub proof fn lemma_duration_add_sub(a: Duration, b: Duration)
    requires
        a.add_req(b),
    ensures
        a.add_spec(b).sub_req(b),
        a.add_spec(b).sub_spec(b) == a,
{
}

/// Multiplying a duration and dividing it by the same non-zero factor gives
/// it back.
pub proof fn lemma_duration_mul_div(d: Duration, n: u32)
    requires
        n != 0,
        d.mul_req(n),
    ensures
        d.mul_spec(n).div_req(n),
        d.mul_spec(n).div_spec(n) == d,
{
    assert((d.millis * n) / (n as int) == d.millis) by (nonlinear_arith)
        requires
            n > 0,
    ;
}

/// Converting MegaHertz to Hertz directly or through KiloHertz gives the
/// same rate (both wrap at 2^32 the same way).
pub proof fn lemma_frequency_conversions_agree(m: MegaHertz)
    ensures
        <Hertz as FromSpec<KiloHertz>>::from_spec(<KiloHertz as FromSpec<MegaHertz>>::from_spec(m))
            == <Hertz as FromSpec<MegaHertz>>::from_spec(m),
{
    let k = (m.0 * 1000) % 0x1_0000_0000;
    assert((k * 1000) % 0x1_0000_0000 == (m.0 * 1_000_000) % 0x1_0000_0000) by (nonlinear_arith)
        requires
            k == (m.0 * 1000) % 0x1_0000_0000,
    {
        vstd::arithmetic::div_mod::lemma_mul_mod_noop_left(m.0 * 1000, 1000, 0x1_0000_0000);
    }
}

} // verus!
