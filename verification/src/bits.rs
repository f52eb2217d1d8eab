//! Bit fields of register words, read and written through the `bitfield`
//! crate's `BitRange` and `Bit` implementations for unsigned integers.
use vstd::prelude::*;

verus! {

/// The bits `lsb..=msb` of a 32-bit word.
pub open spec fn field_mask(msb: u32, lsb: u32) -> u32 {
    (0xffff_ffffu32 >> ((31 - msb) as u32)) & (0xffff_ffffu32 << lsb)
}

/// The value of the field `lsb..=msb` of `word`.
pub open spec fn field(word: u32, msb: u32, lsb: u32) -> u32 {
    (word & field_mask(msb, lsb)) >> lsb
}

/// `word` with the field `lsb..=msb` replaced by the low bits of `value`.
pub open spec fn with_field(word: u32, msb: u32, lsb: u32, value: u32) -> u32 {
    (word & !field_mask(msb, lsb)) | ((value << lsb) & field_mask(msb, lsb))
}

/// Whether bit `b` of `word` is set.
pub open spec fn bit(word: u32, b: u32) -> bool {
    (word >> b) & 1 == 1
}

/// `word` with bit `b` set to `value`.
pub open spec fn with_bit(word: u32, b: u32, value: bool) -> u32 {
    if value {
        word | (1u32 << b)
    } else {
        word & !(1u32 << b)
    }
}

/// Whether bit `b` of a 16-bit `word` is set.
pub open spec fn bit16(word: u16, b: u16) -> bool {
    (word >> b) & 1 == 1
}

/// The field `lsb..=msb` of `word` (`<u32 as bitfield::BitRange<u32>>::bit_range`):
/// the bits shifted down to bit 0.
#[verifier::external_body]
pub(crate) fn u32_bit_range(word: u32, msb: usize, lsb: usize) -> (r: u32)
    requires
        lsb <= msb < 32,
    ensures
        r == field(word, msb as u32, lsb as u32),
{
    bitfield::BitRange::<u32>::bit_range(&word, msb, lsb)
}

/// `word` with the field `lsb..=msb` set from `value`
/// (`<u32 as bitfield::BitRange<u32>>::set_bit_range`): the bits outside the
/// field are kept, and the bits of `value` that do not fit are dropped.
#[verifier::external_body]
pub(crate) fn u32_set_bit_range(word: u32, msb: usize, lsb: usize, value: u32) -> (r: u32)
    requires
        lsb <= msb < 32,
    ensures
        r == with_field(word, msb as u32, lsb as u32, value),
{
    let mut w = word;
    bitfield::BitRange::<u32>::set_bit_range(&mut w, msb, lsb, value);
    w
}

/// Bit `b` of `word` (`<u32 as bitfield::Bit>::bit`).
#[verifier::external_body]
pub(crate) fn u32_bit(word: u32, b: usize) -> (r: bool)
    requires
        b < 32,
    ensures
        r == bit(word, b as u32),
{
    bitfield::Bit::bit(&word, b)
}

/// `word` with bit `b` set to `value` (`<u32 as bitfield::Bit>::set_bit`).
#[verifier::external_body]
pub(crate) fn u32_set_bit(word: u32, b: usize, value: bool) -> (r: u32)
    requires
        b < 32,
    ensures
        r == with_bit(word, b as u32, value),
{
    let mut w = word;
    bitfield::Bit::set_bit(&mut w, b, value);
    w
}

/// Bit `b` of a 16-bit `word` (`<u16 as bitfield::Bit>::bit`).
#[verifier::external_body]
pub(crate) fn u16_bit(word: u16, b: usize) -> (r: bool)
    requires
        b < 16,
    ensures
        r == bit16(word, b as u16),
{
    bitfield::Bit::bit(&word, b)
}

/// Reading a field gives back what was last written to it, cut to the
/// field's width, and writing a field leaves every bit outside it as it was.
pub proof fn lemma_field_write_read(word: u32, msb: u32, lsb: u32, value: u32)
    requires
        lsb <= msb < 32,
    ensures
        field(with_field(word, msb, lsb, value), msb, lsb) == field(value << lsb, msb, lsb),
        forall|b: u32|
            b < 32 && !(lsb <= b <= msb) ==> #[trigger] bit(with_field(word, msb, lsb, value), b)
                == bit(word, b),
{
    assert(field(with_field(word, msb, lsb, value), msb, lsb) == field(value << lsb, msb, lsb))
        by (bit_vector)
        requires
            lsb <= msb < 32,
    ;
    assert forall|b: u32| b < 32 && !(lsb <= b <= msb) implies #[trigger] bit(
        with_field(word, msb, lsb, value),
        b,
    ) == bit(word, b) by {
        assert(((((word & !field_mask(msb, lsb)) | ((value << lsb) & field_mask(msb, lsb))) >> b)
            & 1 == 1) == (((word >> b) & 1) == 1)) by (bit_vector)
            requires
                lsb <= msb < 32,
                b < 32,
                !(lsb <= b <= msb),
        ;
    }
}

/// Reading a bit gives back what was last written to it, and writing a bit
/// leaves every other bit as it was.
pub proof fn lemma_bit_write_read(word: u32, b: u32, value: bool)
    requires
        b < 32,
    ensures
        bit(with_bit(word, b, value), b) == value,
        forall|c: u32| c < 32 && c != b ==> #[trigger] bit(with_bit(word, b, value), c) == bit(
            word,
            c,
        ),
{
    assert(((word | (1u32 << b)) >> b) & 1 == 1) by (bit_vector)
        requires
            b < 32,
    ;
    assert(((word & !(1u32 << b)) >> b) & 1 == 0) by (bit_vector)
        requires
            b < 32,
    ;
    assert forall|c: u32| c < 32 && c != b implies #[trigger] bit(with_bit(word, b, value), c)
        == bit(word, c) by {
        assert((((word | (1u32 << b)) >> c) & 1 == 1) == (((word >> c) & 1) == 1)) by (bit_vector)
            requires
                b < 32,
                c < 32,
                c != b,
        ;
        assert((((word & !(1u32 << b)) >> c) & 1 == 1) == (((word >> c) & 1) == 1))
            by (bit_vector)
            requires
                b < 32,
                c < 32,
                c != b,
        ;
    }
}

} // verus!
