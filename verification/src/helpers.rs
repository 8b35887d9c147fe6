//! Bit and bit-range access to 32-bit register values.
//!
//! The actual bit manipulation is done by the `bitfield` crate; the spec
//! functions below state what its `u32` implementations compute.

use vstd::prelude::*;

verus! {

/// `width` ones in the low bits (`1 <= width <= 32`).
pub open spec fn low_mask(width: u32) -> u32 {
    !0u32 >> ((32 - width) as u32)
}

/// Ones exactly at the bit positions `lsb..=msb`.
pub open spec fn field_mask(msb: u32, lsb: u32) -> u32 {
    low_mask((msb - lsb + 1) as u32) << lsb
}

/// The bits `lsb..=msb` of `v`, shifted down to bit 0.
pub open spec fn field_of(v: u32, msb: u32, lsb: u32) -> u32 {
    (v >> lsb) & low_mask((msb - lsb + 1) as u32)
}

/// `v` with the bits `lsb..=msb` replaced by the low bits of `x`.
pub open spec fn with_field(v: u32, msb: u32, lsb: u32, x: u32) -> u32 {
    (v & !field_mask(msb, lsb)) | ((x << lsb) & field_mask(msb, lsb))
}

/// Whether bit `b` of `v` is set.
pub open spec fn bit_of(v: u32, b: u32) -> bool {
    (v >> b) & 1u32 == 1u32
}

/// `v` with bit `b` set to `x`.
pub open spec fn with_bit(v: u32, b: u32, x: bool) -> u32 {
    if x {
        v | (1u32 << b)
    } else {
        v & !(1u32 << b)
    }
}

/// Calls `<u32 as bitfield::BitRange<u32>>::bit_range`, which shifts the bits
/// `lsb..=msb` of `v` down to bit 0 and clears the rest. Its shifts overflow
/// unless `lsb <= msb < 32`.
#[verifier::external_body]
pub(crate) fn bitfield_bit_range(v: u32, msb: usize, lsb: usize) -> (r: u32)
    requires
        lsb <= msb < 32,
    ensures
        r == field_of(v, msb as u32, lsb as u32),
{
    bitfield::BitRange::<u32>::bit_range(&v, msb, lsb)
}

/// Calls `<u32 as bitfield::BitRange<u32>>::set_bit_range`, which clears the
/// bits `lsb..=msb` of `*v` and ors in `value << lsb` restricted to them.
#[verifier::external_body]
pub(crate) fn bitfield_set_bit_range(v: &mut u32, msb: usize, lsb: usize, value: u32)
    requires
        lsb <= msb < 32,
    ensures
        *final(v) == with_field(*old(v), msb as u32, lsb as u32, value),
{
    bitfield::BitRange::<u32>::set_bit_range(v, msb, lsb, value)
}

/// Calls `<u32 as bitfield::Bit>::bit`, which is `bit_range::<u8>(bit, bit) != 0`:
/// whether bit `bit` of `v` is set.
#[verifier::external_body]
pub(crate) fn bitfield_bit(v: u32, bit: usize) -> (r: bool)
    requires
        bit < 32,
    ensures
        r == bit_of(v, bit as u32),
{
    bitfield::Bit::bit(&v, bit)
}

/// Calls `<u32 as bitfield::Bit>::set_bit`, which is
/// `set_bit_range::<u8>(bit, bit, value as u8)`: bit `bit` of `*v` becomes `value`.
#[verifier::external_body]
pub(crate) fn bitfield_set_bit(v: &mut u32, bit: usize, value: bool)
    requires
        bit < 32,
    ensures
        *final(v) == with_bit(*old(v), bit as u32, value),
{
    bitfield::Bit::set_bit(v, bit, value)
}

/// Access to a range of bits of a 32-bit register value.
pub trait BitRange<T> {
    /// The bits `lsb..=msb`, shifted down to bit 0.
    fn bit_range(&self, msb: usize, lsb: usize) -> T
        requires
            lsb <= msb < 32,
    ;

    /// Replaces the bits `lsb..=msb` by the low bits of `value`.
    fn set_bit_range(&mut self, msb: usize, lsb: usize, value: T)
        requires
            lsb <= msb < 32,
    ;
}

/// Access to a single bit of a 32-bit register value.
pub trait Bit {
    /// Whether bit `bit` is set.
    fn bit(&self, bit: usize) -> bool
        requires
            bit < 32,
    ;

    /// Sets bit `bit` to `value`.
    fn set_bit(&mut self, bit: usize, value: bool)
        requires
            bit < 32,
    ;
}

impl BitRange<u32> for u32 {
    fn bit_range(&self, msb: usize, lsb: usize) -> (r: u32)
        ensures
            r == field_of(*self, msb as u32, lsb as u32),
    {
        bitfield_bit_range(*self, msb, lsb)
    }

    fn set_bit_range(&mut self, msb: usize, lsb: usize, value: u32)
        ensures
            *final(self) == with_field(*old(self), msb as u32, lsb as u32, value),
    {
        bitfield_set_bit_range(self, msb, lsb, value)
    }
}

impl Bit for u32 {
    fn bit(&self, bit: usize) -> (r: bool)
        ensures
            r == bit_of(*self, bit as u32),
    {
        bitfield_bit(*self, bit)
    }

    fn set_bit(&mut self, bit: usize, value: bool)
        ensures
            *final(self) == with_bit(*old(self), bit as u32, value),
    {
        bitfield_set_bit(self, bit, value)
    }
}

/// Reading a range of bits gives back what was last written to it, cut to the
/// width of the range.
pub proof fn lemma_field_read_after_write(v: u32, msb: u32, lsb: u32, x: u32)
    requires
        lsb <= msb < 32,
    ensures
        field_of(with_field(v, msb, lsb, x), msb, lsb) == x & low_mask((msb - lsb + 1) as u32),
{
    assert(field_of(with_field(v, msb, lsb, x), msb, lsb) == x & low_mask((msb - lsb + 1) as u32))
        by (bit_vector)
        requires
            lsb <= msb < 32,
    ;
}

/// Writing a range of bits leaves every bit outside it as it was.
pub proof fn lemma_field_frame(v: u32, msb: u32, lsb: u32, x: u32, b: u32)
    requires
        lsb <= msb < 32,
        b < 32,
        b < lsb || msb < b,
    ensures
        bit_of(with_field(v, msb, lsb, x), b) == bit_of(v, b),
{
    assert(bit_of(with_field(v, msb, lsb, x), b) == bit_of(v, b)) by (bit_vector)
        requires
            lsb <= msb < 32,
            b < 32,
            b < lsb || msb < b,
    ;
}

/// Writing a range of bits leaves every disjoint range as it was.
pub proof fn lemma_field_disjoint(v: u32, msb: u32, lsb: u32, x: u32, msb2: u32, lsb2: u32)
    requires
        lsb <= msb < 32,
        lsb2 <= msb2 < 32,
        msb2 < lsb || msb < lsb2,
    ensures
        field_of(with_field(v, msb, lsb, x), msb2, lsb2) == field_of(v, msb2, lsb2),
{
    assert(field_of(with_field(v, msb, lsb, x), msb2, lsb2) == field_of(v, msb2, lsb2))
        by (bit_vector)
        requires
            lsb <= msb < 32,
            lsb2 <= msb2 < 32,
            msb2 < lsb || msb < lsb2,
    ;
}

/// Reading a bit gives back what was last written to it.
pub proof fn lemma_bit_read_after_write(v: u32, b: u32, x: bool)
    requires
        b < 32,
    ensures
        bit_of(with_bit(v, b, x), b) == x,
{
    if x {
        assert(bit_of(v | (1u32 << b), b)) by (bit_vector)
            requires
                b < 32,
        ;
    } else {
        assert(!bit_of(v & !(1u32 << b), b)) by (bit_vector)
            requires
                b < 32,
        ;
    }
}

/// Writing a bit leaves every other bit as it was.
pub proof fn lemma_bit_frame(v: u32, b: u32, x: bool, c: u32)
    requires
        b < 32,
        c < 32,
        b != c,
    ensures
        bit_of(with_bit(v, b, x), c) == bit_of(v, c),
{
    assert(bit_of(v | (1u32 << b), c) == bit_of(v, c)) by (bit_vector)
        requires
            b < 32,
            c < 32,
            b != c,
    ;
    assert(bit_of(v & !(1u32 << b), c) == bit_of(v, c)) by (bit_vector)
        requires
            b < 32,
            c < 32,
            b != c,
    ;
}

/// Setting a single bit is setting the one-bit range `b..=b` to 1 or 0, and
/// reading a single bit is reading that range.
pub proof fn lemma_bit_is_one_bit_field(v: u32, b: u32, x: bool)
    requires
        b < 32,
    ensures
        with_bit(v, b, x) == with_field(v, b, b, if x { 1u32 } else { 0u32 }),
        bit_of(v, b) == (field_of(v, b, b) == 1u32),
{
    assert(v | (1u32 << b) == with_field(v, b, b, 1u32)) by (bit_vector)
        requires
            b < 32,
    ;
    assert(v & !(1u32 << b) == with_field(v, b, b, 0u32)) by (bit_vector)
        requires
            b < 32,
    ;
    assert(bit_of(v, b) == (field_of(v, b, b) == 1u32)) by (bit_vector)
        requires
            b < 32,
    ;
}

} // verus!
