//! Masked single-bit and bit-field updates of a 32-bit register word.

use vstd::prelude::*;

verus! {

/// Whether bit `b` of `w` is set.
pub open spec fn bit_is_set(w: u32, b: u32) -> bool {
    (w >> b) & 1u32 == 1u32
}

/// `w` with bit `b` forced to `v`.
pub open spec fn with_bit(w: u32, b: u32, v: bool) -> u32 {
    if v {
        w | (1u32 << b)
    } else {
        w & !(1u32 << b)
    }
}

/// The mask of a field `width` bits wide, at offset zero.
pub open spec fn field_mask(width: u32) -> u32 {
    ((1u32 << width) - 1u32) as u32
}

/// Whether a field of `width` bits at `off` lies inside a 32-bit word.
pub open spec fn field_fits(off: u32, width: u32) -> bool {
    1 <= width <= 31 && off + width <= 32
}

/// The value of the field of `width` bits at `off` in `w`.
pub open spec fn field_of(w: u32, off: u32, width: u32) -> u32 {
    (w >> off) & field_mask(width)
}

/// `w` with the field of `width` bits at `off` replaced by `v`.
pub open spec fn with_field(w: u32, off: u32, width: u32, v: u32) -> u32 {
    (w & !(field_mask(width) << off)) | ((v & field_mask(width)) << off)
}

/// Writing one bit gives that bit the written value and keeps every other bit.
pub proof fn lemma_with_bit(w: u32, b: u32, v: bool, i: u32)
    requires
        b < 32,
        i < 32,
    ensures
        bit_is_set(with_bit(w, b, v), i) == if i == b { v } else { bit_is_set(w, i) },
{
    if v {
        assert(((w | (1u32 << b)) >> i) & 1u32 == 1u32 <==> (i == b || (w >> i) & 1u32 == 1u32))
            by (bit_vector)
            requires
                b < 32,
                i < 32,
        ;
    } else {
        assert(((w & !(1u32 << b)) >> i) & 1u32 == 1u32 <==> (i != b && (w >> i) & 1u32 == 1u32))
            by (bit_vector)
            requires
                b < 32,
                i < 32,
        ;
    }
}

/// A field reads back the value last written to it.
pub proof fn lemma_field_round_trip(w: u32, off: u32, width: u32, v: u32)
    requires
        field_fits(off, width),
        v <= field_mask(width),
    ensures
        field_of(with_field(w, off, width, v), off, width) == v,
{
    assert((((w & !((((1u32 << width) - 1u32) as u32) << off)) | ((v & (((1u32 << width)
        - 1u32) as u32)) << off)) >> off) & (((1u32 << width) - 1u32) as u32) == v) by (bit_vector)
        requires
            1 <= width <= 31,
            off + width <= 32,
            v <= (((1u32 << width) - 1u32) as u32),
    ;
}

/// Writing one field leaves every field that does not overlap it unchanged.
pub proof fn lemma_field_disjoint(w: u32, off: u32, width: u32, v: u32, off2: u32, width2: u32)
    requires
        field_fits(off, width),
        field_fits(off2, width2),
        off + width <= off2 || off2 + width2 <= off,
    ensures
        field_of(with_field(w, off, width, v), off2, width2) == field_of(w, off2, width2),
{
    assert((((w & !((((1u32 << width) - 1u32) as u32) << off)) | ((v & (((1u32 << width)
        - 1u32) as u32)) << off)) >> off2) & (((1u32 << width2) - 1u32) as u32) == (w >> off2)
        & (((1u32 << width2) - 1u32) as u32)) by (bit_vector)
        requires
            1 <= width <= 31,
            off + width <= 32,
            1 <= width2 <= 31,
            off2 + width2 <= 32,
            off + width <= off2 || off2 + width2 <= off,
    ;
}

/// Sets bit `b` of `w`, leaving the other bits as they are.
pub fn set_bit(w: u32, b: u32) -> (r: u32)
    requires
        b < 32,
    ensures
        r == with_bit(w, b, true),
{
    w | (1u32 << b)
}

/// Clears bit `b` of `w`, leaving the other bits as they are.
pub fn clear_bit(w: u32, b: u32) -> (r: u32)
    requires
        b < 32,
    ensures
        r == with_bit(w, b, false),
{
    w & !(1u32 << b)
}

/// Forces bit `b` of `w` to `v`, leaving the other bits as they are.
pub fn write_bit(w: u32, b: u32, v: bool) -> (r: u32)
    requires
        b < 32,
    ensures
        r == with_bit(w, b, v),
{
    if v {
        set_bit(w, b)
    } else {
        clear_bit(w, b)
    }
}

/// Reads the field of `width` bits at `off`.
pub fn read_field(w: u32, off: u32, width: u32) -> (r: u32)
    requires
        field_fits(off, width),
    ensures
        r == field_of(w, off, width),
        r <= field_mask(width),
{
    assert((1u32 << width) >= 1u32) by (bit_vector)
        requires
            1 <= width <= 31,
    ;
    let mask: u32 = (1u32 << width) - 1u32;
    let r: u32 = (w >> off) & mask;
    assert((w >> off) & mask <= mask) by (bit_vector);
    r
}

/// Replaces the field of `width` bits at `off` by `v`, leaving the other
/// bits as they are.
pub fn write_field(w: u32, off: u32, width: u32, v: u32) -> (r: u32)
    requires
        field_fits(off, width),
        v <= field_mask(width),
    ensures
        r == with_field(w, off, width, v),
{
    assert((1u32 << width) >= 1u32) by (bit_vector)
        requires
            1 <= width <= 31,
    ;
    let mask: u32 = (1u32 << width) - 1u32;
    (w & !(mask << off)) | ((v & mask) << off)
}

} // verus!
