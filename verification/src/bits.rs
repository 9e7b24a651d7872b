//! Bit fields of register values: reading and writing the bits `msb..=lsb`.
use vstd::prelude::*;

verus! {

/// The mask of the low `w` bits of a 64-bit value.
pub open spec fn mask_of(w: u64) -> u64 {
    if w >= 64 {
        0xffff_ffff_ffff_ffffu64
    } else {
        ((1u64 << w) - 1) as u64
    }
}

/// The field `msb..=lsb` of `v`, shifted down to bit 0.
pub open spec fn field_of(v: u64, msb: u64, lsb: u64) -> u64 {
    (v >> lsb) & mask_of((msb - lsb + 1) as u64)
}

/// `v` with the field `msb..=lsb` replaced by the low bits of `x`.
pub open spec fn with_field(v: u64, msb: u64, lsb: u64, x: u64) -> u64 {
    (v & !(mask_of((msb - lsb + 1) as u64) << lsb)) | ((x & mask_of((msb - lsb + 1) as u64)) << lsb)
}

/// Bounds of a masked 64-bit value; the all-ones mask keeps a value; a
/// shift of 1 below 64 is not 0.
pub proof fn lemma_and_bound(x: u64, m: u64)
    by (bit_vector)
    ensures
        x & m <= m,
        x & m <= x,
        x & 0xffff_ffff_ffff_ffff == x,
        m < 64 ==> 1u64 << m >= 1,
{
}

/// Bounds of a masked 32-bit value.
pub proof fn lemma_and_bound_u32(x: u32, m: u32)
    by (bit_vector)
    ensures
        x & m <= m,
        x & m <= x,
{
}

/// Bounds of a masked `usize` value.
pub proof fn lemma_and_bound_usize(x: usize, m: usize)
    by (bit_vector)
    ensures
        x & m <= m,
        x & m <= x,
{
}

/// The masks of the field widths the registers are cut into.
pub proof fn lemma_mask_values()
    by (bit_vector)
    ensures
        mask_of(0) == 0,
        mask_of(1) == 1,
        mask_of(2) == 3,
        mask_of(4) == 15,
        mask_of(22) == 0x3f_ffff,
        mask_of(30) == 0x3fff_ffff,
        mask_of(32) == 0xffff_ffff,
        mask_of(44) == 0xfff_ffff_ffff,
        mask_of(54) == 0x3f_ffff_ffff_ffff,
        mask_of(62) == 0x3fff_ffff_ffff_ffff,
{
}

/// Reads the field `msb..=lsb` of `v`.
pub fn bit_range(v: u64, msb: u64, lsb: u64) -> (r: u64)
    requires
        lsb <= msb < 64,
    ensures
        r == field_of(v, msb, lsb),
{
    let w = msb - lsb + 1;
    proof {
        lemma_and_bound(v >> lsb, w);
    }
    if w >= 64 {
        v >> lsb
    } else {
        (v >> lsb) & ((1u64 << w) - 1)
    }
}

/// Writes the low bits of `x` into the field `msb..=lsb` of `v`.
pub fn set_bit_range(v: u64, msb: u64, lsb: u64, x: u64) -> (r: u64)
    requires
        lsb <= msb < 64,
    ensures
        r == with_field(v, msb, lsb, x),
{
    let w = msb - lsb + 1;
    proof {
        lemma_and_bound(v, w);
    }
    let m: u64 = if w >= 64 {
        0xffff_ffff_ffff_ffff
    } else {
        (1u64 << w) - 1
    };
    (v & !(m << lsb)) | ((x & m) << lsb)
}

/// A field reads back what was written into it, cut to its width.
pub proof fn lemma_field_of_with_field(v: u64, msb: u64, lsb: u64, x: u64)
    requires
        lsb <= msb < 64,
    ensures
        field_of(with_field(v, msb, lsb, x), msb, lsb) == x & mask_of((msb - lsb + 1) as u64),
{
    assert(field_of(with_field(v, msb, lsb, x), msb, lsb) == x & mask_of((msb - lsb + 1) as u64))
        by (bit_vector)
        requires
            lsb <= msb < 64,
    ;
}

/// Writing a field leaves every field that does not overlap it unchanged.
pub proof fn lemma_field_of_with_other_field(v: u64, msb: u64, lsb: u64, x: u64, msb2: u64, lsb2: u64)
    requires
        lsb <= msb < 64,
        lsb2 <= msb2 < 64,
        msb2 < lsb || msb < lsb2,
    ensures
        field_of(with_field(v, msb, lsb, x), msb2, lsb2) == field_of(v, msb2, lsb2),
{
    assert(field_of(with_field(v, msb, lsb, x), msb2, lsb2) == field_of(v, msb2, lsb2))
        by (bit_vector)
        requires
            lsb <= msb < 64,
            lsb2 <= msb2 < 64,
            msb2 < lsb || msb < lsb2,
    ;
}

/// A field never holds more bits than its width.
pub proof fn lemma_field_of_bound(v: u64, msb: u64, lsb: u64)
    requires
        lsb <= msb < 64,
    ensures
        field_of(v, msb, lsb) <= mask_of((msb - lsb + 1) as u64),
{
    assert(field_of(v, msb, lsb) <= mask_of((msb - lsb + 1) as u64)) by (bit_vector)
        requires
            lsb <= msb < 64,
    ;
}

} // verus!
