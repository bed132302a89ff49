//! Bit-level reads and writes on register values, carried out by the
//! `bit_field` crate, and the facts about them that the registers need.
use bit_field::BitField;
use vstd::prelude::*;

verus! {

/// Whether bit `i` of `v` is set.
pub open spec fn bit16(v: u16, i: u16) -> bool {
    (v >> i) & 1u16 == 1u16
}

/// Whether bit `i` of `v` is set.
pub open spec fn bit32(v: u32, i: u32) -> bool {
    (v >> i) & 1u32 == 1u32
}

/// `v` with bit `i` set to `b` and every other bit kept.
pub open spec fn with_bit16(v: u16, i: u16, b: bool) -> u16 {
    if b {
        v | (1u16 << i)
    } else {
        v & !(1u16 << i)
    }
}

/// The lowest `len` bits set, the others clear (for `len < 16`).
pub open spec fn low_mask16(len: u16) -> u16 {
    !(0xffffu16 << len)
}

/// The `len` bits of `v` that start at bit `lo`, moved down to bit 0.
pub open spec fn field16(v: u16, lo: u16, len: u16) -> u16 {
    (v >> lo) & low_mask16(len)
}

/// The lowest `len` bits set, the others clear (for `len < 32`).
pub open spec fn low_mask32(len: u32) -> u32 {
    !(0xffff_ffffu32 << len)
}

/// `v` with the `len` bits that start at bit `lo` replaced by `x`.
pub open spec fn with_field32(v: u32, lo: u32, len: u32, x: u32) -> u32 {
    (v & !(low_mask32(len) << lo)) | (x << lo)
}

/// Relies on `BitField::get_bit` for `u16`: whether bit `bit` is set.
/// It panics for `bit >= 16`.
#[verifier::external_body]
pub(crate) fn get_bit16(v: u16, bit: usize) -> (r: bool)
    requires
        bit < 16,
    ensures
        r == bit16(v, bit as u16),
{
    v.get_bit(bit)
}

/// Relies on `BitField::get_bits` for `u16` over the range `lo..hi`: those
/// bits, shifted down to bit 0. It panics unless `lo < 16` and `lo <= hi <= 16`.
#[verifier::external_body]
pub(crate) fn get_bits16(v: u16, lo: usize, hi: usize) -> (r: u16)
    requires
        lo < hi < 16,
    ensures
        r == field16(v, lo as u16, (hi - lo) as u16),
{
    v.get_bits(lo..hi)
}

/// Relies on `BitField::set_bit` for `u16`: sets or clears bit `bit` and keeps
/// the others. It panics for `bit >= 16`.
#[verifier::external_body]
pub(crate) fn set_bit16(v: &mut u16, bit: usize, value: bool)
    requires
        bit < 16,
    ensures
        *final(v) == with_bit16(*old(v), bit as u16, value),
{
    v.set_bit(bit, value);
}

/// Relies on `BitField::set_bits` for `u32` over the range `lo..hi`: those bits
/// take the value `value`, the others are kept. It panics unless the range
/// lies within 32 bits and `value` fits in `hi - lo` bits.
#[verifier::external_body]
pub(crate) fn set_bits32(v: &mut u32, lo: usize, hi: usize, value: u32)
    requires
        lo < hi < 32,
        value >> ((hi - lo) as u32) == 0,
    ensures
        *final(v) == with_field32(*old(v), lo as u32, (hi - lo) as u32, value),
{
    v.set_bits(lo..hi, value);
}

/// Setting one bit leaves every other bit as it was.
pub proof fn lemma_with_bit16(v: u16, i: u16, b: bool, j: u16)
    requires
        i < 16,
        j < 16,
    ensures
        bit16(with_bit16(v, i, b), j) == if i == j {
            b
        } else {
            bit16(v, j)
        },
{
    if b {
        assert(bit16(v | (1u16 << i), j) == if i == j {
            true
        } else {
            bit16(v, j)
        }) by (bit_vector)
            requires
                i < 16,
                j < 16,
        ;
    } else {
        assert(bit16(v & !(1u16 << i), j) == if i == j {
            false
        } else {
            bit16(v, j)
        }) by (bit_vector)
            requires
                i < 16,
                j < 16,
        ;
    }
}

/// Two 16-bit values with the same bits are equal.
pub proof fn lemma_bits16_equal(a: u16, b: u16)
    requires
        forall|i: u16| i < 16 ==> bit16(a, i) == bit16(b, i),
    ensures
        a == b,
{
    assert(bit16(a, 0) == bit16(b, 0));
    assert(bit16(a, 1) == bit16(b, 1));
    assert(bit16(a, 2) == bit16(b, 2));
    assert(bit16(a, 3) == bit16(b, 3));
    assert(bit16(a, 4) == bit16(b, 4));
    assert(bit16(a, 5) == bit16(b, 5));
    assert(bit16(a, 6) == bit16(b, 6));
    assert(bit16(a, 7) == bit16(b, 7));
    assert(bit16(a, 8) == bit16(b, 8));
    assert(bit16(a, 9) == bit16(b, 9));
    assert(bit16(a, 10) == bit16(b, 10));
    assert(bit16(a, 11) == bit16(b, 11));
    assert(bit16(a, 12) == bit16(b, 12));
    assert(bit16(a, 13) == bit16(b, 13));
    assert(bit16(a, 14) == bit16(b, 14));
    assert(bit16(a, 15) == bit16(b, 15));
    assert(a == b) by (bit_vector)
        requires
            bit16(a, 0) == bit16(b, 0),
            bit16(a, 1) == bit16(b, 1),
            bit16(a, 2) == bit16(b, 2),
            bit16(a, 3) == bit16(b, 3),
            bit16(a, 4) == bit16(b, 4),
            bit16(a, 5) == bit16(b, 5),
            bit16(a, 6) == bit16(b, 6),
            bit16(a, 7) == bit16(b, 7),
            bit16(a, 8) == bit16(b, 8),
            bit16(a, 9) == bit16(b, 9),
            bit16(a, 10) == bit16(b, 10),
            bit16(a, 11) == bit16(b, 11),
            bit16(a, 12) == bit16(b, 12),
            bit16(a, 13) == bit16(b, 13),
            bit16(a, 14) == bit16(b, 14),
            bit16(a, 15) == bit16(b, 15),
    ;
}

} // verus!
