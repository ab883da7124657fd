//! Bit-range views over 32-bit register words.
use vstd::prelude::*;

verus! {

/// The low `width` bits set, for `width` in `1..=32`.
pub open spec fn low_mask(width: u32) -> u32 {
    if width >= 32 {
        0xFFFF_FFFFu32
    } else {
        ((1u32 << width) - 1) as u32
    }
}

/// The unsigned value held in bits `lo .. lo + width` of `word`.
pub open spec fn field(word: u32, lo: u32, width: u32) -> u32 {
    (word >> lo) & low_mask(width)
}

/// `word` with bits `lo .. lo + width` replaced by the low `width` bits of `value`.
pub open spec fn with_field(word: u32, lo: u32, width: u32, value: u32) -> u32 {
    (word & !(low_mask(width) << lo)) | ((value & low_mask(width)) << lo)
}

/// Whether bit `bit` of `word` is set.
pub open spec fn flag(word: u32, bit: u32) -> bool {
    (word >> bit) & 1 == 1
}

/// `word` with bit `bit` set to `value`.
pub open spec fn with_flag(word: u32, bit: u32, value: bool) -> u32 {
    if value {
        word | (1u32 << bit)
    } else {
        word & !(1u32 << bit)
    }
}

pub open spec fn valid_range(lo: u32, width: u32) -> bool {
    1 <= width && lo + width <= 32
}

/// The mask of the low `width` bits.
pub fn mask(width: u32) -> (r: u32)
    requires
        1 <= width <= 32,
    ensures
        r == low_mask(width),
{
    if width >= 32 {
        0xFFFF_FFFF
    } else {
        assert(1u32 << width >= 1) by (bit_vector)
            requires
                width < 32,
        ;
        (1u32 << width) - 1
    }
}

/// Reads the field at bits `lo .. lo + width`.
pub fn get_field(word: u32, lo: u32, width: u32) -> (r: u32)
    requires
        valid_range(lo, width),
    ensures
        r == field(word, lo, width),
{
    (word >> lo) & mask(width)
}

/// Replaces the field at bits `lo .. lo + width`.
pub fn put_field(word: u32, lo: u32, width: u32, value: u32) -> (r: u32)
    requires
        valid_range(lo, width),
    ensures
        r == with_field(word, lo, width, value),
{
    let m = mask(width);
    (word & !(m << lo)) | ((value & m) << lo)
}

/// Reads bit `bit`.
pub fn get_flag(word: u32, bit: u32) -> (r: bool)
    requires
        bit < 32,
    ensures
        r == flag(word, bit),
{
    (word >> bit) & 1 == 1
}

/// Sets bit `bit` to `value`.
pub fn put_flag(word: u32, bit: u32, value: bool) -> (r: u32)
    requires
        bit < 32,
    ensures
        r == with_flag(word, bit, value),
{
    if value {
        word | (1u32 << bit)
    } else {
        word & !(1u32 << bit)
    }
}

/// A field reads back the value written to it, cut to its width, and the
/// bits outside it keep their value.
pub proof fn lemma_field_round_trip(word: u32, lo: u32, width: u32, value: u32)
    requires
        valid_range(lo, width),
    ensures
        field(with_field(word, lo, width, value), lo, width) == value & low_mask(width),
        forall|b: u32|
            b < 32 && (b < lo || b >= lo + width) ==> #[trigger] flag(
                with_field(word, lo, width, value),
                b,
            ) == flag(word, b),
{
    assert(field(with_field(word, lo, width, value), lo, width) == value & low_mask(width))
        by (bit_vector)
        requires
            1 <= width && lo + width <= 32,
    ;
    assert forall|b: u32| b < 32 && (b < lo || b >= lo + width) implies #[trigger] flag(
        with_field(word, lo, width, value),
        b,
    ) == flag(word, b) by {
        assert(flag(with_field(word, lo, width, value), b) == flag(word, b)) by (bit_vector)
            requires
                1 <= width && lo + width <= 32 && b < 32 && (b < lo || b >= lo + width),
        ;
    }
}

/// A flag reads back the value written to it, and the other bits keep theirs.
pub proof fn lemma_flag_round_trip(word: u32, bit: u32, value: bool)
    requires
        bit < 32,
    ensures
        flag(with_flag(word, bit, value), bit) == value,
        forall|b: u32| b < 32 && b != bit ==> #[trigger] flag(with_flag(word, bit, value), b) == flag(word, b),
{
    assert(flag(with_flag(word, bit, value), bit) == value) by (bit_vector)
        requires
            bit < 32,
    ;
    assert forall|b: u32| b < 32 && b != bit implies #[trigger] flag(with_flag(word, bit, value), b) == flag(word, b) by {
        assert(flag(with_flag(word, bit, value), b) == flag(word, b)) by (bit_vector)
            requires
                bit < 32 && b < 32 && b != bit,
        ;
    }
}

/// The masks of the widths that register fields use.
pub proof fn lemma_low_mask_values()
    by (bit_vector)
    ensures
        low_mask(1) == 1,
        low_mask(2) == 3,
        low_mask(3) == 7,
        low_mask(4) == 15,
        low_mask(5) == 31,
        low_mask(6) == 63,
        low_mask(7) == 127,
        low_mask(8) == 255,
        low_mask(10) == 1023,
        low_mask(11) == 2047,
        low_mask(12) == 4095,
        low_mask(16) == 0xFFFF,
        low_mask(18) == 0x3FFFF,
        low_mask(23) == 0x7F_FFFF,
        low_mask(32) == 0xFFFF_FFFF,
{
}

/// A field never exceeds its mask.
pub proof fn lemma_field_bound(word: u32, lo: u32, width: u32)
    requires
        valid_range(lo, width),
    ensures
        field(word, lo, width) <= low_mask(width),
{
    lemma_low_mask_values();
    assert(field(word, lo, width) <= low_mask(width)) by (bit_vector)
        requires
            1 <= width && lo + width <= 32,
    ;
}

} // verus!
