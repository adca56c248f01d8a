//! Single-bit access to register bytes, and the arithmetic reading of it.
use bit_field::BitField;
use vstd::prelude::*;

verus! {

/// The weight of bit `i` of a byte: 1, 2, 4, ..., 128.
pub open spec fn weight(i: nat) -> int {
    if i == 0 {
        1
    } else if i == 1 {
        2
    } else if i == 2 {
        4
    } else if i == 3 {
        8
    } else if i == 4 {
        16
    } else if i == 5 {
        32
    } else if i == 6 {
        64
    } else {
        128
    }
}

/// Whether bit `i` (0 = least significant) of `v` is set.
pub open spec fn bit(v: u8, i: nat) -> bool {
    if i == 0 {
        v % 2 == 1
    } else if i == 1 {
        (v / 2) % 2 == 1
    } else if i == 2 {
        (v / 4) % 2 == 1
    } else if i == 3 {
        (v / 8) % 2 == 1
    } else if i == 4 {
        (v / 16) % 2 == 1
    } else if i == 5 {
        (v / 32) % 2 == 1
    } else if i == 6 {
        (v / 64) % 2 == 1
    } else {
        v >= 128
    }
}

/// `v` with bit `i` forced to `value`, the other bits kept.
pub open spec fn with_bit(v: u8, i: nat, value: bool) -> u8 {
    if bit(v, i) == value {
        v
    } else if value {
        (v + weight(i)) as u8
    } else {
        (v - weight(i)) as u8
    }
}

/// `BitField::get_bit` of the `bit_field` crate on a byte: true when the mask
/// `1 << bit` meets `v`. The crate asserts `bit < 8`.
#[verifier::external_body]
pub(crate) fn get_bit(v: u8, bit: usize) -> (r: bool)
    requires
        bit < 8,
    ensures
        r == (v & (1u8 << bit) != 0),
{
    v.get_bit(bit)
}

/// `BitField::set_bit` of the `bit_field` crate on a byte: ors the mask
/// `1 << bit` in when `value` is true, clears it otherwise. The crate asserts
/// `bit < 8`.
#[verifier::external_body]
pub(crate) fn set_bit(v: u8, bit: usize, value: bool) -> (r: u8)
    requires
        bit < 8,
    ensures
        r == if value {
            v | (1u8 << bit)
        } else {
            v & !(1u8 << bit)
        },
{
    let mut out = v;
    out.set_bit(bit, value);
    out
}

/// `BitField::get_bit` of the `bit_field` crate on a 16-bit word. The crate
/// asserts `bit < 16`.
#[verifier::external_body]
pub(crate) fn get_bit_u16(v: u16, bit: usize) -> (r: bool)
    requires
        bit < 16,
    ensures
        r == (v & (1u16 << bit) != 0),
{
    v.get_bit(bit)
}

/// A one-bit mask, shifted or written out, selects exactly the bit that
/// [`bit`] names.
pub proof fn lemma_mask_is_bit(v: u8)
    by (bit_vector)
    ensures
        (v & (1u8 << 0usize) != 0) == (v % 2 == 1),
        (v & (1u8 << 1usize) != 0) == ((v / 2) % 2 == 1),
        (v & (1u8 << 2usize) != 0) == ((v / 4) % 2 == 1),
        (v & (1u8 << 3usize) != 0) == ((v / 8) % 2 == 1),
        (v & (1u8 << 4usize) != 0) == ((v / 16) % 2 == 1),
        (v & (1u8 << 5usize) != 0) == ((v / 32) % 2 == 1),
        (v & (1u8 << 6usize) != 0) == ((v / 64) % 2 == 1),
        (v & (1u8 << 7usize) != 0) == (v >= 128),
        (v & 0x01 == 0x01) == (v % 2 == 1),
        (v & 0x02 == 0x02) == ((v / 2) % 2 == 1),
        (v & 0x04 == 0x04) == ((v / 4) % 2 == 1),
        (v & 0x08 == 0x08) == ((v / 8) % 2 == 1),
        (v & 0x10 == 0x10) == ((v / 16) % 2 == 1),
        (v & 0x20 == 0x20) == ((v / 32) % 2 == 1),
        (v & 0x40 == 0x40) == ((v / 64) % 2 == 1),
        (v & 0x80 == 0x80) == (v >= 128),
{
}

/// Or-ing a one-bit mask in adds its weight unless the bit was set; and-ing
/// its complement takes the weight away unless the bit was clear.
pub proof fn lemma_mask_update(v: u8)
    by (bit_vector)
    ensures
        v | (1u8 << 0usize) == if v % 2 == 1 { v } else { (v + 1) as u8 },
        v | (1u8 << 1usize) == if (v / 2) % 2 == 1 { v } else { (v + 2) as u8 },
        v | (1u8 << 2usize) == if (v / 4) % 2 == 1 { v } else { (v + 4) as u8 },
        v | (1u8 << 3usize) == if (v / 8) % 2 == 1 { v } else { (v + 8) as u8 },
        v | (1u8 << 4usize) == if (v / 16) % 2 == 1 { v } else { (v + 16) as u8 },
        v | (1u8 << 5usize) == if (v / 32) % 2 == 1 { v } else { (v + 32) as u8 },
        v | (1u8 << 6usize) == if (v / 64) % 2 == 1 { v } else { (v + 64) as u8 },
        v | (1u8 << 7usize) == if v >= 128 { v } else { (v + 128) as u8 },
        v & !(1u8 << 0usize) == if v % 2 == 1 { (v - 1) as u8 } else { v },
        v & !(1u8 << 1usize) == if (v / 2) % 2 == 1 { (v - 2) as u8 } else { v },
        v & !(1u8 << 2usize) == if (v / 4) % 2 == 1 { (v - 4) as u8 } else { v },
        v & !(1u8 << 3usize) == if (v / 8) % 2 == 1 { (v - 8) as u8 } else { v },
        v & !(1u8 << 4usize) == if (v / 16) % 2 == 1 { (v - 16) as u8 } else { v },
        v & !(1u8 << 5usize) == if (v / 32) % 2 == 1 { (v - 32) as u8 } else { v },
        v & !(1u8 << 6usize) == if (v / 64) % 2 == 1 { (v - 64) as u8 } else { v },
        v & !(1u8 << 7usize) == if v >= 128 { (v - 128) as u8 } else { v },
{
}

/// Reads bit `i` of `v`.
pub fn test_bit(v: u8, i: usize) -> (r: bool)
    requires
        i < 8,
    ensures
        r == bit(v, i as nat),
{
    proof {
        lemma_mask_is_bit(v);
    }
    get_bit(v, i)
}

/// Returns `v` with bit `i` forced to `value`.
pub fn assign_bit(v: u8, i: usize, value: bool) -> (r: u8)
    requires
        i < 8,
    ensures
        r == with_bit(v, i as nat, value),
{
    proof {
        lemma_mask_is_bit(v);
        lemma_mask_update(v);
    }
    set_bit(v, i, value)
}

/// Reads the least significant bit of a 16-bit word.
pub fn test_low_bit_u16(v: u16) -> (r: bool)
    ensures
        r == (v % 2 == 1),
{
    assert((v & (1u16 << 0usize) != 0) == (v % 2 == 1)) by (bit_vector);
    get_bit_u16(v, 0)
}

} // verus!
