//! The flag view over the `f` register.
//!
//! The upper nibble of the 8-bit flag register packs four independent boolean
//! flags at fixed bit positions; the lower nibble is unused and every
//! operation of the core leaves it as it found it.  The bit positions match
//! the hardware encoding exactly: conditional instructions in real programs
//! depend on them.

use vstd::prelude::*;

verus! {

/// Mask of the zero flag (Z), bit 7: set when a result was 0.
pub const MASK_Z: u8 = 0x80;

/// Mask of the subtraction flag (N), bit 6: set when the operation subtracted.
pub const MASK_N: u8 = 0x40;

/// Mask of the half-carry flag (H), bit 5: a carry out of bit 3 into bit 4.
pub const MASK_H: u8 = 0x20;

/// Mask of the carry flag (C), bit 4: a carry out of the highest operand bit.
pub const MASK_C: u8 = 0x10;

/// The zero flag packed in a flag-register byte.
pub open spec fn flag_z(f: u8) -> bool {
    f & MASK_Z != 0
}

/// The subtraction flag packed in a flag-register byte.
pub open spec fn flag_n(f: u8) -> bool {
    f & MASK_N != 0
}

/// The half-carry flag packed in a flag-register byte.
pub open spec fn flag_h(f: u8) -> bool {
    f & MASK_H != 0
}

/// The carry flag packed in a flag-register byte.
pub open spec fn flag_c(f: u8) -> bool {
    f & MASK_C != 0
}

/// The unused lower nibble of a flag-register byte.  No flag lives there; by
/// convention it stays zero, and every flag write preserves it.
pub open spec fn low_nibble(f: u8) -> u8 {
    f & 0x0F
}

/// Or-ing the Z mask in sets Z; and-ing its complement clears Z; either way
/// N, H, C and the unused nibble keep their values.
pub(crate) proof fn lemma_update_z(f: u8)
    by (bit_vector)
    ensures
        flag_z(f | MASK_Z),
        !flag_z(f & !MASK_Z),
        flag_n(f | MASK_Z) == flag_n(f),
        flag_n(f & !MASK_Z) == flag_n(f),
        flag_h(f | MASK_Z) == flag_h(f),
        flag_h(f & !MASK_Z) == flag_h(f),
        flag_c(f | MASK_Z) == flag_c(f),
        flag_c(f & !MASK_Z) == flag_c(f),
        low_nibble(f | MASK_Z) == low_nibble(f),
        low_nibble(f & !MASK_Z) == low_nibble(f),
{
}

/// Or-ing the N mask in sets N; and-ing its complement clears N; either way
/// Z, H, C and the unused nibble keep their values.
pub(crate) proof fn lemma_update_n(f: u8)
    by (bit_vector)
    ensures
        flag_n(f | MASK_N),
        !flag_n(f & !MASK_N),
        flag_z(f | MASK_N) == flag_z(f),
        flag_z(f & !MASK_N) == flag_z(f),
        flag_h(f | MASK_N) == flag_h(f),
        flag_h(f & !MASK_N) == flag_h(f),
        flag_c(f | MASK_N) == flag_c(f),
        flag_c(f & !MASK_N) == flag_c(f),
        low_nibble(f | MASK_N) == low_nibble(f),
        low_nibble(f & !MASK_N) == low_nibble(f),
{
}

/// Or-ing the H mask in sets H; and-ing its complement clears H; either way
/// Z, N, C and the unused nibble keep their values.
pub(crate) proof fn lemma_update_h(f: u8)
    by (bit_vector)
    ensures
        flag_h(f | MASK_H),
        !flag_h(f & !MASK_H),
        flag_z(f | MASK_H) == flag_z(f),
        flag_z(f & !MASK_H) == flag_z(f),
        flag_n(f | MASK_H) == flag_n(f),
        flag_n(f & !MASK_H) == flag_n(f),
        flag_c(f | MASK_H) == flag_c(f),
        flag_c(f & !MASK_H) == flag_c(f),
        low_nibble(f | MASK_H) == low_nibble(f),
        low_nibble(f & !MASK_H) == low_nibble(f),
{
}

/// Or-ing the C mask in sets C; and-ing its complement clears C; either way
/// Z, N, H and the unused nibble keep their values.
pub(crate) proof fn lemma_update_c(f: u8)
    by (bit_vector)
    ensures
        flag_c(f | MASK_C),
        !flag_c(f & !MASK_C),
        flag_z(f | MASK_C) == flag_z(f),
        flag_z(f & !MASK_C) == flag_z(f),
        flag_n(f | MASK_C) == flag_n(f),
        flag_n(f & !MASK_C) == flag_n(f),
        flag_h(f | MASK_C) == flag_h(f),
        flag_h(f & !MASK_C) == flag_h(f),
        low_nibble(f | MASK_C) == low_nibble(f),
        low_nibble(f & !MASK_C) == low_nibble(f),
{
}

/// The four flags and the unused nibble together account for every bit of the
/// flag register: two bytes that agree on all five are the same byte.
pub proof fn lemma_flags_pin_byte(f1: u8, f2: u8)
    by (bit_vector)
    requires
        flag_z(f1) == flag_z(f2),
        flag_n(f1) == flag_n(f2),
        flag_h(f1) == flag_h(f2),
        flag_c(f1) == flag_c(f2),
        low_nibble(f1) == low_nibble(f2),
    ensures
        f1 == f2,
{
}

} // verus!
