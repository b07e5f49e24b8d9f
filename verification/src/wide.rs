//! The 16-bit wide view over a pair of 8-bit registers.
//!
//! A wide register is the big-endian concatenation of two 8-bit registers:
//! the high byte weighted by 256, the low byte below it.  Reading a pair
//! combines the two bytes; writing splits a 16-bit value back into them.

use vstd::prelude::*;

verus! {

/// The 16-bit value of a register pair: high byte weighted by 256, low byte
/// below it.
pub open spec fn wide(hi: u8, lo: u8) -> u16 {
    (hi as int * 256 + lo as int) as u16
}

/// The high byte that a 16-bit value splits into.
pub open spec fn hi_byte(value: u16) -> u8 {
    (value / 256) as u8
}

/// The low byte that a 16-bit value splits into.
pub open spec fn lo_byte(value: u16) -> u8 {
    (value % 256) as u8
}

/// Law: writing a 16-bit value into a register pair and reading the pair back
/// returns exactly the value written — splitting a value into its high and
/// low bytes and recombining them is the identity, for every 16-bit value.
pub proof fn lemma_wide_round_trip(value: u16)
    by (bit_vector)
    ensures
        wide(hi_byte(value), lo_byte(value)) == value,
{
}

/// Combines a register pair into its 16-bit wide value.
pub(crate) fn combine(hi: u8, lo: u8) -> (value: u16)
    ensures
        value == wide(hi, lo),
{
    proof {
        assert(((hi as u16) << 8) | (lo as u16) == wide(hi, lo)) by (bit_vector);
    }
    ((hi as u16) << 8) | (lo as u16)
}

/// The high byte of a 16-bit value.
pub(crate) fn high_of(value: u16) -> (hi: u8)
    ensures
        hi == hi_byte(value),
{
    proof {
        assert((value >> 8) as u8 == hi_byte(value)) by (bit_vector);
    }
    (value >> 8) as u8
}

/// The low byte of a 16-bit value.
pub(crate) fn low_of(value: u16) -> (lo: u8)
    ensures
        lo == lo_byte(value),
{
    proof {
        assert((value & 0xFF) as u8 == lo_byte(value)) by (bit_vector);
    }
    (value & 0xFF) as u8
}

} // verus!
