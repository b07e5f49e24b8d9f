//! Arithmetic results and flag rules of the instruction set.
//!
//! Every arithmetic handler computes its raw result with wrapping
//! (modulo-256) arithmetic — overflow silently wraps, the flags communicate
//! it — and derives the half-carry and carry flags from the pre-operation
//! operand values, not from the wrapped result.

use vstd::prelude::*;

verus! {

/// The wrapped (modulo-256) result of adding two 8-bit values.
pub open spec fn add8(a: u8, b: u8) -> u8 {
    ((a + b) % 256) as u8
}

/// The half-carry of 8-bit addition: the low nibbles of the operands alone
/// already carry out of bit 3 into bit 4, judged before wrapping.
pub open spec fn add8_half_carry(a: u8, b: u8) -> bool {
    (a & 0x0F) + (b & 0x0F) > 0x0F
}

/// The carry of 8-bit addition: the exact sum of the operands carries out of
/// bit 7, judged before wrapping.
pub open spec fn add8_carry(a: u8, b: u8) -> bool {
    a + b > 0xFF
}

} // verus!
