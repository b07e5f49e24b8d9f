//! The register file and the instruction handlers.
//!
//! One [`Cpu`] value is the whole machine state of one emulated processor.
//! Instruction handlers are pure state transitions: each reads the register
//! file, computes a new value with wrapping arithmetic, derives the four
//! status flags, and commits the result — no I/O, no program-counter
//! advancement, no hidden state.  Each handler's whole effect is captured by
//! a transition predicate over the state before and after, so that a
//! dispatch table can be built mechanically as more handlers are added.

use vstd::prelude::*;

verus! {

use crate::alu::{add8, add8_carry, add8_half_carry};
use crate::flags::{
    flag_c, flag_h, flag_n, flag_z, lemma_flags_pin_byte, lemma_update_c, lemma_update_h,
    lemma_update_n, lemma_update_z, low_nibble, MASK_C, MASK_H, MASK_N, MASK_Z,
};
use crate::wide::{combine, hi_byte, high_of, lemma_wide_round_trip, lo_byte, low_of, wide};

/// The register file of one emulated processor: eight 8-bit registers, a
/// 16-bit stack pointer and a 16-bit program counter.
///
/// `a` is the accumulator and `f` the flag register — its upper nibble packs
/// the four status flags (see [`crate::flags`]) and its lower nibble is
/// unused.  `b` through `l` are general-purpose registers; `h` and `l`,
/// `b` and `c`, `d` and `e` also pair up as the wide registers `hl`, `bc`
/// and `de` (see [`crate::wide`]).
#[derive(Clone, Copy, Debug, PartialEq, Eq, Structural)]
pub struct Cpu {
    /// Accumulator.
    pub a: u8,
    /// Flag register: flags in the upper nibble, lower nibble unused.
    pub f: u8,
    /// General-purpose register, high byte of the `bc` pair.
    pub b: u8,
    /// General-purpose register, low byte of the `bc` pair.
    pub c: u8,
    /// General-purpose register, high byte of the `de` pair.
    pub d: u8,
    /// General-purpose register, low byte of the `de` pair.
    pub e: u8,
    /// General-purpose register, high byte of the `hl` pair.
    pub h: u8,
    /// General-purpose register, low byte of the `hl` pair.
    pub l: u8,
    /// Stack pointer.
    pub sp: u16,
    /// Program counter.
    pub pc: u16,
}

/// The fixed reset state: the stack pointer at 0xFFFE, the program counter
/// at the 0x0100 program entry point, every other register zero.
pub open spec fn is_reset(cpu: Cpu) -> bool {
    &&& cpu.a == 0
    &&& cpu.f == 0
    &&& cpu.b == 0
    &&& cpu.c == 0
    &&& cpu.d == 0
    &&& cpu.e == 0
    &&& cpu.h == 0
    &&& cpu.l == 0
    &&& cpu.sp == 0xFFFE
    &&& cpu.pc == 0x0100
}

/// Every register except the flag register keeps its value.
pub open spec fn same_except_f(pre: Cpu, post: Cpu) -> bool {
    &&& post.a == pre.a
    &&& post.b == pre.b
    &&& post.c == pre.c
    &&& post.d == pre.d
    &&& post.e == pre.e
    &&& post.h == pre.h
    &&& post.l == pre.l
    &&& post.sp == pre.sp
    &&& post.pc == pre.pc
}

/// Every register except the accumulator and the flag register keeps its
/// value.
pub open spec fn same_except_af(pre: Cpu, post: Cpu) -> bool {
    &&& post.b == pre.b
    &&& post.c == pre.c
    &&& post.d == pre.d
    &&& post.e == pre.e
    &&& post.h == pre.h
    &&& post.l == pre.l
    &&& post.sp == pre.sp
    &&& post.pc == pre.pc
}

/// Every register except the `hl` pair keeps its value.
pub open spec fn same_except_hl(pre: Cpu, post: Cpu) -> bool {
    &&& post.a == pre.a
    &&& post.f == pre.f
    &&& post.b == pre.b
    &&& post.c == pre.c
    &&& post.d == pre.d
    &&& post.e == pre.e
    &&& post.sp == pre.sp
    &&& post.pc == pre.pc
}

/// Every register except the `bc` pair keeps its value.
pub open spec fn same_except_bc(pre: Cpu, post: Cpu) -> bool {
    &&& post.a == pre.a
    &&& post.f == pre.f
    &&& post.d == pre.d
    &&& post.e == pre.e
    &&& post.h == pre.h
    &&& post.l == pre.l
    &&& post.sp == pre.sp
    &&& post.pc == pre.pc
}

/// Every register except the `de` pair keeps its value.
pub open spec fn same_except_de(pre: Cpu, post: Cpu) -> bool {
    &&& post.a == pre.a
    &&& post.f == pre.f
    &&& post.b == pre.b
    &&& post.c == pre.c
    &&& post.h == pre.h
    &&& post.l == pre.l
    &&& post.sp == pre.sp
    &&& post.pc == pre.pc
}

/// The whole effect of the `ADD A,B` handler: the accumulator takes the
/// wrapped sum of `a` and `b`; Z reports whether that wrapped result is
/// zero; N is cleared, the operation being an addition; H and C report the
/// half-carry and carry of the exact, pre-wrap sum; the unused nibble of the
/// flag register and every other register keep their values.
pub open spec fn add_a_b_transition(pre: Cpu, post: Cpu) -> bool {
    &&& post.a == add8(pre.a, pre.b)
    &&& flag_z(post.f) == (post.a == 0)
    &&& !flag_n(post.f)
    &&& flag_h(post.f) == add8_half_carry(pre.a, pre.b)
    &&& flag_c(post.f) == add8_carry(pre.a, pre.b)
    &&& low_nibble(post.f) == low_nibble(pre.f)
    &&& same_except_af(pre, post)
}

impl Cpu {
    /// A freshly reset register file, as the machine powers up: `sp` at
    /// 0xFFFE, `pc` at the 0x0100 program entry point, all other registers
    /// zero.
    pub fn new() -> (cpu: Cpu)
        ensures
            is_reset(cpu),
    {
        Cpu {
            a: 0,
            f: 0,
            b: 0,
            c: 0,
            d: 0,
            e: 0,
            h: 0,
            l: 0,
            sp: 0xFFFE,
            pc: 0x0100,
        }
    }

    /// The `hl` wide register: `h` as high byte, `l` as low byte.
    pub fn read_hl(&self) -> (value: u16)
        ensures
            value == wide(self.h, self.l),
    {
        combine(self.h, self.l)
    }

    /// Splits a 16-bit value into the `hl` pair: `h` takes the high byte,
    /// `l` the low byte, so that reading `hl` back yields the value written.
    pub fn write_hl(&mut self, value: u16)
        ensures
            final(self).h == hi_byte(value),
            final(self).l == lo_byte(value),
            wide(final(self).h, final(self).l) == value,
            same_except_hl(*old(self), *final(self)),
    {
        self.h = high_of(value);
        self.l = low_of(value);
        proof {
            lemma_wide_round_trip(value);
        }
    }

    /// The `bc` wide register: `b` as high byte, `c` as low byte.
    pub fn read_bc(&self) -> (value: u16)
        ensures
            value == wide(self.b, self.c),
    {
        combine(self.b, self.c)
    }

    /// Splits a 16-bit value into the `bc` pair: `b` takes the high byte,
    /// `c` the low byte, so that reading `bc` back yields the value written.
    pub fn write_bc(&mut self, value: u16)
        ensures
            final(self).b == hi_byte(value),
            final(self).c == lo_byte(value),
            wide(final(self).b, final(self).c) == value,
            same_except_bc(*old(self), *final(self)),
    {
        self.b = high_of(value);
        self.c = low_of(value);
        proof {
            lemma_wide_round_trip(value);
        }
    }

    /// The `de` wide register: `d` as high byte, `e` as low byte.
    pub fn read_de(&self) -> (value: u16)
        ensures
            value == wide(self.d, self.e),
    {
        combine(self.d, self.e)
    }

    /// Splits a 16-bit value into the `de` pair: `d` takes the high byte,
    /// `e` the low byte, so that reading `de` back yields the value written.
    pub fn write_de(&mut self, value: u16)
        ensures
            final(self).d == hi_byte(value),
            final(self).e == lo_byte(value),
            wide(final(self).d, final(self).e) == value,
            same_except_de(*old(self), *final(self)),
    {
        self.d = high_of(value);
        self.e = low_of(value);
        proof {
            lemma_wide_round_trip(value);
        }
    }

    /// The zero flag.
    pub fn read_flag_z(&self) -> (value: bool)
        ensures
            value == flag_z(self.f),
    {
        self.f & MASK_Z != 0
    }

    /// The subtraction flag.
    pub fn read_flag_n(&self) -> (value: bool)
        ensures
            value == flag_n(self.f),
    {
        self.f & MASK_N != 0
    }

    /// The half-carry flag.
    pub fn read_flag_h(&self) -> (value: bool)
        ensures
            value == flag_h(self.f),
    {
        self.f & MASK_H != 0
    }

    /// The carry flag.
    pub fn read_flag_c(&self) -> (value: bool)
        ensures
            value == flag_c(self.f),
    {
        self.f & MASK_C != 0
    }

    /// Sets or clears the zero flag alone: the other three flags, the unused
    /// nibble and every other register keep their values.
    pub fn set_flag_z(&mut self, value: bool)
        ensures
            flag_z(final(self).f) == value,
            flag_n(final(self).f) == flag_n(old(self).f),
            flag_h(final(self).f) == flag_h(old(self).f),
            flag_c(final(self).f) == flag_c(old(self).f),
            low_nibble(final(self).f) == low_nibble(old(self).f),
            same_except_f(*old(self), *final(self)),
    {
        proof {
            lemma_update_z(self.f);
        }
        if value {
            self.f = self.f | MASK_Z;
        } else {
            self.f = self.f & !MASK_Z;
        }
    }

    /// Sets or clears the subtraction flag alone: the other three flags, the
    /// unused nibble and every other register keep their values.
    pub fn set_flag_n(&mut self, value: bool)
        ensures
            flag_n(final(self).f) == value,
            flag_z(final(self).f) == flag_z(old(self).f),
            flag_h(final(self).f) == flag_h(old(self).f),
            flag_c(final(self).f) == flag_c(old(self).f),
            low_nibble(final(self).f) == low_nibble(old(self).f),
            same_except_f(*old(self), *final(self)),
    {
        proof {
            lemma_update_n(self.f);
        }
        if value {
            self.f = self.f | MASK_N;
        } else {
            self.f = self.f & !MASK_N;
        }
    }

    /// Sets or clears the half-carry flag alone: the other three flags, the
    /// unused nibble and every other register keep their values.
    pub fn set_flag_h(&mut self, value: bool)
        ensures
            flag_h(final(self).f) == value,
            flag_z(final(self).f) == flag_z(old(self).f),
            flag_n(final(self).f) == flag_n(old(self).f),
            flag_c(final(self).f) == flag_c(old(self).f),
            low_nibble(final(self).f) == low_nibble(old(self).f),
            same_except_f(*old(self), *final(self)),
    {
        proof {
            lemma_update_h(self.f);
        }
        if value {
            self.f = self.f | MASK_H;
        } else {
            self.f = self.f & !MASK_H;
        }
    }

    /// Sets or clears the carry flag alone: the other three flags, the
    /// unused nibble and every other register keep their values.
    pub fn set_flag_c(&mut self, value: bool)
        ensures
            flag_c(final(self).f) == value,
            flag_z(final(self).f) == flag_z(old(self).f),
            flag_n(final(self).f) == flag_n(old(self).f),
            flag_h(final(self).f) == flag_h(old(self).f),
            low_nibble(final(self).f) == low_nibble(old(self).f),
            same_except_f(*old(self), *final(self)),
    {
        proof {
            lemma_update_c(self.f);
        }
        if value {
            self.f = self.f | MASK_C;
        } else {
            self.f = self.f & !MASK_C;
        }
    }

    /// The `ADD A,B` instruction: adds `b` into the accumulator with
    /// wrapping arithmetic and derives all four flags, as
    /// [`add_a_b_transition`] states.
    pub fn add_a_b(&mut self)
        ensures
            add_a_b_transition(*old(self), *final(self)),
    {
        let a = self.a;
        let b = self.b;
        let result = a.wrapping_add(b);
        proof {
            assert(result == add8(a, b)) by (bit_vector)
                requires
                    result == (if a + b > 255 {
                        (a + b - 256) as u8
                    } else {
                        (a + b) as u8
                    }),
            ;
            assert(a & 0x0F <= 0x0F && b & 0x0F <= 0x0F) by (bit_vector);
        }
        self.set_flag_z(result == 0);
        self.set_flag_n(false);
        self.set_flag_h((a & 0x0F) + (b & 0x0F) > 0x0F);
        self.set_flag_c(a as u16 + b as u16 > 0xFF);
        self.a = result;
    }
}

/// Law: an instruction handler is a pure state transition, with no hidden
/// state — the transition predicate pins the final register file completely,
/// so two runs of the `ADD A,B` handler from equal starting states end in
/// equal states.
pub proof fn lemma_add_a_b_deterministic(pre: Cpu, post1: Cpu, post2: Cpu)
    requires
        add_a_b_transition(pre, post1),
        add_a_b_transition(pre, post2),
    ensures
        post1 == post2,
{
    lemma_flags_pin_byte(post1.f, post2.f);
}

} // verus!
