//! Instruction handlers: the addition correctness table, wrapping, flag
//! derivation from pre-operation operands, and purity.

use cpu_core::cpu::Cpu;

fn run_add(a: u8, b: u8) -> Cpu {
    let mut cpu = Cpu::new();
    cpu.a = a;
    cpu.b = b;
    cpu.add_a_b();
    cpu
}

fn check_add(a: u8, b: u8, result: u8, z: bool, n: bool, h: bool, c: bool) {
    let cpu = run_add(a, b);
    assert_eq!(cpu.a, result, "result of {a:#04x} + {b:#04x}");
    assert_eq!(cpu.read_flag_z(), z, "Z after {a:#04x} + {b:#04x}");
    assert_eq!(cpu.read_flag_n(), n, "N after {a:#04x} + {b:#04x}");
    assert_eq!(cpu.read_flag_h(), h, "H after {a:#04x} + {b:#04x}");
    assert_eq!(cpu.read_flag_c(), c, "C after {a:#04x} + {b:#04x}");
}

#[test]
fn add_zero_plus_zero() {
    check_add(0x00, 0x00, 0x00, true, false, false, false);
}

#[test]
fn add_half_carry_only() {
    check_add(0x0F, 0x01, 0x10, false, false, true, false);
}

#[test]
fn add_wraps_to_zero_with_both_carries() {
    check_add(0xFF, 0x01, 0x00, true, false, true, true);
}

#[test]
fn add_carry_without_half_carry() {
    check_add(0x80, 0x80, 0x00, true, false, false, true);
}

#[test]
fn add_plain_sum_no_flags() {
    check_add(0x12, 0x03, 0x15, false, false, false, false);
}

#[test]
fn add_largest_operands() {
    // 0xFF + 0xFF wraps to 0xFE; both nibble sums carry.
    check_add(0xFF, 0xFF, 0xFE, false, false, true, true);
}

#[test]
fn add_clears_stale_flags() {
    // A handler derives every flag anew: flags left over from before must not
    // leak through.
    let mut cpu = Cpu::new();
    cpu.set_flag_z(true);
    cpu.set_flag_n(true);
    cpu.set_flag_h(true);
    cpu.set_flag_c(true);
    cpu.a = 0x12;
    cpu.b = 0x03;
    cpu.add_a_b();
    assert_eq!(cpu.a, 0x15);
    assert!(!cpu.read_flag_z());
    assert!(!cpu.read_flag_n());
    assert!(!cpu.read_flag_h());
    assert!(!cpu.read_flag_c());
}

#[test]
fn add_preserves_unused_nibble_and_other_registers() {
    let mut cpu = Cpu::new();
    cpu.f = 0x0A;
    cpu.a = 0x01;
    cpu.b = 0x02;
    cpu.c = 0x33;
    cpu.d = 0x44;
    cpu.e = 0x55;
    cpu.h = 0x66;
    cpu.l = 0x77;
    cpu.add_a_b();
    assert_eq!(cpu.a, 0x03);
    assert_eq!(cpu.f & 0x0F, 0x0A);
    assert_eq!(cpu.b, 0x02);
    assert_eq!(cpu.c, 0x33);
    assert_eq!(cpu.d, 0x44);
    assert_eq!(cpu.e, 0x55);
    assert_eq!(cpu.h, 0x66);
    assert_eq!(cpu.l, 0x77);
    assert_eq!(cpu.sp, 0xFFFE);
    assert_eq!(cpu.pc, 0x0100);
}

#[test]
fn add_is_a_pure_state_transition() {
    // Re-running the handler from a freshly reset register file on identical
    // inputs yields an identical final state: no hidden global state.
    for (a, b) in [(0x00, 0x00), (0x0F, 0x01), (0xFF, 0x01), (0x80, 0x80), (0x12, 0x03)] {
        let first = run_add(a, b);
        let second = run_add(a, b);
        assert_eq!(first, second);
    }
}

#[test]
fn add_agrees_with_wrapping_arithmetic_exhaustively() {
    for a in 0..=0xFFu8 {
        for b in 0..=0xFFu8 {
            let cpu = run_add(a, b);
            let exact = a as u16 + b as u16;
            assert_eq!(cpu.a, (exact % 0x100) as u8);
            assert_eq!(cpu.read_flag_z(), cpu.a == 0);
            assert!(!cpu.read_flag_n());
            assert_eq!(cpu.read_flag_h(), (a & 0x0F) + (b & 0x0F) > 0x0F);
            assert_eq!(cpu.read_flag_c(), exact > 0xFF);
        }
    }
}
