use gb_emulator::cpu::alu::ALU;
use gb_emulator::cpu::flags::Flags;
use gb_emulator::cpu::CPU;

fn flags(zero: bool, subtract: bool, half_carry: bool, carry: bool) -> Flags {
    Flags { zero, subtract, half_carry, carry }
}

#[test]
fn add_sets_half_carry_on_nibble_overflow() {
    let alu = ALU {};
    assert_eq!(alu.add(0x0F, 0x01), (0x10, flags(false, false, true, false)));
}

#[test]
fn add_wraps_and_carries() {
    let alu = ALU {};
    assert_eq!(alu.add(0xFF, 0x01), (0x00, flags(true, false, true, true)));
    assert_eq!(alu.add(0xF0, 0x20), (0x10, flags(false, false, false, true)));
    assert_eq!(alu.add(0x00, 0x00), (0x00, flags(true, false, false, false)));
}

#[test]
fn sub_below_zero_wraps_and_borrows() {
    let alu = ALU {};
    assert_eq!(alu.sub(0x00, 0x01), (0xFF, flags(false, true, true, true)));
}

#[test]
fn sub_of_equal_bytes_is_zero() {
    let alu = ALU {};
    assert_eq!(alu.sub(0x42, 0x42), (0x00, flags(true, true, false, false)));
    assert_eq!(alu.sub(0x10, 0x01), (0x0F, flags(false, true, true, false)));
}

#[test]
fn add16_wraps_to_zero() {
    let alu = ALU {};
    assert_eq!(alu.add16(0xFFFF, 0x0001), (0x0000, flags(true, false, true, true)));
}

#[test]
fn add16_half_carry_comes_from_bit_eleven() {
    let alu = ALU {};
    assert_eq!(alu.add16(0x0FFF, 0x0001), (0x1000, flags(false, false, true, false)));
    assert_eq!(alu.add16(0x1234, 0x0101), (0x1335, flags(false, false, false, false)));
    assert_eq!(alu.add16(0x8000, 0x8000), (0x0000, flags(true, false, false, true)));
}

#[test]
fn adc_counts_the_incoming_carry() {
    let alu = ALU {};
    assert_eq!(alu.adc(0x0F, 0x00, 1), (0x10, flags(false, false, true, false)));
    assert_eq!(alu.adc(0xFF, 0x00, 1), (0x00, flags(true, false, true, true)));
    assert_eq!(alu.adc(0x01, 0x02, 0), (0x03, flags(false, false, false, false)));
    assert_eq!(alu.adc(0x80, 0x7F, 1), (0x00, flags(true, false, true, true)));
}

#[test]
fn sbc_counts_the_incoming_carry() {
    let alu = ALU {};
    assert_eq!(alu.sbc(0x10, 0x0F, 1), (0x00, flags(true, true, true, false)));
    assert_eq!(alu.sbc(0x00, 0x00, 1), (0xFF, flags(false, true, true, true)));
    assert_eq!(alu.sbc(0x05, 0x03, 0), (0x02, flags(false, true, false, false)));
    assert_eq!(alu.sbc(0x00, 0xFF, 1), (0x00, flags(true, true, true, true)));
}

#[test]
fn inc_passes_the_carry_through() {
    let alu = ALU {};
    assert_eq!(alu.inc(0x0F, 0), (0x10, flags(false, false, true, false)));
    assert_eq!(alu.inc(0xFF, 1), (0x00, flags(true, false, true, true)));
    assert_eq!(alu.inc(0xFF, 0), (0x00, flags(true, false, true, false)));
    assert_eq!(alu.inc(0x41, 2), (0x42, flags(false, false, false, false)));
}

#[test]
fn dec_never_sets_the_carry() {
    let alu = ALU {};
    assert_eq!(alu.dec(0x00), (0xFF, flags(false, true, true, false)));
    assert_eq!(alu.dec(0x01), (0x00, flags(true, true, false, false)));
    assert_eq!(alu.dec(0x10), (0x0F, flags(false, true, true, false)));
}

#[test]
fn rl_takes_the_carry_in_at_bit_zero() {
    let alu = ALU {};
    assert_eq!(alu.rl(0x80, 0), (0x00, flags(true, false, false, true)));
    assert_eq!(alu.rl(0x80, 1), (0x01, flags(false, false, false, true)));
    assert_eq!(alu.rl(0x55, 1), (0xAB, flags(false, false, false, false)));
}

#[test]
fn rr_takes_the_carry_in_at_bit_seven() {
    let alu = ALU {};
    assert_eq!(alu.rr(0x01, 0), (0x00, flags(true, false, false, true)));
    assert_eq!(alu.rr(0x01, 1), (0x80, flags(false, false, false, true)));
    assert_eq!(alu.rr(0xAA, 1), (0xD5, flags(false, false, false, false)));
}

#[test]
fn rlc_and_rrc_rotate_within_the_byte() {
    let alu = ALU {};
    assert_eq!(alu.rlc(0x80), (0x01, flags(false, false, false, true)));
    assert_eq!(alu.rlc(0x00), (0x00, flags(true, false, false, false)));
    assert_eq!(alu.rlc(0x4B), (0x96, flags(false, false, false, false)));
    assert_eq!(alu.rrc(0x01), (0x80, flags(false, false, false, true)));
    assert_eq!(alu.rrc(0x96), (0x4B, flags(false, false, false, false)));
}

#[test]
fn rotations_agree_with_the_shifts_of_the_language() {
    let alu = ALU {};
    for a in 0..=255u8 {
        assert_eq!(alu.rlc(a).0, a.rotate_left(1));
        assert_eq!(alu.rrc(a).0, a.rotate_right(1));
        for carry in 0..=1u8 {
            assert_eq!(alu.rl(a, carry).0, (a << 1) | carry);
            assert_eq!(alu.rr(a, carry).0, (a >> 1) | (carry << 7));
        }
    }
}

#[test]
fn arithmetic_agrees_with_the_wrapping_operations_of_the_language() {
    let alu = ALU {};
    for a in 0..=255u8 {
        for b in 0..=255u8 {
            let (sum, sum_flags) = alu.add(a, b);
            assert_eq!((sum, sum_flags.carry), a.overflowing_add(b));
            assert_eq!(sum_flags.half_carry, (a & 0xF) + (b & 0xF) > 0xF);
            let (difference, difference_flags) = alu.sub(a, b);
            assert_eq!((difference, difference_flags.carry), a.overflowing_sub(b));
            assert_eq!(difference_flags.half_carry, (a & 0xF) < (b & 0xF));
            for carry in 0..=1u8 {
                let (with_carry, flags) = alu.adc(a, b, carry);
                assert_eq!(with_carry, a.wrapping_add(b).wrapping_add(carry));
                assert_eq!(flags.carry, (a as u16) + (b as u16) + (carry as u16) > 0xFF);
                let (with_borrow, flags) = alu.sbc(a, b, carry);
                assert_eq!(with_borrow, a.wrapping_sub(b).wrapping_sub(carry));
                assert_eq!(
                    flags.half_carry,
                    (a & 0xf).wrapping_sub(b & 0xf).wrapping_sub(carry) & 0x10 != 0
                );
                assert_eq!(flags.carry, (a as u16) < (b as u16) + (carry as u16));
            }
        }
    }
}

#[test]
fn add_8_leaves_its_flags_with_the_caller() {
    let alu = ALU {};
    let mut cpu = CPU::new();
    assert_eq!(alu.add_8(0x0F, 0x01, &mut cpu), 0x10);
    assert_eq!(cpu.registers.get_flags(), flags(false, false, true, false));
    assert_eq!(cpu.registers.f, 0x20);
}

#[test]
fn sub_8_leaves_its_flags_with_the_caller() {
    let alu = ALU {};
    let mut cpu = CPU::new();
    assert_eq!(alu.sub_8(0x00, 0x01, &mut cpu), 0xFF);
    assert_eq!(cpu.registers.get_flags(), flags(false, true, true, true));
    assert_eq!(cpu.registers.f, 0x70);
}
