use gb_emulator::cpu::flags::Flags;
use gb_emulator::cpu::registers::{Reg16, Reg8, Registers};
use gb_emulator::memory::{MemoryBus, Storage};

#[test]
fn registers_start_at_the_entry_point() {
    let regs = Registers::new();
    assert_eq!(regs.pc.pointer, 0x0100);
    assert_eq!(regs.sp.pointer, 0xFFFF);
    for r in [Reg8::A, Reg8::B, Reg8::C, Reg8::D, Reg8::E, Reg8::F, Reg8::H, Reg8::L] {
        assert_eq!(regs.read_8(r), 0);
    }
    assert_eq!(
        regs.get_flags(),
        Flags { zero: false, subtract: false, half_carry: false, carry: false }
    );
}

#[test]
fn a_pair_has_its_first_register_as_high_byte() {
    let mut regs = Registers::new();
    regs.write_8(Reg8::B, 0x12);
    regs.write_8(Reg8::C, 0x34);
    assert_eq!(regs.read_16(Reg16::BC), 0x1234);
    regs.write_16(Reg16::DE, 0xABCD);
    assert_eq!(regs.read_8(Reg8::D), 0xAB);
    assert_eq!(regs.read_8(Reg8::E), 0xCD);
    regs.write_16(Reg16::HL, 0x8001);
    assert_eq!(regs.read_8(Reg8::H), 0x80);
    assert_eq!(regs.read_8(Reg8::L), 0x01);
    assert_eq!(regs.read_16(Reg16::HL), 0x8001);
}

#[test]
fn writing_af_keeps_the_low_nibble_of_f_clear() {
    let mut regs = Registers::new();
    regs.write_16(Reg16::AF, 0x12FF);
    assert_eq!(regs.read_8(Reg8::A), 0x12);
    assert_eq!(regs.read_8(Reg8::F), 0xF0);
    assert_eq!(regs.read_16(Reg16::AF), 0x12F0);
}

#[test]
fn set_flags_packs_each_flag_at_its_bit() {
    let mut regs = Registers::new();
    regs.set_flags(Flags { zero: true, subtract: false, half_carry: false, carry: false });
    assert_eq!(regs.f, 0x80);
    regs.set_flags(Flags { zero: false, subtract: true, half_carry: false, carry: false });
    assert_eq!(regs.f, 0x40);
    regs.set_flags(Flags { zero: false, subtract: false, half_carry: true, carry: false });
    assert_eq!(regs.f, 0x20);
    regs.set_flags(Flags { zero: false, subtract: false, half_carry: false, carry: true });
    assert_eq!(regs.f, 0x10);
    regs.set_flags(Flags { zero: true, subtract: true, half_carry: true, carry: true });
    assert_eq!(regs.f, 0xF0);
}

#[test]
fn flags_survive_the_way_through_f() {
    let mut regs = Registers::new();
    for bits in 0..16u8 {
        let flags = Flags {
            zero: bits & 8 != 0,
            subtract: bits & 4 != 0,
            half_carry: bits & 2 != 0,
            carry: bits & 1 != 0,
        };
        regs.set_flags(flags);
        assert_eq!(regs.get_flags(), flags);
        assert_eq!(regs.f & 0x0F, 0);
        assert_eq!(Flags::from_byte(flags.to_byte()), flags);
    }
}

#[test]
fn the_register_file_is_a_storage_of_bytes_and_of_words() {
    let mut regs = Registers::new();
    Storage::<Reg8, u8>::write(&mut regs, Reg8::H, 0x7A);
    let h: u8 = Storage::<Reg8, u8>::read(&mut regs, Reg8::H);
    assert_eq!(h, 0x7A);
    Storage::<Reg16, u16>::write(&mut regs, Reg16::BC, 0xBEEF);
    let bc: u16 = Storage::<Reg16, u16>::read(&mut regs, Reg16::BC);
    assert_eq!(bc, 0xBEEF);
    assert_eq!(regs.b, 0xBE);
    assert_eq!(regs.c, 0xEF);
}

#[test]
fn the_program_counter_reads_and_moves_on() {
    let mut regs = Registers::new();
    let mut bus = MemoryBus::new();
    bus.ram[0x0100] = 0xAB;
    bus.ram[0x0101] = 0xCD;
    assert_eq!(regs.pc.read(&mut bus), 0x00AB);
    assert_eq!(regs.pc.pointer, 0x0101);
    assert_eq!(regs.pc.read(&mut bus), 0x00CD);
    assert_eq!(regs.pc.pointer, 0x0102);
    regs.pc.write(0xFFFF);
    bus.ram[0xFFFF] = 0x11;
    assert_eq!(regs.pc.read(&mut bus), 0x0011);
    assert_eq!(regs.pc.pointer, 0x0000);
}

#[test]
fn the_stack_pointer_pushes_down_and_pops_up() {
    let mut regs = Registers::new();
    let mut bus = MemoryBus::new();
    regs.sp.pointer = 0xD000;
    regs.sp.write(&mut bus, 0x1234);
    assert_eq!(regs.sp.pointer, 0xCFFE);
    assert_eq!(bus.ram[0xCFFE], 0x34);
    assert_eq!(bus.ram[0xCFFF], 0x12);
    assert_eq!(regs.sp.read(&mut bus), 0x1234);
    assert_eq!(regs.sp.pointer, 0xD000);
}
