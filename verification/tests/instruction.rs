use gb_emulator::cpu::instruction::{Condition, Family, Instruction};
use gb_emulator::cpu::registers::{Reg16, Reg8};

const UNDEFINED: [u8; 11] = [0xD3, 0xDB, 0xDD, 0xE3, 0xE4, 0xEB, 0xEC, 0xED, 0xF4, 0xFC, 0xFD];

#[test]
fn every_byte_but_eleven_is_an_instruction() {
    let mut undefined = 0;
    for byte in 0..=255u8 {
        let decoded = Instruction::from_byte(byte);
        if UNDEFINED.contains(&byte) {
            assert_eq!(decoded, None);
            undefined += 1;
        } else {
            assert!(decoded.is_some());
        }
    }
    assert_eq!(undefined, 11);
}

#[test]
fn every_byte_is_an_instruction_behind_the_prefix() {
    for byte in 0..=255u8 {
        let decoded = Instruction::from_byte_prefixed(byte);
        assert!(decoded.is_some());
        assert_ne!(decoded, Some(Instruction::PREFIXCB));
    }
}

#[test]
fn loads_decode_by_their_two_operand_fields() {
    assert_eq!(Instruction::from_byte(0x40), Some(Instruction::LDRR(Reg8::B, Reg8::B)));
    assert_eq!(Instruction::from_byte(0x78), Some(Instruction::LDRR(Reg8::A, Reg8::B)));
    assert_eq!(Instruction::from_byte(0x6F), Some(Instruction::LDRR(Reg8::L, Reg8::A)));
    assert_eq!(Instruction::from_byte(0x7E), Some(Instruction::LDRHL(Reg8::A)));
    assert_eq!(Instruction::from_byte(0x46), Some(Instruction::LDRHL(Reg8::B)));
    assert_eq!(Instruction::from_byte(0x70), Some(Instruction::LDHLR(Reg8::B)));
    assert_eq!(Instruction::from_byte(0x76), Some(Instruction::HALT));
    assert_eq!(Instruction::from_byte(0x3E), Some(Instruction::LDRN(Reg8::A)));
    assert_eq!(Instruction::from_byte(0x36), Some(Instruction::LDHLN));
    assert_eq!(Instruction::from_byte(0x0A), Some(Instruction::LDA16(Reg16::BC)));
    assert_eq!(Instruction::from_byte(0x12), Some(Instruction::LD16A(Reg16::DE)));
    assert_eq!(Instruction::from_byte(0x22), Some(Instruction::LDHLINCA));
    assert_eq!(Instruction::from_byte(0x2A), Some(Instruction::LDAHLINC));
    assert_eq!(Instruction::from_byte(0x32), Some(Instruction::LDHLDECA));
    assert_eq!(Instruction::from_byte(0x3A), Some(Instruction::LDAHLDEC));
    assert_eq!(Instruction::from_byte(0xE0), Some(Instruction::LDHNA));
    assert_eq!(Instruction::from_byte(0xF0), Some(Instruction::LDHAN));
    assert_eq!(Instruction::from_byte(0xE2), Some(Instruction::LDHCA));
    assert_eq!(Instruction::from_byte(0xF2), Some(Instruction::LDHAC));
    assert_eq!(Instruction::from_byte(0xEA), Some(Instruction::LDNNA));
    assert_eq!(Instruction::from_byte(0xFA), Some(Instruction::LDANN));
}

#[test]
fn wide_loads_and_the_stack_decode() {
    assert_eq!(Instruction::from_byte(0x01), Some(Instruction::LD16NN(Reg16::BC)));
    assert_eq!(Instruction::from_byte(0x11), Some(Instruction::LD16NN(Reg16::DE)));
    assert_eq!(Instruction::from_byte(0x21), Some(Instruction::LD16NN(Reg16::HL)));
    assert_eq!(Instruction::from_byte(0x31), Some(Instruction::LD16SP));
    assert_eq!(Instruction::from_byte(0x08), Some(Instruction::LDNNSP));
    assert_eq!(Instruction::from_byte(0xF9), Some(Instruction::LDSPHL));
    assert_eq!(Instruction::from_byte(0xF8), Some(Instruction::LDHLSPE));
    assert_eq!(Instruction::from_byte(0xC5), Some(Instruction::PUSH(Reg16::BC)));
    assert_eq!(Instruction::from_byte(0xF5), Some(Instruction::PUSH(Reg16::AF)));
    assert_eq!(Instruction::from_byte(0xD1), Some(Instruction::POP(Reg16::DE)));
    assert_eq!(Instruction::from_byte(0xF1), Some(Instruction::POP(Reg16::AF)));
}

#[test]
fn arithmetic_decodes_by_kind_and_operand() {
    assert_eq!(Instruction::from_byte(0x80), Some(Instruction::ADD(Reg8::B)));
    assert_eq!(Instruction::from_byte(0x8F), Some(Instruction::ADC(Reg8::A)));
    assert_eq!(Instruction::from_byte(0x96), Some(Instruction::SUBHL));
    assert_eq!(Instruction::from_byte(0x9B), Some(Instruction::SBC(Reg8::E)));
    assert_eq!(Instruction::from_byte(0xA4), Some(Instruction::AND(Reg8::H)));
    assert_eq!(Instruction::from_byte(0xAF), Some(Instruction::XOR(Reg8::A)));
    assert_eq!(Instruction::from_byte(0xB1), Some(Instruction::OR(Reg8::C)));
    assert_eq!(Instruction::from_byte(0xBE), Some(Instruction::CPHL));
    assert_eq!(Instruction::from_byte(0xC6), Some(Instruction::ADDNN));
    assert_eq!(Instruction::from_byte(0xCE), Some(Instruction::ADCNN));
    assert_eq!(Instruction::from_byte(0xD6), Some(Instruction::SUBNN));
    assert_eq!(Instruction::from_byte(0xDE), Some(Instruction::SBCNN));
    assert_eq!(Instruction::from_byte(0xE6), Some(Instruction::ANDNN));
    assert_eq!(Instruction::from_byte(0xEE), Some(Instruction::XORNN));
    assert_eq!(Instruction::from_byte(0xF6), Some(Instruction::ORNN));
    assert_eq!(Instruction::from_byte(0xFE), Some(Instruction::CPNN));
    assert_eq!(Instruction::from_byte(0x3C), Some(Instruction::INC(Reg8::A)));
    assert_eq!(Instruction::from_byte(0x34), Some(Instruction::INCHL));
    assert_eq!(Instruction::from_byte(0x05), Some(Instruction::DEC(Reg8::B)));
    assert_eq!(Instruction::from_byte(0x35), Some(Instruction::DECHL));
    assert_eq!(Instruction::from_byte(0x09), Some(Instruction::ADDHLR16(Reg16::BC)));
    assert_eq!(Instruction::from_byte(0x39), Some(Instruction::ADDHLRSP));
    assert_eq!(Instruction::from_byte(0xE8), Some(Instruction::ADDSPE));
    assert_eq!(Instruction::from_byte(0x03), Some(Instruction::INC16(Reg16::BC)));
    assert_eq!(Instruction::from_byte(0x33), Some(Instruction::INC16SP));
    assert_eq!(Instruction::from_byte(0x2B), Some(Instruction::DEC16(Reg16::HL)));
    assert_eq!(Instruction::from_byte(0x3B), Some(Instruction::DEC16SP));
}

#[test]
fn control_flow_decodes() {
    assert_eq!(Instruction::from_byte(0xC3), Some(Instruction::JP));
    assert_eq!(Instruction::from_byte(0xE9), Some(Instruction::JPHL));
    assert_eq!(Instruction::from_byte(0x18), Some(Instruction::JR));
    assert_eq!(Instruction::from_byte(0xCD), Some(Instruction::CALL));
    assert_eq!(Instruction::from_byte(0xC9), Some(Instruction::RET));
    assert_eq!(Instruction::from_byte(0xD9), Some(Instruction::RETI));
    assert_eq!(Instruction::from_byte(0xC2), Some(Instruction::JPCC(Condition::NZ)));
    assert_eq!(Instruction::from_byte(0xCA), Some(Instruction::JPCC(Condition::Z)));
    assert_eq!(Instruction::from_byte(0xD2), Some(Instruction::JPCC(Condition::NC)));
    assert_eq!(Instruction::from_byte(0xDA), Some(Instruction::JPCC(Condition::C)));
    assert_eq!(Instruction::from_byte(0x20), Some(Instruction::JRCC(Condition::NZ)));
    assert_eq!(Instruction::from_byte(0x38), Some(Instruction::JRCC(Condition::C)));
    assert_eq!(Instruction::from_byte(0xC4), Some(Instruction::CALLCC(Condition::NZ)));
    assert_eq!(Instruction::from_byte(0xDC), Some(Instruction::CALLCC(Condition::C)));
    assert_eq!(Instruction::from_byte(0xC0), Some(Instruction::RETCC(Condition::NZ)));
    assert_eq!(Instruction::from_byte(0xD8), Some(Instruction::RETCC(Condition::C)));
    let targets = [0x00u8, 0x08, 0x10, 0x18, 0x20, 0x28, 0x30, 0x38];
    let opcodes = [0xC7u8, 0xCF, 0xD7, 0xDF, 0xE7, 0xEF, 0xF7, 0xFF];
    for i in 0..8 {
        assert_eq!(Instruction::from_byte(opcodes[i]), Some(Instruction::RST(targets[i])));
    }
}

#[test]
fn the_rest_decodes() {
    assert_eq!(Instruction::from_byte(0x00), Some(Instruction::NOP));
    assert_eq!(Instruction::from_byte(0x10), Some(Instruction::STOP));
    assert_eq!(Instruction::from_byte(0xF3), Some(Instruction::DI));
    assert_eq!(Instruction::from_byte(0xFB), Some(Instruction::EI));
    assert_eq!(Instruction::from_byte(0x2F), Some(Instruction::CPL));
    assert_eq!(Instruction::from_byte(0x3F), Some(Instruction::CCF));
    assert_eq!(Instruction::from_byte(0x37), Some(Instruction::SCF));
    assert_eq!(Instruction::from_byte(0x27), Some(Instruction::DAA));
    assert_eq!(Instruction::from_byte(0x07), Some(Instruction::RLCA));
    assert_eq!(Instruction::from_byte(0x0F), Some(Instruction::RRCA));
    assert_eq!(Instruction::from_byte(0x17), Some(Instruction::RLA));
    assert_eq!(Instruction::from_byte(0x1F), Some(Instruction::RRA));
    assert_eq!(Instruction::from_byte(0xCB), Some(Instruction::PREFIXCB));
}

#[test]
fn the_second_table_decodes_by_kind_bit_and_operand() {
    assert_eq!(Instruction::from_byte_prefixed(0x00), Some(Instruction::RLC(Reg8::B)));
    assert_eq!(Instruction::from_byte_prefixed(0x0E), Some(Instruction::RRCHL));
    assert_eq!(Instruction::from_byte_prefixed(0x17), Some(Instruction::RL(Reg8::A)));
    assert_eq!(Instruction::from_byte_prefixed(0x19), Some(Instruction::RR(Reg8::C)));
    assert_eq!(Instruction::from_byte_prefixed(0x22), Some(Instruction::SLA(Reg8::D)));
    assert_eq!(Instruction::from_byte_prefixed(0x2B), Some(Instruction::SRA(Reg8::E)));
    assert_eq!(Instruction::from_byte_prefixed(0x34), Some(Instruction::SWAP(Reg8::H)));
    assert_eq!(Instruction::from_byte_prefixed(0x36), Some(Instruction::SWAPHL));
    assert_eq!(Instruction::from_byte_prefixed(0x3D), Some(Instruction::SRL(Reg8::L)));
    assert_eq!(Instruction::from_byte_prefixed(0x40), Some(Instruction::BIT(0, Reg8::B)));
    assert_eq!(Instruction::from_byte_prefixed(0x7E), Some(Instruction::BITHL(7)));
    assert_eq!(Instruction::from_byte_prefixed(0x7F), Some(Instruction::BIT(7, Reg8::A)));
    assert_eq!(Instruction::from_byte_prefixed(0x80), Some(Instruction::RESET(0, Reg8::B)));
    assert_eq!(Instruction::from_byte_prefixed(0xBE), Some(Instruction::RESETHL(7)));
    assert_eq!(Instruction::from_byte_prefixed(0xC0), Some(Instruction::SET(0, Reg8::B)));
    assert_eq!(Instruction::from_byte_prefixed(0xD6), Some(Instruction::SETHL(2)));
    assert_eq!(Instruction::from_byte_prefixed(0xFF), Some(Instruction::SET(7, Reg8::A)));
}

#[test]
fn every_instruction_has_its_family() {
    assert_eq!(Instruction::LDRR(Reg8::A, Reg8::B).kind(), Family::Load);
    assert_eq!(Instruction::POP(Reg16::AF).kind(), Family::Load);
    assert_eq!(Instruction::ADDNN.kind(), Family::Arithmetic);
    assert_eq!(Instruction::INCHL.kind(), Family::Arithmetic);
    assert_eq!(Instruction::RLCA.kind(), Family::Shift);
    assert_eq!(Instruction::SWAPHL.kind(), Family::Shift);
    assert_eq!(Instruction::BIT(3, Reg8::C).kind(), Family::Bit);
    assert_eq!(Instruction::RST(0x18).kind(), Family::Control);
    assert_eq!(Instruction::ADDSPE.kind(), Family::Wide);
    assert_eq!(Instruction::DAA.kind(), Family::Misc);
    assert_eq!(Instruction::PREFIXCB.kind(), Family::Misc);
}

#[test]
fn what_the_tables_give_can_be_run() {
    for byte in 0..=255u8 {
        if let Some(instruction) = Instruction::from_byte(byte) {
            assert!(instruction.runnable());
        }
        assert!(Instruction::from_byte_prefixed(byte).unwrap().runnable());
    }
    assert!(!Instruction::LDRR(Reg8::F, Reg8::A).runnable());
    assert!(Instruction::LDRR(Reg8::A, Reg8::F).runnable());
    assert!(Instruction::ADD(Reg8::F).runnable());
    assert!(!Instruction::INC(Reg8::F).runnable());
    assert!(!Instruction::SWAP(Reg8::F).runnable());
    assert!(!Instruction::SET(0, Reg8::F).runnable());
    assert!(Instruction::BIT(7, Reg8::F).runnable());
    assert!(!Instruction::BIT(8, Reg8::A).runnable());
    assert!(!Instruction::SETHL(9).runnable());
    assert!(Instruction::RST(0x38).runnable());
}
