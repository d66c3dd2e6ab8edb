//! The instruction set and its two decoders.
//!
//! An opcode is read as three fields: `x`, its top two bits; `y`, the three
//! bits below them; `z`, its low three bits. `y` in turn splits into `p`,
//! its top two bits, and `q`, its low bit.

use vstd::prelude::*;
use crate::cpu::registers::{Reg16, Reg8};

verus! {

/// The conditions that a jump, call or return may wait on.
#[derive(Clone, Copy, Debug, PartialEq, Eq, Structural)]
pub enum Condition {
    NZ,
    Z,
    NC,
    C,
}

/// The byte that follows in the instruction stream, as an operand.
#[derive(Clone, Copy, Debug, PartialEq, Eq, Structural)]
pub struct Immediate8;

/// A byte in memory, named by the way its address is found.
#[derive(Clone, Copy, Debug, PartialEq, Eq, Structural)]
pub enum Addr {
    /// The address in BC.
    BC,
    /// The address in DE.
    DE,
    /// The address in HL.
    HL,
    /// The address in HL, which is then decremented.
    HLD,
    /// The address in HL, which is then incremented.
    HLI,
    /// The address in the two bytes that follow in the instruction stream.
    Direct,
    /// The high page, at the offset that follows in the instruction stream.
    MaskedMemory,
    /// The high page, at the offset in C.
    MaskedC,
}

/// An instruction, with the operands that select what it works on.
#[derive(Clone, Copy, Debug, PartialEq, Eq, Structural)]
pub enum Instruction {
    // 8 bit loads
    LDRR(Reg8, Reg8),
    LDRN(Reg8),
    LDRHL(Reg8),
    LDHLR(Reg8),
    LDHLN,
    LDA16(Reg16),
    LD16A(Reg16),
    LDANN,
    LDNNA,
    LDHAC,
    LDHCA,
    LDHAN,
    LDHNA,
    LDAHLDEC,
    LDHLDECA,
    LDAHLINC,
    LDHLINCA,
    // 16 bit loads
    LD16NN(Reg16),
    LD16SP,
    LDNNSP,
    LDSPHL,
    LDHLSPE,
    PUSH(Reg16),
    POP(Reg16),
    // 8-bit arithmetic
    ADD(Reg8),
    ADDHL,
    ADDNN,
    ADC(Reg8),
    ADCHL,
    ADCNN,
    SUB(Reg8),
    SUBHL,
    SUBNN,
    SBC(Reg8),
    SBCHL,
    SBCNN,
    AND(Reg8),
    ANDHL,
    ANDNN,
    OR(Reg8),
    ORHL,
    ORNN,
    XOR(Reg8),
    XORHL,
    XORNN,
    CP(Reg8),
    CPHL,
    CPNN,
    INC(Reg8),
    INCHL,
    DEC(Reg8),
    DECHL,
    RRA,
    RLA,
    RRCA,
    RLCA,
    RR(Reg8),
    RL(Reg8),
    RLC(Reg8),
    RRC(Reg8),
    RLHL,
    RRHL,
    RLCHL,
    RRCHL,
    // bits and shifts
    BIT(u8, Reg8),
    BITHL(u8),
    SET(u8, Reg8),
    SETHL(u8),
    RESET(u8, Reg8),
    RESETHL(u8),
    SWAP(Reg8),
    SWAPHL,
    SRL(Reg8),
    SRLHL,
    SRA(Reg8),
    SRAHL,
    SLA(Reg8),
    SLAHL,
    // control flow
    CALL,
    CALLCC(Condition),
    JP,
    JPCC(Condition),
    JPHL,
    JR,
    JRCC(Condition),
    RET,
    RETCC(Condition),
    RETI,
    RST(u8),
    // 16-bit arithmetic
    ADDHLR16(Reg16),
    ADDHLRSP,
    ADDSPE,
    DEC16(Reg16),
    INC16(Reg16),
    DEC16SP,
    INC16SP,
    // miscellaneous
    CPL,
    CCF,
    SCF,
    DAA,
    DI,
    EI,
    HALT,
    STOP,
    NOP,
    // escape to the second table
    PREFIXCB,
}

/// The byte register that a three-bit operand field names; field 6 names
/// the byte at the address in HL, which is no register.
pub open spec fn operand(code: int) -> Option<Reg8> {
    if code == 0 {
        Some(Reg8::B)
    } else if code == 1 {
        Some(Reg8::C)
    } else if code == 2 {
        Some(Reg8::D)
    } else if code == 3 {
        Some(Reg8::E)
    } else if code == 4 {
        Some(Reg8::H)
    } else if code == 5 {
        Some(Reg8::L)
    } else if code == 7 {
        Some(Reg8::A)
    } else {
        None
    }
}

/// The register pair that a two-bit field names in arithmetic and loads;
/// field 3 names the stack pointer, which is no pair.
pub open spec fn pair(code: int) -> Option<Reg16> {
    if code == 0 {
        Some(Reg16::BC)
    } else if code == 1 {
        Some(Reg16::DE)
    } else if code == 2 {
        Some(Reg16::HL)
    } else {
        None
    }
}

/// The register pair that a two-bit field names in a push or a pop.
pub open spec fn stack_pair(code: int) -> Reg16 {
    if code == 0 {
        Reg16::BC
    } else if code == 1 {
        Reg16::DE
    } else if code == 2 {
        Reg16::HL
    } else {
        Reg16::AF
    }
}

/// The condition that a two-bit field names.
pub open spec fn condition(code: int) -> Condition {
    if code == 0 {
        Condition::NZ
    } else if code == 1 {
        Condition::Z
    } else if code == 2 {
        Condition::NC
    } else {
        Condition::C
    }
}

/// The arithmetic instruction of kind `y` on a register.
pub open spec fn arithmetic_on(y: int, r: Reg8) -> Instruction {
    if y == 0 {
        Instruction::ADD(r)
    } else if y == 1 {
        Instruction::ADC(r)
    } else if y == 2 {
        Instruction::SUB(r)
    } else if y == 3 {
        Instruction::SBC(r)
    } else if y == 4 {
        Instruction::AND(r)
    } else if y == 5 {
        Instruction::XOR(r)
    } else if y == 6 {
        Instruction::OR(r)
    } else {
        Instruction::CP(r)
    }
}

/// The arithmetic instruction of kind `y` on the byte at the address in HL.
pub open spec fn arithmetic_on_hl(y: int) -> Instruction {
    if y == 0 {
        Instruction::ADDHL
    } else if y == 1 {
        Instruction::ADCHL
    } else if y == 2 {
        Instruction::SUBHL
    } else if y == 3 {
        Instruction::SBCHL
    } else if y == 4 {
        Instruction::ANDHL
    } else if y == 5 {
        Instruction::XORHL
    } else if y == 6 {
        Instruction::ORHL
    } else {
        Instruction::CPHL
    }
}

/// The arithmetic instruction of kind `y` on an immediate byte.
pub open spec fn arithmetic_on_immediate(y: int) -> Instruction {
    if y == 0 {
        Instruction::ADDNN
    } else if y == 1 {
        Instruction::ADCNN
    } else if y == 2 {
        Instruction::SUBNN
    } else if y == 3 {
        Instruction::SBCNN
    } else if y == 4 {
        Instruction::ANDNN
    } else if y == 5 {
        Instruction::XORNN
    } else if y == 6 {
        Instruction::ORNN
    } else {
        Instruction::CPNN
    }
}

/// The rotate or shift of kind `y` on a register.
pub open spec fn shift_on(y: int, r: Reg8) -> Instruction {
    if y == 0 {
        Instruction::RLC(r)
    } else if y == 1 {
        Instruction::RRC(r)
    } else if y == 2 {
        Instruction::RL(r)
    } else if y == 3 {
        Instruction::RR(r)
    } else if y == 4 {
        Instruction::SLA(r)
    } else if y == 5 {
        Instruction::SRA(r)
    } else if y == 6 {
        Instruction::SWAP(r)
    } else {
        Instruction::SRL(r)
    }
}

/// The rotate or shift of kind `y` on the byte at the address in HL.
pub open spec fn shift_on_hl(y: int) -> Instruction {
    if y == 0 {
        Instruction::RLCHL
    } else if y == 1 {
        Instruction::RRCHL
    } else if y == 2 {
        Instruction::RLHL
    } else if y == 3 {
        Instruction::RRHL
    } else if y == 4 {
        Instruction::SLAHL
    } else if y == 5 {
        Instruction::SRAHL
    } else if y == 6 {
        Instruction::SWAPHL
    } else {
        Instruction::SRLHL
    }
}

/// The opcodes with `x == 0`: loads of immediates, 16-bit arithmetic,
/// increments and decrements, relative jumps and the accumulator's own
/// instructions.
pub open spec fn decode_low(y: int, z: int) -> Instruction {
    let p = y / 2;
    let q = y % 2;
    if z == 0 {
        if y == 0 {
            Instruction::NOP
        } else if y == 1 {
            Instruction::LDNNSP
        } else if y == 2 {
            Instruction::STOP
        } else if y == 3 {
            Instruction::JR
        } else {
            Instruction::JRCC(condition(y - 4))
        }
    } else if z == 1 {
        match pair(p) {
            Some(r) => if q == 0 {
                Instruction::LD16NN(r)
            } else {
                Instruction::ADDHLR16(r)
            },
            None => if q == 0 {
                Instruction::LD16SP
            } else {
                Instruction::ADDHLRSP
            },
        }
    } else if z == 2 {
        if q == 0 {
            if p == 0 {
                Instruction::LD16A(Reg16::BC)
            } else if p == 1 {
                Instruction::LD16A(Reg16::DE)
            } else if p == 2 {
                Instruction::LDHLINCA
            } else {
                Instruction::LDHLDECA
            }
        } else {
            if p == 0 {
                Instruction::LDA16(Reg16::BC)
            } else if p == 1 {
                Instruction::LDA16(Reg16::DE)
            } else if p == 2 {
                Instruction::LDAHLINC
            } else {
                Instruction::LDAHLDEC
            }
        }
    } else if z == 3 {
        match pair(p) {
            Some(r) => if q == 0 {
                Instruction::INC16(r)
            } else {
                Instruction::DEC16(r)
            },
            None => if q == 0 {
                Instruction::INC16SP
            } else {
                Instruction::DEC16SP
            },
        }
    } else if z == 4 {
        match operand(y) {
            Some(r) => Instruction::INC(r),
            None => Instruction::INCHL,
        }
    } else if z == 5 {
        match operand(y) {
            Some(r) => Instruction::DEC(r),
            None => Instruction::DECHL,
        }
    } else if z == 6 {
        match operand(y) {
            Some(r) => Instruction::LDRN(r),
            None => Instruction::LDHLN,
        }
    } else {
        if y == 0 {
            Instruction::RLCA
        } else if y == 1 {
            Instruction::RRCA
        } else if y == 2 {
            Instruction::RLA
        } else if y == 3 {
            Instruction::RRA
        } else if y == 4 {
            Instruction::DAA
        } else if y == 5 {
            Instruction::CPL
        } else if y == 6 {
            Instruction::SCF
        } else {
            Instruction::CCF
        }
    }
}

/// The opcodes with `x == 1`: loads between registers and the byte at the
/// address in HL. Where both fields name that byte the opcode is HALT.
pub open spec fn decode_load(y: int, z: int) -> Instruction {
    match (operand(y), operand(z)) {
        (Some(target), Some(source)) => Instruction::LDRR(target, source),
        (Some(target), None) => Instruction::LDRHL(target),
        (None, Some(source)) => Instruction::LDHLR(source),
        (None, None) => Instruction::HALT,
    }
}

/// The opcodes with `x == 2`: arithmetic on the accumulator.
pub open spec fn decode_arithmetic(y: int, z: int) -> Instruction {
    match operand(z) {
        Some(r) => arithmetic_on(y, r),
        None => arithmetic_on_hl(y),
    }
}

/// The opcodes with `x == 3`: control flow, the stack, high-page loads and
/// arithmetic on immediates. Eleven of them have no meaning.
pub open spec fn decode_high(y: int, z: int) -> Option<Instruction> {
    let p = y / 2;
    let q = y % 2;
    if z == 0 {
        if y < 4 {
            Some(Instruction::RETCC(condition(y)))
        } else if y == 4 {
            Some(Instruction::LDHNA)
        } else if y == 5 {
            Some(Instruction::ADDSPE)
        } else if y == 6 {
            Some(Instruction::LDHAN)
        } else {
            Some(Instruction::LDHLSPE)
        }
    } else if z == 1 {
        if q == 0 {
            Some(Instruction::POP(stack_pair(p)))
        } else if p == 0 {
            Some(Instruction::RET)
        } else if p == 1 {
            Some(Instruction::RETI)
        } else if p == 2 {
            Some(Instruction::JPHL)
        } else {
            Some(Instruction::LDSPHL)
        }
    } else if z == 2 {
        if y < 4 {
            Some(Instruction::JPCC(condition(y)))
        } else if y == 4 {
            Some(Instruction::LDHCA)
        } else if y == 5 {
            Some(Instruction::LDNNA)
        } else if y == 6 {
            Some(Instruction::LDHAC)
        } else {
            Some(Instruction::LDANN)
        }
    } else if z == 3 {
        if y == 0 {
            Some(Instruction::JP)
        } else if y == 1 {
            Some(Instruction::PREFIXCB)
        } else if y == 6 {
            Some(Instruction::DI)
        } else if y == 7 {
            Some(Instruction::EI)
        } else {
            None
        }
    } else if z == 4 {
        if y < 4 {
            Some(Instruction::CALLCC(condition(y)))
        } else {
            None
        }
    } else if z == 5 {
        if q == 0 {
            Some(Instruction::PUSH(stack_pair(p)))
        } else if p == 0 {
            Some(Instruction::CALL)
        } else {
            None
        }
    } else if z == 6 {
        Some(arithmetic_on_immediate(y))
    } else {
        Some(Instruction::RST((y * 8) as u8))
    }
}

/// What an opcode of the first table means, if anything.
pub open spec fn decode(byte: u8) -> Option<Instruction> {
    let x = byte as int / 64;
    let y = (byte as int / 8) % 8;
    let z = byte as int % 8;
    if x == 0 {
        Some(decode_low(y, z))
    } else if x == 1 {
        Some(decode_load(y, z))
    } else if x == 2 {
        Some(decode_arithmetic(y, z))
    } else {
        decode_high(y, z)
    }
}

/// What an opcode of the second table means: a rotate or shift for
/// `x == 0`, else a test, a reset or a set of bit `y`.
pub open spec fn decode_prefixed(byte: u8) -> Instruction {
    let x = byte as int / 64;
    let y = (byte as int / 8) % 8;
    let z = byte as int % 8;
    match operand(z) {
        Some(r) => if x == 0 {
            shift_on(y, r)
        } else if x == 1 {
            Instruction::BIT(y as u8, r)
        } else if x == 2 {
            Instruction::RESET(y as u8, r)
        } else {
            Instruction::SET(y as u8, r)
        },
        None => if x == 0 {
            shift_on_hl(y)
        } else if x == 1 {
            Instruction::BITHL(y as u8)
        } else if x == 2 {
            Instruction::RESETHL(y as u8)
        } else {
            Instruction::SETHL(y as u8)
        },
    }
}

/// Whether a register name is that of the flag register.
pub fn is_f(r: Reg8) -> (is: bool)
    ensures
        is == (r == Reg8::F),
{
    match r {
        Reg8::F => true,
        _ => false,
    }
}

/// The eleven opcodes of the first table that have no meaning.
pub open spec fn undefined_opcode(byte: u8) -> bool {
    byte == 0xd3 || byte == 0xdb || byte == 0xdd || byte == 0xe3 || byte == 0xe4 || byte == 0xeb
        || byte == 0xec || byte == 0xed || byte == 0xf4 || byte == 0xfc || byte == 0xfd
}

impl Instruction {
    /// An instruction that the processor can run: it writes no register
    /// named F, and a bit index is below eight.
    pub open spec fn well_formed(self) -> bool {
        match self {
            Instruction::LDRR(r, _)
            | Instruction::LDRN(r)
            | Instruction::LDRHL(r)
            | Instruction::INC(r)
            | Instruction::DEC(r)
            | Instruction::RR(r)
            | Instruction::RL(r)
            | Instruction::RLC(r)
            | Instruction::RRC(r)
            | Instruction::SWAP(r)
            | Instruction::SRL(r)
            | Instruction::SRA(r)
            | Instruction::SLA(r) => r != Reg8::F,
            Instruction::SET(bit, r) | Instruction::RESET(bit, r) => bit < 8 && r != Reg8::F,
            Instruction::BIT(bit, _)
            | Instruction::BITHL(bit)
            | Instruction::SETHL(bit)
            | Instruction::RESETHL(bit) => bit < 8,
            _ => true,
        }
    }

    /// Whether the processor can run this instruction.
    pub fn runnable(&self) -> (can: bool)
        ensures
            can == self.well_formed(),
    {
        match self {
            Instruction::LDRR(r, _) => !is_f(*r),
            Instruction::LDRN(r) => !is_f(*r),
            Instruction::LDRHL(r) => !is_f(*r),
            Instruction::INC(r) => !is_f(*r),
            Instruction::DEC(r) => !is_f(*r),
            Instruction::RR(r) => !is_f(*r),
            Instruction::RL(r) => !is_f(*r),
            Instruction::RLC(r) => !is_f(*r),
            Instruction::RRC(r) => !is_f(*r),
            Instruction::SWAP(r) => !is_f(*r),
            Instruction::SRL(r) => !is_f(*r),
            Instruction::SRA(r) => !is_f(*r),
            Instruction::SLA(r) => !is_f(*r),
            Instruction::SET(bit, r) => *bit < 8 && !is_f(*r),
            Instruction::RESET(bit, r) => *bit < 8 && !is_f(*r),
            Instruction::BIT(bit, _) => *bit < 8,
            Instruction::BITHL(bit) => *bit < 8,
            Instruction::SETHL(bit) => *bit < 8,
            Instruction::RESETHL(bit) => *bit < 8,
            _ => true,
        }
    }

    /// Decodes an opcode of the first table.
    pub fn from_byte(byte: u8) -> (out: Option<Instruction>)
        ensures
            out == decode(byte),
            out.is_none() == undefined_opcode(byte),
            out matches Some(instruction) ==> instruction.well_formed(),
    {
        match byte {
            0x00 => Some(Instruction::NOP),
            0x01 => Some(Instruction::LD16NN(Reg16::BC)),
            0x02 => Some(Instruction::LD16A(Reg16::BC)),
            0x03 => Some(Instruction::INC16(Reg16::BC)),
            0x04 => Some(Instruction::INC(Reg8::B)),
            0x05 => Some(Instruction::DEC(Reg8::B)),
            0x06 => Some(Instruction::LDRN(Reg8::B)),
            0x07 => Some(Instruction::RLCA),
            0x08 => Some(Instruction::LDNNSP),
            0x09 => Some(Instruction::ADDHLR16(Reg16::BC)),
            0x0a => Some(Instruction::LDA16(Reg16::BC)),
            0x0b => Some(Instruction::DEC16(Reg16::BC)),
            0x0c => Some(Instruction::INC(Reg8::C)),
            0x0d => Some(Instruction::DEC(Reg8::C)),
            0x0e => Some(Instruction::LDRN(Reg8::C)),
            0x0f => Some(Instruction::RRCA),
            0x10 => Some(Instruction::STOP),
            0x11 => Some(Instruction::LD16NN(Reg16::DE)),
            0x12 => Some(Instruction::LD16A(Reg16::DE)),
            0x13 => Some(Instruction::INC16(Reg16::DE)),
            0x14 => Some(Instruction::INC(Reg8::D)),
            0x15 => Some(Instruction::DEC(Reg8::D)),
            0x16 => Some(Instruction::LDRN(Reg8::D)),
            0x17 => Some(Instruction::RLA),
            0x18 => Some(Instruction::JR),
            0x19 => Some(Instruction::ADDHLR16(Reg16::DE)),
            0x1a => Some(Instruction::LDA16(Reg16::DE)),
            0x1b => Some(Instruction::DEC16(Reg16::DE)),
            0x1c => Some(Instruction::INC(Reg8::E)),
            0x1d => Some(Instruction::DEC(Reg8::E)),
            0x1e => Some(Instruction::LDRN(Reg8::E)),
            0x1f => Some(Instruction::RRA),
            0x20 => Some(Instruction::JRCC(Condition::NZ)),
            0x21 => Some(Instruction::LD16NN(Reg16::HL)),
            0x22 => Some(Instruction::LDHLINCA),
            0x23 => Some(Instruction::INC16(Reg16::HL)),
            0x24 => Some(Instruction::INC(Reg8::H)),
            0x25 => Some(Instruction::DEC(Reg8::H)),
            0x26 => Some(Instruction::LDRN(Reg8::H)),
            0x27 => Some(Instruction::DAA),
            0x28 => Some(Instruction::JRCC(Condition::Z)),
            0x29 => Some(Instruction::ADDHLR16(Reg16::HL)),
            0x2a => Some(Instruction::LDAHLINC),
            0x2b => Some(Instruction::DEC16(Reg16::HL)),
            0x2c => Some(Instruction::INC(Reg8::L)),
            0x2d => Some(Instruction::DEC(Reg8::L)),
            0x2e => Some(Instruction::LDRN(Reg8::L)),
            0x2f => Some(Instruction::CPL),
            0x30 => Some(Instruction::JRCC(Condition::NC)),
            0x31 => Some(Instruction::LD16SP),
            0x32 => Some(Instruction::LDHLDECA),
            0x33 => Some(Instruction::INC16SP),
            0x34 => Some(Instruction::INCHL),
            0x35 => Some(Instruction::DECHL),
            0x36 => Some(Instruction::LDHLN),
            0x37 => Some(Instruction::SCF),
            0x38 => Some(Instruction::JRCC(Condition::C)),
            0x39 => Some(Instruction::ADDHLRSP),
            0x3a => Some(Instruction::LDAHLDEC),
            0x3b => Some(Instruction::DEC16SP),
            0x3c => Some(Instruction::INC(Reg8::A)),
            0x3d => Some(Instruction::DEC(Reg8::A)),
            0x3e => Some(Instruction::LDRN(Reg8::A)),
            0x3f => Some(Instruction::CCF),
            0x40 => Some(Instruction::LDRR(Reg8::B, Reg8::B)),
            0x41 => Some(Instruction::LDRR(Reg8::B, Reg8::C)),
            0x42 => Some(Instruction::LDRR(Reg8::B, Reg8::D)),
            0x43 => Some(Instruction::LDRR(Reg8::B, Reg8::E)),
            0x44 => Some(Instruction::LDRR(Reg8::B, Reg8::H)),
            0x45 => Some(Instruction::LDRR(Reg8::B, Reg8::L)),
            0x46 => Some(Instruction::LDRHL(Reg8::B)),
            0x47 => Some(Instruction::LDRR(Reg8::B, Reg8::A)),
            0x48 => Some(Instruction::LDRR(Reg8::C, Reg8::B)),
            0x49 => Some(Instruction::LDRR(Reg8::C, Reg8::C)),
            0x4a => Some(Instruction::LDRR(Reg8::C, Reg8::D)),
            0x4b => Some(Instruction::LDRR(Reg8::C, Reg8::E)),
            0x4c => Some(Instruction::LDRR(Reg8::C, Reg8::H)),
            0x4d => Some(Instruction::LDRR(Reg8::C, Reg8::L)),
            0x4e => Some(Instruction::LDRHL(Reg8::C)),
            0x4f => Some(Instruction::LDRR(Reg8::C, Reg8::A)),
            0x50 => Some(Instruction::LDRR(Reg8::D, Reg8::B)),
            0x51 => Some(Instruction::LDRR(Reg8::D, Reg8::C)),
            0x52 => Some(Instruction::LDRR(Reg8::D, Reg8::D)),
            0x53 => Some(Instruction::LDRR(Reg8::D, Reg8::E)),
            0x54 => Some(Instruction::LDRR(Reg8::D, Reg8::H)),
            0x55 => Some(Instruction::LDRR(Reg8::D, Reg8::L)),
            0x56 => Some(Instruction::LDRHL(Reg8::D)),
            0x57 => Some(Instruction::LDRR(Reg8::D, Reg8::A)),
            0x58 => Some(Instruction::LDRR(Reg8::E, Reg8::B)),
            0x59 => Some(Instruction::LDRR(Reg8::E, Reg8::C)),
            0x5a => Some(Instruction::LDRR(Reg8::E, Reg8::D)),
            0x5b => Some(Instruction::LDRR(Reg8::E, Reg8::E)),
            0x5c => Some(Instruction::LDRR(Reg8::E, Reg8::H)),
            0x5d => Some(Instruction::LDRR(Reg8::E, Reg8::L)),
            0x5e => Some(Instruction::LDRHL(Reg8::E)),
            0x5f => Some(Instruction::LDRR(Reg8::E, Reg8::A)),
            0x60 => Some(Instruction::LDRR(Reg8::H, Reg8::B)),
            0x61 => Some(Instruction::LDRR(Reg8::H, Reg8::C)),
            0x62 => Some(Instruction::LDRR(Reg8::H, Reg8::D)),
            0x63 => Some(Instruction::LDRR(Reg8::H, Reg8::E)),
            0x64 => Some(Instruction::LDRR(Reg8::H, Reg8::H)),
            0x65 => Some(Instruction::LDRR(Reg8::H, Reg8::L)),
            0x66 => Some(Instruction::LDRHL(Reg8::H)),
            0x67 => Some(Instruction::LDRR(Reg8::H, Reg8::A)),
            0x68 => Some(Instruction::LDRR(Reg8::L, Reg8::B)),
            0x69 => Some(Instruction::LDRR(Reg8::L, Reg8::C)),
            0x6a => Some(Instruction::LDRR(Reg8::L, Reg8::D)),
            0x6b => Some(Instruction::LDRR(Reg8::L, Reg8::E)),
            0x6c => Some(Instruction::LDRR(Reg8::L, Reg8::H)),
            0x6d => Some(Instruction::LDRR(Reg8::L, Reg8::L)),
            0x6e => Some(Instruction::LDRHL(Reg8::L)),
            0x6f => Some(Instruction::LDRR(Reg8::L, Reg8::A)),
            0x70 => Some(Instruction::LDHLR(Reg8::B)),
            0x71 => Some(Instruction::LDHLR(Reg8::C)),
            0x72 => Some(Instruction::LDHLR(Reg8::D)),
            0x73 => Some(Instruction::LDHLR(Reg8::E)),
            0x74 => Some(Instruction::LDHLR(Reg8::H)),
            0x75 => Some(Instruction::LDHLR(Reg8::L)),
            0x76 => Some(Instruction::HALT),
            0x77 => Some(Instruction::LDHLR(Reg8::A)),
            0x78 => Some(Instruction::LDRR(Reg8::A, Reg8::B)),
            0x79 => Some(Instruction::LDRR(Reg8::A, Reg8::C)),
            0x7a => Some(Instruction::LDRR(Reg8::A, Reg8::D)),
            0x7b => Some(Instruction::LDRR(Reg8::A, Reg8::E)),
            0x7c => Some(Instruction::LDRR(Reg8::A, Reg8::H)),
            0x7d => Some(Instruction::LDRR(Reg8::A, Reg8::L)),
            0x7e => Some(Instruction::LDRHL(Reg8::A)),
            0x7f => Some(Instruction::LDRR(Reg8::A, Reg8::A)),
            0x80 => Some(Instruction::ADD(Reg8::B)),
            0x81 => Some(Instruction::ADD(Reg8::C)),
            0x82 => Some(Instruction::ADD(Reg8::D)),
            0x83 => Some(Instruction::ADD(Reg8::E)),
            0x84 => Some(Instruction::ADD(Reg8::H)),
            0x85 => Some(Instruction::ADD(Reg8::L)),
            0x86 => Some(Instruction::ADDHL),
            0x87 => Some(Instruction::ADD(Reg8::A)),
            0x88 => Some(Instruction::ADC(Reg8::B)),
            0x89 => Some(Instruction::ADC(Reg8::C)),
            0x8a => Some(Instruction::ADC(Reg8::D)),
            0x8b => Some(Instruction::ADC(Reg8::E)),
            0x8c => Some(Instruction::ADC(Reg8::H)),
            0x8d => Some(Instruction::ADC(Reg8::L)),
            0x8e => Some(Instruction::ADCHL),
            0x8f => Some(Instruction::ADC(Reg8::A)),
            0x90 => Some(Instruction::SUB(Reg8::B)),
            0x91 => Some(Instruction::SUB(Reg8::C)),
            0x92 => Some(Instruction::SUB(Reg8::D)),
            0x93 => Some(Instruction::SUB(Reg8::E)),
            0x94 => Some(Instruction::SUB(Reg8::H)),
            0x95 => Some(Instruction::SUB(Reg8::L)),
            0x96 => Some(Instruction::SUBHL),
            0x97 => Some(Instruction::SUB(Reg8::A)),
            0x98 => Some(Instruction::SBC(Reg8::B)),
            0x99 => Some(Instruction::SBC(Reg8::C)),
            0x9a => Some(Instruction::SBC(Reg8::D)),
            0x9b => Some(Instruction::SBC(Reg8::E)),
            0x9c => Some(Instruction::SBC(Reg8::H)),
            0x9d => Some(Instruction::SBC(Reg8::L)),
            0x9e => Some(Instruction::SBCHL),
            0x9f => Some(Instruction::SBC(Reg8::A)),
            0xa0 => Some(Instruction::AND(Reg8::B)),
            0xa1 => Some(Instruction::AND(Reg8::C)),
            0xa2 => Some(Instruction::AND(Reg8::D)),
            0xa3 => Some(Instruction::AND(Reg8::E)),
            0xa4 => Some(Instruction::AND(Reg8::H)),
            0xa5 => Some(Instruction::AND(Reg8::L)),
            0xa6 => Some(Instruction::ANDHL),
            0xa7 => Some(Instruction::AND(Reg8::A)),
            0xa8 => Some(Instruction::XOR(Reg8::B)),
            0xa9 => Some(Instruction::XOR(Reg8::C)),
            0xaa => Some(Instruction::XOR(Reg8::D)),
            0xab => Some(Instruction::XOR(Reg8::E)),
            0xac => Some(Instruction::XOR(Reg8::H)),
            0xad => Some(Instruction::XOR(Reg8::L)),
            0xae => Some(Instruction::XORHL),
            0xaf => Some(Instruction::XOR(Reg8::A)),
            0xb0 => Some(Instruction::OR(Reg8::B)),
            0xb1 => Some(Instruction::OR(Reg8::C)),
            0xb2 => Some(Instruction::OR(Reg8::D)),
            0xb3 => Some(Instruction::OR(Reg8::E)),
            0xb4 => Some(Instruction::OR(Reg8::H)),
            0xb5 => Some(Instruction::OR(Reg8::L)),
            0xb6 => Some(Instruction::ORHL),
            0xb7 => Some(Instruction::OR(Reg8::A)),
            0xb8 => Some(Instruction::CP(Reg8::B)),
            0xb9 => Some(Instruction::CP(Reg8::C)),
            0xba => Some(Instruction::CP(Reg8::D)),
            0xbb => Some(Instruction::CP(Reg8::E)),
            0xbc => Some(Instruction::CP(Reg8::H)),
            0xbd => Some(Instruction::CP(Reg8::L)),
            0xbe => Some(Instruction::CPHL),
            0xbf => Some(Instruction::CP(Reg8::A)),
            0xc0 => Some(Instruction::RETCC(Condition::NZ)),
            0xc1 => Some(Instruction::POP(Reg16::BC)),
            0xc2 => Some(Instruction::JPCC(Condition::NZ)),
            0xc3 => Some(Instruction::JP),
            0xc4 => Some(Instruction::CALLCC(Condition::NZ)),
            0xc5 => Some(Instruction::PUSH(Reg16::BC)),
            0xc6 => Some(Instruction::ADDNN),
            0xc7 => Some(Instruction::RST(0x00)),
            0xc8 => Some(Instruction::RETCC(Condition::Z)),
            0xc9 => Some(Instruction::RET),
            0xca => Some(Instruction::JPCC(Condition::Z)),
            0xcb => Some(Instruction::PREFIXCB),
            0xcc => Some(Instruction::CALLCC(Condition::Z)),
            0xcd => Some(Instruction::CALL),
            0xce => Some(Instruction::ADCNN),
            0xcf => Some(Instruction::RST(0x08)),
            0xd0 => Some(Instruction::RETCC(Condition::NC)),
            0xd1 => Some(Instruction::POP(Reg16::DE)),
            0xd2 => Some(Instruction::JPCC(Condition::NC)),
            0xd3 => None,
            0xd4 => Some(Instruction::CALLCC(Condition::NC)),
            0xd5 => Some(Instruction::PUSH(Reg16::DE)),
            0xd6 => Some(Instruction::SUBNN),
            0xd7 => Some(Instruction::RST(0x10)),
            0xd8 => Some(Instruction::RETCC(Condition::C)),
            0xd9 => Some(Instruction::RETI),
            0xda => Some(Instruction::JPCC(Condition::C)),
            0xdb => None,
            0xdc => Some(Instruction::CALLCC(Condition::C)),
            0xdd => None,
            0xde => Some(Instruction::SBCNN),
            0xdf => Some(Instruction::RST(0x18)),
            0xe0 => Some(Instruction::LDHNA),
            0xe1 => Some(Instruction::POP(Reg16::HL)),
            0xe2 => Some(Instruction::LDHCA),
            0xe3 => None,
            0xe4 => None,
            0xe5 => Some(Instruction::PUSH(Reg16::HL)),
            0xe6 => Some(Instruction::ANDNN),
            0xe7 => Some(Instruction::RST(0x20)),
            0xe8 => Some(Instruction::ADDSPE),
            0xe9 => Some(Instruction::JPHL),
            0xea => Some(Instruction::LDNNA),
            0xeb => None,
            0xec => None,
            0xed => None,
            0xee => Some(Instruction::XORNN),
            0xef => Some(Instruction::RST(0x28)),
            0xf0 => Some(Instruction::LDHAN),
            0xf1 => Some(Instruction::POP(Reg16::AF)),
            0xf2 => Some(Instruction::LDHAC),
            0xf3 => Some(Instruction::DI),
            0xf4 => None,
            0xf5 => Some(Instruction::PUSH(Reg16::AF)),
            0xf6 => Some(Instruction::ORNN),
            0xf7 => Some(Instruction::RST(0x30)),
            0xf8 => Some(Instruction::LDHLSPE),
            0xf9 => Some(Instruction::LDSPHL),
            0xfa => Some(Instruction::LDANN),
            0xfb => Some(Instruction::EI),
            0xfc => None,
            0xfd => None,
            0xfe => Some(Instruction::CPNN),
            0xff => Some(Instruction::RST(0x38)),
        }
    }

    /// Decodes an opcode of the second table, the one behind the prefix.
    pub fn from_byte_prefixed(byte: u8) -> (out: Option<Instruction>)
        ensures
            out == Some(decode_prefixed(byte)),
            decode_prefixed(byte).well_formed(),
    {
        match byte {
            0x00 => Some(Instruction::RLC(Reg8::B)),
            0x01 => Some(Instruction::RLC(Reg8::C)),
            0x02 => Some(Instruction::RLC(Reg8::D)),
            0x03 => Some(Instruction::RLC(Reg8::E)),
            0x04 => Some(Instruction::RLC(Reg8::H)),
            0x05 => Some(Instruction::RLC(Reg8::L)),
            0x06 => Some(Instruction::RLCHL),
            0x07 => Some(Instruction::RLC(Reg8::A)),
            0x08 => Some(Instruction::RRC(Reg8::B)),
            0x09 => Some(Instruction::RRC(Reg8::C)),
            0x0a => Some(Instruction::RRC(Reg8::D)),
            0x0b => Some(Instruction::RRC(Reg8::E)),
            0x0c => Some(Instruction::RRC(Reg8::H)),
            0x0d => Some(Instruction::RRC(Reg8::L)),
            0x0e => Some(Instruction::RRCHL),
            0x0f => Some(Instruction::RRC(Reg8::A)),
            0x10 => Some(Instruction::RL(Reg8::B)),
            0x11 => Some(Instruction::RL(Reg8::C)),
            0x12 => Some(Instruction::RL(Reg8::D)),
            0x13 => Some(Instruction::RL(Reg8::E)),
            0x14 => Some(Instruction::RL(Reg8::H)),
            0x15 => Some(Instruction::RL(Reg8::L)),
            0x16 => Some(Instruction::RLHL),
            0x17 => Some(Instruction::RL(Reg8::A)),
            0x18 => Some(Instruction::RR(Reg8::B)),
            0x19 => Some(Instruction::RR(Reg8::C)),
            0x1a => Some(Instruction::RR(Reg8::D)),
            0x1b => Some(Instruction::RR(Reg8::E)),
            0x1c => Some(Instruction::RR(Reg8::H)),
            0x1d => Some(Instruction::RR(Reg8::L)),
            0x1e => Some(Instruction::RRHL),
            0x1f => Some(Instruction::RR(Reg8::A)),
            0x20 => Some(Instruction::SLA(Reg8::B)),
            0x21 => Some(Instruction::SLA(Reg8::C)),
            0x22 => Some(Instruction::SLA(Reg8::D)),
            0x23 => Some(Instruction::SLA(Reg8::E)),
            0x24 => Some(Instruction::SLA(Reg8::H)),
            0x25 => Some(Instruction::SLA(Reg8::L)),
            0x26 => Some(Instruction::SLAHL),
            0x27 => Some(Instruction::SLA(Reg8::A)),
            0x28 => Some(Instruction::SRA(Reg8::B)),
            0x29 => Some(Instruction::SRA(Reg8::C)),
            0x2a => Some(Instruction::SRA(Reg8::D)),
            0x2b => Some(Instruction::SRA(Reg8::E)),
            0x2c => Some(Instruction::SRA(Reg8::H)),
            0x2d => Some(Instruction::SRA(Reg8::L)),
            0x2e => Some(Instruction::SRAHL),
            0x2f => Some(Instruction::SRA(Reg8::A)),
            0x30 => Some(Instruction::SWAP(Reg8::B)),
            0x31 => Some(Instruction::SWAP(Reg8::C)),
            0x32 => Some(Instruction::SWAP(Reg8::D)),
            0x33 => Some(Instruction::SWAP(Reg8::E)),
            0x34 => Some(Instruction::SWAP(Reg8::H)),
            0x35 => Some(Instruction::SWAP(Reg8::L)),
            0x36 => Some(Instruction::SWAPHL),
            0x37 => Some(Instruction::SWAP(Reg8::A)),
            0x38 => Some(Instruction::SRL(Reg8::B)),
            0x39 => Some(Instruction::SRL(Reg8::C)),
            0x3a => Some(Instruction::SRL(Reg8::D)),
            0x3b => Some(Instruction::SRL(Reg8::E)),
            0x3c => Some(Instruction::SRL(Reg8::H)),
            0x3d => Some(Instruction::SRL(Reg8::L)),
            0x3e => Some(Instruction::SRLHL),
            0x3f => Some(Instruction::SRL(Reg8::A)),
            0x40 => Some(Instruction::BIT(0, Reg8::B)),
            0x41 => Some(Instruction::BIT(0, Reg8::C)),
            0x42 => Some(Instruction::BIT(0, Reg8::D)),
            0x43 => Some(Instruction::BIT(0, Reg8::E)),
            0x44 => Some(Instruction::BIT(0, Reg8::H)),
            0x45 => Some(Instruction::BIT(0, Reg8::L)),
            0x46 => Some(Instruction::BITHL(0)),
            0x47 => Some(Instruction::BIT(0, Reg8::A)),
            0x48 => Some(Instruction::BIT(1, Reg8::B)),
            0x49 => Some(Instruction::BIT(1, Reg8::C)),
            0x4a => Some(Instruction::BIT(1, Reg8::D)),
            0x4b => Some(Instruction::BIT(1, Reg8::E)),
            0x4c => Some(Instruction::BIT(1, Reg8::H)),
            0x4d => Some(Instruction::BIT(1, Reg8::L)),
            0x4e => Some(Instruction::BITHL(1)),
            0x4f => Some(Instruction::BIT(1, Reg8::A)),
            0x50 => Some(Instruction::BIT(2, Reg8::B)),
            0x51 => Some(Instruction::BIT(2, Reg8::C)),
            0x52 => Some(Instruction::BIT(2, Reg8::D)),
            0x53 => Some(Instruction::BIT(2, Reg8::E)),
            0x54 => Some(Instruction::BIT(2, Reg8::H)),
            0x55 => Some(Instruction::BIT(2, Reg8::L)),
            0x56 => Some(Instruction::BITHL(2)),
            0x57 => Some(Instruction::BIT(2, Reg8::A)),
            0x58 => Some(Instruction::BIT(3, Reg8::B)),
            0x59 => Some(Instruction::BIT(3, Reg8::C)),
            0x5a => Some(Instruction::BIT(3, Reg8::D)),
            0x5b => Some(Instruction::BIT(3, Reg8::E)),
            0x5c => Some(Instruction::BIT(3, Reg8::H)),
            0x5d => Some(Instruction::BIT(3, Reg8::L)),
            0x5e => Some(Instruction::BITHL(3)),
            0x5f => Some(Instruction::BIT(3, Reg8::A)),
            0x60 => Some(Instruction::BIT(4, Reg8::B)),
            0x61 => Some(Instruction::BIT(4, Reg8::C)),
            0x62 => Some(Instruction::BIT(4, Reg8::D)),
            0x63 => Some(Instruction::BIT(4, Reg8::E)),
            0x64 => Some(Instruction::BIT(4, Reg8::H)),
            0x65 => Some(Instruction::BIT(4, Reg8::L)),
            0x66 => Some(Instruction::BITHL(4)),
            0x67 => Some(Instruction::BIT(4, Reg8::A)),
            0x68 => Some(Instruction::BIT(5, Reg8::B)),
            0x69 => Some(Instruction::BIT(5, Reg8::C)),
            0x6a => Some(Instruction::BIT(5, Reg8::D)),
            0x6b => Some(Instruction::BIT(5, Reg8::E)),
            0x6c => Some(Instruction::BIT(5, Reg8::H)),
            0x6d => Some(Instruction::BIT(5, Reg8::L)),
            0x6e => Some(Instruction::BITHL(5)),
            0x6f => Some(Instruction::BIT(5, Reg8::A)),
            0x70 => Some(Instruction::BIT(6, Reg8::B)),
            0x71 => Some(Instruction::BIT(6, Reg8::C)),
            0x72 => Some(Instruction::BIT(6, Reg8::D)),
            0x73 => Some(Instruction::BIT(6, Reg8::E)),
            0x74 => Some(Instruction::BIT(6, Reg8::H)),
            0x75 => Some(Instruction::BIT(6, Reg8::L)),
            0x76 => Some(Instruction::BITHL(6)),
            0x77 => Some(Instruction::BIT(6, Reg8::A)),
            0x78 => Some(Instruction::BIT(7, Reg8::B)),
            0x79 => Some(Instruction::BIT(7, Reg8::C)),
            0x7a => Some(Instruction::BIT(7, Reg8::D)),
            0x7b => Some(Instruction::BIT(7, Reg8::E)),
            0x7c => Some(Instruction::BIT(7, Reg8::H)),
            0x7d => Some(Instruction::BIT(7, Reg8::L)),
            0x7e => Some(Instruction::BITHL(7)),
            0x7f => Some(Instruction::BIT(7, Reg8::A)),
            0x80 => Some(Instruction::RESET(0, Reg8::B)),
            0x81 => Some(Instruction::RESET(0, Reg8::C)),
            0x82 => Some(Instruction::RESET(0, Reg8::D)),
            0x83 => Some(Instruction::RESET(0, Reg8::E)),
            0x84 => Some(Instruction::RESET(0, Reg8::H)),
            0x85 => Some(Instruction::RESET(0, Reg8::L)),
            0x86 => Some(Instruction::RESETHL(0)),
            0x87 => Some(Instruction::RESET(0, Reg8::A)),
            0x88 => Some(Instruction::RESET(1, Reg8::B)),
            0x89 => Some(Instruction::RESET(1, Reg8::C)),
            0x8a => Some(Instruction::RESET(1, Reg8::D)),
            0x8b => Some(Instruction::RESET(1, Reg8::E)),
            0x8c => Some(Instruction::RESET(1, Reg8::H)),
            0x8d => Some(Instruction::RESET(1, Reg8::L)),
            0x8e => Some(Instruction::RESETHL(1)),
            0x8f => Some(Instruction::RESET(1, Reg8::A)),
            0x90 => Some(Instruction::RESET(2, Reg8::B)),
            0x91 => Some(Instruction::RESET(2, Reg8::C)),
            0x92 => Some(Instruction::RESET(2, Reg8::D)),
            0x93 => Some(Instruction::RESET(2, Reg8::E)),
            0x94 => Some(Instruction::RESET(2, Reg8::H)),
            0x95 => Some(Instruction::RESET(2, Reg8::L)),
            0x96 => Some(Instruction::RESETHL(2)),
            0x97 => Some(Instruction::RESET(2, Reg8::A)),
            0x98 => Some(Instruction::RESET(3, Reg8::B)),
            0x99 => Some(Instruction::RESET(3, Reg8::C)),
            0x9a => Some(Instruction::RESET(3, Reg8::D)),
            0x9b => Some(Instruction::RESET(3, Reg8::E)),
            0x9c => Some(Instruction::RESET(3, Reg8::H)),
            0x9d => Some(Instruction::RESET(3, Reg8::L)),
            0x9e => Some(Instruction::RESETHL(3)),
            0x9f => Some(Instruction::RESET(3, Reg8::A)),
            0xa0 => Some(Instruction::RESET(4, Reg8::B)),
            0xa1 => Some(Instruction::RESET(4, Reg8::C)),
            0xa2 => Some(Instruction::RESET(4, Reg8::D)),
            0xa3 => Some(Instruction::RESET(4, Reg8::E)),
            0xa4 => Some(Instruction::RESET(4, Reg8::H)),
            0xa5 => Some(Instruction::RESET(4, Reg8::L)),
            0xa6 => Some(Instruction::RESETHL(4)),
            0xa7 => Some(Instruction::RESET(4, Reg8::A)),
            0xa8 => Some(Instruction::RESET(5, Reg8::B)),
            0xa9 => Some(Instruction::RESET(5, Reg8::C)),
            0xaa => Some(Instruction::RESET(5, Reg8::D)),
            0xab => Some(Instruction::RESET(5, Reg8::E)),
            0xac => Some(Instruction::RESET(5, Reg8::H)),
            0xad => Some(Instruction::RESET(5, Reg8::L)),
            0xae => Some(Instruction::RESETHL(5)),
            0xaf => Some(Instruction::RESET(5, Reg8::A)),
            0xb0 => Some(Instruction::RESET(6, Reg8::B)),
            0xb1 => Some(Instruction::RESET(6, Reg8::C)),
            0xb2 => Some(Instruction::RESET(6, Reg8::D)),
            0xb3 => Some(Instruction::RESET(6, Reg8::E)),
            0xb4 => Some(Instruction::RESET(6, Reg8::H)),
            0xb5 => Some(Instruction::RESET(6, Reg8::L)),
            0xb6 => Some(Instruction::RESETHL(6)),
            0xb7 => Some(Instruction::RESET(6, Reg8::A)),
            0xb8 => Some(Instruction::RESET(7, Reg8::B)),
            0xb9 => Some(Instruction::RESET(7, Reg8::C)),
            0xba => Some(Instruction::RESET(7, Reg8::D)),
            0xbb => Some(Instruction::RESET(7, Reg8::E)),
            0xbc => Some(Instruction::RESET(7, Reg8::H)),
            0xbd => Some(Instruction::RESET(7, Reg8::L)),
            0xbe => Some(Instruction::RESETHL(7)),
            0xbf => Some(Instruction::RESET(7, Reg8::A)),
            0xc0 => Some(Instruction::SET(0, Reg8::B)),
            0xc1 => Some(Instruction::SET(0, Reg8::C)),
            0xc2 => Some(Instruction::SET(0, Reg8::D)),
            0xc3 => Some(Instruction::SET(0, Reg8::E)),
            0xc4 => Some(Instruction::SET(0, Reg8::H)),
            0xc5 => Some(Instruction::SET(0, Reg8::L)),
            0xc6 => Some(Instruction::SETHL(0)),
            0xc7 => Some(Instruction::SET(0, Reg8::A)),
            0xc8 => Some(Instruction::SET(1, Reg8::B)),
            0xc9 => Some(Instruction::SET(1, Reg8::C)),
            0xca => Some(Instruction::SET(1, Reg8::D)),
            0xcb => Some(Instruction::SET(1, Reg8::E)),
            0xcc => Some(Instruction::SET(1, Reg8::H)),
            0xcd => Some(Instruction::SET(1, Reg8::L)),
            0xce => Some(Instruction::SETHL(1)),
            0xcf => Some(Instruction::SET(1, Reg8::A)),
            0xd0 => Some(Instruction::SET(2, Reg8::B)),
            0xd1 => Some(Instruction::SET(2, Reg8::C)),
            0xd2 => Some(Instruction::SET(2, Reg8::D)),
            0xd3 => Some(Instruction::SET(2, Reg8::E)),
            0xd4 => Some(Instruction::SET(2, Reg8::H)),
            0xd5 => Some(Instruction::SET(2, Reg8::L)),
            0xd6 => Some(Instruction::SETHL(2)),
            0xd7 => Some(Instruction::SET(2, Reg8::A)),
            0xd8 => Some(Instruction::SET(3, Reg8::B)),
            0xd9 => Some(Instruction::SET(3, Reg8::C)),
            0xda => Some(Instruction::SET(3, Reg8::D)),
            0xdb => Some(Instruction::SET(3, Reg8::E)),
            0xdc => Some(Instruction::SET(3, Reg8::H)),
            0xdd => Some(Instruction::SET(3, Reg8::L)),
            0xde => Some(Instruction::SETHL(3)),
            0xdf => Some(Instruction::SET(3, Reg8::A)),
            0xe0 => Some(Instruction::SET(4, Reg8::B)),
            0xe1 => Some(Instruction::SET(4, Reg8::C)),
            0xe2 => Some(Instruction::SET(4, Reg8::D)),
            0xe3 => Some(Instruction::SET(4, Reg8::E)),
            0xe4 => Some(Instruction::SET(4, Reg8::H)),
            0xe5 => Some(Instruction::SET(4, Reg8::L)),
            0xe6 => Some(Instruction::SETHL(4)),
            0xe7 => Some(Instruction::SET(4, Reg8::A)),
            0xe8 => Some(Instruction::SET(5, Reg8::B)),
            0xe9 => Some(Instruction::SET(5, Reg8::C)),
            0xea => Some(Instruction::SET(5, Reg8::D)),
            0xeb => Some(Instruction::SET(5, Reg8::E)),
            0xec => Some(Instruction::SET(5, Reg8::H)),
            0xed => Some(Instruction::SET(5, Reg8::L)),
            0xee => Some(Instruction::SETHL(5)),
            0xef => Some(Instruction::SET(5, Reg8::A)),
            0xf0 => Some(Instruction::SET(6, Reg8::B)),
            0xf1 => Some(Instruction::SET(6, Reg8::C)),
            0xf2 => Some(Instruction::SET(6, Reg8::D)),
            0xf3 => Some(Instruction::SET(6, Reg8::E)),
            0xf4 => Some(Instruction::SET(6, Reg8::H)),
            0xf5 => Some(Instruction::SET(6, Reg8::L)),
            0xf6 => Some(Instruction::SETHL(6)),
            0xf7 => Some(Instruction::SET(6, Reg8::A)),
            0xf8 => Some(Instruction::SET(7, Reg8::B)),
            0xf9 => Some(Instruction::SET(7, Reg8::C)),
            0xfa => Some(Instruction::SET(7, Reg8::D)),
            0xfb => Some(Instruction::SET(7, Reg8::E)),
            0xfc => Some(Instruction::SET(7, Reg8::H)),
            0xfd => Some(Instruction::SET(7, Reg8::L)),
            0xfe => Some(Instruction::SETHL(7)),
            0xff => Some(Instruction::SET(7, Reg8::A)),
        }
    }
}

/// The families of instructions.
#[derive(Clone, Copy, Debug, PartialEq, Eq, Structural)]
pub enum Family {
    Load,
    Arithmetic,
    Shift,
    Bit,
    Control,
    Wide,
    Misc,
}

impl Instruction {
    /// The family that an instruction belongs to.
    pub open spec fn family(self) -> Family {
        match self {
            Instruction::LDRR(_, _) | Instruction::LDRN(_) | Instruction::LDRHL(_)
            | Instruction::LDHLR(_) | Instruction::LDHLN | Instruction::LDA16(_)
            | Instruction::LD16A(_) | Instruction::LDANN | Instruction::LDNNA
            | Instruction::LDHAC | Instruction::LDHCA | Instruction::LDHAN | Instruction::LDHNA
            | Instruction::LDAHLDEC | Instruction::LDHLDECA | Instruction::LDAHLINC
            | Instruction::LDHLINCA | Instruction::LD16NN(_) | Instruction::LD16SP
            | Instruction::LDNNSP | Instruction::LDSPHL | Instruction::LDHLSPE
            | Instruction::PUSH(_) | Instruction::POP(_) => Family::Load,
            Instruction::ADD(_) | Instruction::ADC(_) | Instruction::SUB(_)
            | Instruction::SBC(_) | Instruction::AND(_) | Instruction::XOR(_)
            | Instruction::OR(_) | Instruction::CP(_) | Instruction::ADDHL | Instruction::ADCHL
            | Instruction::SUBHL | Instruction::SBCHL | Instruction::ANDHL | Instruction::XORHL
            | Instruction::ORHL | Instruction::CPHL | Instruction::ADDNN | Instruction::ADCNN
            | Instruction::SUBNN | Instruction::SBCNN | Instruction::ANDNN | Instruction::XORNN
            | Instruction::ORNN | Instruction::CPNN | Instruction::INC(_) | Instruction::DEC(_)
            | Instruction::INCHL | Instruction::DECHL => Family::Arithmetic,
            Instruction::RLCA | Instruction::RRCA | Instruction::RLA | Instruction::RRA
            | Instruction::RLC(_) | Instruction::RRC(_) | Instruction::RL(_)
            | Instruction::RR(_) | Instruction::SLA(_) | Instruction::SRA(_)
            | Instruction::SWAP(_) | Instruction::SRL(_) | Instruction::RLCHL
            | Instruction::RRCHL | Instruction::RLHL | Instruction::RRHL | Instruction::SLAHL
            | Instruction::SRAHL | Instruction::SWAPHL | Instruction::SRLHL => Family::Shift,
            Instruction::BIT(_, _) | Instruction::BITHL(_) | Instruction::SET(_, _)
            | Instruction::SETHL(_) | Instruction::RESET(_, _)
            | Instruction::RESETHL(_) => Family::Bit,
            Instruction::CALL | Instruction::CALLCC(_) | Instruction::JP | Instruction::JPCC(_)
            | Instruction::JPHL | Instruction::JR | Instruction::JRCC(_) | Instruction::RET
            | Instruction::RETCC(_) | Instruction::RETI | Instruction::RST(_) => Family::Control,
            Instruction::ADDHLR16(_) | Instruction::ADDHLRSP | Instruction::ADDSPE
            | Instruction::DEC16(_) | Instruction::INC16(_) | Instruction::DEC16SP
            | Instruction::INC16SP => Family::Wide,
            Instruction::CPL | Instruction::CCF | Instruction::SCF | Instruction::DAA
            | Instruction::DI | Instruction::EI | Instruction::HALT | Instruction::STOP
            | Instruction::NOP | Instruction::PREFIXCB => Family::Misc,
        }
    }

    /// The family that an instruction belongs to.
    pub fn kind(&self) -> (family: Family)
        ensures
            family == self.family(),
    {
        match self {
            Instruction::LDRR(_, _) | Instruction::LDRN(_) | Instruction::LDRHL(_)
            | Instruction::LDHLR(_) | Instruction::LDHLN | Instruction::LDA16(_)
            | Instruction::LD16A(_) | Instruction::LDANN | Instruction::LDNNA
            | Instruction::LDHAC | Instruction::LDHCA | Instruction::LDHAN | Instruction::LDHNA
            | Instruction::LDAHLDEC | Instruction::LDHLDECA | Instruction::LDAHLINC
            | Instruction::LDHLINCA | Instruction::LD16NN(_) | Instruction::LD16SP
            | Instruction::LDNNSP | Instruction::LDSPHL | Instruction::LDHLSPE
            | Instruction::PUSH(_) | Instruction::POP(_) => Family::Load,
            Instruction::ADD(_) | Instruction::ADC(_) | Instruction::SUB(_)
            | Instruction::SBC(_) | Instruction::AND(_) | Instruction::XOR(_)
            | Instruction::OR(_) | Instruction::CP(_) | Instruction::ADDHL | Instruction::ADCHL
            | Instruction::SUBHL | Instruction::SBCHL | Instruction::ANDHL | Instruction::XORHL
            | Instruction::ORHL | Instruction::CPHL | Instruction::ADDNN | Instruction::ADCNN
            | Instruction::SUBNN | Instruction::SBCNN | Instruction::ANDNN | Instruction::XORNN
            | Instruction::ORNN | Instruction::CPNN | Instruction::INC(_) | Instruction::DEC(_)
            | Instruction::INCHL | Instruction::DECHL => Family::Arithmetic,
            Instruction::RLCA | Instruction::RRCA | Instruction::RLA | Instruction::RRA
            | Instruction::RLC(_) | Instruction::RRC(_) | Instruction::RL(_)
            | Instruction::RR(_) | Instruction::SLA(_) | Instruction::SRA(_)
            | Instruction::SWAP(_) | Instruction::SRL(_) | Instruction::RLCHL
            | Instruction::RRCHL | Instruction::RLHL | Instruction::RRHL | Instruction::SLAHL
            | Instruction::SRAHL | Instruction::SWAPHL | Instruction::SRLHL => Family::Shift,
            Instruction::BIT(_, _) | Instruction::BITHL(_) | Instruction::SET(_, _)
            | Instruction::SETHL(_) | Instruction::RESET(_, _)
            | Instruction::RESETHL(_) => Family::Bit,
            Instruction::CALL | Instruction::CALLCC(_) | Instruction::JP | Instruction::JPCC(_)
            | Instruction::JPHL | Instruction::JR | Instruction::JRCC(_) | Instruction::RET
            | Instruction::RETCC(_) | Instruction::RETI | Instruction::RST(_) => Family::Control,
            Instruction::ADDHLR16(_) | Instruction::ADDHLRSP | Instruction::ADDSPE
            | Instruction::DEC16(_) | Instruction::INC16(_) | Instruction::DEC16SP
            | Instruction::INC16SP => Family::Wide,
            Instruction::CPL | Instruction::CCF | Instruction::SCF | Instruction::DAA
            | Instruction::DI | Instruction::EI | Instruction::HALT | Instruction::STOP
            | Instruction::NOP | Instruction::PREFIXCB => Family::Misc,
        }
    }
}

} // verus!
