//! The register file: eight byte registers, their pairings, the program
//! counter and the stack pointer.

use vstd::prelude::*;
use crate::cpu::context::{
    addr_add, advance, after_push_word, after_read_word, read_word_value, retreat, CpuContext,
};
use crate::cpu::flags::Flags;
use crate::memory::{high_byte, join_word, low_byte, split_word, word_of, Storage};

verus! {

/// The names of the byte registers.
#[derive(Clone, Copy, Debug, PartialEq, Eq, Structural)]
pub enum Reg8 {
    A,
    B,
    C,
    D,
    E,
    F,
    H,
    L,
}

/// The names of the register pairs. The first letter names the high byte.
#[derive(Clone, Copy, Debug, PartialEq, Eq, Structural)]
pub enum Reg16 {
    AF,
    BC,
    DE,
    HL,
}

/// The program counter: a cursor over the instruction stream.
#[derive(Clone, Copy, Debug, PartialEq, Eq, Structural)]
pub struct ProgramCounter {
    pub pointer: u16,
}

/// The stack pointer: a cursor over the stack, which grows downwards.
#[derive(Clone, Copy, Debug, PartialEq, Eq, Structural)]
pub struct StackPointer {
    pub pointer: u16,
}

/// The register file.
#[derive(Clone, Copy, Debug, PartialEq, Eq, Structural)]
pub struct Registers {
    pub pc: ProgramCounter,
    pub sp: StackPointer,
    pub a: u8,
    pub b: u8,
    pub c: u8,
    pub d: u8,
    pub e: u8,
    pub f: u8,
    pub h: u8,
    pub l: u8,
}

/// A byte with its low nibble cleared.
#[verifier::opaque]
pub open spec fn top_nibble(byte: u8) -> u8 {
    (byte - byte % 16) as u8
}

/// Clears the low nibble of a byte.
pub fn keep_top_nibble(byte: u8) -> (kept: u8)
    ensures
        kept == top_nibble(byte),
        kept % 16 == 0,
{
    proof {
        reveal(top_nibble);
    }
    byte - byte % 16
}

impl ProgramCounter {
    /// Fetches the byte under the cursor and moves the cursor past it.
    pub fn read<C: CpuContext>(&mut self, src: &mut C) -> (value: u16)
        ensures
            value == C::read_value(old(src)@, old(self).pointer),
            value < 256,
            final(src)@ == C::after_read(old(src)@, old(self).pointer),
            final(self).pointer == addr_add(old(self).pointer, 1),
    {
        let data = src.read_cycle(self.pointer);
        self.pointer = advance(self.pointer, 1);
        data as u16
    }

    /// Moves the cursor to `value`.
    pub fn write(&mut self, value: u16)
        ensures
            final(self).pointer == value,
    {
        self.pointer = value;
    }
}

impl StackPointer {
    /// Pops a word: the low byte lies under the pointer, the high byte
    /// after it, and the pointer moves up past both.
    pub fn read<C: CpuContext>(&mut self, src: &mut C) -> (value: u16)
        ensures
            value == read_word_value::<C>(old(src)@, old(self).pointer),
            final(src)@ == after_read_word::<C>(old(src)@, old(self).pointer),
            final(self).pointer == addr_add(old(self).pointer, 2),
    {
        let low = src.read_cycle(self.pointer);
        let high = src.read_cycle(advance(self.pointer, 1));
        self.pointer = advance(self.pointer, 2);
        join_word(low, high)
    }

    /// Pushes a word: the pointer moves down by two and the word lies under
    /// it, low byte first. The high byte is written before the low one.
    pub fn write<C: CpuContext>(&mut self, dest: &mut C, value: u16)
        ensures
            final(self).pointer == addr_add(old(self).pointer, -2),
            final(dest)@ == after_push_word::<C>(old(dest)@, old(self).pointer, value),
    {
        let (low, high) = split_word(value);
        dest.write_cycle(retreat(self.pointer, 1), high);
        self.pointer = retreat(self.pointer, 2);
        dest.write_cycle(self.pointer, low);
    }
}

impl Registers {
    /// The low nibble of F is zero.
    pub open spec fn wf(self) -> bool {
        self.f % 16 == 0
    }

    /// The byte in register `src`.
    pub open spec fn get8(self, src: Reg8) -> u8 {
        match src {
            Reg8::A => self.a,
            Reg8::B => self.b,
            Reg8::C => self.c,
            Reg8::D => self.d,
            Reg8::E => self.e,
            Reg8::F => self.f,
            Reg8::H => self.h,
            Reg8::L => self.l,
        }
    }

    /// The register file with `value` in register `dest`.
    pub open spec fn with8(self, dest: Reg8, value: u8) -> Registers {
        match dest {
            Reg8::A => Registers { a: value, ..self },
            Reg8::B => Registers { b: value, ..self },
            Reg8::C => Registers { c: value, ..self },
            Reg8::D => Registers { d: value, ..self },
            Reg8::E => Registers { e: value, ..self },
            Reg8::F => Registers { f: value, ..self },
            Reg8::H => Registers { h: value, ..self },
            Reg8::L => Registers { l: value, ..self },
        }
    }

    /// The word in pair `src`, its first register the high byte.
    pub open spec fn get16(self, src: Reg16) -> u16 {
        match src {
            Reg16::AF => word_of(self.f, self.a),
            Reg16::BC => word_of(self.c, self.b),
            Reg16::DE => word_of(self.e, self.d),
            Reg16::HL => word_of(self.l, self.h),
        }
    }

    /// The register file with `value` in pair `dest`. Of the low byte of AF
    /// only the top nibble is kept: F never holds anything else.
    pub open spec fn with16(self, dest: Reg16, value: u16) -> Registers {
        match dest {
            Reg16::AF => Registers {
                a: high_byte(value),
                f: top_nibble(low_byte(value)),
                ..self
            },
            Reg16::BC => Registers { b: high_byte(value), c: low_byte(value), ..self },
            Reg16::DE => Registers { d: high_byte(value), e: low_byte(value), ..self },
            Reg16::HL => Registers { h: high_byte(value), l: low_byte(value), ..self },
        }
    }

    /// The flags that F holds.
    pub open spec fn flags(self) -> Flags {
        Flags::unpacked(self.f)
    }

    /// The register file with F holding `flags`.
    pub open spec fn with_flags(self, flags: Flags) -> Registers {
        Registers { f: flags.packed(), ..self }
    }

    /// The register file with the program counter at `pc`.
    pub open spec fn with_pc(self, pc: u16) -> Registers {
        Registers { pc: ProgramCounter { pointer: pc }, ..self }
    }

    /// The register file with the stack pointer at `sp`.
    pub open spec fn with_sp(self, sp: u16) -> Registers {
        Registers { sp: StackPointer { pointer: sp }, ..self }
    }

    /// The state after reset: execution starts at `0x0100`, the stack at the
    /// top of memory, every register and flag zero.
    pub open spec fn initial() -> Registers {
        Registers {
            pc: ProgramCounter { pointer: 0x100 },
            sp: StackPointer { pointer: 0xFFFF },
            a: 0,
            b: 0,
            c: 0,
            d: 0,
            e: 0,
            f: 0,
            h: 0,
            l: 0,
        }
    }

    pub fn new() -> (regs: Self)
        ensures
            regs == Registers::initial(),
            regs.wf(),
    {
        Self {
            pc: ProgramCounter { pointer: 0x100 },
            sp: StackPointer { pointer: 0xFFFF },
            a: 0,
            b: 0,
            c: 0,
            d: 0,
            e: 0,
            f: 0,
            h: 0,
            l: 0,
        }
    }

    /// Reads a byte register.
    pub fn read_8(&self, src: Reg8) -> (value: u8)
        ensures
            value == self.get8(src),
    {
        match src {
            Reg8::A => self.a,
            Reg8::B => self.b,
            Reg8::C => self.c,
            Reg8::D => self.d,
            Reg8::E => self.e,
            Reg8::F => self.f,
            Reg8::H => self.h,
            Reg8::L => self.l,
        }
    }

    /// Reads a register pair.
    pub fn read_16(&self, src: Reg16) -> (value: u16)
        ensures
            value == self.get16(src),
    {
        match src {
            Reg16::AF => join_word(self.f, self.a),
            Reg16::BC => join_word(self.c, self.b),
            Reg16::DE => join_word(self.e, self.d),
            Reg16::HL => join_word(self.l, self.h),
        }
    }

    /// Writes a byte register. F is written through `set_flags` only.
    pub fn write_8(&mut self, dest: Reg8, value: u8)
        requires
            dest != Reg8::F,
        ensures
            *final(self) == old(self).with8(dest, value),
            old(self).wf() ==> final(self).wf(),
    {
        match dest {
            Reg8::A => self.a = value,
            Reg8::B => self.b = value,
            Reg8::C => self.c = value,
            Reg8::D => self.d = value,
            Reg8::E => self.e = value,
            Reg8::F => {},
            Reg8::H => self.h = value,
            Reg8::L => self.l = value,
        }
    }

    /// Writes a register pair.
    pub fn write_16(&mut self, dest: Reg16, value: u16)
        ensures
            *final(self) == old(self).with16(dest, value),
            old(self).wf() ==> final(self).wf(),
    {
        let (low, high) = split_word(value);
        match dest {
            Reg16::AF => {
                self.a = high;
                self.f = keep_top_nibble(low);
            },
            Reg16::BC => {
                self.b = high;
                self.c = low;
            },
            Reg16::DE => {
                self.d = high;
                self.e = low;
            },
            Reg16::HL => {
                self.h = high;
                self.l = low;
            },
        }
    }

    /// Clears F and sets the bit of each flag that is true.
    pub fn set_flags(&mut self, flags: Flags)
        ensures
            *final(self) == old(self).with_flags(flags),
            final(self).flags() == flags,
            final(self).wf(),
    {
        self.f = flags.to_byte();
    }

    /// The flags that F holds.
    pub fn get_flags(&self) -> (flags: Flags)
        ensures
            flags == self.flags(),
    {
        Flags::from_byte(self.f)
    }
}

impl Storage<Reg8, u8> for Registers {
    open spec fn readable(&self, src: Reg8) -> bool {
        true
    }

    open spec fn writable(&self, dest: Reg8) -> bool {
        dest != Reg8::F
    }

    open spec fn stored(&self, src: Reg8) -> u8 {
        self.get8(src)
    }

    open spec fn after_read(&self, src: Reg8) -> Self {
        *self
    }

    open spec fn after_write(&self, dest: Reg8, value: u8) -> Self {
        self.with8(dest, value)
    }

    fn read(&mut self, src: Reg8) -> u8 {
        self.read_8(src)
    }

    fn write(&mut self, dest: Reg8, value: u8) {
        self.write_8(dest, value);
    }
}

impl Storage<Reg16, u16> for Registers {
    open spec fn readable(&self, src: Reg16) -> bool {
        true
    }

    open spec fn writable(&self, dest: Reg16) -> bool {
        true
    }

    open spec fn stored(&self, src: Reg16) -> u16 {
        self.get16(src)
    }

    open spec fn after_read(&self, src: Reg16) -> Self {
        *self
    }

    open spec fn after_write(&self, dest: Reg16, value: u16) -> Self {
        self.with16(dest, value)
    }

    fn read(&mut self, src: Reg16) -> u16 {
        self.read_16(src)
    }

    fn write(&mut self, dest: Reg16, value: u16) {
        self.write_16(dest, value);
    }
}

} // verus!
