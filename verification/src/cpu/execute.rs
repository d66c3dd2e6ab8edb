//! What each instruction does, and the step that fetches, decodes and runs
//! one.

use vstd::prelude::*;
use crate::cpu::alu::{low16, ALU};
use crate::cpu::context::{addr_add, advance, after_write_word, retreat, CpuContext};
use crate::cpu::flags::Flags;
use crate::cpu::instruction::{
    decode, decode_prefixed, Addr, Condition, Family, Instruction,
};
use crate::cpu::ops::{
    and_spec, bit_spec, carry_bit, daa_spec, holds, or_spec, reset_spec, set_spec, sla_spec,
    sra_spec, srl_spec, swap_spec, xor_spec,
};
use crate::cpu::registers::{Reg16, Reg8};
use crate::cpu::{Fault, Mode, CPU};

verus! {

/// The eight kinds of arithmetic that take the accumulator and one more
/// byte.
#[derive(Clone, Copy, Debug, PartialEq, Eq, Structural)]
pub enum Arithmetic {
    Add,
    Adc,
    Sub,
    Sbc,
    And,
    Xor,
    Or,
    Cp,
}

/// The eight kinds of rotate and shift.
#[derive(Clone, Copy, Debug, PartialEq, Eq, Structural)]
pub enum Shift {
    Rlc,
    Rrc,
    Rl,
    Rr,
    Sla,
    Sra,
    Swap,
    Srl,
}

/// The ways in which an instruction changes one byte in place.
#[derive(Clone, Copy, Debug, PartialEq, Eq, Structural)]
pub enum Modify {
    Inc,
    Dec,
    Shift(Shift),
    SetBit(u8),
    ResetBit(u8),
}

impl Modify {
    /// A bit index, where there is one, is below eight.
    pub open spec fn well_formed(self) -> bool {
        match self {
            Modify::SetBit(bit) | Modify::ResetBit(bit) => bit < 8,
            _ => true,
        }
    }
}

/// A byte read as a signed offset.
pub open spec fn signed(offset: u8) -> int {
    if offset < 128 {
        offset as int
    } else {
        offset - 256
    }
}

/// A signed offset as the word that adds it.
pub open spec fn extended(offset: u8) -> u16 {
    low16(signed(offset))
}

/// Extends a signed offset to a word.
pub fn extend(offset: u8) -> (word: u16)
    ensures
        word == extended(offset),
{
    proof {
        reveal(low16);
    }
    if offset < 128 {
        offset as u16
    } else {
        0xFF00 + (offset as u16)
    }
}

/// The outcome of a shift or rotate of `kind` on `data`, the carry flag
/// being `carry`.
pub open spec fn shifted(kind: Shift, data: u8, carry: u8) -> (u8, Flags) {
    match kind {
        Shift::Rlc => ALU::rlc_spec(data),
        Shift::Rrc => ALU::rrc_spec(data),
        Shift::Rl => ALU::rl_spec(data, carry),
        Shift::Rr => ALU::rr_spec(data, carry),
        Shift::Sla => sla_spec(data),
        Shift::Sra => sra_spec(data),
        Shift::Swap => swap_spec(data),
        Shift::Srl => srl_spec(data),
    }
}

impl CPU {
    /// The processor after arithmetic of `kind` on the accumulator and `b`.
    /// A comparison leaves its flags and no result.
    pub open spec fn applied(self, kind: Arithmetic, b: u8) -> CPU {
        let a = self.registers.a;
        match kind {
            Arithmetic::Add => self.accumulated(ALU::add_spec(a, b)),
            Arithmetic::Adc => self.accumulated(ALU::adc_spec(a, b, carry_bit(self.flags()))),
            Arithmetic::Sub => self.accumulated(ALU::sub_spec(a, b)),
            Arithmetic::Sbc => self.accumulated(ALU::sbc_spec(a, b, carry_bit(self.flags()))),
            Arithmetic::And => self.accumulated(and_spec(a, b)),
            Arithmetic::Xor => self.accumulated(xor_spec(a, b)),
            Arithmetic::Or => self.accumulated(or_spec(a, b)),
            Arithmetic::Cp => self.flagged(ALU::sub_spec(a, b).1),
        }
    }

    /// What a change of kind `how` makes of `data`, and the processor with
    /// the flags that the change leaves.
    pub open spec fn modified(self, how: Modify, data: u8) -> (u8, CPU) {
        match how {
            Modify::Inc => {
                let out = ALU::inc_spec(data, carry_bit(self.flags()));
                (out.0, self.flagged(out.1))
            },
            Modify::Dec => {
                let out = ALU::dec_spec(data);
                (out.0, self.flagged(out.1))
            },
            Modify::Shift(kind) => {
                let out = shifted(kind, data, carry_bit(self.flags()));
                (out.0, self.flagged(out.1))
            },
            Modify::SetBit(bit) => (set_spec(bit, data), self),
            Modify::ResetBit(bit) => (reset_spec(bit, data), self),
        }
    }

    /// The processor after a change of kind `how` to register `r`.
    pub open spec fn register_modified(self, r: Reg8, how: Modify) -> CPU {
        let (value, cpu) = self.modified(how, self.registers.get8(r));
        cpu.with8(r, value)
    }

    /// The processor and the host after a change of kind `how` to the byte
    /// at the address in HL: one read, then one write.
    pub open spec fn memory_modified<C: CpuContext>(self, host: C::V, how: Modify) -> (
        CPU,
        C::V,
    ) {
        let addr = self.registers.get16(Reg16::HL);
        let (value, cpu) = self.modified(how, C::read_value(host, addr));
        (cpu, C::after_write(C::after_read(host, addr), addr, value))
    }

    /// The processor after the word `b` is added to HL.
    pub open spec fn hl_added(self, b: u16) -> CPU {
        let out = ALU::add16_spec(self.registers.get16(Reg16::HL), b);
        self.flagged(out.1).with16(Reg16::HL, out.0)
    }

    /// The processor and the host after a jump to the word that follows in
    /// the instruction stream.
    pub open spec fn jumped<C: CpuContext>(self, host: C::V) -> (CPU, C::V) {
        let (target, cpu, after) = self.fetched_word::<C>(host);
        (cpu.at(target), after)
    }

    /// The processor and the host after a jump by the signed offset that
    /// follows in the instruction stream, counted from the byte after it.
    pub open spec fn jumped_relative<C: CpuContext>(self, host: C::V) -> (CPU, C::V) {
        let (offset, cpu, after) = self.fetched::<C>(host);
        (cpu.at(addr_add(cpu.pc(), signed(offset))), after)
    }

    /// The processor and the host after a call of the word that follows in
    /// the instruction stream: the address after that word is pushed.
    pub open spec fn called<C: CpuContext>(self, host: C::V) -> (CPU, C::V) {
        let (target, cpu, after) = self.fetched_word::<C>(host);
        let (pushed, stored) = cpu.pushed::<C>(after, cpu.pc());
        (pushed.at(target), stored)
    }

    /// The processor and the host after a return: the program counter is
    /// popped off the stack.
    pub open spec fn returned<C: CpuContext>(self, host: C::V) -> (CPU, C::V) {
        let (target, cpu, after) = self.popped::<C>(host);
        (cpu.at(target), after)
    }

    /// The processor and the host after a restart at `target`: the program
    /// counter is pushed.
    pub open spec fn restarted<C: CpuContext>(self, host: C::V, target: u8) -> (CPU, C::V) {
        let (pushed, stored) = self.pushed::<C>(host, self.pc());
        (pushed.at(target as u16), stored)
    }

    /// Does arithmetic of `kind` on the accumulator and `b`.
    pub fn arithmetic(&mut self, kind: Arithmetic, b: u8)
        ensures
            *final(self) == old(self).applied(kind, b),
            final(self).wf(),
    {
        let a = self.registers.read_8(Reg8::A);
        match kind {
            Arithmetic::Add => {
                let out = self.alu.add(a, b);
                self.accumulate(out);
            },
            Arithmetic::Adc => {
                let carry = self.carry_in();
                let out = self.alu.adc(a, b, carry);
                self.accumulate(out);
            },
            Arithmetic::Sub => {
                let out = self.alu.sub(a, b);
                self.accumulate(out);
            },
            Arithmetic::Sbc => {
                let carry = self.carry_in();
                let out = self.alu.sbc(a, b, carry);
                self.accumulate(out);
            },
            Arithmetic::And => self.and_value(b),
            Arithmetic::Xor => self.xor_value(b),
            Arithmetic::Or => self.or_value(b),
            Arithmetic::Cp => self.cp_value(b),
        }
    }

    /// Shifts or rotates a byte.
    pub fn shift(&mut self, kind: Shift, data: &mut u8)
        ensures
            *final(data) == shifted(kind, *old(data), carry_bit(old(self).flags())).0,
            *final(self) == old(self).flagged(
                shifted(kind, *old(data), carry_bit(old(self).flags())).1,
            ),
            final(self).wf(),
    {
        match kind {
            Shift::Rlc => self.rlc(data),
            Shift::Rrc => self.rrc(data),
            Shift::Rl => self.rl(data),
            Shift::Rr => self.rr(data),
            Shift::Sla => self.sla(data),
            Shift::Sra => self.sra(data),
            Shift::Swap => self.swap(data),
            Shift::Srl => self.srl(data),
        }
    }

    /// Changes a byte in place.
    pub fn modify(&mut self, how: Modify, data: &mut u8)
        requires
            how.well_formed(),
        ensures
            (*final(data), *final(self)) == old(self).modified(how, *old(data)),
            old(self).wf() ==> final(self).wf(),
    {
        match how {
            Modify::Inc => {
                let carry = self.carry_in();
                let (result, flags) = self.alu.inc(*data, carry);
                *data = result;
                self.registers.set_flags(flags);
            },
            Modify::Dec => {
                let (result, flags) = self.alu.dec(*data);
                *data = result;
                self.registers.set_flags(flags);
            },
            Modify::Shift(kind) => self.shift(kind, data),
            Modify::SetBit(bit) => self.set(bit, data),
            Modify::ResetBit(bit) => self.reset(bit, data),
        }
    }

    /// Changes a register in place.
    pub fn modify_register(&mut self, r: Reg8, how: Modify)
        requires
            how.well_formed(),
            r != Reg8::F,
        ensures
            *final(self) == old(self).register_modified(r, how),
            old(self).wf() ==> final(self).wf(),
    {
        let mut data = self.registers.read_8(r);
        self.modify(how, &mut data);
        self.registers.write_8(r, data);
    }

    /// Changes the byte at the address in HL in place.
    pub fn modify_memory<C: CpuContext>(&mut self, how: Modify, ctx: &mut C)
        requires
            how.well_formed(),
        ensures
            (*final(self), final(ctx)@) == old(self).memory_modified::<C>(old(ctx)@, how),
            old(self).wf() ==> final(self).wf(),
    {
        let addr = self.registers.read_16(Reg16::HL);
        let mut data = ctx.read_cycle(addr);
        self.modify(how, &mut data);
        ctx.write_cycle(addr, data);
    }

    /// Adds a word to HL.
    pub fn add_hl(&mut self, b: u16)
        ensures
            *final(self) == old(self).hl_added(b),
            final(self).wf(),
    {
        let a = self.registers.read_16(Reg16::HL);
        let (result, flags) = self.alu.add16(a, b);
        self.registers.set_flags(flags);
        self.registers.write_16(Reg16::HL, result);
    }

    /// Jumps to the word that follows in the instruction stream.
    pub fn jp<C: CpuContext>(&mut self, ctx: &mut C)
        ensures
            (*final(self), final(ctx)@) == old(self).jumped::<C>(old(ctx)@),
            old(self).wf() ==> final(self).wf(),
    {
        let addr = self.next_word(ctx);
        self.registers.pc.write(addr);
    }

    /// Jumps by the signed offset that follows in the instruction stream.
    pub fn jr<C: CpuContext>(&mut self, ctx: &mut C)
        ensures
            (*final(self), final(ctx)@) == old(self).jumped_relative::<C>(old(ctx)@),
            old(self).wf() ==> final(self).wf(),
    {
        let offset = self.next_byte(ctx);
        let pc = self.registers.pc.pointer;
        if offset < 128 {
            self.registers.pc.write(advance(pc, offset as u16));
        } else {
            self.registers.pc.write(retreat(pc, 256 - (offset as u16)));
        }
    }

    /// Calls the word that follows in the instruction stream.
    pub fn call<C: CpuContext>(&mut self, ctx: &mut C)
        ensures
            (*final(self), final(ctx)@) == old(self).called::<C>(old(ctx)@),
            old(self).wf() ==> final(self).wf(),
    {
        let target = self.next_word(ctx);
        let back = self.registers.pc.pointer;
        self.push(back, ctx);
        self.registers.pc.write(target);
    }

    /// Returns to the address on top of the stack.
    pub fn ret<C: CpuContext>(&mut self, ctx: &mut C)
        ensures
            (*final(self), final(ctx)@) == old(self).returned::<C>(old(ctx)@),
            old(self).wf() ==> final(self).wf(),
    {
        let addr = self.pop(ctx);
        self.registers.pc.write(addr);
    }

    /// Restarts at one of the eight fixed addresses.
    pub fn rst<C: CpuContext>(&mut self, target: u8, ctx: &mut C)
        ensures
            (*final(self), final(ctx)@) == old(self).restarted::<C>(old(ctx)@, target),
            old(self).wf() ==> final(self).wf(),
    {
        let back = self.registers.pc.pointer;
        self.push(back, ctx);
        self.registers.pc.write(target as u16);
    }

    /// Moves the program counter on by `n` without reading what it passes.
    pub fn skip(&mut self, n: u16)
        ensures
            *final(self) == old(self).at(addr_add(old(self).pc(), n as int)),
            old(self).wf() ==> final(self).wf(),
    {
        let pc = self.registers.pc.pointer;
        self.registers.pc.write(advance(pc, n));
    }
}

/// An instruction that ran to its end.
pub open spec fn done<S>(after: (CPU, S)) -> (CPU, S, Result<(), Fault>) {
    (after.0, after.1, Ok(()))
}

impl CPU {
    /// The processor and the host after a byte named by `place` is loaded
    /// into the accumulator.
    pub open spec fn a_loaded<C: CpuContext>(self, host: C::V, place: Addr) -> (CPU, C::V) {
        let (value, cpu, after) = self.loaded::<C>(host, place);
        (cpu.with8(Reg8::A, value), after)
    }

    /// The processor and the host after the accumulator is stored in the
    /// byte named by `place`.
    pub open spec fn a_stored<C: CpuContext>(self, host: C::V, place: Addr) -> (CPU, C::V) {
        self.stored::<C>(host, place, self.registers.a)
    }

    /// The processor after arithmetic of `kind` on the accumulator and a
    /// register.
    pub open spec fn register_applied(self, kind: Arithmetic, r: Reg8) -> CPU {
        self.applied(kind, self.registers.get8(r))
    }

    /// The processor and the host after arithmetic of `kind` on the
    /// accumulator and the byte at the address in HL.
    pub open spec fn memory_applied<C: CpuContext>(self, host: C::V, kind: Arithmetic) -> (
        CPU,
        C::V,
    ) {
        let (value, cpu, after) = self.loaded::<C>(host, Addr::HL);
        (cpu.applied(kind, value), after)
    }

    /// The processor and the host after arithmetic of `kind` on the
    /// accumulator and the byte that follows in the instruction stream.
    pub open spec fn immediate_applied<C: CpuContext>(self, host: C::V, kind: Arithmetic) -> (
        CPU,
        C::V,
    ) {
        let (value, cpu, after) = self.fetched::<C>(host);
        (cpu.applied(kind, value), after)
    }

    /// The stack pointer plus the signed offset that follows in the
    /// instruction stream, with the flags of that sum: the sum, the
    /// processor with those flags, and the host.
    pub open spec fn sp_offset<C: CpuContext>(self, host: C::V) -> (u16, CPU, C::V) {
        let (offset, cpu, after) = self.fetched::<C>(host);
        let out = ALU::add16_spec(cpu.sp(), extended(offset));
        (out.0, cpu.flagged(out.1), after)
    }

    /// The processor and the host after an instruction that waits on a
    /// condition: `taken` where the condition holds, else the program
    /// counter moved past `operands` bytes unread.
    pub open spec fn conditionally<C: CpuContext>(
        self,
        host: C::V,
        condition: Condition,
        taken: (CPU, C::V),
        operands: int,
    ) -> (CPU, C::V) {
        if holds(condition, self.flags()) {
            taken
        } else {
            (self.at(addr_add(self.pc(), operands)), host)
        }
    }

    /// What an instruction that is a load makes of the processor
    /// and the host. Any other instruction does nothing here.
    #[verifier::opaque]
    pub open spec fn load_performed<C: CpuContext>(self, host: C::V, instruction: Instruction) -> (
        CPU,
        C::V,
        Result<(), Fault>,
    ) {
        let regs = self.registers;
        match instruction {
            Instruction::LDRR(target, source) => done(
                (self.with8(target, regs.get8(source)), host),
            ),
            Instruction::LDRN(target) => {
                let (value, cpu, after) = self.fetched::<C>(host);
                done((cpu.with8(target, value), after))
            },
            Instruction::LDRHL(target) => {
                let (value, cpu, after) = self.loaded::<C>(host, Addr::HL);
                done((cpu.with8(target, value), after))
            },
            Instruction::LDHLR(source) => done(
                self.stored::<C>(host, Addr::HL, regs.get8(source)),
            ),
            Instruction::LDHLN => {
                let (value, cpu, after) = self.fetched::<C>(host);
                done(cpu.stored::<C>(after, Addr::HL, value))
            },
            Instruction::LDA16(source) => done(
                (
                    self.with8(Reg8::A, C::read_value(host, regs.get16(source))),
                    C::after_read(host, regs.get16(source)),
                ),
            ),
            Instruction::LD16A(target) => done(
                (self, C::after_write(host, regs.get16(target), regs.a)),
            ),
            Instruction::LDANN => done(self.a_loaded::<C>(host, Addr::Direct)),
            Instruction::LDNNA => done(self.a_stored::<C>(host, Addr::Direct)),
            Instruction::LDHAC => done(self.a_loaded::<C>(host, Addr::MaskedC)),
            Instruction::LDHCA => done(self.a_stored::<C>(host, Addr::MaskedC)),
            Instruction::LDHAN => done(self.a_loaded::<C>(host, Addr::MaskedMemory)),
            Instruction::LDHNA => done(self.a_stored::<C>(host, Addr::MaskedMemory)),
            Instruction::LDAHLDEC => done(self.a_loaded::<C>(host, Addr::HLD)),
            Instruction::LDHLDECA => done(self.a_stored::<C>(host, Addr::HLD)),
            Instruction::LDAHLINC => done(self.a_loaded::<C>(host, Addr::HLI)),
            Instruction::LDHLINCA => done(self.a_stored::<C>(host, Addr::HLI)),
            Instruction::LD16NN(target) => {
                let (word, cpu, after) = self.fetched_word::<C>(host);
                done((cpu.with16(target, word), after))
            },
            Instruction::LD16SP => {
                let (word, cpu, after) = self.fetched_word::<C>(host);
                done((cpu.with_stack(word), after))
            },
            Instruction::LDNNSP => {
                let (addr, cpu, after) = self.fetched_word::<C>(host);
                done((cpu, after_write_word::<C>(after, addr, cpu.sp())))
            },
            Instruction::LDSPHL => done((self.with_stack(regs.get16(Reg16::HL)), host)),
            Instruction::LDHLSPE => {
                let (sum, cpu, after) = self.sp_offset::<C>(host);
                done((cpu.with16(Reg16::HL, sum), after))
            },
            Instruction::PUSH(source) => done(self.pushed::<C>(host, regs.get16(source))),
            Instruction::POP(target) => {
                let (word, cpu, after) = self.popped::<C>(host);
                done((cpu.with16(target, word), after))
            },
            _ => done((self, host)),
        }
    }

    /// What an instruction that is 8-bit arithmetic makes of the processor
    /// and the host. Any other instruction does nothing here.
    #[verifier::opaque]
    pub open spec fn arithmetic_performed<C: CpuContext>(
        self,
        host: C::V,
        instruction: Instruction,
    ) -> (CPU, C::V, Result<(), Fault>) {
        let regs = self.registers;
        match instruction {
            Instruction::ADD(r) => done((self.register_applied(Arithmetic::Add, r), host)),
            Instruction::ADC(r) => done((self.register_applied(Arithmetic::Adc, r), host)),
            Instruction::SUB(r) => done((self.register_applied(Arithmetic::Sub, r), host)),
            Instruction::SBC(r) => done((self.register_applied(Arithmetic::Sbc, r), host)),
            Instruction::AND(r) => done((self.register_applied(Arithmetic::And, r), host)),
            Instruction::XOR(r) => done((self.register_applied(Arithmetic::Xor, r), host)),
            Instruction::OR(r) => done((self.register_applied(Arithmetic::Or, r), host)),
            Instruction::CP(r) => done((self.register_applied(Arithmetic::Cp, r), host)),
            Instruction::ADDHL => done(self.memory_applied::<C>(host, Arithmetic::Add)),
            Instruction::ADCHL => done(self.memory_applied::<C>(host, Arithmetic::Adc)),
            Instruction::SUBHL => done(self.memory_applied::<C>(host, Arithmetic::Sub)),
            Instruction::SBCHL => done(self.memory_applied::<C>(host, Arithmetic::Sbc)),
            Instruction::ANDHL => done(self.memory_applied::<C>(host, Arithmetic::And)),
            Instruction::XORHL => done(self.memory_applied::<C>(host, Arithmetic::Xor)),
            Instruction::ORHL => done(self.memory_applied::<C>(host, Arithmetic::Or)),
            Instruction::CPHL => done(self.memory_applied::<C>(host, Arithmetic::Cp)),
            Instruction::ADDNN => done(self.immediate_applied::<C>(host, Arithmetic::Add)),
            Instruction::ADCNN => done(self.immediate_applied::<C>(host, Arithmetic::Adc)),
            Instruction::SUBNN => done(self.immediate_applied::<C>(host, Arithmetic::Sub)),
            Instruction::SBCNN => done(self.immediate_applied::<C>(host, Arithmetic::Sbc)),
            Instruction::ANDNN => done(self.immediate_applied::<C>(host, Arithmetic::And)),
            Instruction::XORNN => done(self.immediate_applied::<C>(host, Arithmetic::Xor)),
            Instruction::ORNN => done(self.immediate_applied::<C>(host, Arithmetic::Or)),
            Instruction::CPNN => done(self.immediate_applied::<C>(host, Arithmetic::Cp)),
            Instruction::INC(r) => done((self.register_modified(r, Modify::Inc), host)),
            Instruction::DEC(r) => done((self.register_modified(r, Modify::Dec), host)),
            Instruction::INCHL => done(self.memory_modified::<C>(host, Modify::Inc)),
            Instruction::DECHL => done(self.memory_modified::<C>(host, Modify::Dec)),
            _ => done((self, host)),
        }
    }

    /// What an instruction that is a rotate or a shift makes of the processor
    /// and the host. Any other instruction does nothing here.
    #[verifier::opaque]
    pub open spec fn shift_performed<C: CpuContext>(self, host: C::V, instruction: Instruction) -> (
        CPU,
        C::V,
        Result<(), Fault>,
    ) {
        let regs = self.registers;
        match instruction {
            Instruction::RLCA => done(
                (self.register_modified(Reg8::A, Modify::Shift(Shift::Rlc)), host),
            ),
            Instruction::RRCA => done(
                (self.register_modified(Reg8::A, Modify::Shift(Shift::Rrc)), host),
            ),
            Instruction::RLA => done(
                (self.register_modified(Reg8::A, Modify::Shift(Shift::Rl)), host),
            ),
            Instruction::RRA => done(
                (self.register_modified(Reg8::A, Modify::Shift(Shift::Rr)), host),
            ),
            Instruction::RLC(r) => done(
                (self.register_modified(r, Modify::Shift(Shift::Rlc)), host),
            ),
            Instruction::RRC(r) => done(
                (self.register_modified(r, Modify::Shift(Shift::Rrc)), host),
            ),
            Instruction::RL(r) => done((self.register_modified(r, Modify::Shift(Shift::Rl)), host)),
            Instruction::RR(r) => done((self.register_modified(r, Modify::Shift(Shift::Rr)), host)),
            Instruction::SLA(r) => done(
                (self.register_modified(r, Modify::Shift(Shift::Sla)), host),
            ),
            Instruction::SRA(r) => done(
                (self.register_modified(r, Modify::Shift(Shift::Sra)), host),
            ),
            Instruction::SWAP(r) => done(
                (self.register_modified(r, Modify::Shift(Shift::Swap)), host),
            ),
            Instruction::SRL(r) => done(
                (self.register_modified(r, Modify::Shift(Shift::Srl)), host),
            ),
            Instruction::RLCHL => done(self.memory_modified::<C>(host, Modify::Shift(Shift::Rlc))),
            Instruction::RRCHL => done(self.memory_modified::<C>(host, Modify::Shift(Shift::Rrc))),
            Instruction::RLHL => done(self.memory_modified::<C>(host, Modify::Shift(Shift::Rl))),
            Instruction::RRHL => done(self.memory_modified::<C>(host, Modify::Shift(Shift::Rr))),
            Instruction::SLAHL => done(self.memory_modified::<C>(host, Modify::Shift(Shift::Sla))),
            Instruction::SRAHL => done(self.memory_modified::<C>(host, Modify::Shift(Shift::Sra))),
            Instruction::SWAPHL => done(
                self.memory_modified::<C>(host, Modify::Shift(Shift::Swap)),
            ),
            Instruction::SRLHL => done(self.memory_modified::<C>(host, Modify::Shift(Shift::Srl))),
            _ => done((self, host)),
        }
    }

    /// What an instruction that is a bit operation makes of the processor
    /// and the host. Any other instruction does nothing here.
    #[verifier::opaque]
    pub open spec fn bit_performed<C: CpuContext>(self, host: C::V, instruction: Instruction) -> (
        CPU,
        C::V,
        Result<(), Fault>,
    ) {
        let regs = self.registers;
        match instruction {
            Instruction::BIT(bit, r) => done(
                (self.flagged(bit_spec(bit, regs.get8(r), self.flags())), host),
            ),
            Instruction::BITHL(bit) => {
                let (value, cpu, after) = self.loaded::<C>(host, Addr::HL);
                done((cpu.flagged(bit_spec(bit, value, cpu.flags())), after))
            },
            Instruction::SET(bit, r) => done(
                (self.register_modified(r, Modify::SetBit(bit)), host),
            ),
            Instruction::SETHL(bit) => done(self.memory_modified::<C>(host, Modify::SetBit(bit))),
            Instruction::RESET(bit, r) => done(
                (self.register_modified(r, Modify::ResetBit(bit)), host),
            ),
            Instruction::RESETHL(bit) => done(
                self.memory_modified::<C>(host, Modify::ResetBit(bit)),
            ),
            _ => done((self, host)),
        }
    }

    /// What an instruction that is control flow makes of the processor
    /// and the host. Any other instruction does nothing here.
    #[verifier::opaque]
    pub open spec fn control_performed<C: CpuContext>(
        self,
        host: C::V,
        instruction: Instruction,
    ) -> (CPU, C::V, Result<(), Fault>) {
        let regs = self.registers;
        match instruction {
            Instruction::CALL => done(self.called::<C>(host)),
            Instruction::CALLCC(condition) => done(
                self.conditionally::<C>(host, condition, self.called::<C>(host), 2),
            ),
            Instruction::JP => done(self.jumped::<C>(host)),
            Instruction::JPCC(condition) => done(
                self.conditionally::<C>(host, condition, self.jumped::<C>(host), 2),
            ),
            Instruction::JPHL => done((self.at(regs.get16(Reg16::HL)), host)),
            Instruction::JR => done(self.jumped_relative::<C>(host)),
            Instruction::JRCC(condition) => done(
                self.conditionally::<C>(host, condition, self.jumped_relative::<C>(host), 1),
            ),
            Instruction::RET => done(self.returned::<C>(host)),
            Instruction::RETCC(condition) => done(
                self.conditionally::<C>(host, condition, self.returned::<C>(host), 0),
            ),
            Instruction::RETI => done((CPU { ime: true, ..self }).returned::<C>(host)),
            Instruction::RST(target) => done(self.restarted::<C>(host, target)),
            _ => done((self, host)),
        }
    }

    /// What an instruction that is 16-bit arithmetic makes of the processor
    /// and the host. Any other instruction does nothing here.
    #[verifier::opaque]
    pub open spec fn wide_performed<C: CpuContext>(self, host: C::V, instruction: Instruction) -> (
        CPU,
        C::V,
        Result<(), Fault>,
    ) {
        let regs = self.registers;
        match instruction {
            Instruction::ADDHLR16(source) => done((self.hl_added(regs.get16(source)), host)),
            Instruction::ADDHLRSP => done((self.hl_added(self.sp()), host)),
            Instruction::ADDSPE => {
                let (sum, cpu, after) = self.sp_offset::<C>(host);
                done((cpu.with_stack(sum), after))
            },
            Instruction::DEC16(r) => done((self.with16(r, addr_add(regs.get16(r), -1)), host)),
            Instruction::INC16(r) => done((self.with16(r, addr_add(regs.get16(r), 1)), host)),
            Instruction::DEC16SP => done((self.with_stack(addr_add(self.sp(), -1)), host)),
            Instruction::INC16SP => done((self.with_stack(addr_add(self.sp(), 1)), host)),
            _ => done((self, host)),
        }
    }

    /// What an instruction that is one of the rest makes of the processor
    /// and the host. Any other instruction does nothing here.
    #[verifier::opaque]
    pub open spec fn misc_performed<C: CpuContext>(self, host: C::V, instruction: Instruction) -> (
        CPU,
        C::V,
        Result<(), Fault>,
    ) {
        let regs = self.registers;
        match instruction {
            Instruction::CPL => done(
                (
                    self.flagged(CPU::cpl_spec(self.flags())).with8(Reg8::A, (255 - regs.a) as u8),
                    host,
                ),
            ),
            Instruction::CCF => done((self.flagged(CPU::ccf_spec(self.flags())), host)),
            Instruction::SCF => done((self.flagged(CPU::scf_spec(self.flags())), host)),
            Instruction::DAA => done((self.accumulated(daa_spec(regs.a, self.flags())), host)),
            Instruction::DI => done((CPU { ime: false, ..self }, host)),
            Instruction::EI => done((CPU { ime: true, ..self }, host)),
            Instruction::HALT => done((CPU { mode: Mode::Halted, ..self }, host)),
            Instruction::STOP => (self, host, Err(Fault::Stop)),
            Instruction::NOP => done((self, host)),
            _ => done((self, host)),
        }
    }

    /// What one instruction makes of the processor and the host, and whether
    /// the machine can go on. The prefix alone does nothing here.
    pub open spec fn performed<C: CpuContext>(self, host: C::V, instruction: Instruction) -> (
        CPU,
        C::V,
        Result<(), Fault>,
    ) {
        match instruction.family() {
            Family::Load => self.load_performed::<C>(host, instruction),
            Family::Arithmetic => self.arithmetic_performed::<C>(host, instruction),
            Family::Shift => self.shift_performed::<C>(host, instruction),
            Family::Bit => self.bit_performed::<C>(host, instruction),
            Family::Control => self.control_performed::<C>(host, instruction),
            Family::Wide => self.wide_performed::<C>(host, instruction),
            Family::Misc => self.misc_performed::<C>(host, instruction),
        }
    }

    /// What one instruction makes of the processor and the host. After the
    /// prefix, one more byte is fetched and decoded by the second table.
    pub open spec fn executed<C: CpuContext>(self, host: C::V, instruction: Instruction) -> (
        CPU,
        C::V,
        Result<(), Fault>,
    ) {
        if instruction == Instruction::PREFIXCB {
            let (opcode, cpu, after) = self.fetched::<C>(host);
            cpu.performed::<C>(after, decode_prefixed(opcode))
        } else {
            self.performed::<C>(host, instruction)
        }
    }

    /// The pending interrupts, as a poll of the request and the enable
    /// registers finds them, and the host after the two reads.
    pub open spec fn polled<C: CpuContext>(host: C::V) -> (u8, C::V) {
        let requests = C::read_value(host, 0xFF0F);
        let after = C::after_read(host, 0xFF0F);
        (
            requests & C::read_value(after, 0xFFFF) & 0x1F,
            C::after_read(after, 0xFFFF),
        )
    }

    /// What one step makes of the processor and the host.
    ///
    /// A running processor fetches a byte, decodes it and executes the
    /// instruction; a byte that decodes to nothing is a fault. A halted one
    /// polls the interrupt registers and leaves for the dispatch of
    /// interrupts once one is pending. From there no step goes on.
    pub open spec fn stepped<C: CpuContext>(self, host: C::V) -> (CPU, C::V, Result<(), Fault>) {
        match self.mode {
            Mode::Halted => {
                let (pending, after) = CPU::polled::<C>(host);
                if pending != 0 {
                    done((CPU { mode: Mode::InterruptDispatch, ..self }, after))
                } else {
                    done((self, after))
                }
            },
            Mode::InterruptDispatch => (self, host, Err(Fault::InterruptDispatch)),
            Mode::Running => {
                let (opcode, cpu, after) = self.fetched::<C>(host);
                match decode(opcode) {
                    Some(instruction) => cpu.executed::<C>(after, instruction),
                    None => (
                        cpu,
                        after,
                        Err(Fault::UndefinedOpcode { opcode, address: self.pc() }),
                    ),
                }
            },
        }
    }
}

} // verus!
