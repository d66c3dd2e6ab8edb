//! How the processor reaches its operands: the instruction stream, the
//! stack, and bytes in memory.

use vstd::prelude::*;
use crate::cpu::context::{
    addr_add, advance, after_push_word, after_read_word, high_page, lemma_addr_add_twice,
    read_word_value, retreat, CpuContext,
};
use crate::cpu::instruction::{Addr, Immediate8};
use crate::cpu::registers::{Reg16, Reg8};
use crate::cpu::CPU;
use crate::io::{In8, Out8};
use crate::memory::join_word;

verus! {

impl CPU {
    /// The processor with its program counter at `pc`.
    pub open spec fn at(self, pc: u16) -> CPU {
        self.with_registers(self.registers.with_pc(pc))
    }

    /// The processor with its stack pointer at `sp`.
    pub open spec fn with_stack(self, sp: u16) -> CPU {
        self.with_registers(self.registers.with_sp(sp))
    }

    /// The program counter.
    pub open spec fn pc(self) -> u16 {
        self.registers.pc.pointer
    }

    /// The stack pointer.
    pub open spec fn sp(self) -> u16 {
        self.registers.sp.pointer
    }

    /// The processor with `value` in a byte register.
    pub open spec fn with8(self, dest: Reg8, value: u8) -> CPU {
        self.with_registers(self.registers.with8(dest, value))
    }

    /// The processor with `value` in a register pair.
    pub open spec fn with16(self, dest: Reg16, value: u16) -> CPU {
        self.with_registers(self.registers.with16(dest, value))
    }

    /// Fetching a byte: what is fetched, and the processor and the host
    /// afterwards.
    pub open spec fn fetched<C: CpuContext>(self, host: C::V) -> (u8, CPU, C::V) {
        (
            C::read_value(host, self.pc()),
            self.at(addr_add(self.pc(), 1)),
            C::after_read(host, self.pc()),
        )
    }

    /// Fetching a word, low byte first.
    pub open spec fn fetched_word<C: CpuContext>(self, host: C::V) -> (u16, CPU, C::V) {
        (
            read_word_value::<C>(host, self.pc()),
            self.at(addr_add(self.pc(), 2)),
            after_read_word::<C>(host, self.pc()),
        )
    }

    /// Pushing a word: one idle cycle, then the word is stored under the
    /// stack pointer, which moves down by two.
    pub open spec fn pushed<C: CpuContext>(self, host: C::V, value: u16) -> (CPU, C::V) {
        (
            self.with_stack(addr_add(self.sp(), -2)),
            after_push_word::<C>(C::after_tick(host), self.sp(), value),
        )
    }

    /// Popping a word: what is popped, and the processor and the host
    /// afterwards.
    pub open spec fn popped<C: CpuContext>(self, host: C::V) -> (u16, CPU, C::V) {
        (
            read_word_value::<C>(host, self.sp()),
            self.with_stack(addr_add(self.sp(), 2)),
            after_read_word::<C>(host, self.sp()),
        )
    }

    /// Finding the address that `place` names: the address, and the
    /// processor and the host once it is found.
    pub open spec fn located<C: CpuContext>(self, host: C::V, place: Addr) -> (u16, CPU, C::V) {
        let hl = self.registers.get16(Reg16::HL);
        match place {
            Addr::BC => (self.registers.get16(Reg16::BC), self, host),
            Addr::DE => (self.registers.get16(Reg16::DE), self, host),
            Addr::HL => (hl, self, host),
            Addr::HLI => (hl, self.with16(Reg16::HL, addr_add(hl, 1)), host),
            Addr::HLD => (hl, self.with16(Reg16::HL, addr_add(hl, -1)), host),
            Addr::Direct => self.fetched_word::<C>(host),
            Addr::MaskedMemory => {
                let (offset, cpu, after) = self.fetched::<C>(host);
                (high_page(offset), cpu, after)
            },
            Addr::MaskedC => (high_page(self.registers.c), self, host),
        }
    }

    /// Reading the byte that `place` names.
    pub open spec fn loaded<C: CpuContext>(self, host: C::V, place: Addr) -> (u8, CPU, C::V) {
        let (addr, cpu, found) = self.located::<C>(host, place);
        (C::read_value(found, addr), cpu, C::after_read(found, addr))
    }

    /// Writing `data` to the byte that `place` names.
    pub open spec fn stored<C: CpuContext>(self, host: C::V, place: Addr, data: u8) -> (
        CPU,
        C::V,
    ) {
        let (addr, cpu, found) = self.located::<C>(host, place);
        (cpu, C::after_write(found, addr, data))
    }

    /// Fetches the byte at the program counter and moves past it.
    pub fn next_byte<C: CpuContext>(&mut self, ctx: &mut C) -> (byte: u8)
        ensures
            (byte, *final(self), final(ctx)@) == old(self).fetched::<C>(old(ctx)@),
            old(self).wf() ==> final(self).wf(),
    {
        let value = self.registers.pc.read(ctx);
        value as u8
    }

    /// Fetches the word at the program counter, low byte first, and moves
    /// past it.
    pub fn next_word<C: CpuContext>(&mut self, ctx: &mut C) -> (word: u16)
        ensures
            (word, *final(self), final(ctx)@) == old(self).fetched_word::<C>(old(ctx)@),
            old(self).wf() ==> final(self).wf(),
    {
        let low = self.next_byte(ctx);
        let high = self.next_byte(ctx);
        proof {
            lemma_addr_add_twice(old(self).pc(), 1, 1);
        }
        join_word(low, high)
    }

    /// Pushes a word onto the stack.
    pub fn push<C: CpuContext>(&mut self, value: u16, ctx: &mut C)
        ensures
            (*final(self), final(ctx)@) == old(self).pushed::<C>(old(ctx)@, value),
            old(self).wf() ==> final(self).wf(),
    {
        ctx.tick_cycle();
        self.registers.sp.write(ctx, value);
    }

    /// Pushes a word onto the stack.
    pub fn push_16<C: CpuContext>(&mut self, data: u16, ctx: &mut C)
        ensures
            (*final(self), final(ctx)@) == old(self).pushed::<C>(old(ctx)@, data),
            old(self).wf() ==> final(self).wf(),
    {
        self.push(data, ctx);
    }

    /// Pops a word off the stack.
    pub fn pop<C: CpuContext>(&mut self, ctx: &mut C) -> (value: u16)
        ensures
            (value, *final(self), final(ctx)@) == old(self).popped::<C>(old(ctx)@),
            old(self).wf() ==> final(self).wf(),
    {
        self.registers.sp.read(ctx)
    }

    /// The address in HL, which is then incremented.
    pub fn hl_then_inc(&mut self) -> (addr: u16)
        ensures
            addr == old(self).registers.get16(Reg16::HL),
            *final(self) == old(self).with16(Reg16::HL, addr_add(addr, 1)),
            old(self).wf() ==> final(self).wf(),
    {
        let addr = self.registers.read_16(Reg16::HL);
        self.registers.write_16(Reg16::HL, advance(addr, 1));
        addr
    }

    /// The address in HL, which is then decremented.
    pub fn hl_then_dec(&mut self) -> (addr: u16)
        ensures
            addr == old(self).registers.get16(Reg16::HL),
            *final(self) == old(self).with16(Reg16::HL, addr_add(addr, -1)),
            old(self).wf() ==> final(self).wf(),
    {
        let addr = self.registers.read_16(Reg16::HL);
        self.registers.write_16(Reg16::HL, retreat(addr, 1));
        addr
    }

    /// Finds the address that `place` names.
    pub fn locate<C: CpuContext>(&mut self, place: Addr, ctx: &mut C) -> (addr: u16)
        ensures
            (addr, *final(self), final(ctx)@) == old(self).located::<C>(old(ctx)@, place),
            old(self).wf() ==> final(self).wf(),
    {
        match place {
            Addr::BC => self.registers.read_16(Reg16::BC),
            Addr::DE => self.registers.read_16(Reg16::DE),
            Addr::HL => self.registers.read_16(Reg16::HL),
            Addr::HLI => self.hl_then_inc(),
            Addr::HLD => self.hl_then_dec(),
            Addr::Direct => self.next_word(ctx),
            Addr::MaskedMemory => {
                let offset = self.next_byte(ctx);
                0xff00 + (offset as u16)
            },
            Addr::MaskedC => {
                let offset = self.registers.read_8(Reg8::C);
                0xff00 + (offset as u16)
            },
        }
    }
}

impl In8<Reg8> for CPU {
    fn read<C: CpuContext>(&mut self, src: Reg8, ctx: &mut C) -> (value: u8)
        ensures
            value == old(self).registers.get8(src),
            *final(self) == *old(self),
            final(ctx)@ == old(ctx)@,
    {
        self.registers.read_8(src)
    }
}

impl In8<Immediate8> for CPU {
    fn read<C: CpuContext>(&mut self, src: Immediate8, ctx: &mut C) -> (value: u8)
        ensures
            (value, *final(self), final(ctx)@) == old(self).fetched::<C>(old(ctx)@),
    {
        self.next_byte(ctx)
    }
}

impl In8<Addr> for CPU {
    fn read<C: CpuContext>(&mut self, src: Addr, ctx: &mut C) -> (value: u8)
        ensures
            (value, *final(self), final(ctx)@) == old(self).loaded::<C>(old(ctx)@, src),
            old(self).wf() ==> final(self).wf(),
    {
        let addr = self.locate(src, ctx);
        ctx.read_cycle(addr)
    }
}

impl Out8<Reg8> for CPU {
    open spec fn accepts(dst: Reg8) -> bool {
        dst != Reg8::F
    }

    fn write<C: CpuContext>(&mut self, dst: Reg8, value: u8, ctx: &mut C)
        ensures
            *final(self) == old(self).with8(dst, value),
            final(ctx)@ == old(ctx)@,
            old(self).wf() ==> final(self).wf(),
    {
        self.registers.write_8(dst, value);
    }
}

impl Out8<Addr> for CPU {
    open spec fn accepts(dst: Addr) -> bool {
        true
    }

    fn write<C: CpuContext>(&mut self, dst: Addr, data: u8, ctx: &mut C)
        ensures
            (*final(self), final(ctx)@) == old(self).stored::<C>(old(ctx)@, dst, data),
            old(self).wf() ==> final(self).wf(),
    {
        let addr = self.locate(dst, ctx);
        ctx.write_cycle(addr, data);
    }
}

} // verus!
