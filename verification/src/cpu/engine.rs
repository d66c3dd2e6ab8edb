//! The engine: it runs one instruction, or one whole step, against a host.

use vstd::prelude::*;
use crate::cpu::context::{addr_add, advance, after_write_word, retreat, CpuContext};
use crate::cpu::execute::{extend, Arithmetic, Modify, Shift};
use crate::cpu::instruction::{Addr, Family, Instruction};
use crate::cpu::registers::{Reg16, Reg8};
use crate::cpu::{Fault, Mode, CPU};
use crate::io::{In8, Out8};
use crate::memory::split_word;

verus! {

impl CPU {
    /// Loads the byte that `place` names into the accumulator.
    pub fn load_a<C: CpuContext>(&mut self, place: Addr, ctx: &mut C)
        ensures
            (*final(self), final(ctx)@) == old(self).a_loaded::<C>(old(ctx)@, place),
            old(self).wf() ==> final(self).wf(),
    {
        let value = self.read(place, ctx);
        self.registers.write_8(Reg8::A, value);
    }

    /// Stores the accumulator in the byte that `place` names.
    pub fn store_a<C: CpuContext>(&mut self, place: Addr, ctx: &mut C)
        ensures
            (*final(self), final(ctx)@) == old(self).a_stored::<C>(old(ctx)@, place),
            old(self).wf() ==> final(self).wf(),
    {
        let value = self.registers.read_8(Reg8::A);
        self.write(place, value, ctx);
    }

    /// Does arithmetic on the accumulator and a register.
    pub fn apply_register(&mut self, kind: Arithmetic, r: Reg8)
        ensures
            *final(self) == old(self).register_applied(kind, r),
            final(self).wf(),
    {
        let b = self.registers.read_8(r);
        self.arithmetic(kind, b);
    }

    /// Does arithmetic on the accumulator and the byte at the address in HL.
    pub fn apply_memory<C: CpuContext>(&mut self, kind: Arithmetic, ctx: &mut C)
        ensures
            (*final(self), final(ctx)@) == old(self).memory_applied::<C>(old(ctx)@, kind),
            final(self).wf(),
    {
        let b = self.read(Addr::HL, ctx);
        self.arithmetic(kind, b);
    }

    /// Does arithmetic on the accumulator and the byte that follows in the
    /// instruction stream.
    pub fn apply_immediate<C: CpuContext>(&mut self, kind: Arithmetic, ctx: &mut C)
        ensures
            (*final(self), final(ctx)@) == old(self).immediate_applied::<C>(old(ctx)@, kind),
            final(self).wf(),
    {
        let b = self.next_byte(ctx);
        self.arithmetic(kind, b);
    }

    /// Adds the signed offset that follows in the instruction stream to the
    /// stack pointer and sets the flags of the sum. The stack pointer stays.
    pub fn offset_sp<C: CpuContext>(&mut self, ctx: &mut C) -> (sum: u16)
        ensures
            (sum, *final(self), final(ctx)@) == old(self).sp_offset::<C>(old(ctx)@),
            final(self).wf(),
    {
        let offset = self.next_byte(ctx);
        let (sum, flags) = self.alu.add16(self.registers.sp.pointer, extend(offset));
        self.registers.set_flags(flags);
        sum
    }

    /// Moves the stack pointer to `value`.
    pub fn set_sp(&mut self, value: u16)
        ensures
            *final(self) == old(self).with_stack(value),
            old(self).wf() ==> final(self).wf(),
    {
        self.registers.sp.pointer = value;
    }

    /// Stores the stack pointer at `addr`, low byte first.
    pub fn store_sp<C: CpuContext>(&mut self, addr: u16, ctx: &mut C)
        ensures
            *final(self) == *old(self),
            final(ctx)@ == after_write_word::<C>(old(ctx)@, addr, old(self).sp()),
    {
        let (low, high) = split_word(self.registers.sp.pointer);
        ctx.write_cycle(addr, low);
        ctx.write_cycle(advance(addr, 1), high);
    }

    /// Adds one to a register pair, wrapping round.
    pub fn inc16(&mut self, r: Reg16)
        ensures
            *final(self) == old(self).with16(r, addr_add(old(self).registers.get16(r), 1)),
            old(self).wf() ==> final(self).wf(),
    {
        let a = self.registers.read_16(r);
        self.registers.write_16(r, advance(a, 1));
    }

    /// Takes one from a register pair, wrapping round.
    pub fn dec16(&mut self, r: Reg16)
        ensures
            *final(self) == old(self).with16(r, addr_add(old(self).registers.get16(r), -1)),
            old(self).wf() ==> final(self).wf(),
    {
        let a = self.registers.read_16(r);
        self.registers.write_16(r, retreat(a, 1));
    }

    /// Runs an instruction that is a load; any other does nothing here.
    pub fn perform_load<C: CpuContext>(
        &mut self,
        instruction: Instruction,
        ctx: &mut C,
    ) -> (outcome: Result<(), Fault>)
        requires
            instruction.well_formed(),
        ensures
            (*final(self), final(ctx)@, outcome) == old(self).load_performed::<C>(
                old(ctx)@,
                instruction,
            ),
            old(self).wf() ==> final(self).wf(),
    {
        proof {
            reveal(CPU::load_performed);
        }
        match instruction {
            Instruction::LDRR(target, source) => {
                let value = self.registers.read_8(source);
                self.registers.write_8(target, value);
            },
            Instruction::LDRN(target) => {
                let value = self.next_byte(ctx);
                self.registers.write_8(target, value);
            },
            Instruction::LDRHL(target) => {
                let value = self.read(Addr::HL, ctx);
                self.registers.write_8(target, value);
            },
            Instruction::LDHLR(source) => {
                let value = self.registers.read_8(source);
                self.write(Addr::HL, value, ctx);
            },
            Instruction::LDHLN => {
                let value = self.next_byte(ctx);
                self.write(Addr::HL, value, ctx);
            },
            Instruction::LDA16(source) => {
                let addr = self.registers.read_16(source);
                let value = ctx.read_cycle(addr);
                self.registers.write_8(Reg8::A, value);
            },
            Instruction::LD16A(target) => {
                let addr = self.registers.read_16(target);
                let value = self.registers.read_8(Reg8::A);
                ctx.write_cycle(addr, value);
            },
            Instruction::LDANN => self.load_a(Addr::Direct, ctx),
            Instruction::LDNNA => self.store_a(Addr::Direct, ctx),
            Instruction::LDHAC => self.load_a(Addr::MaskedC, ctx),
            Instruction::LDHCA => self.store_a(Addr::MaskedC, ctx),
            Instruction::LDHAN => self.load_a(Addr::MaskedMemory, ctx),
            Instruction::LDHNA => self.store_a(Addr::MaskedMemory, ctx),
            Instruction::LDAHLDEC => self.load_a(Addr::HLD, ctx),
            Instruction::LDHLDECA => self.store_a(Addr::HLD, ctx),
            Instruction::LDAHLINC => self.load_a(Addr::HLI, ctx),
            Instruction::LDHLINCA => self.store_a(Addr::HLI, ctx),
            Instruction::LD16NN(target) => {
                let data = self.next_word(ctx);
                self.registers.write_16(target, data);
            },
            Instruction::LD16SP => {
                let data = self.next_word(ctx);
                self.set_sp(data);
            },
            Instruction::LDNNSP => {
                let addr = self.next_word(ctx);
                self.store_sp(addr, ctx);
            },
            Instruction::LDSPHL => {
                let data = self.registers.read_16(Reg16::HL);
                self.set_sp(data);
            },
            Instruction::LDHLSPE => {
                let sum = self.offset_sp(ctx);
                self.registers.write_16(Reg16::HL, sum);
            },
            Instruction::PUSH(source) => {
                let data = self.registers.read_16(source);
                self.push(data, ctx);
            },
            Instruction::POP(target) => {
                let data = self.pop(ctx);
                self.registers.write_16(target, data);
            },
            _ => {},
        }
        Ok(())
    }

    /// Runs an instruction that is 8-bit arithmetic; any other does nothing here.
    pub fn perform_arithmetic<C: CpuContext>(
        &mut self,
        instruction: Instruction,
        ctx: &mut C,
    ) -> (outcome: Result<(), Fault>)
        requires
            instruction.well_formed(),
        ensures
            (*final(self), final(ctx)@, outcome) == old(self).arithmetic_performed::<C>(
                old(ctx)@,
                instruction,
            ),
            old(self).wf() ==> final(self).wf(),
    {
        proof {
            reveal(CPU::arithmetic_performed);
        }
        match instruction {
            Instruction::ADD(r) => self.apply_register(Arithmetic::Add, r),
            Instruction::ADC(r) => self.apply_register(Arithmetic::Adc, r),
            Instruction::SUB(r) => self.apply_register(Arithmetic::Sub, r),
            Instruction::SBC(r) => self.apply_register(Arithmetic::Sbc, r),
            Instruction::AND(r) => self.apply_register(Arithmetic::And, r),
            Instruction::XOR(r) => self.apply_register(Arithmetic::Xor, r),
            Instruction::OR(r) => self.apply_register(Arithmetic::Or, r),
            Instruction::CP(r) => self.apply_register(Arithmetic::Cp, r),
            Instruction::ADDHL => self.apply_memory(Arithmetic::Add, ctx),
            Instruction::ADCHL => self.apply_memory(Arithmetic::Adc, ctx),
            Instruction::SUBHL => self.apply_memory(Arithmetic::Sub, ctx),
            Instruction::SBCHL => self.apply_memory(Arithmetic::Sbc, ctx),
            Instruction::ANDHL => self.apply_memory(Arithmetic::And, ctx),
            Instruction::XORHL => self.apply_memory(Arithmetic::Xor, ctx),
            Instruction::ORHL => self.apply_memory(Arithmetic::Or, ctx),
            Instruction::CPHL => self.apply_memory(Arithmetic::Cp, ctx),
            Instruction::ADDNN => self.apply_immediate(Arithmetic::Add, ctx),
            Instruction::ADCNN => self.apply_immediate(Arithmetic::Adc, ctx),
            Instruction::SUBNN => self.apply_immediate(Arithmetic::Sub, ctx),
            Instruction::SBCNN => self.apply_immediate(Arithmetic::Sbc, ctx),
            Instruction::ANDNN => self.apply_immediate(Arithmetic::And, ctx),
            Instruction::XORNN => self.apply_immediate(Arithmetic::Xor, ctx),
            Instruction::ORNN => self.apply_immediate(Arithmetic::Or, ctx),
            Instruction::CPNN => self.apply_immediate(Arithmetic::Cp, ctx),
            Instruction::INC(r) => self.modify_register(r, Modify::Inc),
            Instruction::DEC(r) => self.modify_register(r, Modify::Dec),
            Instruction::INCHL => self.modify_memory(Modify::Inc, ctx),
            Instruction::DECHL => self.modify_memory(Modify::Dec, ctx),
            _ => {},
        }
        Ok(())
    }

    /// Runs an instruction that is a rotate or a shift; any other does nothing here.
    pub fn perform_shift<C: CpuContext>(
        &mut self,
        instruction: Instruction,
        ctx: &mut C,
    ) -> (outcome: Result<(), Fault>)
        requires
            instruction.well_formed(),
        ensures
            (*final(self), final(ctx)@, outcome) == old(self).shift_performed::<C>(
                old(ctx)@,
                instruction,
            ),
            old(self).wf() ==> final(self).wf(),
    {
        proof {
            reveal(CPU::shift_performed);
        }
        match instruction {
            Instruction::RLCA => self.modify_register(Reg8::A, Modify::Shift(Shift::Rlc)),
            Instruction::RRCA => self.modify_register(Reg8::A, Modify::Shift(Shift::Rrc)),
            Instruction::RLA => self.modify_register(Reg8::A, Modify::Shift(Shift::Rl)),
            Instruction::RRA => self.modify_register(Reg8::A, Modify::Shift(Shift::Rr)),
            Instruction::RLC(r) => self.modify_register(r, Modify::Shift(Shift::Rlc)),
            Instruction::RRC(r) => self.modify_register(r, Modify::Shift(Shift::Rrc)),
            Instruction::RL(r) => self.modify_register(r, Modify::Shift(Shift::Rl)),
            Instruction::RR(r) => self.modify_register(r, Modify::Shift(Shift::Rr)),
            Instruction::SLA(r) => self.modify_register(r, Modify::Shift(Shift::Sla)),
            Instruction::SRA(r) => self.modify_register(r, Modify::Shift(Shift::Sra)),
            Instruction::SWAP(r) => self.modify_register(r, Modify::Shift(Shift::Swap)),
            Instruction::SRL(r) => self.modify_register(r, Modify::Shift(Shift::Srl)),
            Instruction::RLCHL => self.modify_memory(Modify::Shift(Shift::Rlc), ctx),
            Instruction::RRCHL => self.modify_memory(Modify::Shift(Shift::Rrc), ctx),
            Instruction::RLHL => self.modify_memory(Modify::Shift(Shift::Rl), ctx),
            Instruction::RRHL => self.modify_memory(Modify::Shift(Shift::Rr), ctx),
            Instruction::SLAHL => self.modify_memory(Modify::Shift(Shift::Sla), ctx),
            Instruction::SRAHL => self.modify_memory(Modify::Shift(Shift::Sra), ctx),
            Instruction::SWAPHL => self.modify_memory(Modify::Shift(Shift::Swap), ctx),
            Instruction::SRLHL => self.modify_memory(Modify::Shift(Shift::Srl), ctx),
            _ => {},
        }
        Ok(())
    }

    /// Runs an instruction that is a bit operation; any other does nothing here.
    pub fn perform_bit<C: CpuContext>(
        &mut self,
        instruction: Instruction,
        ctx: &mut C,
    ) -> (outcome: Result<(), Fault>)
        requires
            instruction.well_formed(),
        ensures
            (*final(self), final(ctx)@, outcome) == old(self).bit_performed::<C>(
                old(ctx)@,
                instruction,
            ),
            old(self).wf() ==> final(self).wf(),
    {
        proof {
            reveal(CPU::bit_performed);
        }
        match instruction {
            Instruction::BIT(bit, r) => {
                let data = self.registers.read_8(r);
                self.bit(bit, data);
            },
            Instruction::BITHL(bit) => {
                let data = self.read(Addr::HL, ctx);
                self.bit(bit, data);
            },
            Instruction::SET(bit, r) => self.modify_register(r, Modify::SetBit(bit)),
            Instruction::SETHL(bit) => self.modify_memory(Modify::SetBit(bit), ctx),
            Instruction::RESET(bit, r) => self.modify_register(r, Modify::ResetBit(bit)),
            Instruction::RESETHL(bit) => self.modify_memory(Modify::ResetBit(bit), ctx),
            _ => {},
        }
        Ok(())
    }

    /// Runs an instruction that is control flow; any other does nothing here.
    pub fn perform_control<C: CpuContext>(
        &mut self,
        instruction: Instruction,
        ctx: &mut C,
    ) -> (outcome: Result<(), Fault>)
        requires
            instruction.well_formed(),
        ensures
            (*final(self), final(ctx)@, outcome) == old(self).control_performed::<C>(
                old(ctx)@,
                instruction,
            ),
            old(self).wf() ==> final(self).wf(),
    {
        proof {
            reveal(CPU::control_performed);
        }
        match instruction {
            Instruction::CALL => self.call(ctx),
            Instruction::CALLCC(condition) => {
                if self.evaluate_condition(condition) {
                    self.call(ctx)
                } else {
                    self.skip(2)
                }
            },
            Instruction::JP => self.jp(ctx),
            Instruction::JPCC(condition) => {
                if self.evaluate_condition(condition) {
                    self.jp(ctx)
                } else {
                    self.skip(2)
                }
            },
            Instruction::JPHL => {
                let addr = self.registers.read_16(Reg16::HL);
                self.registers.pc.write(addr);
            },
            Instruction::JR => self.jr(ctx),
            Instruction::JRCC(condition) => {
                if self.evaluate_condition(condition) {
                    self.jr(ctx)
                } else {
                    self.skip(1)
                }
            },
            Instruction::RET => self.ret(ctx),
            Instruction::RETCC(condition) => {
                if self.evaluate_condition(condition) {
                    self.ret(ctx)
                } else {
                    self.skip(0)
                }
            },
            Instruction::RETI => {
                self.ime = true;
                self.ret(ctx)
            },
            Instruction::RST(target) => self.rst(target, ctx),
            _ => {},
        }
        Ok(())
    }

    /// Runs an instruction that is 16-bit arithmetic; any other does nothing here.
    pub fn perform_wide<C: CpuContext>(
        &mut self,
        instruction: Instruction,
        ctx: &mut C,
    ) -> (outcome: Result<(), Fault>)
        requires
            instruction.well_formed(),
        ensures
            (*final(self), final(ctx)@, outcome) == old(self).wide_performed::<C>(
                old(ctx)@,
                instruction,
            ),
            old(self).wf() ==> final(self).wf(),
    {
        proof {
            reveal(CPU::wide_performed);
        }
        match instruction {
            Instruction::ADDHLR16(source) => {
                let b = self.registers.read_16(source);
                self.add_hl(b);
            },
            Instruction::ADDHLRSP => {
                let b = self.registers.sp.pointer;
                self.add_hl(b);
            },
            Instruction::ADDSPE => {
                let sum = self.offset_sp(ctx);
                self.set_sp(sum);
            },
            Instruction::DEC16(r) => self.dec16(r),
            Instruction::INC16(r) => self.inc16(r),
            Instruction::DEC16SP => {
                let a = self.registers.sp.pointer;
                self.set_sp(retreat(a, 1));
            },
            Instruction::INC16SP => {
                let a = self.registers.sp.pointer;
                self.set_sp(advance(a, 1));
            },
            _ => {},
        }
        Ok(())
    }

    /// Runs an instruction that is one of the rest; any other does nothing here.
    pub fn perform_misc<C: CpuContext>(
        &mut self,
        instruction: Instruction,
        ctx: &mut C,
    ) -> (outcome: Result<(), Fault>)
        requires
            instruction.well_formed(),
        ensures
            (*final(self), final(ctx)@, outcome) == old(self).misc_performed::<C>(
                old(ctx)@,
                instruction,
            ),
            old(self).wf() ==> final(self).wf(),
    {
        proof {
            reveal(CPU::misc_performed);
        }
        match instruction {
            Instruction::CPL => self.cpl(),
            Instruction::CCF => self.ccf(),
            Instruction::SCF => self.scf(),
            Instruction::DAA => self.daa(),
            Instruction::DI => self.di(),
            Instruction::EI => self.ei(),
            Instruction::HALT => {
                self.mode = Mode::Halted;
            },
            Instruction::STOP => {
                return self.stop();
            },
            Instruction::NOP => self.nop(),
            Instruction::PREFIXCB => {},
            _ => {},
        }
        Ok(())
    }

    /// Runs one instruction of any kind but the prefix, which does nothing
    /// here.
    pub fn perform<C: CpuContext>(
        &mut self,
        instruction: Instruction,
        ctx: &mut C,
    ) -> (outcome: Result<(), Fault>)
        requires
            instruction.well_formed(),
        ensures
            (*final(self), final(ctx)@, outcome) == old(self).performed::<C>(
                old(ctx)@,
                instruction,
            ),
            old(self).wf() ==> final(self).wf(),
    {
        match instruction.kind() {
            Family::Load => self.perform_load(instruction, ctx),
            Family::Arithmetic => self.perform_arithmetic(instruction, ctx),
            Family::Shift => self.perform_shift(instruction, ctx),
            Family::Bit => self.perform_bit(instruction, ctx),
            Family::Control => self.perform_control(instruction, ctx),
            Family::Wide => self.perform_wide(instruction, ctx),
            Family::Misc => self.perform_misc(instruction, ctx),
        }
    }

    /// Runs one instruction. After the prefix, one more byte is fetched and
    /// decoded by the second table.
    pub fn execute<C: CpuContext>(
        &mut self,
        instruction: Instruction,
        ctx: &mut C,
    ) -> (outcome: Result<(), Fault>)
        requires
            instruction.well_formed(),
        ensures
            (*final(self), final(ctx)@, outcome) == old(self).executed::<C>(
                old(ctx)@,
                instruction,
            ),
            old(self).wf() ==> final(self).wf(),
    {
        match instruction {
            Instruction::PREFIXCB => {
                let opcode = self.next_byte(ctx);
                match Instruction::from_byte_prefixed(opcode) {
                    Some(second) => self.perform(second, ctx),
                    None => Ok(()),
                }
            },
            _ => self.perform(instruction, ctx),
        }
    }

    /// Polls the interrupt request and enable registers for what is
    /// pending.
    pub fn check_interrupt_requests<C: CpuContext>(&mut self, ctx: &mut C) -> (pending: u8)
        ensures
            (pending, final(ctx)@) == CPU::polled::<C>(old(ctx)@),
            *final(self) == *old(self),
    {
        let interrupt_requests = ctx.read_cycle(0xFF0F);
        let interrupt_enable = ctx.read_cycle(0xFFFF);
        interrupt_requests & interrupt_enable & 0x1F
    }

    /// Runs one step.
    pub fn step<C: CpuContext>(&mut self, ctx: &mut C) -> (outcome: Result<(), Fault>)
        ensures
            (*final(self), final(ctx)@, outcome) == old(self).stepped::<C>(old(ctx)@),
            old(self).wf() ==> final(self).wf(),
    {
        match self.mode {
            Mode::Halted => {
                let interrupt_requests = self.check_interrupt_requests(ctx);
                if interrupt_requests != 0 {
                    self.mode = Mode::InterruptDispatch;
                }
                Ok(())
            },
            Mode::InterruptDispatch => Err(Fault::InterruptDispatch),
            Mode::Running => {
                let address = self.registers.pc.pointer;
                let opcode = self.next_byte(ctx);
                match Instruction::from_byte(opcode) {
                    Some(instruction) => self.execute(instruction, ctx),
                    None => Err(Fault::UndefinedOpcode { opcode, address }),
                }
            },
        }
    }
}

} // verus!
