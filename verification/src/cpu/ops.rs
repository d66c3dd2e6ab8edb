//! The instructions that work on registers and flags alone.

use vstd::prelude::*;
use crate::cpu::alu::{low8, ALU};
use crate::cpu::flags::Flags;
use crate::cpu::instruction::Condition;
use crate::cpu::registers::Reg8;
use crate::cpu::{Fault, CPU};

verus! {

/// Bitwise and of two bytes, and its flags.
pub open spec fn and_spec(a: u8, b: u8) -> (u8, Flags) {
    (a & b, Flags { zero: a & b == 0, subtract: false, half_carry: true, carry: false })
}

/// Bitwise or of two bytes, and its flags.
pub open spec fn or_spec(a: u8, b: u8) -> (u8, Flags) {
    (a | b, Flags { zero: a | b == 0, subtract: false, half_carry: false, carry: false })
}

/// Bitwise exclusive or of two bytes, and its flags.
pub open spec fn xor_spec(a: u8, b: u8) -> (u8, Flags) {
    (a ^ b, Flags { zero: a ^ b == 0, subtract: false, half_carry: false, carry: false })
}

/// A byte shifted left by one; bit 7 leaves as the carry.
pub open spec fn sla_spec(data: u8) -> (u8, Flags) {
    let result = low8(data * 2);
    (result, Flags { zero: result == 0, subtract: false, half_carry: false, carry: data >= 128 })
}

/// A byte shifted right by one, bit 7 staying as it was; bit 0 leaves as
/// the carry.
pub open spec fn sra_spec(data: u8) -> (u8, Flags) {
    let result = (data / 2 + (data / 128) * 128) as u8;
    (
        result,
        Flags { zero: result == 0, subtract: false, half_carry: false, carry: data % 2 == 1 },
    )
}

/// A byte shifted right by one, bit 7 becoming zero; bit 0 leaves as the
/// carry.
pub open spec fn srl_spec(data: u8) -> (u8, Flags) {
    let result = data / 2;
    (
        result,
        Flags { zero: result == 0, subtract: false, half_carry: false, carry: data % 2 == 1 },
    )
}

/// A byte with its two nibbles exchanged.
pub open spec fn swap_spec(data: u8) -> (u8, Flags) {
    let result = ((data % 16) * 16 + data / 16) as u8;
    (result, Flags { zero: result == 0, subtract: false, half_carry: false, carry: false })
}

/// The flags after a test of bit `bit` of `data`: zero where the bit is
/// clear, the carry as it was.
pub open spec fn bit_spec(bit: u8, data: u8, before: Flags) -> Flags {
    Flags {
        zero: data & (1u8 << bit) == 0,
        subtract: false,
        half_carry: true,
        carry: before.carry,
    }
}

/// A byte with bit `bit` set.
pub open spec fn set_spec(bit: u8, data: u8) -> u8 {
    data | (1u8 << bit)
}

/// A byte with bit `bit` cleared.
pub open spec fn reset_spec(bit: u8, data: u8) -> u8 {
    data & !(1u8 << bit)
}

/// The accumulator and the flags after a decimal adjustment.
///
/// After an addition, `0x60` is added where the carry was set or the
/// accumulator is above `0x99`, which also sets the carry; then `0x06` where
/// the half-carry was set or the low nibble is above 9. After a subtraction
/// with the carry set, `0x9A` is added where the half-carry was set too and
/// `0xA0` where it was not, and the carry stays set; with the half-carry
/// alone, `0xFA` is added.
pub open spec fn daa_spec(a: u8, before: Flags) -> (u8, Flags) {
    let (result, carry) = if !before.subtract {
        let high_fix = before.carry || a > 0x99;
        let first = if high_fix {
            low8(a + 0x60)
        } else {
            a
        };
        let second = if before.half_carry || first % 16 > 9 {
            low8(first + 0x06)
        } else {
            first
        };
        (second, high_fix)
    } else if before.carry {
        (
            low8(
                a + if before.half_carry {
                    0x9aint
                } else {
                    0xa0int
                },
            ),
            true,
        )
    } else if before.half_carry {
        (low8(a + 0xfa), false)
    } else {
        (a, false)
    };
    (
        result,
        Flags { zero: result == 0, subtract: before.subtract, half_carry: false, carry },
    )
}

/// Adjusts a byte to binary-coded decimal, given the flags that the
/// operation before it left.
pub fn decimal_adjust(a: u8, before: Flags) -> (out: (u8, Flags))
    ensures
        out == daa_spec(a, before),
{
    proof {
        reveal(low8);
    }
    let mut carry = false;
    let mut result = a;
    if !before.subtract {
        if before.carry || result > 0x99 {
            result = result.wrapping_add(0x60);
            carry = true;
        }
        if before.half_carry || result % 16 > 0x09 {
            result = result.wrapping_add(0x06);
        }
    } else if before.carry {
        carry = true;
        result = result.wrapping_add(
            if before.half_carry {
                0x9a
            } else {
                0xa0
            },
        );
    } else if before.half_carry {
        result = result.wrapping_add(0xfa);
    }
    (result, Flags { zero: result == 0, subtract: before.subtract, half_carry: false, carry })
}

/// Whether `condition` holds of `flags`.
pub open spec fn holds(condition: Condition, flags: Flags) -> bool {
    match condition {
        Condition::NZ => !flags.zero,
        Condition::Z => flags.zero,
        Condition::NC => !flags.carry,
        Condition::C => flags.carry,
    }
}

/// The carry flag as the bit that an operation takes in.
pub open spec fn carry_bit(flags: Flags) -> u8 {
    if flags.carry {
        1
    } else {
        0
    }
}

impl CPU {
    /// The flags that F holds.
    pub open spec fn flags(self) -> Flags {
        self.registers.flags()
    }

    /// The processor with F holding `flags`.
    pub open spec fn flagged(self, flags: Flags) -> CPU {
        self.with_registers(self.registers.with_flags(flags))
    }

    /// The processor with the result of an operation in the accumulator and
    /// its flags in F.
    pub open spec fn accumulated(self, out: (u8, Flags)) -> CPU {
        self.flagged(out.1).with8(Reg8::A, out.0)
    }

    /// The carry flag as a bit.
    pub fn carry_in(&self) -> (bit: u8)
        ensures
            bit == carry_bit(self.flags()),
    {
        if self.registers.get_flags().carry {
            1
        } else {
            0
        }
    }

    /// Puts the result of an operation into the accumulator and its flags
    /// into F.
    pub fn accumulate(&mut self, out: (u8, Flags))
        ensures
            *final(self) == old(self).accumulated(out),
            final(self).wf(),
    {
        self.registers.set_flags(out.1);
        self.registers.write_8(Reg8::A, out.0);
    }

    /// Compares two registers: the flags of `source - target`.
    pub fn cp(&mut self, source: Reg8, target: Reg8)
        ensures
            *final(self) == old(self).flagged(
                ALU::sub_spec(old(self).registers.get8(source), old(self).registers.get8(target)).1,
            ),
            final(self).wf(),
    {
        let a = self.registers.read_8(source);
        let b = self.registers.read_8(target);
        let (_, flags) = self.alu.sub(a, b);
        self.registers.set_flags(flags);
    }

    /// Compares the accumulator with a byte: the flags of `A - b`.
    pub fn cp_value(&mut self, b: u8)
        ensures
            *final(self) == old(self).flagged(ALU::sub_spec(old(self).registers.a, b).1),
            final(self).wf(),
    {
        let a = self.registers.read_8(Reg8::A);
        let (_, flags) = self.alu.sub(a, b);
        self.registers.set_flags(flags);
    }

    /// Ands a byte into the accumulator.
    pub fn and_value(&mut self, b: u8)
        ensures
            *final(self) == old(self).accumulated(and_spec(old(self).registers.a, b)),
            final(self).wf(),
    {
        let a = self.registers.read_8(Reg8::A);
        let result = a & b;
        self.accumulate(
            (result, Flags { zero: result == 0, subtract: false, half_carry: true, carry: false }),
        );
    }

    /// Ors a byte into the accumulator.
    pub fn or_value(&mut self, b: u8)
        ensures
            *final(self) == old(self).accumulated(or_spec(old(self).registers.a, b)),
            final(self).wf(),
    {
        let a = self.registers.read_8(Reg8::A);
        let result = a | b;
        self.accumulate(
            (result, Flags { zero: result == 0, subtract: false, half_carry: false, carry: false }),
        );
    }

    /// Exclusive-ors a byte into the accumulator.
    pub fn xor_value(&mut self, b: u8)
        ensures
            *final(self) == old(self).accumulated(xor_spec(old(self).registers.a, b)),
            final(self).wf(),
    {
        let a = self.registers.read_8(Reg8::A);
        let result = a ^ b;
        self.accumulate(
            (result, Flags { zero: result == 0, subtract: false, half_carry: false, carry: false }),
        );
    }

    /// Ands a register into the accumulator.
    pub fn and(&mut self, data: Reg8)
        ensures
            *final(self) == old(self).accumulated(
                and_spec(old(self).registers.a, old(self).registers.get8(data)),
            ),
            final(self).wf(),
    {
        let b = self.registers.read_8(data);
        self.and_value(b);
    }

    /// Ors a register into the accumulator.
    pub fn or(&mut self, data: Reg8)
        ensures
            *final(self) == old(self).accumulated(
                or_spec(old(self).registers.a, old(self).registers.get8(data)),
            ),
            final(self).wf(),
    {
        let b = self.registers.read_8(data);
        self.or_value(b);
    }

    /// Exclusive-ors a register into the accumulator.
    pub fn xor(&mut self, data: Reg8)
        ensures
            *final(self) == old(self).accumulated(
                xor_spec(old(self).registers.a, old(self).registers.get8(data)),
            ),
            final(self).wf(),
    {
        let b = self.registers.read_8(data);
        self.xor_value(b);
    }

    /// The flags after CCF: the carry inverted, the others clear.
    pub open spec fn ccf_spec(before: Flags) -> Flags {
        Flags { zero: false, subtract: false, half_carry: false, carry: !before.carry }
    }

    /// The flags after SCF: the carry set, zero as it was, the others clear.
    pub open spec fn scf_spec(before: Flags) -> Flags {
        Flags { zero: before.zero, subtract: false, half_carry: false, carry: true }
    }

    /// The flags after CPL: subtract set, the others as they were.
    pub open spec fn cpl_spec(before: Flags) -> Flags {
        Flags { subtract: true, ..before }
    }

    /// Inverts the carry flag.
    pub fn ccf(&mut self)
        ensures
            *final(self) == old(self).flagged(Self::ccf_spec(old(self).flags())),
            final(self).wf(),
    {
        let carry = self.registers.get_flags().carry;
        self.registers.set_flags(
            Flags { zero: false, subtract: false, half_carry: false, carry: !carry },
        );
    }

    /// Sets the carry flag.
    pub fn scf(&mut self)
        ensures
            *final(self) == old(self).flagged(Self::scf_spec(old(self).flags())),
            final(self).wf(),
    {
        let zero = self.registers.get_flags().zero;
        self.registers.set_flags(Flags { zero, subtract: false, half_carry: false, carry: true });
    }

    /// Rotates a byte right through the carry flag.
    pub fn rr(&mut self, data: &mut u8)
        ensures
            *final(data) == ALU::rr_spec(*old(data), carry_bit(old(self).flags())).0,
            *final(self) == old(self).flagged(
                ALU::rr_spec(*old(data), carry_bit(old(self).flags())).1,
            ),
            final(self).wf(),
    {
        let carry = self.carry_in();
        let (result, flags) = self.alu.rr(*data, carry);
        *data = result;
        self.registers.set_flags(flags);
    }

    /// Rotates a byte left through the carry flag.
    pub fn rl(&mut self, data: &mut u8)
        ensures
            *final(data) == ALU::rl_spec(*old(data), carry_bit(old(self).flags())).0,
            *final(self) == old(self).flagged(
                ALU::rl_spec(*old(data), carry_bit(old(self).flags())).1,
            ),
            final(self).wf(),
    {
        let carry = self.carry_in();
        let (result, flags) = self.alu.rl(*data, carry);
        *data = result;
        self.registers.set_flags(flags);
    }

    /// Rotates a byte right.
    pub fn rrc(&mut self, data: &mut u8)
        ensures
            *final(data) == ALU::rrc_spec(*old(data)).0,
            *final(self) == old(self).flagged(ALU::rrc_spec(*old(data)).1),
            final(self).wf(),
    {
        let (result, flags) = self.alu.rrc(*data);
        *data = result;
        self.registers.set_flags(flags);
    }

    /// Rotates a byte left.
    pub fn rlc(&mut self, data: &mut u8)
        ensures
            *final(data) == ALU::rlc_spec(*old(data)).0,
            *final(self) == old(self).flagged(ALU::rlc_spec(*old(data)).1),
            final(self).wf(),
    {
        let (result, flags) = self.alu.rlc(*data);
        *data = result;
        self.registers.set_flags(flags);
    }

    /// Complements the accumulator.
    pub fn cpl(&mut self)
        ensures
            *final(self) == old(self).flagged(Self::cpl_spec(old(self).flags())).with8(
                Reg8::A,
                (255 - old(self).registers.a) as u8,
            ),
            final(self).wf(),
    {
        let a = self.registers.read_8(Reg8::A);
        let flags = self.registers.get_flags();
        let result: u8 = 255 - a;
        self.registers.set_flags(
            Flags {
                zero: flags.zero,
                subtract: true,
                half_carry: flags.half_carry,
                carry: flags.carry,
            },
        );
        self.registers.write_8(Reg8::A, result);
    }

    /// Tests a bit of a byte.
    pub fn bit(&mut self, bit: u8, data: u8)
        requires
            bit < 8,
        ensures
            *final(self) == old(self).flagged(bit_spec(bit, data, old(self).flags())),
            final(self).wf(),
    {
        let zero = (data & (1u8 << bit)) == 0;
        let carry = self.registers.get_flags().carry;
        self.registers.set_flags(Flags { zero, subtract: false, half_carry: true, carry });
    }

    /// Clears a bit of a byte.
    pub fn reset(&mut self, bit: u8, data: &mut u8)
        requires
            bit < 8,
        ensures
            *final(data) == reset_spec(bit, *old(data)),
            *final(self) == *old(self),
    {
        *data = *data & !(1u8 << bit);
    }

    /// Sets a bit of a byte.
    pub fn set(&mut self, bit: u8, data: &mut u8)
        requires
            bit < 8,
        ensures
            *final(data) == set_spec(bit, *old(data)),
            *final(self) == *old(self),
    {
        *data = *data | (1u8 << bit);
    }

    /// Shifts a byte right, filling with zero.
    pub fn srl(&mut self, data: &mut u8)
        ensures
            *final(data) == srl_spec(*old(data)).0,
            *final(self) == old(self).flagged(srl_spec(*old(data)).1),
            final(self).wf(),
    {
        let carry = *data % 2 == 1;
        *data = *data / 2;
        let zero = *data == 0;
        self.registers.set_flags(Flags { zero, subtract: false, half_carry: false, carry });
    }

    /// Shifts a byte right, keeping its sign bit.
    pub fn sra(&mut self, data: &mut u8)
        ensures
            *final(data) == sra_spec(*old(data)).0,
            *final(self) == old(self).flagged(sra_spec(*old(data)).1),
            final(self).wf(),
    {
        let sign_bit: u8 = (*data / 128) * 128;
        let carry = *data % 2 == 1;
        *data = *data / 2 + sign_bit;
        let zero = *data == 0;
        self.registers.set_flags(Flags { zero, subtract: false, half_carry: false, carry });
    }

    /// Shifts a byte left.
    pub fn sla(&mut self, data: &mut u8)
        ensures
            *final(data) == sla_spec(*old(data)).0,
            *final(self) == old(self).flagged(sla_spec(*old(data)).1),
            final(self).wf(),
    {
        proof {
            reveal(low8);
        }
        let carry = *data >= 128;
        *data = (*data % 128) * 2;
        let zero = *data == 0;
        self.registers.set_flags(Flags { zero, subtract: false, half_carry: false, carry });
    }

    /// Exchanges the nibbles of a byte.
    pub fn swap(&mut self, data: &mut u8)
        ensures
            *final(data) == swap_spec(*old(data)).0,
            *final(self) == old(self).flagged(swap_spec(*old(data)).1),
            final(self).wf(),
    {
        *data = (*data % 16) * 16 + *data / 16;
        let zero = *data == 0;
        self.registers.set_flags(Flags { zero, subtract: false, half_carry: false, carry: false });
    }

    /// Adjusts the accumulator to binary-coded decimal after an addition or
    /// a subtraction.
    pub fn daa(&mut self)
        ensures
            *final(self) == old(self).accumulated(
                daa_spec(old(self).registers.a, old(self).flags()),
            ),
            final(self).wf(),
    {
        let flags = self.registers.get_flags();
        let a = self.registers.read_8(Reg8::A);
        let out = decimal_adjust(a, flags);
        self.accumulate(out);
    }

    /// Switches interrupts off.
    pub fn di(&mut self)
        ensures
            *final(self) == (CPU { ime: false, ..*old(self) }),
    {
        self.ime = false;
    }

    /// Switches interrupts on.
    pub fn ei(&mut self)
        ensures
            *final(self) == (CPU { ime: true, ..*old(self) }),
    {
        self.ime = true;
    }

    /// Does nothing.
    pub fn nop(&mut self)
        ensures
            *final(self) == *old(self),
    {
    }

    /// Stops the machine: there is no going on from here.
    pub fn stop(&mut self) -> (outcome: Result<(), Fault>)
        ensures
            outcome == Err::<(), Fault>(Fault::Stop),
            *final(self) == *old(self),
    {
        Err(Fault::Stop)
    }

    /// Whether a condition holds of the flags as they are.
    pub fn evaluate_condition(&self, condition: Condition) -> (met: bool)
        ensures
            met == holds(condition, self.flags()),
    {
        match condition {
            Condition::NZ => !self.registers.get_flags().zero,
            Condition::Z => self.registers.get_flags().zero,
            Condition::NC => !self.registers.get_flags().carry,
            Condition::C => self.registers.get_flags().carry,
        }
    }
}

} // verus!
