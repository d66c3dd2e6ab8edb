//! The arithmetic/logic unit: pure functions from operands to a result and
//! the flags it leaves.

use vstd::prelude::*;
use crate::cpu::flags::{bit_of, Flags};
use crate::cpu::CPU;

verus! {

/// The arithmetic/logic unit. It holds no state.
#[derive(Clone, Copy, Debug, PartialEq, Eq, Structural)]
pub struct ALU {}

/// The low eight bits of an integer.
#[verifier::opaque]
pub open spec fn low8(x: int) -> u8 {
    (x % 256) as u8
}

/// The low sixteen bits of an integer.
#[verifier::opaque]
pub open spec fn low16(x: int) -> u16 {
    (x % 65536) as u16
}

/// `a - b - c`, wrapping round.
pub fn wrapping_difference(a: u8, b: u8, c: u8) -> (out: u8)
    ensures
        out == low8(a - b - c),
{
    proof {
        reveal(low8);
    }
    a.wrapping_sub(b).wrapping_sub(c)
}

/// Whether bit 4 of a byte is set.
pub fn test_bit_four(byte: u8) -> (set: bool)
    ensures
        set == bit_of(byte, 4),
{
    proof {
        reveal(bit_of);
    }
    (byte / 16) % 2 == 1
}

impl ALU {
    /// Sum of two bytes, and its flags.
    pub open spec fn add_spec(a: u8, b: u8) -> (u8, Flags) {
        let result = low8(a + b);
        (
            result,
            Flags {
                zero: result == 0,
                subtract: false,
                half_carry: (a % 16) + (b % 16) > 15,
                carry: a + b > 255,
            },
        )
    }

    /// Difference of two bytes, and its flags.
    pub open spec fn sub_spec(a: u8, b: u8) -> (u8, Flags) {
        let result = low8(a - b);
        (
            result,
            Flags { zero: result == 0, subtract: true, half_carry: a % 16 < b % 16, carry: a < b },
        )
    }

    /// Sum of two words, and its flags.
    pub open spec fn add16_spec(a: u16, b: u16) -> (u16, Flags) {
        let result = low16(a + b);
        (
            result,
            Flags {
                zero: result == 0,
                subtract: false,
                half_carry: (a % 0x1000) + (b % 0x1000) > 0xFFF,
                carry: a + b > 0xFFFF,
            },
        )
    }

    /// Sum of two bytes and an incoming carry, and its flags.
    pub open spec fn adc_spec(a: u8, b: u8, carry: u8) -> (u8, Flags) {
        let result = low8(a + b + carry);
        (
            result,
            Flags {
                zero: result == 0,
                subtract: false,
                half_carry: (a % 16) + (b % 16) + carry > 15,
                carry: a + b + carry > 255,
            },
        )
    }

    /// Difference of two bytes less an incoming carry, and its flags. The
    /// half-carry is bit 4 of the low nibbles' difference, taken as a byte.
    pub open spec fn sbc_spec(a: u8, b: u8, carry: u8) -> (u8, Flags) {
        let result = low8(a - b - carry);
        (
            result,
            Flags {
                zero: result == 0,
                subtract: true,
                half_carry: bit_of(low8((a % 16) - (b % 16) - carry), 4),
                carry: a < b + carry,
            },
        )
    }

    /// A byte plus one, and its flags; the carry flag is the incoming carry.
    pub open spec fn inc_spec(a: u8, carry: u8) -> (u8, Flags) {
        let result = low8(a + 1);
        (
            result,
            Flags {
                zero: result == 0,
                subtract: false,
                half_carry: a % 16 == 15,
                carry: carry == 1,
            },
        )
    }

    /// A byte less one, and its flags.
    pub open spec fn dec_spec(a: u8) -> (u8, Flags) {
        let result = low8(a - 1);
        (
            result,
            Flags { zero: result == 0, subtract: true, half_carry: a % 16 == 0, carry: false },
        )
    }

    /// A byte shifted left by one with the incoming carry in bit 0; bit 7
    /// leaves as the carry.
    pub open spec fn rl_spec(a: u8, carry: u8) -> (u8, Flags) {
        let result = low8(a * 2) | carry;
        (
            result,
            Flags { zero: result == 0, subtract: false, half_carry: false, carry: a >= 128 },
        )
    }

    /// A byte shifted right by one with the incoming carry in bit 7; bit 0
    /// leaves as the carry.
    pub open spec fn rr_spec(a: u8, carry: u8) -> (u8, Flags) {
        let result = ((a / 2) as u8) | low8(carry * 128);
        (
            result,
            Flags { zero: result == 0, subtract: false, half_carry: false, carry: a % 2 == 1 },
        )
    }

    /// A byte rotated left by one; bit 7 goes to bit 0 and to the carry.
    pub open spec fn rlc_spec(a: u8) -> (u8, Flags) {
        let result = ((a * 2) % 256 + a / 128) as u8;
        (
            result,
            Flags { zero: result == 0, subtract: false, half_carry: false, carry: a >= 128 },
        )
    }

    /// A byte rotated right by one; bit 0 goes to bit 7 and to the carry.
    pub open spec fn rrc_spec(a: u8) -> (u8, Flags) {
        let result = (a / 2 + (a % 2) * 128) as u8;
        (
            result,
            Flags { zero: result == 0, subtract: false, half_carry: false, carry: a % 2 == 1 },
        )
    }

    /// Adds two bytes with wraparound.
    pub fn add(&self, a: u8, b: u8) -> (out: (u8, Flags))
        ensures
            out == Self::add_spec(a, b),
    {
        proof {
            reveal(low8);
        }
        let wide: u16 = a as u16 + b as u16;
        let result: u8 = (wide % 256) as u8;
        let half_carry = (a % 16) + (b % 16) > 15;
        (result, Flags { zero: result == 0, subtract: false, half_carry, carry: wide > 255 })
    }

    /// Subtracts `b` from `a` with wraparound.
    pub fn sub(&self, a: u8, b: u8) -> (out: (u8, Flags))
        ensures
            out == Self::sub_spec(a, b),
    {
        proof {
            reveal(low8);
        }
        let result: u8 = a.wrapping_sub(b);
        let half_carry = (a % 16) < (b % 16);
        (result, Flags { zero: result == 0, subtract: true, half_carry, carry: a < b })
    }

    /// Adds two words with wraparound.
    pub fn add16(&self, a: u16, b: u16) -> (out: (u16, Flags))
        ensures
            out == Self::add16_spec(a, b),
    {
        proof {
            reveal(low16);
        }
        let result: u16 = a.wrapping_add(b);
        let carry = a > 0xFFFF - b;
        let half_carry = (a % 0x1000) + (b % 0x1000) > 0xFFF;
        (result, Flags { zero: result == 0, subtract: false, half_carry, carry })
    }

    /// Adds two bytes and an incoming carry with wraparound.
    pub fn adc(&self, a: u8, b: u8, carry: u8) -> (out: (u8, Flags))
        ensures
            out == Self::adc_spec(a, b, carry),
    {
        proof {
            reveal(low8);
        }
        let wide: u16 = a as u16 + b as u16 + carry as u16;
        let result: u8 = (wide % 256) as u8;
        let half_carry = (a % 16) as u16 + (b % 16) as u16 + carry as u16 > 15;
        (result, Flags { zero: result == 0, subtract: false, half_carry, carry: wide > 255 })
    }

    /// Subtracts `b` and an incoming carry from `a` with wraparound.
    pub fn sbc(&self, a: u8, b: u8, carry: u8) -> (out: (u8, Flags))
        ensures
            out == Self::sbc_spec(a, b, carry),
    {
        let result: u8 = wrapping_difference(a, b, carry);
        let nibbles: u8 = wrapping_difference(a % 16, b % 16, carry);
        let half_carry = test_bit_four(nibbles);
        let borrow = (a as u16) < (b as u16) + (carry as u16);
        (result, Flags { zero: result == 0, subtract: true, half_carry, carry: borrow })
    }

    /// Adds one to a byte with wraparound and passes the carry through.
    pub fn inc(&self, a: u8, carry: u8) -> (out: (u8, Flags))
        ensures
            out == Self::inc_spec(a, carry),
    {
        proof {
            reveal(low8);
        }
        let result: u8 = a.wrapping_add(1);
        let half_carry = a % 16 == 15;
        (result, Flags { zero: result == 0, subtract: false, half_carry, carry: carry == 1 })
    }

    /// Takes one from a byte with wraparound.
    pub fn dec(&self, a: u8) -> (out: (u8, Flags))
        ensures
            out == Self::dec_spec(a),
    {
        proof {
            reveal(low8);
        }
        let result: u8 = a.wrapping_sub(1);
        let half_carry = a % 16 == 0;
        (result, Flags { zero: result == 0, subtract: true, half_carry, carry: false })
    }

    /// Rotates a byte left through the carry.
    pub fn rl(&self, a: u8, carry: u8) -> (out: (u8, Flags))
        ensures
            out == Self::rl_spec(a, carry),
    {
        proof {
            reveal(low8);
        }
        let shifted: u8 = (a % 128) * 2;
        let result: u8 = shifted | carry;
        (result, Flags { zero: result == 0, subtract: false, half_carry: false, carry: a >= 128 })
    }

    /// Rotates a byte right through the carry.
    pub fn rr(&self, a: u8, carry: u8) -> (out: (u8, Flags))
        ensures
            out == Self::rr_spec(a, carry),
    {
        proof {
            reveal(low8);
        }
        let top: u8 = (carry % 2) * 128;
        let result: u8 = (a / 2) | top;
        (result, Flags { zero: result == 0, subtract: false, half_carry: false, carry: a % 2 == 1 })
    }

    /// Rotates a byte left.
    pub fn rlc(&self, a: u8) -> (out: (u8, Flags))
        ensures
            out == Self::rlc_spec(a),
    {
        proof {
            reveal(low8);
        }
        let result: u8 = (a % 128) * 2 + a / 128;
        (result, Flags { zero: result == 0, subtract: false, half_carry: false, carry: a >= 128 })
    }

    /// Rotates a byte right.
    pub fn rrc(&self, a: u8) -> (out: (u8, Flags))
        ensures
            out == Self::rrc_spec(a),
    {
        proof {
            reveal(low8);
        }
        let result: u8 = a / 2 + (a % 2) * 128;
        (result, Flags { zero: result == 0, subtract: false, half_carry: false, carry: a % 2 == 1 })
    }

    /// Adds two bytes with wraparound and leaves the flags of the sum in
    /// the caller's F register.
    pub fn add_8(&self, a: u8, b: u8, caller: &mut CPU) -> (result: u8)
        ensures
            result == Self::add_spec(a, b).0,
            *final(caller) == old(caller).flagged(Self::add_spec(a, b).1),
            final(caller).wf(),
    {
        let (result, flags) = self.add(a, b);
        caller.registers.set_flags(flags);
        result
    }

    /// Subtracts `b` from `a` with wraparound and leaves the flags of the
    /// difference in the caller's F register.
    pub fn sub_8(&self, a: u8, b: u8, caller: &mut CPU) -> (result: u8)
        ensures
            result == Self::sub_spec(a, b).0,
            *final(caller) == old(caller).flagged(Self::sub_spec(a, b).1),
            final(caller).wf(),
    {
        let (result, flags) = self.sub(a, b);
        caller.registers.set_flags(flags);
        result
    }
}

} // verus!
