//! The four status flags and their packing into the F register.

use vstd::prelude::*;

verus! {

/// Bit of the F register that holds the zero flag.
pub const ZERO_FLAG: u8 = 0x80;

/// Bit of the F register that holds the subtract flag.
pub const SUBTRACT_FLAG: u8 = 0x40;

/// Bit of the F register that holds the half-carry flag.
pub const HALF_CARRY_FLAG: u8 = 0x20;

/// Bit of the F register that holds the carry flag.
pub const CARRY_FLAG: u8 = 0x10;

/// The status flags that arithmetic leaves behind.
#[derive(Clone, Copy, Debug, PartialEq, Eq, Structural)]
pub struct Flags {
    pub zero: bool,
    pub subtract: bool,
    pub half_carry: bool,
    pub carry: bool,
}

/// Bit `n` of `byte`, counted from the least significant one.
#[verifier::opaque]
pub open spec fn bit_of(byte: u8, n: int) -> bool
    recommends
        0 <= n < 8,
{
    (byte as int / pow2_int(n)) % 2 == 1
}

/// Two to the power `n`, for the eight bit positions of a byte.
pub open spec fn pow2_int(n: int) -> int {
    if n <= 0 {
        1
    } else if n == 1 {
        2
    } else if n == 2 {
        4
    } else if n == 3 {
        8
    } else if n == 4 {
        16
    } else if n == 5 {
        32
    } else if n == 6 {
        64
    } else {
        128
    }
}

impl Flags {
    /// The byte that the F register holds for these flags: each flag at its
    /// own bit of the top nibble, the bottom nibble zero.
    pub open spec fn packed(self) -> u8 {
        ((if self.zero { 0x80int } else { 0 })
            + (if self.subtract { 0x40int } else { 0 })
            + (if self.half_carry { 0x20int } else { 0 })
            + (if self.carry { 0x10int } else { 0 })) as u8
    }

    /// The flags that a byte of the F register stands for.
    pub open spec fn unpacked(byte: u8) -> Flags {
        Flags {
            zero: bit_of(byte, 7),
            subtract: bit_of(byte, 6),
            half_carry: bit_of(byte, 5),
            carry: bit_of(byte, 4),
        }
    }

    /// Packs the flags into the top nibble of a byte.
    pub fn to_byte(self) -> (byte: u8)
        ensures
            byte == self.packed(),
            byte % 16 == 0,
            Flags::unpacked(byte) == self,
    {
        proof {
            reveal(bit_of);
        }
        let mut result: u8 = 0;
        if self.zero {
            result = result + 0x80;
        }
        if self.subtract {
            result = result + 0x40;
        }
        if self.half_carry {
            result = result + 0x20;
        }
        if self.carry {
            result = result + 0x10;
        }
        result
    }

    /// Reads the flags out of the top nibble of a byte.
    pub fn from_byte(byte: u8) -> (flags: Flags)
        ensures
            flags == Flags::unpacked(byte),
    {
        proof {
            reveal(bit_of);
            lemma_flag_masks(byte);
        }
        Flags {
            zero: byte & ZERO_FLAG != 0,
            subtract: byte & SUBTRACT_FLAG != 0,
            half_carry: byte & HALF_CARRY_FLAG != 0,
            carry: byte & CARRY_FLAG != 0,
        }
    }
}

/// Masking a byte with one of the four flag bits tests that bit.
pub proof fn lemma_flag_masks(byte: u8)
    by (bit_vector)
    ensures
        (byte & 0x80 != 0) == ((byte / 128) % 2 == 1),
        (byte & 0x40 != 0) == ((byte / 64) % 2 == 1),
        (byte & 0x20 != 0) == ((byte / 32) % 2 == 1),
        (byte & 0x10 != 0) == ((byte / 16) % 2 == 1),
{
}

} // verus!
