//! What holds of the processor, whatever its state.

use vstd::prelude::*;
use crate::cpu::alu::{low8, ALU};
use crate::cpu::context::{addr_add, CpuContext};
use crate::cpu::flags::{bit_of, Flags};
use crate::cpu::instruction::{decode, decode_prefixed, undefined_opcode, Instruction};
use crate::cpu::ops::daa_spec;
use crate::cpu::registers::{top_nibble, Reg16, Registers};
use crate::cpu::{Fault, Mode, CPU};
use crate::memory::{high_byte, low_byte, word_of, MemoryBus};

verus! {

/// A word is the word of its two bytes.
pub proof fn lemma_word_of_its_bytes(word: u16)
    ensures
        word_of(low_byte(word), high_byte(word)) == word,
{
    reveal(word_of);
    reveal(low_byte);
    reveal(high_byte);
}

/// A word pushed onto the stack of a bus and popped at once comes back as
/// it was, and the processor is left as it was, its stack pointer too.
pub proof fn lemma_push_pop_symmetry(cpu: CPU, bus: Seq<u8>, value: u16)
    requires
        bus.len() == 0x10000,
    ensures
        ({
            let (pushed, stored) = cpu.pushed::<MemoryBus>(bus, value);
            let (popped, after, left) = pushed.popped::<MemoryBus>(stored);
            &&& popped == value
            &&& after == cpu
            &&& after.sp() == cpu.sp()
            &&& left == stored
        }),
{
    reveal(addr_add);
    lemma_word_of_its_bytes(value);
}

/// Whether a host acts as a memory on the states that `valid` picks out:
/// every access leaves such a state such a state, a read changes nothing,
/// and a write changes the byte at its address and no other.
pub open spec fn acts_as_memory<C: CpuContext>(valid: spec_fn(C::V) -> bool) -> bool {
    &&& forall|state: C::V, addr: u16|
        valid(state) ==> #[trigger] C::after_read(state, addr) == state
    &&& forall|state: C::V| valid(state) ==> valid(#[trigger] C::after_tick(state))
    &&& forall|state: C::V, addr: u16, data: u8|
        valid(state) ==> valid(#[trigger] C::after_write(state, addr, data))
    &&& forall|state: C::V, addr: u16, data: u8, other: u16|
        valid(state) ==> #[trigger] C::read_value(C::after_write(state, addr, data), other) == (
        if other == addr {
            data
        } else {
            C::read_value(state, other)
        })
}

/// The bus acts as a memory on every state of its size.
pub proof fn lemma_bus_acts_as_memory()
    ensures
        acts_as_memory::<MemoryBus>(|state: Seq<u8>| state.len() == 0x10000),
{
}

/// On a host that acts as a memory, a word pushed and popped at once comes
/// back as it was, and the processor is left as it was, its stack pointer
/// too.
pub proof fn lemma_push_pop_symmetry_on_memory<C: CpuContext>(
    cpu: CPU,
    host: C::V,
    value: u16,
    valid: spec_fn(C::V) -> bool,
)
    requires
        acts_as_memory::<C>(valid),
        valid(host),
    ensures
        ({
            let (pushed, stored) = cpu.pushed::<C>(host, value);
            let (popped, after, left) = pushed.popped::<C>(stored);
            &&& popped == value
            &&& after == cpu
            &&& after.sp() == cpu.sp()
            &&& left == stored
        }),
{
    reveal(addr_add);
    lemma_word_of_its_bytes(value);
    let ticked = C::after_tick(host);
    let sp = cpu.sp();
    let first = C::after_write(ticked, addr_add(sp, -1), high_byte(value));
    let second = C::after_write(first, addr_add(sp, -2), low_byte(value));
    assert(valid(ticked) && valid(first) && valid(second));
    assert(addr_add(addr_add(sp, -2), 1) == addr_add(sp, -1));
    assert(addr_add(sp, -2) != addr_add(sp, -1));
    assert(C::read_value(second, addr_add(sp, -2)) == low_byte(value));
    assert(C::read_value(second, addr_add(sp, -1)) == high_byte(value));
    assert(C::after_read(second, addr_add(sp, -2)) == second);
}

/// A word written to a pair other than AF is the word read from it.
pub proof fn lemma_pair_round_trip(registers: Registers, pair: Reg16, word: u16)
    requires
        pair != Reg16::AF,
    ensures
        registers.with16(pair, word).get16(pair) == word,
{
    lemma_word_of_its_bytes(word);
}

/// Whatever is written to AF, F keeps its low nibble clear.
pub proof fn lemma_af_keeps_low_nibble_clear(registers: Registers, word: u16)
    ensures
        registers.with16(Reg16::AF, word).wf(),
        registers.with16(Reg16::AF, word).a == high_byte(word),
{
    reveal(top_nibble);
}

/// From the dispatch of interrupts no step goes on: it is a fault, and
/// nothing changes.
pub proof fn lemma_dispatch_is_final<C: CpuContext>(cpu: CPU, host: C::V)
    requires
        cpu.mode == Mode::InterruptDispatch,
    ensures
        cpu.stepped::<C>(host) == (cpu, host, Err::<(), Fault>(Fault::InterruptDispatch)),
{
}

/// A halted processor fetches nothing: a step leaves its registers and its
/// interrupt switch as they were, and it stays halted or leaves for the
/// dispatch of interrupts.
pub proof fn lemma_halted_only_polls<C: CpuContext>(cpu: CPU, host: C::V)
    requires
        cpu.mode == Mode::Halted,
    ensures
        ({
            let (after, left, outcome) = cpu.stepped::<C>(host);
            &&& outcome.is_ok()
            &&& after.registers == cpu.registers
            &&& after.ime == cpu.ime
            &&& after.mode == Mode::Halted || after.mode == Mode::InterruptDispatch
            &&& after.mode == Mode::InterruptDispatch <==> CPU::polled::<C>(host).0 != 0
            &&& left == CPU::polled::<C>(host).1
        }),
{
}

/// Flags packed into a byte and read out of it again are the same flags,
/// and the byte has nothing in its low nibble.
pub proof fn lemma_flags_round_trip(flags: Flags)
    ensures
        Flags::unpacked(flags.packed()) == flags,
        flags.packed() % 16 == 0,
{
    reveal(bit_of);
}

/// Every byte is an instruction of the first table but the eleven that
/// have no meaning, and every instruction that comes out of the first
/// table can be run.
pub proof fn lemma_first_table_total(byte: u8)
    ensures
        decode(byte).is_none() <==> undefined_opcode(byte),
        decode(byte) matches Some(instruction) ==> instruction.well_formed(),
{
    let y = (byte as int / 8) % 8;
    assert(byte == 64 * (byte / 64) + 8 * y + byte % 8);
    assert(0 <= y < 8);
    if byte / 64 == 0 && byte % 8 == 0 {
        assert(decode(byte).is_none() <==> undefined_opcode(byte));
        assert(decode(byte) matches Some(instruction) ==> instruction.well_formed());
    }
    if byte / 64 == 0 && byte % 8 == 1 {
        assert(decode(byte).is_none() <==> undefined_opcode(byte));
        assert(decode(byte) matches Some(instruction) ==> instruction.well_formed());
    }
    if byte / 64 == 0 && byte % 8 == 2 {
        assert(decode(byte).is_none() <==> undefined_opcode(byte));
        assert(decode(byte) matches Some(instruction) ==> instruction.well_formed());
    }
    if byte / 64 == 0 && byte % 8 == 3 {
        assert(decode(byte).is_none() <==> undefined_opcode(byte));
        assert(decode(byte) matches Some(instruction) ==> instruction.well_formed());
    }
    if byte / 64 == 0 && byte % 8 == 4 {
        assert(decode(byte).is_none() <==> undefined_opcode(byte));
        assert(decode(byte) matches Some(instruction) ==> instruction.well_formed());
    }
    if byte / 64 == 0 && byte % 8 == 5 {
        assert(decode(byte).is_none() <==> undefined_opcode(byte));
        assert(decode(byte) matches Some(instruction) ==> instruction.well_formed());
    }
    if byte / 64 == 0 && byte % 8 == 6 {
        assert(decode(byte).is_none() <==> undefined_opcode(byte));
        assert(decode(byte) matches Some(instruction) ==> instruction.well_formed());
    }
    if byte / 64 == 0 && byte % 8 == 7 {
        assert(decode(byte).is_none() <==> undefined_opcode(byte));
        assert(decode(byte) matches Some(instruction) ==> instruction.well_formed());
    }
    if byte / 64 == 1 && byte % 8 == 0 {
        assert(decode(byte).is_none() <==> undefined_opcode(byte));
        assert(decode(byte) matches Some(instruction) ==> instruction.well_formed());
    }
    if byte / 64 == 1 && byte % 8 == 1 {
        assert(decode(byte).is_none() <==> undefined_opcode(byte));
        assert(decode(byte) matches Some(instruction) ==> instruction.well_formed());
    }
    if byte / 64 == 1 && byte % 8 == 2 {
        assert(decode(byte).is_none() <==> undefined_opcode(byte));
        assert(decode(byte) matches Some(instruction) ==> instruction.well_formed());
    }
    if byte / 64 == 1 && byte % 8 == 3 {
        assert(decode(byte).is_none() <==> undefined_opcode(byte));
        assert(decode(byte) matches Some(instruction) ==> instruction.well_formed());
    }
    if byte / 64 == 1 && byte % 8 == 4 {
        assert(decode(byte).is_none() <==> undefined_opcode(byte));
        assert(decode(byte) matches Some(instruction) ==> instruction.well_formed());
    }
    if byte / 64 == 1 && byte % 8 == 5 {
        assert(decode(byte).is_none() <==> undefined_opcode(byte));
        assert(decode(byte) matches Some(instruction) ==> instruction.well_formed());
    }
    if byte / 64 == 1 && byte % 8 == 6 {
        assert(decode(byte).is_none() <==> undefined_opcode(byte));
        assert(decode(byte) matches Some(instruction) ==> instruction.well_formed());
    }
    if byte / 64 == 1 && byte % 8 == 7 {
        assert(decode(byte).is_none() <==> undefined_opcode(byte));
        assert(decode(byte) matches Some(instruction) ==> instruction.well_formed());
    }
    if byte / 64 == 2 && byte % 8 == 0 {
        assert(decode(byte).is_none() <==> undefined_opcode(byte));
        assert(decode(byte) matches Some(instruction) ==> instruction.well_formed());
    }
    if byte / 64 == 2 && byte % 8 == 1 {
        assert(decode(byte).is_none() <==> undefined_opcode(byte));
        assert(decode(byte) matches Some(instruction) ==> instruction.well_formed());
    }
    if byte / 64 == 2 && byte % 8 == 2 {
        assert(decode(byte).is_none() <==> undefined_opcode(byte));
        assert(decode(byte) matches Some(instruction) ==> instruction.well_formed());
    }
    if byte / 64 == 2 && byte % 8 == 3 {
        assert(decode(byte).is_none() <==> undefined_opcode(byte));
        assert(decode(byte) matches Some(instruction) ==> instruction.well_formed());
    }
    if byte / 64 == 2 && byte % 8 == 4 {
        assert(decode(byte).is_none() <==> undefined_opcode(byte));
        assert(decode(byte) matches Some(instruction) ==> instruction.well_formed());
    }
    if byte / 64 == 2 && byte % 8 == 5 {
        assert(decode(byte).is_none() <==> undefined_opcode(byte));
        assert(decode(byte) matches Some(instruction) ==> instruction.well_formed());
    }
    if byte / 64 == 2 && byte % 8 == 6 {
        assert(decode(byte).is_none() <==> undefined_opcode(byte));
        assert(decode(byte) matches Some(instruction) ==> instruction.well_formed());
    }
    if byte / 64 == 2 && byte % 8 == 7 {
        assert(decode(byte).is_none() <==> undefined_opcode(byte));
        assert(decode(byte) matches Some(instruction) ==> instruction.well_formed());
    }
    if byte / 64 == 3 && byte % 8 == 0 {
        assert(decode(byte).is_none() <==> undefined_opcode(byte));
        assert(decode(byte) matches Some(instruction) ==> instruction.well_formed());
    }
    if byte / 64 == 3 && byte % 8 == 1 {
        assert(decode(byte).is_none() <==> undefined_opcode(byte));
        assert(decode(byte) matches Some(instruction) ==> instruction.well_formed());
    }
    if byte / 64 == 3 && byte % 8 == 2 {
        assert(decode(byte).is_none() <==> undefined_opcode(byte));
        assert(decode(byte) matches Some(instruction) ==> instruction.well_formed());
    }
    if byte / 64 == 3 && byte % 8 == 3 {
        assert(decode(byte).is_none() <==> undefined_opcode(byte));
        assert(decode(byte) matches Some(instruction) ==> instruction.well_formed());
    }
    if byte / 64 == 3 && byte % 8 == 4 {
        assert(decode(byte).is_none() <==> undefined_opcode(byte));
        assert(decode(byte) matches Some(instruction) ==> instruction.well_formed());
    }
    if byte / 64 == 3 && byte % 8 == 5 {
        assert(decode(byte).is_none() <==> undefined_opcode(byte));
        assert(decode(byte) matches Some(instruction) ==> instruction.well_formed());
    }
    if byte / 64 == 3 && byte % 8 == 6 {
        assert(decode(byte).is_none() <==> undefined_opcode(byte));
        assert(decode(byte) matches Some(instruction) ==> instruction.well_formed());
    }
    if byte / 64 == 3 && byte % 8 == 7 {
        assert(decode(byte).is_none() <==> undefined_opcode(byte));
        assert(decode(byte) matches Some(instruction) ==> instruction.well_formed());
    }
}

/// Every byte is an instruction of the second table, one that can be run
/// and that is not the prefix.
pub proof fn lemma_second_table_total(byte: u8)
    ensures
        decode_prefixed(byte).well_formed(),
        decode_prefixed(byte) != Instruction::PREFIXCB,
{
}

/// The number that two decimal digits in a byte stand for.
pub open spec fn decimal(byte: u8) -> int {
    (byte / 16) * 10 + byte % 16
}

/// Whether each nibble of a byte is a decimal digit.
pub open spec fn is_decimal(byte: u8) -> bool {
    byte / 16 <= 9 && byte % 16 <= 9
}

/// The sum of two bytes, wrapping round, in bare arithmetic.
pub open spec fn bare_sum(a: u8, b: u8) -> u8 {
    ((a as u16 + b as u16) % 256) as u8
}

/// Whether the correction of a sum adds to its high digit.
pub open spec fn sum_overflows(a: u8, b: u8) -> bool {
    a as u16 + b as u16 > 255 || bare_sum(a, b) > 0x99
}

/// The sum of two bytes after its correction, in bare arithmetic.
pub open spec fn corrected_sum(a: u8, b: u8) -> u8 {
    let first: u8 = if sum_overflows(a, b) {
        ((bare_sum(a, b) as u16 + 0x60) % 256) as u8
    } else {
        bare_sum(a, b)
    };
    if (a % 16) + (b % 16) > 15 || first % 16 > 9 {
        ((first as u16 + 0x06) % 256) as u8
    } else {
        first
    }
}

/// The corrected sum of two bytes of decimal digits has decimal digits,
/// and they are those of the decimal sum.
proof fn lemma_decimal_sum(a: u8, b: u8)
    by (bit_vector)
    requires
        a / 16 <= 9,
        a % 16 <= 9,
        b / 16 <= 9,
        b % 16 <= 9,
    ensures
        corrected_sum(a, b) / 16 <= 9,
        corrected_sum(a, b) % 16 <= 9,
        (corrected_sum(a, b) / 16) as u16 * 10 + (corrected_sum(a, b) % 16) as u16 == ((a
            / 16) as u16 * 10 + (a % 16) as u16 + (b / 16) as u16 * 10 + (b % 16) as u16) % 100,
        sum_overflows(a, b) == ((a / 16) as u16 * 10 + (a % 16) as u16 + (b / 16) as u16 * 10 + (b
            % 16) as u16 >= 100),
{
}

/// The adjustment after an addition is the correction in bare arithmetic.
proof fn lemma_daa_is_corrected_sum(a: u8, b: u8)
    ensures
        daa_spec(ALU::add_spec(a, b).0, ALU::add_spec(a, b).1).0 == corrected_sum(a, b),
        daa_spec(ALU::add_spec(a, b).0, ALU::add_spec(a, b).1).1.carry == sum_overflows(a, b),
{
    reveal(low8);
}

/// The difference of two bytes, wrapping round, in bare arithmetic.
pub open spec fn bare_difference(a: u8, b: u8) -> u8 {
    ((256 + a as u16 - b as u16) % 256) as u8
}

/// The difference of two bytes after its correction, in bare arithmetic.
pub open spec fn corrected_difference(a: u8, b: u8) -> u8 {
    let difference = bare_difference(a, b);
    if a < b {
        if a % 16 < b % 16 {
            ((difference as u16 + 0x9a) % 256) as u8
        } else {
            ((difference as u16 + 0xa0) % 256) as u8
        }
    } else if a % 16 < b % 16 {
        ((difference as u16 + 0xfa) % 256) as u8
    } else {
        difference
    }
}

/// The corrected difference of two bytes of decimal digits has decimal
/// digits, and they are those of the decimal difference.
proof fn lemma_decimal_difference(a: u8, b: u8)
    by (bit_vector)
    requires
        a / 16 <= 9,
        a % 16 <= 9,
        b / 16 <= 9,
        b % 16 <= 9,
    ensures
        corrected_difference(a, b) / 16 <= 9,
        corrected_difference(a, b) % 16 <= 9,
        (corrected_difference(a, b) / 16) as u16 * 10 + (corrected_difference(a, b) % 16) as u16
            == (100 + ((a / 16) as u16 * 10 + (a % 16) as u16) - ((b / 16) as u16 * 10 + (b
            % 16) as u16)) % 100,
        (a < b) == (((a / 16) as u16 * 10 + (a % 16) as u16) < ((b / 16) as u16 * 10 + (b
            % 16) as u16)),
{
}

/// The adjustment after a subtraction is the correction in bare
/// arithmetic.
proof fn lemma_daa_is_corrected_difference(a: u8, b: u8)
    ensures
        daa_spec(ALU::sub_spec(a, b).0, ALU::sub_spec(a, b).1).0 == corrected_difference(a, b),
        daa_spec(ALU::sub_spec(a, b).0, ALU::sub_spec(a, b).1).1.carry == (a < b),
{
    reveal(low8);
}

/// After the addition of two bytes of two decimal digits each, the
/// adjustment leaves the two low digits of their decimal sum, and the
/// carry says whether that sum has a third.
pub proof fn lemma_daa_after_add(a: u8, b: u8)
    requires
        is_decimal(a),
        is_decimal(b),
    ensures
        ({
            let sum = ALU::add_spec(a, b);
            let adjusted = daa_spec(sum.0, sum.1);
            &&& is_decimal(adjusted.0)
            &&& decimal(adjusted.0) == (decimal(a) + decimal(b)) % 100
            &&& adjusted.1.carry == (decimal(a) + decimal(b) >= 100)
        }),
{
    lemma_decimal_sum(a, b);
    lemma_daa_is_corrected_sum(a, b);
}

/// After the subtraction of two bytes of two decimal digits each, the
/// adjustment leaves the two low digits of their decimal difference, and
/// the carry says whether the difference is below zero.
pub proof fn lemma_daa_after_sub(a: u8, b: u8)
    requires
        is_decimal(a),
        is_decimal(b),
    ensures
        ({
            let difference = ALU::sub_spec(a, b);
            let adjusted = daa_spec(difference.0, difference.1);
            &&& is_decimal(adjusted.0)
            &&& decimal(adjusted.0) == (decimal(a) - decimal(b)) % 100
            &&& adjusted.1.carry == (decimal(a) < decimal(b))
        }),
{
    lemma_decimal_difference(a, b);
    lemma_daa_is_corrected_difference(a, b);
    let x = decimal(a) - decimal(b);
    if x < 0 {
        assert(x % 100 == x + 100);
        assert((100 + x) % 100 == x + 100);
    } else {
        assert(x % 100 == x);
        assert((100 + x) % 100 == x);
    }
}

} // verus!
