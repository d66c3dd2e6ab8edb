//! The flat address space that the processor reads and writes.

use vstd::prelude::*;
use crate::cpu::context::CpuContext;
use crate::host::{Callbacks, CoreContext};
use crate::io::{In8, Out8};

verus! {

/// Number of bytes on the bus: one for each 16-bit address.
pub const BUS_SIZE: usize = 0x10000;

/// A capability to read values of type `U` from places named by `T`, and to
/// write them there.
pub trait Storage<T, U>: Sized {
    /// Whether `src` names a place that can be read.
    spec fn readable(&self, src: T) -> bool;

    /// Whether `dest` names a place that can be written.
    spec fn writable(&self, dest: T) -> bool;

    /// What a read of `src` yields.
    spec fn stored(&self, src: T) -> U;

    /// What a read of `src` leaves of the storage.
    spec fn after_read(&self, src: T) -> Self;

    /// What a write of `value` to `dest` leaves of the storage.
    spec fn after_write(&self, dest: T, value: U) -> Self;

    /// Reads the value that `src` names.
    fn read(&mut self, src: T) -> (value: U)
        requires
            old(self).readable(src),
        ensures
            value == old(self).stored(src),
            *final(self) == old(self).after_read(src),
    ;

    /// Writes `value` to the place that `dest` names.
    fn write(&mut self, dest: T, value: U)
        requires
            old(self).writable(dest),
        ensures
            *final(self) == old(self).after_write(dest, value),
    ;
}

/// The bus: one byte for every 16-bit address.
#[derive(Debug)]
pub struct MemoryBus {
    pub ram: [u8; 0x10000],
}

impl View for MemoryBus {
    type V = Seq<u8>;

    open spec fn view(&self) -> Seq<u8> {
        self.ram@
    }
}

/// The 16-bit word whose low byte is `low` and whose high byte is `high`.
#[verifier::opaque]
pub open spec fn word_of(low: u8, high: u8) -> u16 {
    (high * 256 + low) as u16
}

/// The low byte of a word.
#[verifier::opaque]
pub open spec fn low_byte(word: u16) -> u8 {
    (word % 256) as u8
}

/// The high byte of a word.
#[verifier::opaque]
pub open spec fn high_byte(word: u16) -> u8 {
    (word / 256) as u8
}

/// Joins two bytes into a word, low byte first.
pub fn join_word(low: u8, high: u8) -> (word: u16)
    ensures
        word == word_of(low, high),
        low_byte(word) == low,
        high_byte(word) == high,
{
    proof {
        reveal(word_of);
        reveal(low_byte);
        reveal(high_byte);
    }
    (high as u16) * 256 + (low as u16)
}

/// Splits a word into its low and its high byte.
pub fn split_word(word: u16) -> (bytes: (u8, u8))
    ensures
        bytes.0 == low_byte(word),
        bytes.1 == high_byte(word),
        word_of(bytes.0, bytes.1) == word,
{
    proof {
        reveal(word_of);
        reveal(low_byte);
        reveal(high_byte);
    }
    ((word % 256) as u8, (word / 256) as u8)
}

impl MemoryBus {
    /// A bus with every byte zero.
    pub fn new() -> (bus: Self)
        ensures
            bus@ == Seq::new(0x10000, |i: int| 0u8),
    {
        let bus = Self { ram: [0u8; 0x10000] };
        assert(bus@ =~= Seq::new(0x10000, |i: int| 0u8));
        bus
    }
}

impl Storage<usize, u8> for MemoryBus {
    open spec fn readable(&self, src: usize) -> bool {
        src < 0x10000
    }

    open spec fn writable(&self, dest: usize) -> bool {
        dest < 0x10000
    }

    open spec fn stored(&self, src: usize) -> u8 {
        self@[src as int]
    }

    open spec fn after_read(&self, src: usize) -> Self {
        *self
    }

    open spec fn after_write(&self, dest: usize, value: u8) -> Self {
        MemoryBus { ram: vstd::array::spec_array_update(self.ram, dest as int, value) }
    }

    fn read(&mut self, src: usize) -> u8 {
        self.ram[src]
    }

    fn write(&mut self, dest: usize, value: u8)
        ensures
            final(self)@ == old(self)@.update(dest as int, value),
    {
        self.ram[dest] = value;
        assert(self.ram =~= vstd::array::spec_array_update(old(self).ram, dest as int, value));
    }
}

impl Storage<usize, u16> for MemoryBus {
    open spec fn readable(&self, src: usize) -> bool {
        src + 1 < 0x10000
    }

    open spec fn writable(&self, dest: usize) -> bool {
        dest + 1 < 0x10000
    }

    open spec fn stored(&self, src: usize) -> u16 {
        word_of(self@[src as int], self@[src + 1])
    }

    open spec fn after_read(&self, src: usize) -> Self {
        *self
    }

    open spec fn after_write(&self, dest: usize, value: u16) -> Self {
        MemoryBus {
            ram: vstd::array::spec_array_update(
                vstd::array::spec_array_update(self.ram, dest as int, low_byte(value)),
                dest + 1,
                high_byte(value),
            ),
        }
    }

    fn read(&mut self, src: usize) -> u16 {
        let lower: u8 = self.read(src);
        let upper: u8 = self.read(src + 1);
        join_word(lower, upper)
    }

    fn write(&mut self, dest: usize, value: u16)
        ensures
            final(self)@ == old(self)@.update(dest as int, low_byte(value)).update(
                dest + 1,
                high_byte(value),
            ),
    {
        let (lower, upper) = split_word(value);
        self.write(dest, lower);
        self.write(dest + 1, upper);
    }
}

/// A block of memory that is an operand in its own right: a byte of it is
/// named by its address alone, whatever the host.
#[derive(Debug)]
pub struct Memory {
    pub data: [u8; 0x10000],
}

impl View for Memory {
    type V = Seq<u8>;

    open spec fn view(&self) -> Seq<u8> {
        self.data@
    }
}

impl In8<u16> for Memory {
    fn read<C: CpuContext>(&mut self, src: u16, ctx: &mut C) -> (value: u8)
        ensures
            value == old(self)@[src as int],
            final(self)@ == old(self)@,
            final(ctx)@ == old(ctx)@,
    {
        self.data[src as usize]
    }
}

impl Out8<u16> for Memory {
    open spec fn accepts(dst: u16) -> bool {
        true
    }

    fn write<C: CpuContext>(&mut self, dst: u16, data: u8, ctx: &mut C)
        ensures
            final(self)@ == old(self)@.update(dst as int, data),
            final(ctx)@ == old(ctx)@,
    {
        self.data[dst as usize] = data;
    }
}

impl CoreContext for MemoryBus {
    /// The bus has no callbacks.
    fn callbacks(&mut self) -> (out: Option<&mut dyn Callbacks>)
        ensures
            out.is_none(),
            *final(self) == *old(self),
    {
        None
    }
}

impl CpuContext for MemoryBus {
    open spec fn read_value(state: Seq<u8>, addr: u16) -> u8 {
        state[addr as int]
    }

    open spec fn after_read(state: Seq<u8>, addr: u16) -> Seq<u8> {
        state
    }

    open spec fn after_write(state: Seq<u8>, addr: u16, data: u8) -> Seq<u8> {
        state.update(addr as int, data)
    }

    open spec fn after_tick(state: Seq<u8>) -> Seq<u8> {
        state
    }

    open spec fn interrupt_pending(state: Seq<u8>) -> bool {
        (state[0xFF0F] & state[0xFFFF] & 0x1F) != 0
    }

    fn read_cycle(&mut self, addr: u16) -> (data: u8) {
        self.ram[addr as usize]
    }

    fn write_cycle(&mut self, addr: u16, data: u8) {
        self.ram[addr as usize] = data;
    }

    fn tick_cycle(&mut self) {
    }

    fn has_interrupt(&self) -> (pending: bool) {
        (self.ram[0xFF0F] & self.ram[0xFFFF] & 0x1F) != 0
    }
}

} // verus!
