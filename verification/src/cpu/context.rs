//! The capabilities through which the processor reaches memory and time.

use vstd::prelude::*;
use crate::host::CoreContext;
use crate::memory::{high_byte, low_byte, word_of};

verus! {

/// The high page address `0xFF00 + offset`.
pub open spec fn high_page(offset: u8) -> u16 {
    (0xFF00 + offset) as u16
}

/// A host as the processor sees it. Each read and each write stands for one
/// bus cycle. The host's view is its whole state as far as the processor can
/// tell: what an access yields and what it leaves behind depend on nothing
/// else, and the five functions below give them names.
pub trait CpuContext: CoreContext + View {
    /// The byte that a read at `addr` yields from a host in state `state`.
    spec fn read_value(state: Self::V, addr: u16) -> u8;

    /// The state that a read at `addr` leaves.
    spec fn after_read(state: Self::V, addr: u16) -> Self::V;

    /// The state that a write of `data` at `addr` leaves.
    spec fn after_write(state: Self::V, addr: u16, data: u8) -> Self::V;

    /// The state that one idle cycle leaves.
    spec fn after_tick(state: Self::V) -> Self::V;

    /// Whether an interrupt is waiting in state `state`.
    spec fn interrupt_pending(state: Self::V) -> bool;

    /// Reads the byte at `addr`, in one cycle.
    fn read_cycle(&mut self, addr: u16) -> (data: u8)
        ensures
            data == Self::read_value(old(self)@, addr),
            final(self)@ == Self::after_read(old(self)@, addr),
    ;

    /// Reads the byte at offset `addr` of the high page, in one cycle.
    fn read_cycle_high(&mut self, addr: u8) -> (data: u8)
        ensures
            data == Self::read_value(old(self)@, high_page(addr)),
            final(self)@ == Self::after_read(old(self)@, high_page(addr)),
    {
        proof {
            lemma_high_page(addr);
        }
        self.read_cycle(0xff00 | (addr as u16))
    }

    /// Writes `data` at `addr`, in one cycle.
    fn write_cycle(&mut self, addr: u16, data: u8)
        ensures
            final(self)@ == Self::after_write(old(self)@, addr, data),
    ;

    /// Writes `data` at offset `addr` of the high page, in one cycle.
    fn write_cycle_high(&mut self, addr: u8, data: u8)
        ensures
            final(self)@ == Self::after_write(old(self)@, high_page(addr), data),
    {
        proof {
            lemma_high_page(addr);
        }
        self.write_cycle(0xff00 | (addr as u16), data);
    }

    /// Lets one cycle pass without an access.
    fn tick_cycle(&mut self)
        ensures
            final(self)@ == Self::after_tick(old(self)@),
    ;

    /// Whether an interrupt is waiting.
    fn has_interrupt(&self) -> (pending: bool)
        ensures
            pending == Self::interrupt_pending(self@),
    ;
}

/// The address `n` places after `addr`, wrapping round the address space.
#[verifier::opaque]
pub open spec fn addr_add(addr: u16, n: int) -> u16 {
    ((addr + n) % 0x10000) as u16
}

/// Moving on by `n` and then by `m` is moving on by their sum, where
/// neither is more than the whole address space.
pub proof fn lemma_addr_add_twice(addr: u16, n: int, m: int)
    requires
        -0x10000 <= n <= 0x10000,
        -0x10000 <= m <= 0x10000,
    ensures
        addr_add(addr_add(addr, n), m) == addr_add(addr, n + m),
{
    reveal(addr_add);
}

/// The address `n` places after `addr`.
pub fn advance(addr: u16, n: u16) -> (next: u16)
    ensures
        next == addr_add(addr, n as int),
{
    proof {
        reveal(addr_add);
    }
    addr.wrapping_add(n)
}

/// The address `n` places before `addr`.
pub fn retreat(addr: u16, n: u16) -> (next: u16)
    ensures
        next == addr_add(addr, -(n as int)),
{
    proof {
        reveal(addr_add);
    }
    addr.wrapping_sub(n)
}

/// The word that two reads yield, the low byte at `addr` and the high byte
/// at the address after it.
pub open spec fn read_word_value<C: CpuContext>(state: C::V, addr: u16) -> u16 {
    word_of(
        C::read_value(state, addr),
        C::read_value(C::after_read(state, addr), addr_add(addr, 1)),
    )
}

/// The state that those two reads leave.
pub open spec fn after_read_word<C: CpuContext>(state: C::V, addr: u16) -> C::V {
    C::after_read(C::after_read(state, addr), addr_add(addr, 1))
}

/// The state that two writes leave, the low byte of `word` at `addr` and
/// its high byte at the address after it.
pub open spec fn after_write_word<C: CpuContext>(state: C::V, addr: u16, word: u16) -> C::V {
    C::after_write(
        C::after_write(state, addr, low_byte(word)),
        addr_add(addr, 1),
        high_byte(word),
    )
}

/// The state that a push of `word` leaves, the stack pointer being `sp`
/// before it: the high byte goes to the address below `sp`, then the low
/// byte to the one below that.
pub open spec fn after_push_word<C: CpuContext>(state: C::V, sp: u16, word: u16) -> C::V {
    C::after_write(
        C::after_write(state, addr_add(sp, -1), high_byte(word)),
        addr_add(sp, -2),
        low_byte(word),
    )
}

/// Setting the top byte of an address to `0xFF` by `|` adds `0xFF00`.
pub proof fn lemma_high_page(offset: u8)
    by (bit_vector)
    ensures
        0xff00u16 | (offset as u16) == 0xff00u16 + (offset as u16),
{
}

} // verus!
