//! Banked storage: fixed-size banks, one of which is mapped at a time.

pub mod ram;
pub mod rom;

use vstd::prelude::*;

verus! {

/// Why an access to a bank store failed.
#[derive(Clone, Copy, Debug, PartialEq, Eq, Structural)]
pub enum BankError {
    /// The address lies outside the window of one bank.
    AddressOutOfRange(usize),
    /// The size byte names no size.
    InvalidSize(u8),
}

/// What a bank store holds: its banks, and the number of the bank that is
/// mapped.
pub struct BankView {
    pub active: int,
    pub banks: Seq<Seq<u8>>,
}

impl BankView {
    /// The mapped bank is one of the banks.
    pub open spec fn active_present(self) -> bool {
        0 <= self.active < self.banks.len()
    }

    /// The byte at `address` of the mapped bank.
    pub open spec fn byte(self, address: int) -> u8 {
        self.banks[self.active][address]
    }

    /// The store with another bank mapped.
    pub open spec fn with_active(self, active: int) -> BankView {
        BankView { active, ..self }
    }

    /// The store with `data` at `address` of the mapped bank.
    pub open spec fn with_byte(self, address: int, data: u8) -> BankView {
        BankView {
            banks: self.banks.update(self.active, self.banks[self.active].update(address, data)),
            ..self
        }
    }
}

/// The bank that a request ends in: the bank asked for where it is at least
/// one and at most the number of banks, else what its bits leave under the
/// mask of that number less one.
pub open spec fn selected_bank(requested: u16, count: usize) -> u16 {
    if requested < 1 || requested > count {
        (requested as usize & ((count - 1) as usize)) as u16
    } else {
        requested
    }
}

/// Picks the bank that a request ends in.
pub fn select_bank(requested: u16, count: usize) -> (bank: u16)
    requires
        count >= 1,
    ensures
        bank == selected_bank(requested, count),
        bank <= requested,
        requested < 1 || requested > count ==> bank <= count - 1,
{
    if requested < 1 || requested as usize > count {
        let wide = requested as usize;
        let mask = count - 1;
        proof {
            lemma_mask_bounds(wide, mask);
        }
        (wide & mask) as u16
    } else {
        requested
    }
}

/// What a mask leaves of a number is at most the number and at most the
/// mask.
pub proof fn lemma_mask_bounds(x: usize, mask: usize)
    by (bit_vector)
    ensures
        x & mask <= x,
        x & mask <= mask,
{
}

/// Under a mask of a power of two less one, a number is left with its
/// remainder by that power: only then does the mask wrap a request round
/// the banks.
pub proof fn lemma_mask_is_remainder(x: u16)
    by (bit_vector)
    ensures
        x as usize & 0usize == x as usize % 1,
        x as usize & 1usize == x as usize % 2,
        x as usize & 3usize == x as usize % 4,
        x as usize & 7usize == x as usize % 8,
        x as usize & 15usize == x as usize % 16,
        x as usize & 31usize == x as usize % 32,
        x as usize & 63usize == x as usize % 64,
        x as usize & 127usize == x as usize % 128,
        x as usize & 255usize == x as usize % 256,
{
}

/// A bank store that is read through a window and in which one bank is
/// mapped at a time.
pub trait Bank: View<V = BankView> {
    /// The number of bytes in the window, which is that of one bank.
    spec fn window() -> int;

    /// Whether a read at `address` can be served.
    spec fn can_read(&self, address: u16) -> bool;

    /// Whether a bank can be selected.
    spec fn can_swap(&self) -> bool;

    /// Reads the byte at `address` of the mapped bank.
    fn read(&self, address: u16) -> (out: Result<u8, BankError>)
        requires
            self.can_read(address),
        ensures
            address >= Self::window() ==> out == Err::<u8, BankError>(
                BankError::AddressOutOfRange(address as usize),
            ),
            address < Self::window() ==> out == Ok::<u8, BankError>(self@.byte(address as int)),
    ;

    /// Maps another bank.
    fn swap_bank(&mut self, bank: u16)
        requires
            old(self).can_swap(),
        ensures
            final(self)@ == old(self)@.with_active(
                selected_bank(bank, old(self)@.banks.len() as usize) as int,
            ),
    ;
}

/// A buffer of `len` bytes, each of them `value`.
pub fn filled(len: usize, value: u8) -> (buffer: Vec<u8>)
    ensures
        buffer@ == Seq::new(len as nat, |i: int| value),
{
    let mut buffer: Vec<u8> = Vec::new();
    let mut i: usize = 0;
    while i < len
        invariant
            i <= len,
            buffer@ == Seq::new(i as nat, |k: int| value),
        decreases len - i,
    {
        buffer.push(value);
        i = i + 1;
        assert(buffer@ =~= Seq::new(i as nat, |k: int| value));
    }
    buffer
}

/// The contents of `count` banks of `len` bytes, each byte `value`.
pub open spec fn uniform_banks(count: nat, len: nat, value: u8) -> Seq<Seq<u8>> {
    Seq::new(count, |b: int| Seq::new(len, |i: int| value))
}

/// `count` banks of `len` bytes, each byte `value`.
pub fn filled_banks(count: usize, len: usize, value: u8) -> (banks: Vec<Vec<u8>>)
    ensures
        banks.deep_view() == uniform_banks(count as nat, len as nat, value),
        banks.len() == count,
{
    let mut banks: Vec<Vec<u8>> = Vec::new();
    let mut b: usize = 0;
    while b < count
        invariant
            b <= count,
            banks.len() == b,
            banks.deep_view() == uniform_banks(b as nat, len as nat, value),
        decreases count - b,
    {
        let bank = filled(len, value);
        banks.push(bank);
        b = b + 1;
        assert(banks.deep_view() =~= uniform_banks(b as nat, len as nat, value)) by {
            assert forall|k: int| 0 <= k < b implies #[trigger] banks.deep_view()[k]
                == uniform_banks(b as nat, len as nat, value)[k] by {
                if k < b - 1 {
                    assert(banks.deep_view()[k] == uniform_banks(
                        (b - 1) as nat,
                        len as nat,
                        value,
                    )[k]);
                }
            }
        }
    }
    banks
}

} // verus!
