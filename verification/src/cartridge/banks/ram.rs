//! The external RAM of a cartridge, in banks of 8,192 bytes.

use vstd::prelude::*;
use crate::cartridge::banks::{
    filled_banks, select_bank, selected_bank, uniform_banks, BankError, BankView,
};

verus! {

/// Number of bytes in one RAM bank.
pub const RAM_BANK_SIZE: usize = 0x2000;

/// The RAM banks and the number of the one that is mapped.
#[derive(Debug)]
pub struct RamBanks {
    pub active_bank: u8,
    pub banks: Vec<Vec<u8>>,
}

/// The number of banks that a size byte of at most five stands for.
pub open spec fn ram_bank_count(ram_size_byte: u8) -> nat {
    if ram_size_byte == 2 {
        1
    } else if ram_size_byte == 3 {
        4
    } else if ram_size_byte == 4 {
        16
    } else if ram_size_byte == 5 {
        8
    } else {
        0
    }
}

/// The bank that is mapped at first: bank 1 where there is any bank.
pub open spec fn ram_initial_bank(ram_size_byte: u8) -> int {
    if ram_bank_count(ram_size_byte) > 0 {
        1
    } else {
        0
    }
}

impl View for RamBanks {
    type V = BankView;

    open spec fn view(&self) -> BankView {
        BankView { active: self.active_bank as int, banks: self.banks.deep_view() }
    }
}

impl RamBanks {
    /// There are at most sixteen banks, each of 8,192 bytes.
    pub open spec fn wf(&self) -> bool {
        &&& self.banks.len() <= 16
        &&& forall|b: int|
            0 <= b < self.banks.len() ==> (#[trigger] self.banks[b]).len() == 0x2000
    }

    /// Zeroed banks, as many as the size byte asks for.
    pub fn new(ram_size_byte: u8) -> (out: Result<Self, BankError>)
        ensures
            ram_size_byte > 5 ==> out == Err::<Self, BankError>(
                BankError::InvalidSize(ram_size_byte),
            ),
            ram_size_byte <= 5 ==> out.is_ok() && out.unwrap().wf() && out.unwrap()@.active
                == ram_initial_bank(ram_size_byte) && out.unwrap().banks.len() == ram_bank_count(
                ram_size_byte,
            ) && out.unwrap()@.banks == uniform_banks(ram_bank_count(ram_size_byte), 0x2000, 0),
    {
        if ram_size_byte > 0x05 {
            return Err(BankError::InvalidSize(ram_size_byte));
        }
        let (active_bank, count): (u8, usize) = match ram_size_byte {
            0x00 | 0x01 => (0, 0),
            0x02 => (1, 1),
            0x03 => (1, 4),
            0x04 => (1, 16),
            _ => (1, 8),
        };
        let banks = filled_banks(count, RAM_BANK_SIZE, 0);
        let store = Self { active_bank, banks };
        assert(store.wf()) by {
            assert forall|b: int| 0 <= b < store.banks.len() implies (
            #[trigger] store.banks[b]).len() == 0x2000 by {
                assert(store.banks.deep_view()[b] == store.banks[b]@);
            }
        }
        Ok(store)
    }

    /// Whether an access at `address` can be served: the address lies
    /// outside the window, which is an error, or the mapped bank is there.
    pub open spec fn can_access(&self, address: u16) -> bool {
        self.wf() && (address <= 0x1FFF ==> self@.active_present())
    }

    /// Writes `data` at `address` of the mapped bank.
    pub fn write(&mut self, address: u16, data: u8) -> (out: Result<(), BankError>)
        requires
            old(self).can_access(address),
        ensures
            final(self).wf(),
            address > 0x1FFF ==> out == Err::<(), BankError>(
                BankError::AddressOutOfRange(address as usize),
            ) && final(self)@ == old(self)@,
            address <= 0x1FFF ==> out == Ok::<(), BankError>(()) && final(self)@ == old(
                self,
            )@.with_byte(address as int, data),
    {
        let address = address as usize;
        if address > 0x1FFF {
            return Err(BankError::AddressOutOfRange(address));
        }
        let bank = self.active_bank as usize;
        self.banks[bank][address] = data;
        proof {
            let after = self@.banks;
            let expected = old(self)@.with_byte(address as int, data).banks;
            assert(after.len() == expected.len());
            assert forall|k: int| 0 <= k < after.len() implies after[k] == expected[k] by {
                assert(after[k] == self.banks[k]@);
                assert(old(self)@.banks[k] == old(self).banks[k]@);
            }
            assert(after =~= expected);
        }
        Ok(())
    }

    /// Reads the byte at `address` of the mapped bank.
    pub fn read(&self, address: u16) -> (out: Result<u8, BankError>)
        requires
            self.can_access(address),
        ensures
            address > 0x1FFF ==> out == Err::<u8, BankError>(
                BankError::AddressOutOfRange(address as usize),
            ),
            address <= 0x1FFF ==> out == Ok::<u8, BankError>(self@.byte(address as int)),
    {
        let address = address as usize;
        if address > 0x1FFF {
            return Err(BankError::AddressOutOfRange(address));
        }
        let bank = self.active_bank as usize;
        assert(self.banks.deep_view()[bank as int] == self.banks[bank as int]@);
        let data = self.banks[bank][address];
        Ok(data)
    }

    /// Maps another bank. There must be a bank to map.
    pub fn swap_bank(&mut self, bank: u16)
        requires
            old(self).wf(),
            old(self).banks.len() >= 1,
        ensures
            final(self)@ == old(self)@.with_active(
                selected_bank(bank, old(self).banks.len()) as int,
            ),
            final(self).banks == old(self).banks,
            final(self).wf(),
    {
        let chosen = select_bank(bank, self.banks.len());
        self.active_bank = chosen as u8;
    }

    /// The number of banks.
    pub fn bank_count(&self) -> (count: usize)
        ensures
            count == self@.banks.len(),
    {
        self.banks.len()
    }

    /// Whether the mapped bank is one of the banks.
    pub fn active_bank_present(&self) -> (present: bool)
        ensures
            present == self@.active_present(),
    {
        (self.active_bank as usize) < self.banks.len()
    }
}

} // verus!
