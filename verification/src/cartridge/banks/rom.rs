//! The ROM of a cartridge, in banks of 16,384 bytes.

use vstd::prelude::*;
use crate::cartridge::banks::{
    filled_banks, select_bank, uniform_banks, Bank, BankError, BankView,
};

verus! {

/// Number of bytes in one ROM bank.
pub const ROM_BANK_SIZE: usize = 0x4000;

/// The ROM banks and the number of the one that is mapped.
#[derive(Debug)]
pub struct RomBanks {
    pub active_bank: u16,
    pub banks: Vec<Vec<u8>>,
}

/// Two to the power of a size byte of at most eight.
pub open spec fn rom_bank_count(rom_size_byte: u8) -> nat {
    if rom_size_byte == 0 {
        1
    } else if rom_size_byte == 1 {
        2
    } else if rom_size_byte == 2 {
        4
    } else if rom_size_byte == 3 {
        8
    } else if rom_size_byte == 4 {
        16
    } else if rom_size_byte == 5 {
        32
    } else if rom_size_byte == 6 {
        64
    } else if rom_size_byte == 7 {
        128
    } else {
        256
    }
}

/// The banks that an image is cut into: bank `b` holds the bytes from
/// `b * 16384` on.
pub open spec fn image_banks(data: Seq<u8>) -> Seq<Seq<u8>> {
    Seq::new(
        (data.len() / 0x4000) as nat,
        |b: int| data.subrange(b * 0x4000, b * 0x4000 + 0x4000),
    )
}

impl View for RomBanks {
    type V = BankView;

    open spec fn view(&self) -> BankView {
        BankView { active: self.active_bank as int, banks: self.banks.deep_view() }
    }
}

impl RomBanks {
    /// Every bank has 16,384 bytes.
    pub open spec fn wf(&self) -> bool {
        forall|b: int| 0 <= b < self.banks.len() ==> (#[trigger] self.banks[b]).len() == 0x4000
    }

    /// Zeroed banks, as many as the size byte asks for; bank 1 is mapped.
    pub fn new(rom_size_byte: u8) -> (out: Result<Self, BankError>)
        ensures
            rom_size_byte > 8 ==> out == Err::<Self, BankError>(
                BankError::InvalidSize(rom_size_byte),
            ),
            rom_size_byte <= 8 ==> out.is_ok() && out.unwrap().wf() && out.unwrap()@.active == 1
                && out.unwrap().banks.len() == rom_bank_count(rom_size_byte)
                && out.unwrap()@.banks == uniform_banks(rom_bank_count(rom_size_byte), 0x4000, 0),
    {
        if rom_size_byte > 0x08 {
            return Err(BankError::InvalidSize(rom_size_byte));
        }
        let num_banks: usize = power_of_two(rom_size_byte);
        let banks = filled_banks(num_banks, ROM_BANK_SIZE, 0);
        let store = Self { active_bank: 1, banks };
        assert(store.wf()) by {
            assert forall|b: int| 0 <= b < store.banks.len() implies (
            #[trigger] store.banks[b]).len() == 0x4000 by {
                assert(store.banks.deep_view()[b] == store.banks[b]@);
            }
        }
        Ok(store)
    }

    /// The banks that an image is cut into; bank 1 is mapped.
    pub fn from(data: &[u8]) -> (store: Self)
        requires
            data@.len() % 0x4000 == 0,
        ensures
            store.wf(),
            store@.active == 1,
            store@.banks == image_banks(data@),
    {
        let total = data.len();
        let num_banks = total / ROM_BANK_SIZE;
        let mut banks: Vec<Vec<u8>> = Vec::new();
        let mut b: usize = 0;
        while b < num_banks
            invariant
                b <= num_banks,
                total == data@.len(),
                num_banks == data@.len() / 0x4000,
                data@.len() % 0x4000 == 0,
                banks.len() == b,
                forall|k: int|
                    0 <= k < b ==> (#[trigger] banks[k])@ == data@.subrange(
                        k * 0x4000,
                        k * 0x4000 + 0x4000,
                    ),
            decreases num_banks - b,
        {
            assert(b * 0x4000 + 0x4000 <= total);
            let start = b * 0x4000;
            let mut bank: Vec<u8> = Vec::new();
            let mut i: usize = 0;
            while i < ROM_BANK_SIZE
                invariant
                    i <= 0x4000,
                    b < num_banks,
                    num_banks == data@.len() / 0x4000,
                    start == b * 0x4000,
                    start + 0x4000 <= data@.len(),
                    bank@ == data@.subrange(start as int, start + i),
                decreases 0x4000 - i,
            {
                bank.push(data[start + i]);
                i = i + 1;
                assert(bank@ =~= data@.subrange(start as int, start + i));
            }
            banks.push(bank);
            b = b + 1;
        }
        let store = Self { active_bank: 1, banks };
        assert(store@.banks =~= image_banks(data@)) by {
            assert forall|k: int| 0 <= k < store.banks.len() implies (
            #[trigger] store.banks.deep_view()[k]) == image_banks(data@)[k] by {
                assert(store.banks.deep_view()[k] == store.banks[k]@);
            }
        }
        assert(store.wf());
        store
    }

    /// The number of banks.
    pub fn bank_count(&self) -> (count: usize)
        ensures
            count == self@.banks.len(),
    {
        self.banks.len()
    }

    /// Whether the mapped bank is one of the banks.
    pub fn active_bank_present(&self) -> (present: bool)
        ensures
            present == self@.active_present(),
    {
        (self.active_bank as usize) < self.banks.len()
    }
}

/// Two to the power `exponent`.
pub fn power_of_two(exponent: u8) -> (power: usize)
    requires
        exponent <= 8,
    ensures
        power == rom_bank_count(exponent),
{
    let mut power: usize = 1;
    let mut i: u8 = 0;
    while i < exponent
        invariant
            i <= exponent <= 8,
            power == rom_bank_count(i),
        decreases exponent - i,
    {
        power = power * 2;
        i = i + 1;
    }
    power
}

impl Bank for RomBanks {
    open spec fn window() -> int {
        0x4000
    }

    /// A read is served where the address lies outside the window, which is
    /// an error, or the mapped bank is there to be read.
    open spec fn can_read(&self, address: u16) -> bool {
        self.wf() && (address <= 0x3FFF ==> self@.active_present())
    }

    open spec fn can_swap(&self) -> bool {
        self.banks.len() >= 1
    }

    fn read(&self, address: u16) -> (out: Result<u8, BankError>) {
        let address = address as usize;
        if address > 0x3FFF {
            return Err(BankError::AddressOutOfRange(address));
        }
        let bank = self.active_bank as usize;
        assert(self.banks.deep_view()[bank as int] == self.banks[bank as int]@);
        let data = self.banks[bank][address];
        Ok(data)
    }

    fn swap_bank(&mut self, bank: u16)
        ensures
            final(self).banks == old(self).banks,
    {
        self.active_bank = select_bank(bank, self.banks.len());
    }
}

} // verus!
