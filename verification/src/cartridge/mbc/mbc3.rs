//! The controller with a real-time clock: up to 2 MiB of ROM, up to 32 KiB
//! of RAM, and five clock registers that can be latched.

use vstd::prelude::*;
use crate::cartridge::banks::ram::{ram_bank_count, ram_initial_bank, RamBanks};
use crate::cartridge::banks::rom::{image_banks, power_of_two, rom_bank_count, RomBanks};
use crate::cartridge::banks::{selected_bank, uniform_banks, Bank, BankError, BankView};
use crate::cartridge::header::CartridgeHeader;
use crate::cartridge::mbc::AddressMapper;

verus! {

/// First address of the window onto RAM and the clock.
pub const RAM_WINDOW_START: u16 = 0xA000;

/// The switch in front of RAM and the clock.
#[derive(Clone, Copy, Debug, PartialEq, Eq, Structural)]
pub enum WriteMapping {
    /// Writes do not get through.
    Disabled,
    /// Writes get through to what the number selects: a RAM bank from 0 to
    /// 3, a clock register from `0x08` to `0x0C`; any other number selects
    /// nothing.
    Enabled(usize),
}

/// The controller.
#[derive(Debug)]
pub struct MBC3 {
    pub rom_banks: RomBanks,
    pub ram_banks: Option<RamBanks>,
    pub battery: bool,
    pub rtc: bool,
    pub write_mapping: WriteMapping,
    pub bank_or_rtc_select: u8,
    pub clock_registers: [u8; 5],
    pub latched_clock_registers: [u8; 5],
    pub active_clock_register: usize,
}

/// What the controller holds.
pub struct Mbc3View {
    pub rom: BankView,
    pub ram: Option<BankView>,
    pub battery: bool,
    pub rtc: bool,
    pub write_mapping: WriteMapping,
    pub bank_or_rtc_select: u8,
    pub clock_registers: Seq<u8>,
    pub latched_clock_registers: Seq<u8>,
    pub active_clock_register: usize,
}

/// Whether a cartridge of this type has RAM behind its controller.
pub open spec fn type_has_ram(cartridge_type: u8) -> bool {
    cartridge_type == 0x10 || cartridge_type == 0x12 || cartridge_type == 0x13
}

/// Whether a cartridge of this type keeps its RAM on a battery.
pub open spec fn type_has_battery(cartridge_type: u8) -> bool {
    cartridge_type == 0x0F || cartridge_type == 0x10 || cartridge_type == 0x13
}

/// Whether a cartridge of this type has a clock.
pub open spec fn type_has_rtc(cartridge_type: u8) -> bool {
    cartridge_type == 0x10 || cartridge_type == 0x13
}

/// The ROM bank that a write of `value` to the bank select asks for: its
/// low seven bits, and bank 1 where they are zero.
pub open spec fn rom_bank_request(value: u8) -> u16 {
    if value & 0x7F == 0 {
        1
    } else {
        (value & 0x7F) as u16
    }
}

impl Mbc3View {
    /// The save file of a controller: what each RAM bank holds, in order,
    /// where the cartridge has a battery and RAM; else none.
    pub open spec fn save_file(self) -> Option<Seq<Seq<u8>>> {
        if self.battery && self.ram.is_some() {
            Some(self.ram.unwrap().banks)
        } else {
            None
        }
    }

    /// Whether the switch lets writes through to a RAM bank.
    pub open spec fn ram_selected(self) -> bool {
        self.write_mapping matches WriteMapping::Enabled(n) && n <= 0x03
    }

    /// Whether the switch lets writes through to a clock register.
    pub open spec fn clock_selected(self) -> bool {
        self.write_mapping matches WriteMapping::Enabled(n) && 0x08 <= n <= 0x0C
    }

    /// What a read at `address` yields, in the two windows that can be
    /// read. The first takes every address up to `0x7FFF` to the ROM store,
    /// which serves those up to `0x3FFF`. The second, from `0xA000` to
    /// `0xBFFF`, goes to RAM where there is RAM and the select byte is at
    /// most 3, else to the selected clock register where there is a clock.
    pub open spec fn read_result(self, address: u16) -> Result<u8, BankError> {
        if address <= 0x7FFF {
            if address > 0x3FFF {
                Err(BankError::AddressOutOfRange(address as usize))
            } else {
                Ok(self.rom.byte(address as int))
            }
        } else if self.bank_or_rtc_select <= 0x03 && self.ram.is_some() {
            Ok(self.ram.unwrap().byte(address - 0xA000))
        } else if self.rtc {
            Ok(self.clock_registers[self.active_clock_register as int])
        } else {
            Err(BankError::AddressOutOfRange(address as usize))
        }
    }

    /// What a write of `value` at `address` leaves.
    ///
    /// Up to `0x1FFF` it works the switch: `0x00` closes it, `0x0A` opens it
    /// with nothing selected. Up to `0x3FFF` it selects a ROM bank. Up to
    /// `0x5FFF` it selects a RAM bank, for a value up to 3 where there is
    /// RAM, or a clock register, for a value from `0x08` to `0x0C` where
    /// there is a clock, and opens the switch to what it selected. Up to
    /// `0x7FFF` a value of 1 latches the clock, where there is one. From
    /// `0xA000` to `0xBFFF` it goes through the switch to the RAM bank or to
    /// the clock register selected. Any other write is dropped.
    pub open spec fn written(self, address: u16, value: u8) -> Mbc3View {
        if address <= 0x1FFF {
            if value == 0x00 {
                Mbc3View { write_mapping: WriteMapping::Disabled, ..self }
            } else if value == 0x0A {
                Mbc3View { write_mapping: WriteMapping::Enabled(0xFF), ..self }
            } else {
                self
            }
        } else if address <= 0x3FFF {
            Mbc3View {
                rom: self.rom.with_active(
                    selected_bank(rom_bank_request(value), self.rom.banks.len() as usize) as int,
                ),
                ..self
            }
        } else if address <= 0x5FFF {
            if value <= 0x03 {
                match self.ram {
                    Some(ram) => Mbc3View {
                        ram: Some(
                            ram.with_active(
                                selected_bank(value as u16, ram.banks.len() as usize) as int,
                            ),
                        ),
                        write_mapping: WriteMapping::Enabled(value as usize),
                        ..self
                    },
                    None => self,
                }
            } else if 0x08 <= value <= 0x0C && self.rtc {
                Mbc3View {
                    active_clock_register: (value - 0x08) as usize,
                    write_mapping: WriteMapping::Enabled(value as usize),
                    ..self
                }
            } else {
                self
            }
        } else if address <= 0x7FFF {
            if self.rtc && value == 0x01 {
                Mbc3View { latched_clock_registers: self.clock_registers, ..self }
            } else {
                self
            }
        } else if 0xA000 <= address <= 0xBFFF {
            if self.ram_selected() {
                match self.ram {
                    Some(ram) => Mbc3View {
                        ram: Some(ram.with_byte(address - 0xA000, value)),
                        ..self
                    },
                    None => self,
                }
            } else if self.clock_selected() && self.rtc {
                Mbc3View {
                    clock_registers: self.clock_registers.update(
                        self.active_clock_register as int,
                        value,
                    ),
                    ..self
                }
            } else {
                self
            }
        } else {
            self
        }
    }
}

impl View for MBC3 {
    type V = Mbc3View;

    open spec fn view(&self) -> Mbc3View {
        Mbc3View {
            rom: self.rom_banks@,
            ram: match self.ram_banks {
                Some(ram) => Some(ram@),
                None => None,
            },
            battery: self.battery,
            rtc: self.rtc,
            write_mapping: self.write_mapping,
            bank_or_rtc_select: self.bank_or_rtc_select,
            clock_registers: self.clock_registers@,
            latched_clock_registers: self.latched_clock_registers@,
            active_clock_register: self.active_clock_register,
        }
    }
}

impl MBC3 {
    /// The banks are whole and the selected clock register is one of the
    /// five.
    pub open spec fn wf(&self) -> bool {
        &&& self.rom_banks.wf()
        &&& self.ram_banks matches Some(ram) ==> ram.wf()
        &&& self.active_clock_register < 5
    }

    /// Whether the ROM size byte of a header names a size, and the size that
    /// an image of `len` bytes has.
    pub open spec fn size_fits(header: CartridgeHeader, len: nat) -> bool {
        header.rom_size <= 8 && rom_bank_count(header.rom_size) * 0x4000 == len
    }

    /// What a controller holds when it is made for a header and an image:
    /// the ROM that the size byte asks for, zeroed, or the image cut into
    /// banks where the size byte does not fit the image; RAM, a battery and
    /// a clock as the cartridge type says; the switch closed and the clock
    /// at zero.
    pub open spec fn initial(header: CartridgeHeader, data: Seq<u8>) -> Mbc3View {
        Mbc3View {
            rom: BankView {
                active: 1,
                banks: if MBC3::size_fits(header, data.len()) {
                    uniform_banks(rom_bank_count(header.rom_size), 0x4000, 0)
                } else {
                    image_banks(data)
                },
            },
            ram: if type_has_ram(header.cartridge_type) {
                Some(
                    BankView {
                        active: ram_initial_bank(header.ram_size),
                        banks: uniform_banks(ram_bank_count(header.ram_size), 0x2000, 0),
                    },
                )
            } else {
                None
            },
            battery: type_has_battery(header.cartridge_type),
            rtc: type_has_rtc(header.cartridge_type),
            write_mapping: WriteMapping::Disabled,
            bank_or_rtc_select: 0,
            clock_registers: Seq::new(5, |i: int| 0u8),
            latched_clock_registers: Seq::new(5, |i: int| 0u8),
            active_clock_register: 0,
        }
    }

    /// A controller for a header and the image it came from. The image
    /// must be whole banks, and where the cartridge has RAM, its size byte
    /// must name a size.
    pub fn new(cartridge_header: &CartridgeHeader, data: &[u8]) -> (mbc: Self)
        requires
            type_has_ram(cartridge_header.cartridge_type) ==> cartridge_header.ram_size <= 5,
            data@.len() % 0x4000 == 0,
        ensures
            mbc@ == MBC3::initial(*cartridge_header, data@),
            mbc.wf(),
    {
        let fits = cartridge_header.rom_size <= 8 && power_of_two(cartridge_header.rom_size)
            * 0x4000 == data.len();
        let by_size = if fits {
            RomBanks::new(cartridge_header.rom_size)
        } else {
            Err(BankError::InvalidSize(cartridge_header.rom_size))
        };
        let rom_banks = match by_size {
            Ok(banks) => banks,
            Err(_) => RomBanks::from(data),
        };
        let ram_banks = match cartridge_header.cartridge_type {
            0x10 | 0x12 | 0x13 => {
                match RamBanks::new(cartridge_header.ram_size) {
                    Ok(banks) => Some(banks),
                    Err(_) => None,
                }
            },
            _ => None,
        };
        let battery = match cartridge_header.cartridge_type {
            0x0F | 0x10 | 0x13 => true,
            _ => false,
        };
        let rtc = match cartridge_header.cartridge_type {
            0x10 | 0x13 => true,
            _ => false,
        };
        let mbc = MBC3 {
            rom_banks,
            ram_banks,
            battery,
            rtc,
            write_mapping: WriteMapping::Disabled,
            bank_or_rtc_select: 0,
            clock_registers: [0; 5],
            latched_clock_registers: [0; 5],
            active_clock_register: 0,
        };
        assert(mbc@.clock_registers =~= Seq::new(5, |i: int| 0u8));
        assert(mbc@.latched_clock_registers =~= Seq::new(5, |i: int| 0u8));
        mbc
    }

    /// The image of a save file: one buffer for each RAM bank, holding what
    /// the bank holds. There is one where the cartridge has a battery and
    /// RAM.
    pub fn generate_save_file(&self) -> (out: Option<Vec<Vec<u8>>>)
        ensures
            out.is_some() == self@.save_file().is_some(),
            out matches Some(banks) ==> Some(banks.deep_view()) == self@.save_file(),
    {
        if !self.battery {
            return None;
        }
        match &self.ram_banks {
            Some(ram) => {
                let mut save_file: Vec<Vec<u8>> = Vec::new();
                let mut b: usize = 0;
                while b < ram.banks.len()
                    invariant
                        b <= ram.banks.len(),
                        save_file.len() == b,
                        forall|k: int| 0 <= k < b ==> (#[trigger] save_file[k])@ == ram.banks[k]@,
                    decreases ram.banks.len() - b,
                {
                    let bank = &ram.banks[b];
                    let mut copy: Vec<u8> = Vec::new();
                    let mut i: usize = 0;
                    while i < bank.len()
                        invariant
                            i <= bank.len(),
                            copy@ == bank@.subrange(0, i as int),
                        decreases bank.len() - i,
                    {
                        copy.push(bank[i]);
                        i = i + 1;
                        assert(copy@ =~= bank@.subrange(0, i as int));
                    }
                    assert(copy@ =~= bank@);
                    save_file.push(copy);
                    b = b + 1;
                }
                assert(save_file.deep_view() =~= ram.banks.deep_view()) by {
                    assert forall|k: int| 0 <= k < save_file.len() implies (
                    #[trigger] save_file.deep_view()[k]) == ram.banks.deep_view()[k] by {
                        assert(save_file.deep_view()[k] == save_file[k]@);
                        assert(ram.banks.deep_view()[k] == ram.banks[k]@);
                    }
                }
                Some(save_file)
            },
            None => None,
        }
    }

    /// Whether a read at `address` can be served, as the caller can test
    /// it.
    pub fn readable(&self, address: u16) -> (can: bool)
        requires
            self.wf(),
        ensures
            can == self.can_read(address),
    {
        if address <= 0x3FFF {
            self.rom_banks.active_bank_present()
        } else if address <= 0x7FFF {
            true
        } else if 0xA000 <= address && address <= 0xBFFF {
            match &self.ram_banks {
                Some(ram) => self.bank_or_rtc_select > 0x03 || ram.active_bank_present(),
                None => true,
            }
        } else {
            false
        }
    }

    /// Whether a write of `value` at `address` can be served, as the
    /// caller can test it.
    pub fn writable(&self, address: u16, value: u8) -> (can: bool)
        requires
            self.wf(),
        ensures
            can == self.can_write(address, value),
    {
        if 0x2000 <= address && address <= 0x3FFF {
            self.rom_banks.bank_count() >= 1
        } else if 0x4000 <= address && address <= 0x5FFF && value <= 0x03 {
            match &self.ram_banks {
                Some(ram) => ram.bank_count() >= 1,
                None => true,
            }
        } else if 0xA000 <= address && address <= 0xBFFF {
            match (&self.ram_banks, self.write_mapping) {
                (Some(ram), WriteMapping::Enabled(n)) => n > 0x03 || ram.active_bank_present(),
                _ => true,
            }
        } else {
            true
        }
    }
}

impl AddressMapper for MBC3 {
    /// A read can be served in the two windows that can be read, where the
    /// bank that it would reach is there.
    open spec fn can_read(&self, address: u16) -> bool {
        &&& self.wf()
        &&& address <= 0x7FFF || 0xA000 <= address <= 0xBFFF
        &&& address <= 0x3FFF ==> self@.rom.active_present()
        &&& 0xA000 <= address <= 0xBFFF && self.bank_or_rtc_select <= 0x03
            && self.ram_banks.is_some() ==> self@.ram.unwrap().active_present()
    }

    /// A write can be served where the store that it would select a bank
    /// of has a bank, and the RAM bank that it would reach is there.
    open spec fn can_write(&self, address: u16, value: u8) -> bool {
        &&& self.wf()
        &&& 0x2000 <= address <= 0x3FFF ==> self.rom_banks.banks.len() >= 1
        &&& 0x4000 <= address <= 0x5FFF && value <= 0x03 && self.ram_banks.is_some()
            ==> self.ram_banks.unwrap().banks.len() >= 1
        &&& 0xA000 <= address <= 0xBFFF && self@.ram_selected() && self.ram_banks.is_some()
            ==> self@.ram.unwrap().active_present()
    }

    open spec fn read_from(state: Mbc3View, address: u16) -> Result<u8, BankError> {
        state.read_result(address)
    }

    open spec fn write_to(state: Mbc3View, address: u16, value: u8) -> Mbc3View {
        state.written(address, value)
    }

    fn read(&self, address: u16) -> (out: Result<u8, BankError>) {
        if address <= 0x7FFF {
            self.rom_banks.read(address)
        } else {
            match &self.ram_banks {
                Some(ram) => {
                    if self.bank_or_rtc_select <= 0x03 {
                        return ram.read(address - RAM_WINDOW_START);
                    }
                },
                None => {},
            }
            if self.rtc {
                Ok(self.clock_registers[self.active_clock_register])
            } else {
                Err(BankError::AddressOutOfRange(address as usize))
            }
        }
    }

    fn write(&mut self, address: u16, value: u8)
        ensures
            final(self).wf(),
    {
        if address <= 0x1FFF {
            if value == 0x00 {
                self.write_mapping = WriteMapping::Disabled;
            } else if value == 0x0A {
                self.write_mapping = WriteMapping::Enabled(0xFF);
            }
        } else if address <= 0x3FFF {
            let bank: u8 = if value & 0x7F == 0 {
                0x01
            } else {
                value & 0x7F
            };
            self.rom_banks.swap_bank(bank as u16);
        } else if address <= 0x5FFF {
            if value <= 0x03 {
                match &mut self.ram_banks {
                    Some(ram) => {
                        ram.swap_bank(value as u16);
                        self.write_mapping = WriteMapping::Enabled(value as usize);
                    },
                    None => {},
                }
            } else if 0x08 <= value && value <= 0x0C {
                if self.rtc {
                    self.active_clock_register = (value - 0x08) as usize;
                    self.write_mapping = WriteMapping::Enabled(value as usize);
                }
            }
        } else if address <= 0x7FFF {
            if self.rtc && value == 0x01 {
                self.latched_clock_registers = self.clock_registers;
            }
        } else if 0xA000 <= address && address <= 0xBFFF {
            match self.write_mapping {
                WriteMapping::Enabled(n) => {
                    if n <= 0x03 {
                        match &mut self.ram_banks {
                            Some(ram) => {
                                let _ = ram.write(address - RAM_WINDOW_START, value);
                            },
                            None => {},
                        }
                    } else if 0x08 <= n && n <= 0x0C {
                        if self.rtc {
                            self.clock_registers[self.active_clock_register] = value;
                        }
                    }
                },
                WriteMapping::Disabled => {},
            }
        }
    }
}

} // verus!
