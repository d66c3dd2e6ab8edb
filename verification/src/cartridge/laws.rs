//! What holds of the checksums and of the controller, whatever the image.

use vstd::prelude::*;
use vstd::arithmetic::power2::{lemma2_to64, pow2};
use crate::cartridge::banks::rom::rom_bank_count;
use crate::cartridge::banks::{selected_bank, BankView};
use crate::cartridge::header::{
    byte_sum, global_checksum_of, header_checksum_of, image_fault, stored_global_checksum,
    stored_header_checksum, valid_length, CartridgeError, CartridgeHeader,
};
use crate::cartridge::mbc::mbc3::{
    type_has_battery, type_has_ram, type_has_rtc, Mbc3View, WriteMapping, MBC3,
};
use crate::cartridge::{controller_fits, type_supported};
use crate::cpu::alu::{low16, low8};
use crate::memory::{high_byte, low_byte, word_of};

verus! {

/// A sum of bytes does not see a byte outside its range.
pub proof fn lemma_byte_sum_outside(data: Seq<u8>, from: int, to: int, at: int, byte: u8)
    requires
        0 <= from <= to <= data.len(),
        0 <= at < data.len(),
        at < from || to <= at,
    ensures
        byte_sum(data.update(at, byte), from, to) == byte_sum(data, from, to),
    decreases to - from,
{
    if from < to {
        lemma_byte_sum_outside(data, from, to - 1, at, byte);
    }
}

/// A sum of bytes moves with a byte inside its range by as much as the
/// byte moves.
pub proof fn lemma_byte_sum_inside(data: Seq<u8>, from: int, to: int, at: int, byte: u8)
    requires
        0 <= from <= at < to <= data.len(),
    ensures
        byte_sum(data.update(at, byte), from, to) == byte_sum(data, from, to) + byte - data[at],
    decreases to - from,
{
    if at == to - 1 {
        lemma_byte_sum_outside(data, from, to - 1, at, byte);
    } else {
        lemma_byte_sum_inside(data, from, to - 1, at, byte);
    }
}

/// Writing the header checksum that an image gives to its place makes the
/// image name the checksum that it gives.
pub proof fn lemma_header_checksum_round_trip(data: Seq<u8>)
    requires
        data.len() >= 0x150,
    ensures
        ({
            let sealed = data.update(0x14D, header_checksum_of(data));
            header_checksum_of(sealed) == stored_header_checksum(sealed)
        }),
{
    lemma_byte_sum_outside(data, 0x134, 0x14D, 0x14D, header_checksum_of(data));
}

/// Changing one of the bytes that the header checksum covers, and nothing
/// else, changes the checksum that the image gives: an image that named
/// its checksum no longer does.
pub proof fn lemma_header_checksum_detects(data: Seq<u8>, at: int, byte: u8)
    requires
        data.len() >= 0x150,
        0x134 <= at <= 0x14C,
        byte != data[at],
        header_checksum_of(data) == stored_header_checksum(data),
    ensures
        ({
            let spoiled = data.update(at, byte);
            header_checksum_of(spoiled) != stored_header_checksum(spoiled)
        }),
{
    reveal(low8);
    lemma_byte_sum_inside(data, 0x134, 0x14D, at, byte);
}

/// Writing the global checksum that an image gives to its place, high byte
/// first, makes the image name the checksum that it gives.
pub proof fn lemma_global_checksum_round_trip(data: Seq<u8>)
    requires
        data.len() >= 0x150,
    ensures
        ({
            let sum = global_checksum_of(data);
            let sealed = data.update(0x14E, high_byte(sum)).update(0x14F, low_byte(sum));
            global_checksum_of(sealed) == stored_global_checksum(sealed)
        }),
{
    let sum = global_checksum_of(data);
    let first = data.update(0x14E, high_byte(sum));
    let sealed = first.update(0x14F, low_byte(sum));
    lemma_byte_sum_inside(data, 0, data.len() as int, 0x14E, high_byte(sum));
    lemma_byte_sum_inside(first, 0, data.len() as int, 0x14F, low_byte(sum));
    reveal(word_of);
    reveal(high_byte);
    reveal(low_byte);
}

/// Changing a byte other than the two of the global checksum, and nothing
/// else, changes the checksum that the image gives: an image that named
/// its checksum no longer does.
pub proof fn lemma_global_checksum_detects(data: Seq<u8>, at: int, byte: u8)
    requires
        data.len() >= 0x150,
        0 <= at < data.len(),
        at != 0x14E,
        at != 0x14F,
        byte != data[at],
        global_checksum_of(data) == stored_global_checksum(data),
    ensures
        ({
            let spoiled = data.update(at, byte);
            global_checksum_of(spoiled) != stored_global_checksum(spoiled)
        }),
{
    reveal(low16);
    lemma_byte_sum_inside(data, 0, data.len() as int, at, byte);
}

/// An image with its two checksums written to their places, the header
/// checksum first: the checksums that the image gives once it names them.
pub open spec fn sealed(data: Seq<u8>) -> Seq<u8> {
    let with_header = data.update(0x14D, header_checksum_of(data));
    let sum = global_checksum_of(with_header);
    with_header.update(0x14E, high_byte(sum)).update(0x14F, low_byte(sum))
}

/// An image of a length that an image can have is sound once its two
/// checksums are written to their places.
pub proof fn lemma_sealed_image_is_sound(data: Seq<u8>)
    requires
        valid_length(data.len()),
    ensures
        image_fault(sealed(data)).is_none(),
{
    let with_header = data.update(0x14D, header_checksum_of(data));
    let sum = global_checksum_of(with_header);
    let first = with_header.update(0x14E, high_byte(sum));
    let last = first.update(0x14F, low_byte(sum));
    lemma_header_checksum_round_trip(data);
    lemma_global_checksum_round_trip(with_header);
    lemma_byte_sum_outside(with_header, 0x134, 0x14D, 0x14E, high_byte(sum));
    lemma_byte_sum_outside(first, 0x134, 0x14D, 0x14F, low_byte(sum));
    assert(last == sealed(data));
}

/// A sound image in which one of the bytes that the header checksum covers
/// is changed, and nothing else, is refused for its header checksum.
pub proof fn lemma_spoiled_header_is_refused(data: Seq<u8>, at: int, byte: u8)
    requires
        image_fault(data).is_none(),
        0x134 <= at <= 0x14C,
        byte != data[at],
    ensures
        image_fault(data.update(at, byte)) == Some(
            CartridgeError::InvalidHeaderChecksum {
                expected: stored_header_checksum(data),
                actual: header_checksum_of(data.update(at, byte)),
            },
        ),
{
    lemma_header_checksum_detects(data, at, byte);
}

/// A sound image in which one byte other than the two of the global
/// checksum is changed, and nothing else, is refused.
pub proof fn lemma_spoiled_image_is_refused(data: Seq<u8>, at: int, byte: u8)
    requires
        image_fault(data).is_none(),
        0 <= at < data.len(),
        at != 0x14E,
        at != 0x14F,
        byte != data[at],
    ensures
        image_fault(data.update(at, byte)).is_some(),
{
    lemma_global_checksum_detects(data, at, byte);
}

/// The number of ROM banks that a size byte of at most eight asks for is
/// two to the power of that byte.
pub proof fn lemma_rom_bank_count_is_power_of_two(rom_size_byte: u8)
    requires
        rom_size_byte <= 8,
    ensures
        rom_bank_count(rom_size_byte) == pow2(rom_size_byte as nat),
{
    lemma2_to64();
}

/// Where the number of banks is two to the power of a size byte of at most
/// eight, a request for no bank, or for a bank beyond the last, ends in
/// the remainder of the request by the number of banks.
pub proof fn lemma_selection_wraps(requested: u16, rom_size_byte: u8)
    requires
        rom_size_byte <= 8,
        requested < 1 || requested > rom_bank_count(rom_size_byte),
    ensures
        selected_bank(requested, rom_bank_count(rom_size_byte) as usize) == requested
            % (rom_bank_count(rom_size_byte) as u16),
{
    crate::cartridge::banks::lemma_mask_is_remainder(requested);
}

/// A write of `0x00` below `0x2000` closes the switch, and a write of `0x0A`
/// there opens it again, whatever it was before.
pub proof fn lemma_switch_closes_and_opens(state: Mbc3View, first: u16, second: u16)
    requires
        first <= 0x1FFF,
        second <= 0x1FFF,
    ensures
        state.written(first, 0x00).write_mapping == WriteMapping::Disabled,
        state.written(first, 0x00).written(second, 0x0A).write_mapping == WriteMapping::Enabled(
            0xFF,
        ),
{
}

/// While the switch is closed, a write to the window onto RAM and the clock
/// is dropped: nothing of the controller changes.
pub proof fn lemma_closed_switch_drops_write(state: Mbc3View, address: u16, value: u8)
    requires
        state.write_mapping == WriteMapping::Disabled,
        0xA000 <= address <= 0xBFFF,
    ensures
        state.written(address, value) == state,
{
}

/// Once a RAM bank is selected by a write between `0x4000` and `0x5FFF`, a
/// write to the window changes one byte of that bank and nothing else: the
/// byte at the offset of the address in the window.
pub proof fn lemma_selected_bank_takes_write(
    state: Mbc3View,
    select: u16,
    bank: u8,
    address: u16,
    value: u8,
)
    requires
        0x4000 <= select <= 0x5FFF,
        1 <= bank <= 3,
        0xA000 <= address <= 0xBFFF,
        state.ram matches Some(ram) && bank < ram.banks.len() <= 16,
    ensures
        ({
            let chosen = state.written(select, bank);
            let after = chosen.written(address, value);
            let before = chosen.ram.unwrap();
            &&& before == state.ram.unwrap().with_active(bank as int)
            &&& after == Mbc3View { ram: after.ram, ..chosen }
            &&& after.ram == Some(
                BankView {
                    active: bank as int,
                    banks: before.banks.update(
                        bank as int,
                        before.banks[bank as int].update(address - 0xA000, value),
                    ),
                },
            )
        }),
{
}

/// Whatever the header and the image, a controller starts with its switch
/// closed, nothing selected and its ten clock registers at zero, and it has
/// RAM, a battery and a clock exactly as the cartridge type says.
pub proof fn lemma_controller_starts_as_its_type_says(header: CartridgeHeader, data: Seq<u8>)
    ensures
        ({
            let start = MBC3::initial(header, data);
            &&& start.write_mapping == WriteMapping::Disabled
            &&& start.bank_or_rtc_select == 0
            &&& start.active_clock_register == 0
            &&& start.clock_registers.len() == 5
            &&& start.latched_clock_registers.len() == 5
            &&& forall|i: int| 0 <= i < 5 ==> start.clock_registers[i] == 0
            &&& forall|i: int| 0 <= i < 5 ==> start.latched_clock_registers[i] == 0
            &&& start.rom.active == 1
            &&& start.ram.is_some() == type_has_ram(header.cartridge_type)
            &&& start.battery == type_has_battery(header.cartridge_type)
            &&& start.rtc == type_has_rtc(header.cartridge_type)
            &&& start.save_file().is_some() == (header.cartridge_type == 0x10
                || header.cartridge_type == 0x13)
        }),
{
}

/// A sound image of any type outside the family of the controller can be
/// loaded all the same, and the controller that it gets has no RAM, no
/// battery, no clock and no save file.
pub proof fn lemma_unsupported_type_still_loads(header: CartridgeHeader, data: Seq<u8>)
    requires
        image_fault(data).is_none(),
        header.describes(data),
        !type_supported(header.cartridge_type),
    ensures
        controller_fits(data),
        ({
            let start = MBC3::initial(header, data);
            &&& start.ram.is_none()
            &&& !start.battery
            &&& !start.rtc
            &&& start.save_file().is_none()
            &&& start.write_mapping == WriteMapping::Disabled
        }),
{
}

/// An image whose cartridge type has no RAM can always be handed to the
/// loader, sound or not.
pub proof fn lemma_type_without_ram_fits(data: Seq<u8>)
    requires
        !type_has_ram(data[0x147]),
    ensures
        controller_fits(data),
{
}

} // verus!
