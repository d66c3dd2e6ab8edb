use gb_emulator::cartridge::banks::ram::RamBanks;
use gb_emulator::cartridge::banks::rom::{power_of_two, RomBanks};
use gb_emulator::cartridge::banks::{filled, filled_banks, select_bank, Bank, BankError};

#[test]
fn rom_has_two_to_the_size_byte_banks() {
    for n in 0..=8u8 {
        let rom = RomBanks::new(n).unwrap();
        assert_eq!(rom.banks.len(), 1usize << n);
        assert_eq!(rom.bank_count(), 1usize << n);
        assert_eq!(power_of_two(n), 1usize << n);
        assert_eq!(rom.active_bank, 1);
        for bank in rom.banks.iter() {
            assert_eq!(bank.len(), 16384);
            assert!(bank.iter().all(|byte| *byte == 0));
        }
    }
}

#[test]
fn rom_refuses_a_size_byte_above_eight() {
    for n in [9u8, 10, 0x52, 0xFF] {
        assert_eq!(RomBanks::new(n).err(), Some(BankError::InvalidSize(n)));
    }
}

#[test]
fn ram_has_the_banks_of_the_table() {
    let table = [
        (0x00u8, 0usize, 0u8),
        (0x01, 0, 0),
        (0x02, 1, 1),
        (0x03, 4, 1),
        (0x04, 16, 1),
        (0x05, 8, 1),
    ];
    for (size, count, active) in table {
        let ram = RamBanks::new(size).unwrap();
        assert_eq!(ram.banks.len(), count);
        assert_eq!(ram.bank_count(), count);
        assert_eq!(ram.active_bank, active);
        for bank in ram.banks.iter() {
            assert_eq!(bank.len(), 8192);
            assert!(bank.iter().all(|byte| *byte == 0));
        }
    }
}

#[test]
fn ram_refuses_a_size_byte_above_five() {
    for n in [6u8, 7, 0x80, 0xFF] {
        assert_eq!(RamBanks::new(n).err(), Some(BankError::InvalidSize(n)));
    }
}

#[test]
fn an_image_is_cut_into_banks() {
    let mut data = vec![0u8; 0xC000];
    for i in 0..data.len() {
        data[i] = (i / 0x4000) as u8 * 0x10 + (i % 7) as u8;
    }
    let rom = RomBanks::from(&data);
    assert_eq!(rom.banks.len(), 3);
    assert_eq!(rom.active_bank, 1);
    for b in 0..3 {
        assert_eq!(rom.banks[b][..], data[b * 0x4000..(b + 1) * 0x4000]);
    }
    assert_eq!(rom.read(0x0000), Ok(data[0x4000]));
    assert_eq!(rom.read(0x3FFF), Ok(data[0x7FFF]));
}

#[test]
fn rom_reads_the_mapped_bank_within_its_window() {
    let mut rom = RomBanks::new(2).unwrap();
    rom.banks[1][0x0123] = 0xAA;
    rom.banks[2][0x0123] = 0xBB;
    assert!(rom.active_bank_present());
    assert_eq!(rom.read(0x0123), Ok(0xAA));
    rom.swap_bank(2);
    assert_eq!(rom.read(0x0123), Ok(0xBB));
    assert_eq!(rom.read(0x3FFF), Ok(0x00));
    assert_eq!(rom.read(0x4000), Err(BankError::AddressOutOfRange(0x4000)));
    assert_eq!(rom.read(0xFFFF), Err(BankError::AddressOutOfRange(0xFFFF)));
}

#[test]
fn a_bank_out_of_range_is_wrapped_by_the_mask() {
    let mut rom = RomBanks::new(2).unwrap();
    rom.swap_bank(0);
    assert_eq!(rom.active_bank, 0);
    rom.swap_bank(3);
    assert_eq!(rom.active_bank, 3);
    rom.swap_bank(4);
    assert_eq!(rom.active_bank, 4);
    assert!(!rom.active_bank_present());
    rom.swap_bank(5);
    assert_eq!(rom.active_bank, 1);
    rom.swap_bank(0x7F);
    assert_eq!(rom.active_bank, 3);
    assert_eq!(select_bank(0x7F, 4), 3);
    assert_eq!(select_bank(0, 4), 0);
    assert_eq!(select_bank(4, 4), 4);
    assert_eq!(select_bank(6, 3), 2);
    assert_eq!(select_bank(0x1234, 256), 0x34);
}

#[test]
fn ram_reads_what_was_written_to_the_mapped_bank() {
    let mut ram = RamBanks::new(3).unwrap();
    assert_eq!(ram.write(0x0000, 0x11), Ok(()));
    assert_eq!(ram.write(0x1FFF, 0x22), Ok(()));
    assert_eq!(ram.read(0x0000), Ok(0x11));
    assert_eq!(ram.read(0x1FFF), Ok(0x22));
    assert_eq!(ram.banks[1][0x0000], 0x11);
    assert_eq!(ram.banks[0][0x0000], 0x00);
    ram.swap_bank(2);
    assert_eq!(ram.active_bank, 2);
    assert_eq!(ram.read(0x0000), Ok(0x00));
    assert_eq!(ram.write(0x0000, 0x33), Ok(()));
    ram.swap_bank(1);
    assert_eq!(ram.read(0x0000), Ok(0x11));
    assert_eq!(ram.banks[2][0x0000], 0x33);
}

#[test]
fn ram_refuses_an_address_outside_its_window() {
    let mut ram = RamBanks::new(3).unwrap();
    assert_eq!(ram.read(0x2000), Err(BankError::AddressOutOfRange(0x2000)));
    assert_eq!(ram.write(0x2000, 0x01), Err(BankError::AddressOutOfRange(0x2000)));
    assert_eq!(ram.read(0xA000), Err(BankError::AddressOutOfRange(0xA000)));
    assert!(ram.banks.iter().all(|bank| bank.iter().all(|byte| *byte == 0)));
}

#[test]
fn ram_wraps_a_bank_out_of_range() {
    let mut ram = RamBanks::new(5).unwrap();
    ram.swap_bank(0);
    assert_eq!(ram.active_bank, 0);
    ram.swap_bank(7);
    assert_eq!(ram.active_bank, 7);
    ram.swap_bank(9);
    assert_eq!(ram.active_bank, 1);
    ram.swap_bank(8);
    assert_eq!(ram.active_bank, 8);
    assert!(!ram.active_bank_present());
    let mut single = RamBanks::new(2).unwrap();
    assert!(!single.active_bank_present());
    single.swap_bank(0);
    assert!(single.active_bank_present());
    assert_eq!(single.write(0x0010, 0x5A), Ok(()));
    assert_eq!(single.read(0x0010), Ok(0x5A));
}

#[test]
fn buffers_are_filled_with_one_byte() {
    assert_eq!(filled(0, 0xFF), Vec::<u8>::new());
    assert_eq!(filled(3, 0xFF), vec![0xFF, 0xFF, 0xFF]);
    assert_eq!(filled_banks(2, 2, 0x07), vec![vec![0x07, 0x07], vec![0x07, 0x07]]);
    assert_eq!(filled_banks(0, 8, 0x07), Vec::<Vec<u8>>::new());
}
