use gb_emulator::cartridge::banks::BankError;
use gb_emulator::cartridge::header::{CartridgeError, CartridgeHeader, NINTENDO_LOGO};
use gb_emulator::cartridge::mbc::mbc3::{WriteMapping, MBC3};
use gb_emulator::cartridge::mbc::AddressMapper;
use gb_emulator::cartridge::{load_cartridge, Cartridge};

fn seal(data: &mut Vec<u8>) {
    let mut header = 0u8;
    for i in 0x134..0x14D {
        header = header.wrapping_sub(data[i]).wrapping_sub(1);
    }
    data[0x14D] = header;
    let mut global = 0u16;
    for i in 0..data.len() {
        if i != 0x14E && i != 0x14F {
            global = global.wrapping_add(data[i] as u16);
        }
    }
    data[0x14E] = (global >> 8) as u8;
    data[0x14F] = (global & 0xFF) as u8;
}

fn image_of(len: usize, cartridge_type: u8, rom_size: u8, ram_size: u8) -> Vec<u8> {
    let mut data = vec![0u8; len];
    for i in 0..48 {
        data[0x104 + i] = NINTENDO_LOGO[i];
    }
    data[0x147] = cartridge_type;
    data[0x148] = rom_size;
    data[0x149] = ram_size;
    seal(&mut data);
    data
}

fn image(cartridge_type: u8, rom_size: u8, ram_size: u8) -> Vec<u8> {
    image_of(0x8000, cartridge_type, rom_size, ram_size)
}

fn controller(cartridge_type: u8, rom_size: u8, ram_size: u8) -> MBC3 {
    let data = image(cartridge_type, rom_size, ram_size);
    let header = CartridgeHeader::new(&data).unwrap();
    MBC3::new(&header, &data)
}

fn setup() -> MBC3 {
    let data = image(0x13, 0x02, 0x03);
    let cartridge = match Cartridge::new(&data) {
        Ok(cartridge) => cartridge,
        Err(err) => panic!("Error loading cartridge: {:?}", err),
    };
    MBC3::new(&cartridge.header, &data)
}

#[test]
fn read_no_mapping() {
    let mbc = setup();
    assert_eq!(mbc.write_mapping, WriteMapping::Disabled);
}

#[test]
fn it_works() {
    let data = image(0x13, 0x02, 0x03);
    let cartridge = match load_cartridge(&data) {
        Ok(cartridge) => cartridge,
        Err(err) => panic!("Error loading cartridge: {:?}", err),
    };
    println!("{:?}", cartridge.header);
    println!("{:?}", cartridge.mbc);
    assert_eq!(1, 1)
}

#[test]
fn a_controller_starts_closed_with_its_clock_at_zero() {
    let mbc = controller(0x13, 0x01, 0x03);
    assert_eq!(mbc.write_mapping, WriteMapping::Disabled);
    assert_eq!(mbc.bank_or_rtc_select, 0);
    assert_eq!(mbc.clock_registers, [0; 5]);
    assert_eq!(mbc.latched_clock_registers, [0; 5]);
    assert_eq!(mbc.active_clock_register, 0);
    assert_eq!(mbc.rom_banks.banks.len(), 2);
    assert_eq!(mbc.rom_banks.active_bank, 1);
    assert_eq!(mbc.ram_banks.as_ref().unwrap().banks.len(), 4);
}

#[test]
fn the_cartridge_type_says_what_the_controller_has() {
    let table = [
        (0x00u8, false, false, false),
        (0x0F, false, true, false),
        (0x10, true, true, true),
        (0x11, false, false, false),
        (0x12, true, false, false),
        (0x13, true, true, true),
        (0x1B, false, false, false),
    ];
    for (cartridge_type, ram, battery, rtc) in table {
        let mbc = controller(cartridge_type, 0x00, 0x02);
        assert_eq!(mbc.ram_banks.is_some(), ram);
        assert_eq!(mbc.battery, battery);
        assert_eq!(mbc.rtc, rtc);
    }
}

#[test]
fn a_rom_size_byte_that_does_not_fit_takes_the_image_itself() {
    for rom_size in [0x00u8, 0x02, 0x08, 0x09, 0x52] {
        let mut data = image(0x11, rom_size, 0x00);
        data[0x4000] = 0xA5;
        data[0x7FFF] = 0x5A;
        seal(&mut data);
        let header = CartridgeHeader::new(&data).unwrap();
        let mbc = MBC3::new(&header, &data);
        assert_eq!(mbc.rom_banks.banks.len(), 2);
        assert_eq!(mbc.rom_banks.active_bank, 1);
        assert_eq!(mbc.rom_banks.banks[0][..], data[..0x4000]);
        assert_eq!(mbc.rom_banks.banks[1][..], data[0x4000..]);
        assert_eq!(mbc.read(0x0000), Ok(0xA5));
        assert_eq!(mbc.read(0x3FFF), Ok(0x5A));
    }
}

#[test]
fn a_rom_size_byte_that_fits_gives_zeroed_banks() {
    let mut data = image(0x11, 0x01, 0x00);
    data[0x4000] = 0xA5;
    seal(&mut data);
    let header = CartridgeHeader::new(&data).unwrap();
    let mbc = MBC3::new(&header, &data);
    assert_eq!(mbc.rom_banks.banks.len(), 2);
    assert!(mbc.rom_banks.banks.iter().all(|bank| bank.iter().all(|byte| *byte == 0)));
    let data = image_of(0x20000, 0x11, 0x03, 0x00);
    let header = CartridgeHeader::new(&data).unwrap();
    let mbc = MBC3::new(&header, &data);
    assert_eq!(mbc.rom_banks.banks.len(), 8);
    assert!(mbc.rom_banks.banks.iter().all(|bank| bank.iter().all(|byte| *byte == 0)));
}

#[test]
fn the_switch_closes_on_00_and_opens_on_0a() {
    let mut mbc = controller(0x13, 0x02, 0x03);
    mbc.write(0x0000, 0x0A);
    assert_eq!(mbc.write_mapping, WriteMapping::Enabled(0xFF));
    mbc.write(0x1FFF, 0x00);
    assert_eq!(mbc.write_mapping, WriteMapping::Disabled);
    mbc.write(0x1000, 0x0A);
    assert_eq!(mbc.write_mapping, WriteMapping::Enabled(0xFF));
    mbc.write(0x1000, 0x55);
    assert_eq!(mbc.write_mapping, WriteMapping::Enabled(0xFF));
}

#[test]
fn a_write_to_ram_is_dropped_while_the_switch_is_closed() {
    let mut mbc = controller(0x13, 0x02, 0x03);
    mbc.write(0x0000, 0x00);
    assert!(mbc.writable(0xA000, 0x77));
    mbc.write(0xA000, 0x77);
    mbc.write(0xBFFF, 0x77);
    let ram = mbc.ram_banks.as_ref().unwrap();
    assert!(ram.banks.iter().all(|bank| bank.iter().all(|byte| *byte == 0)));
    assert_eq!(mbc.clock_registers, [0; 5]);
    assert_eq!(mbc.write_mapping, WriteMapping::Disabled);
}

#[test]
fn a_write_to_ram_is_dropped_while_nothing_is_selected() {
    let mut mbc = controller(0x13, 0x02, 0x03);
    mbc.write(0x0000, 0x0A);
    mbc.write(0xA000, 0x77);
    let ram = mbc.ram_banks.as_ref().unwrap();
    assert!(ram.banks.iter().all(|bank| bank.iter().all(|byte| *byte == 0)));
    assert_eq!(mbc.clock_registers, [0; 5]);
}

#[test]
fn a_write_goes_to_the_selected_ram_bank_only() {
    let mut mbc = controller(0x13, 0x02, 0x03);
    mbc.write(0x0000, 0x00);
    mbc.write(0x0000, 0x0A);
    mbc.write(0x4000, 0x02);
    assert_eq!(mbc.write_mapping, WriteMapping::Enabled(0x02));
    assert_eq!(mbc.ram_banks.as_ref().unwrap().active_bank, 2);
    assert!(mbc.writable(0xA000, 0x99));
    mbc.write(0xA000, 0x99);
    let ram = mbc.ram_banks.as_ref().unwrap();
    for (b, bank) in ram.banks.iter().enumerate() {
        for (i, byte) in bank.iter().enumerate() {
            if b == 2 && i == 0 {
                assert_eq!(*byte, 0x99);
            } else {
                assert_eq!(*byte, 0x00);
            }
        }
    }
    assert!(mbc.readable(0xA000));
    assert_eq!(mbc.read(0xA000), Ok(0x99));
    assert_eq!(mbc.read(0xA001), Ok(0x00));
    mbc.write(0xBFFF, 0x42);
    assert_eq!(mbc.ram_banks.as_ref().unwrap().banks[2][0x1FFF], 0x42);
    assert_eq!(mbc.read(0xBFFF), Ok(0x42));
}

#[test]
fn a_rom_bank_is_selected_by_the_low_seven_bits() {
    let data = image_of(0x20000, 0x13, 0x03, 0x03);
    let header = CartridgeHeader::new(&data).unwrap();
    let mut mbc = MBC3::new(&header, &data);
    assert_eq!(mbc.rom_banks.banks.len(), 8);
    mbc.rom_banks.banks[1][0x0010] = 0x01;
    mbc.rom_banks.banks[5][0x0010] = 0x05;
    assert_eq!(mbc.read(0x0010), Ok(0x01));
    mbc.write(0x2000, 0x05);
    assert_eq!(mbc.rom_banks.active_bank, 5);
    assert_eq!(mbc.read(0x0010), Ok(0x05));
    mbc.write(0x3FFF, 0x00);
    assert_eq!(mbc.rom_banks.active_bank, 1);
    mbc.write(0x2000, 0x80);
    assert_eq!(mbc.rom_banks.active_bank, 1);
    mbc.write(0x2000, 0x85);
    assert_eq!(mbc.rom_banks.active_bank, 5);
    mbc.write(0x2000, 0x7F);
    assert_eq!(mbc.rom_banks.active_bank, 7);
    mbc.write(0x2000, 0x08);
    assert_eq!(mbc.rom_banks.active_bank, 8);
    assert!(!mbc.readable(0x0000));
    assert!(mbc.readable(0x4000));
}

#[test]
fn the_rom_window_is_served_up_to_3fff() {
    let mbc = controller(0x13, 0x02, 0x03);
    assert_eq!(mbc.read(0x0000), Ok(0x00));
    assert_eq!(mbc.read(0x3FFF), Ok(0x00));
    assert_eq!(mbc.read(0x4000), Err(BankError::AddressOutOfRange(0x4000)));
    assert_eq!(mbc.read(0x7FFF), Err(BankError::AddressOutOfRange(0x7FFF)));
    assert!(!mbc.readable(0x8000));
    assert!(!mbc.readable(0x9FFF));
    assert!(!mbc.readable(0xC000));
}

#[test]
fn a_clock_register_is_selected_written_and_latched() {
    let mut mbc = controller(0x10, 0x02, 0x03);
    mbc.write(0x0000, 0x0A);
    mbc.write(0x4000, 0x0A);
    assert_eq!(mbc.write_mapping, WriteMapping::Enabled(0x0A));
    assert_eq!(mbc.active_clock_register, 2);
    mbc.write(0xA000, 0x17);
    assert_eq!(mbc.clock_registers, [0, 0, 0x17, 0, 0]);
    assert_eq!(mbc.latched_clock_registers, [0; 5]);
    mbc.write(0x6000, 0x00);
    assert_eq!(mbc.latched_clock_registers, [0; 5]);
    mbc.write(0x6000, 0x01);
    assert_eq!(mbc.latched_clock_registers, [0, 0, 0x17, 0, 0]);
    mbc.write(0x5FFF, 0x0C);
    assert_eq!(mbc.active_clock_register, 4);
    mbc.write(0xB000, 0x01);
    assert_eq!(mbc.clock_registers, [0, 0, 0x17, 0, 0x01]);
    assert_eq!(mbc.latched_clock_registers, [0, 0, 0x17, 0, 0]);
    let ram = mbc.ram_banks.as_ref().unwrap();
    assert!(ram.banks.iter().all(|bank| bank.iter().all(|byte| *byte == 0)));
}

#[test]
fn a_select_of_what_is_not_there_is_dropped() {
    let mut without_clock = controller(0x12, 0x02, 0x03);
    without_clock.write(0x0000, 0x0A);
    without_clock.write(0x4000, 0x08);
    assert_eq!(without_clock.write_mapping, WriteMapping::Enabled(0xFF));
    without_clock.write(0x6000, 0x01);
    without_clock.write(0x4000, 0x04);
    without_clock.write(0x4000, 0x0D);
    assert_eq!(without_clock.write_mapping, WriteMapping::Enabled(0xFF));
    let mut without_ram = controller(0x0F, 0x02, 0x03);
    without_ram.write(0x0000, 0x0A);
    without_ram.write(0x4000, 0x01);
    assert_eq!(without_ram.write_mapping, WriteMapping::Enabled(0xFF));
    assert!(without_ram.ram_banks.is_none());
    assert_eq!(without_ram.read(0xA000), Err(BankError::AddressOutOfRange(0xA000)));
}

#[test]
fn writes_outside_every_window_are_dropped() {
    let mut mbc = controller(0x13, 0x02, 0x03);
    mbc.write(0x0000, 0x0A);
    mbc.write(0x4000, 0x01);
    mbc.write(0x8000, 0x12);
    mbc.write(0x9FFF, 0x12);
    mbc.write(0xC000, 0x12);
    mbc.write(0xFFFF, 0x12);
    assert_eq!(mbc.write_mapping, WriteMapping::Enabled(0x01));
    let ram = mbc.ram_banks.as_ref().unwrap();
    assert!(ram.banks.iter().all(|bank| bank.iter().all(|byte| *byte == 0)));
    assert_eq!(mbc.rom_banks.active_bank, 1);
}

#[test]
fn a_save_file_holds_each_ram_bank() {
    let mut mbc = controller(0x13, 0x02, 0x03);
    mbc.write(0x0000, 0x0A);
    mbc.write(0x4000, 0x03);
    mbc.write(0xA123, 0x7E);
    let save = mbc.generate_save_file().unwrap();
    assert_eq!(save.len(), 4);
    for (b, bank) in save.iter().enumerate() {
        assert_eq!(bank.len(), 8192);
        assert_eq!(bank[..], mbc.ram_banks.as_ref().unwrap().banks[b][..]);
    }
    assert_eq!(save[3][0x0123], 0x7E);
}

#[test]
fn there_is_a_save_file_with_a_battery_and_ram_only() {
    assert!(controller(0x10, 0x02, 0x03).generate_save_file().is_some());
    assert!(controller(0x13, 0x02, 0x02).generate_save_file().is_some());
    assert_eq!(controller(0x13, 0x02, 0x00).generate_save_file(), Some(vec![]));
    assert!(controller(0x0F, 0x02, 0x03).generate_save_file().is_none());
    assert!(controller(0x12, 0x02, 0x03).generate_save_file().is_none());
    assert!(controller(0x00, 0x02, 0x03).generate_save_file().is_none());
}

#[test]
fn a_plain_rom_still_gets_the_controller() {
    let data = image(0x00, 0x00, 0x00);
    assert!(!Cartridge::supports(0x00));
    assert!(Cartridge::fits(&data));
    let cartridge = Cartridge::new(&data).unwrap();
    assert_eq!(cartridge.header.cartridge_type, 0x00);
    assert!(!cartridge.mbc.battery);
    assert!(!cartridge.mbc.rtc);
    assert!(cartridge.mbc.ram_banks.is_none());
    assert_eq!(cartridge.mbc.generate_save_file(), None);
}

#[test]
fn the_types_of_the_family_are_0f_to_13() {
    for cartridge_type in 0..=255u8 {
        assert_eq!(Cartridge::supports(cartridge_type), (0x0F..=0x13).contains(&cartridge_type));
    }
}

#[test]
fn an_unsound_image_is_no_cartridge() {
    let short = vec![0u8; 0x4000];
    assert!(matches!(Cartridge::new(&short), Err(CartridgeError::InvalidSize(0x4000))));
    let mut data = image(0x13, 0x02, 0x03);
    data[0x134] = 0x01;
    assert!(matches!(
        load_cartridge(&data),
        Err(CartridgeError::InvalidHeaderChecksum { .. })
    ));
    let mut data = image(0x13, 0x02, 0x03);
    data[0x200] = 0x01;
    assert!(matches!(
        load_cartridge(&data),
        Err(CartridgeError::InvalidGlobalChecksum { .. })
    ));
}

#[test]
fn a_ram_size_byte_that_names_no_size_does_not_fit() {
    assert!(!Cartridge::fits(&image(0x13, 0x02, 0x06)));
    assert!(Cartridge::fits(&image(0x11, 0x02, 0x06)));
    assert!(Cartridge::fits(&image(0x13, 0x02, 0x05)));
    assert!(Cartridge::fits(&vec![0u8; 3]));
}
