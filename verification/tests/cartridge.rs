use gb_emu_common::cartridge::cartridge_type::CartridgeType;
use gb_emu_common::cartridge::header::{
    decode_cartridge_type, decode_rom_title, get_amount_of_ram_banks, get_amount_of_rom_banks,
    Header,
};
use gb_emu_common::cartridge::rom_only::RomOnlyCartridge;
use gb_emu_common::cartridge::{create_cartridge, Cartridge};
use gb_emu_common::error::EmulationError;

fn image(cartridge_type: u8, rom_code: u8, ram_code: u8) -> Vec<u8> {
    let mut rom = vec![0u8; 32768];
    for (i, byte) in b"POCKET GAME".iter().enumerate() {
        rom[0x0134 + i] = *byte;
    }
    rom[0x0147] = cartridge_type;
    rom[0x0148] = rom_code;
    rom[0x0149] = ram_code;
    for (i, byte) in rom.iter_mut().enumerate().skip(0x0200) {
        *byte = (i % 251) as u8;
    }
    rom
}

fn header(cartridge_type: CartridgeType, rom_banks: usize, ram_banks: usize) -> Header {
    Header {
        title: Some(String::from("T")),
        cartridge_type,
        rom_bank_amount: rom_banks,
        ram_bank_amount: ram_banks,
    }
}

#[test]
fn rom_size_codes() {
    assert_eq!(get_amount_of_rom_banks(0x00), Ok(2));
    assert_eq!(get_amount_of_rom_banks(0x01), Ok(4));
    assert_eq!(get_amount_of_rom_banks(0x02), Ok(8));
    assert_eq!(get_amount_of_rom_banks(0x03), Ok(16));
    assert_eq!(get_amount_of_rom_banks(0x04), Ok(32));
    assert_eq!(get_amount_of_rom_banks(0x05), Ok(64));
    assert_eq!(get_amount_of_rom_banks(0x06), Ok(128));
    assert_eq!(get_amount_of_rom_banks(0x07), Ok(256));
    assert_eq!(get_amount_of_rom_banks(0x08), Ok(512));
    assert_eq!(
        get_amount_of_rom_banks(0x09),
        Err(EmulationError::InvalidRomSizeCode { code: 0x09 })
    );
    for code in 0x09..=0xFFu8 {
        assert_eq!(get_amount_of_rom_banks(code), Err(EmulationError::InvalidRomSizeCode { code }));
    }
}

#[test]
fn ram_size_codes() {
    assert_eq!(get_amount_of_ram_banks(0x00), Ok(0));
    assert_eq!(get_amount_of_ram_banks(0x01), Ok(0));
    assert_eq!(get_amount_of_ram_banks(0x02), Ok(1));
    assert_eq!(get_amount_of_ram_banks(0x03), Ok(4));
    assert_eq!(get_amount_of_ram_banks(0x04), Ok(16));
    assert_eq!(get_amount_of_ram_banks(0x05), Ok(8));
    assert_eq!(
        get_amount_of_ram_banks(0x09),
        Err(EmulationError::InvalidRamSizeCode { code: 0x09 })
    );
    for code in 0x06..=0xFFu8 {
        assert_eq!(get_amount_of_ram_banks(code), Err(EmulationError::InvalidRamSizeCode { code }));
    }
}

#[test]
fn cartridge_type_codes() {
    assert_eq!(decode_cartridge_type(0x00), Ok(CartridgeType::RomOnly));
    assert_eq!(decode_cartridge_type(0x01), Ok(CartridgeType::Mbc1));
    assert_eq!(decode_cartridge_type(0x03), Ok(CartridgeType::Mbc1RamBattery));
    assert_eq!(decode_cartridge_type(0x05), Ok(CartridgeType::Mbc2));
    assert_eq!(decode_cartridge_type(0x06), Ok(CartridgeType::Mbc2Battery));
    assert_eq!(decode_cartridge_type(0x08), Ok(CartridgeType::RomRam));
    assert_eq!(decode_cartridge_type(0x09), Ok(CartridgeType::RomRamBattery));
    assert_eq!(decode_cartridge_type(0x0B), Ok(CartridgeType::Mmm01));
    assert_eq!(decode_cartridge_type(0x13), Ok(CartridgeType::Mbc3RamBattery));
    assert_eq!(decode_cartridge_type(0x19), Ok(CartridgeType::Mbc5));
    assert_eq!(decode_cartridge_type(0x20), Ok(CartridgeType::Mbc6));
    assert_eq!(decode_cartridge_type(0x22), Ok(CartridgeType::Mbc7SensorRumbleRamBattery));
    assert_eq!(decode_cartridge_type(0xFC), Ok(CartridgeType::PocketCamera));
    assert_eq!(decode_cartridge_type(0xFF), Ok(CartridgeType::HuC1RamBattery));
    assert_eq!(
        decode_cartridge_type(0x04),
        Err(EmulationError::UnknownCartridgeType { code: 0x04 })
    );
    let mut known = 0;
    for code in 0..=255u8 {
        match CartridgeType::from_code(code) {
            Some(cartridge_type) => {
                known += 1;
                assert_eq!(cartridge_type.to_code(), code);
                assert_eq!(decode_cartridge_type(code), Ok(cartridge_type));
            }
            None => {
                assert_eq!(
                    decode_cartridge_type(code),
                    Err(EmulationError::UnknownCartridgeType { code })
                );
            }
        }
    }
    assert_eq!(known, 28);
}

#[test]
fn cartridge_type_names() {
    assert_eq!(CartridgeType::RomOnly.name(), "ROM only");
    assert_eq!(CartridgeType::Mbc1RamBattery.name(), "MBC1 + RAM + battery");
    assert_eq!(CartridgeType::Mbc3TimerRamBattery.name(), "MBC3 + timer + RAM + battery");
    assert_eq!(CartridgeType::PocketCamera.name(), "Pocket Camera");
    assert_eq!(CartridgeType::HuC1RamBattery.name(), "HuC1 + RAM + battery");
}

#[test]
fn titles_are_text_or_absent() {
    assert_eq!(decode_rom_title(b"TETRIS"), Some(String::from("TETRIS")));
    let padded = b"ZELDA\0\0\0\0\0\0\0\0\0\0\0";
    assert_eq!(decode_rom_title(padded), Some(String::from("ZELDA\0\0\0\0\0\0\0\0\0\0\0")));
    // two bytes that spell one character
    assert_eq!(decode_rom_title(&[0xC3, 0xA9]), Some(String::from("\u{e9}")));
    assert_eq!(decode_rom_title(&[0xC3, 0xA9]).unwrap().chars().count(), 1);
    // a continuation byte without a start, and a start without its continuation
    assert_eq!(decode_rom_title(&[0x80]), None);
    assert_eq!(decode_rom_title(&[0x41, 0xC3]), None);
    assert_eq!(decode_rom_title(&[0xFF, 0xFE]), None);
    assert_eq!(decode_rom_title(&[]), Some(String::new()));
}

#[test]
fn a_header_is_read_from_its_bytes() {
    let header = Header::read_rom_header(&image(0x00, 0x00, 0x00)).unwrap();
    assert_eq!(header.title, Some(String::from("POCKET GAME\0\0\0\0\0")));
    assert_eq!(header.cartridge_type, CartridgeType::RomOnly);
    assert_eq!(header.rom_bank_amount, 2);
    assert_eq!(header.ram_bank_amount, 0);

    let header = Header::read_rom_header(&image(0x1B, 0x05, 0x03)).unwrap();
    assert_eq!(header.cartridge_type, CartridgeType::Mbc5RamBattery);
    assert_eq!(header.rom_bank_amount, 64);
    assert_eq!(header.ram_bank_amount, 4);

    let header = Header::read_rom_header(&image(0x09, 0x00, 0x01)).unwrap();
    assert_eq!(header.ram_bank_amount, 0);
    assert_eq!(header.clone(), header);
}

#[test]
fn a_title_that_is_no_text_is_left_out() {
    let mut rom = image(0x00, 0x00, 0x00);
    rom[0x0134] = 0xFF;
    let header = Header::read_rom_header(&rom).unwrap();
    assert_eq!(header.title, None);
    assert_eq!(header.rom_bank_amount, 2);
}

#[test]
fn a_header_needs_its_bytes() {
    assert_eq!(Header::read_rom_header(&vec![]), Err(EmulationError::InvalidRom));
    assert_eq!(Header::read_rom_header(&vec![0u8; 0x014E]), Err(EmulationError::InvalidRom));
    assert!(Header::read_rom_header(&vec![0u8; 0x014F]).is_ok());
}

#[test]
fn header_errors_come_in_order() {
    assert_eq!(
        Header::read_rom_header(&image(0x04, 0x09, 0x09)),
        Err(EmulationError::UnknownCartridgeType { code: 0x04 })
    );
    assert_eq!(
        Header::read_rom_header(&image(0x00, 0x09, 0x09)),
        Err(EmulationError::InvalidRomSizeCode { code: 0x09 })
    );
    assert_eq!(
        Header::read_rom_header(&image(0x00, 0x00, 0x09)),
        Err(EmulationError::InvalidRamSizeCode { code: 0x09 })
    );
}

#[test]
fn a_cartridge_without_banking_is_two_banks_long() {
    let rom = image(0x00, 0x00, 0x00);
    assert!(RomOnlyCartridge::new(rom.clone(), header(CartridgeType::RomOnly, 2, 0)).is_ok());
    assert!(matches!(
        RomOnlyCartridge::new(rom.clone(), header(CartridgeType::RomOnly, 4, 0)),
        Err(EmulationError::InvalidRom)
    ));
    assert!(matches!(
        RomOnlyCartridge::new(vec![0u8; 32767], header(CartridgeType::RomOnly, 2, 0)),
        Err(EmulationError::InvalidRom)
    ));
    assert!(matches!(
        RomOnlyCartridge::new(vec![0u8; 65536], header(CartridgeType::RomOnly, 2, 0)),
        Err(EmulationError::InvalidRom)
    ));
}

#[test]
fn rom_is_read_by_address_and_never_written() {
    let rom = image(0x00, 0x00, 0x00);
    let mut cartridge = RomOnlyCartridge::new(rom.clone(), header(CartridgeType::RomOnly, 2, 0)).unwrap();
    assert_eq!(cartridge.read_byte_rom(0x0000), Ok(rom[0]));
    assert_eq!(cartridge.read_byte_rom(0x0134), Ok(b'P'));
    assert_eq!(cartridge.read_byte_rom(0x4000), Ok(rom[0x4000]));
    assert_eq!(cartridge.read_byte_rom(0x7FFF), Ok(rom[0x7FFF]));
    assert_eq!(
        cartridge.read_byte_rom(0x8000),
        Err(EmulationError::InvalidMemoryRead { address: 0x8000 })
    );
    assert_eq!(
        cartridge.write_byte_rom(0x0150, 0x12),
        Err(EmulationError::InvalidMemoryWrite { address: 0x0150, value: 0x12 })
    );
    assert_eq!(cartridge.read_byte_rom(0x0150), Ok(rom[0x0150]));
}

#[test]
fn cartridge_ram_is_there_where_the_header_counts_a_bank() {
    let rom = image(0x08, 0x00, 0x02);
    let mut with_ram = RomOnlyCartridge::new(rom.clone(), header(CartridgeType::RomRam, 2, 1)).unwrap();
    assert_eq!(with_ram.read_byte_external_ram(0xA000), Ok(0));
    assert_eq!(with_ram.write_byte_external_ram(0xA000, 0x11), Ok(()));
    assert_eq!(with_ram.write_byte_external_ram(0xBFFF, 0x22), Ok(()));
    assert_eq!(with_ram.read_byte_external_ram(0xA000), Ok(0x11));
    assert_eq!(with_ram.read_byte_external_ram(0xBFFF), Ok(0x22));
    assert_eq!(with_ram.read_byte_external_ram(0xA001), Ok(0));
    let banks = with_ram.get_ram_banks();
    assert_eq!(banks.len(), 1);
    assert_eq!(banks[0][0], 0x11);
    assert_eq!(banks[0][0x1FFF], 0x22);

    let mut without = RomOnlyCartridge::new(rom, header(CartridgeType::RomOnly, 2, 0)).unwrap();
    assert_eq!(
        without.read_byte_external_ram(0xA000),
        Err(EmulationError::InvalidMemoryRead { address: 0xA000 })
    );
    assert_eq!(
        without.write_byte_external_ram(0xA123, 0x33),
        Err(EmulationError::InvalidMemoryWrite { address: 0xA123, value: 0x33 })
    );
    assert!(without.get_ram_banks().is_empty());
}

#[test]
fn only_one_kind_has_a_battery() {
    let rom = image(0x00, 0x00, 0x00);
    let plain = RomOnlyCartridge::new(rom.clone(), header(CartridgeType::RomOnly, 2, 0)).unwrap();
    let ram = RomOnlyCartridge::new(rom.clone(), header(CartridgeType::RomRam, 2, 1)).unwrap();
    let battery = RomOnlyCartridge::new(rom, header(CartridgeType::RomRamBattery, 2, 1)).unwrap();
    assert!(!plain.has_battery());
    assert!(!ram.has_battery());
    assert!(battery.has_battery());
    assert_eq!(battery.get_header().cartridge_type, CartridgeType::RomRamBattery);
    assert_eq!(battery.get_header().title, Some(String::from("T")));
}

#[test]
fn a_cartridge_is_built_from_an_image() {
    let rom = image(0x09, 0x00, 0x02);
    let mut cartridge: Cartridge = create_cartridge(rom.clone()).unwrap();
    assert!(cartridge.has_battery());
    assert_eq!(cartridge.get_header().rom_bank_amount, 2);
    assert_eq!(cartridge.get_header().ram_bank_amount, 1);
    assert_eq!(cartridge.read_byte_rom(0x0300), Ok(rom[0x0300]));
    assert_eq!(cartridge.write_byte_external_ram(0xA010, 7), Ok(()));
    assert_eq!(cartridge.read_byte_external_ram(0xA010), Ok(7));
    assert_eq!(cartridge.get_ram_banks().len(), 1);
    assert_eq!(
        cartridge.write_byte_rom(0x0000, 1),
        Err(EmulationError::InvalidMemoryWrite { address: 0, value: 1 })
    );
}

#[test]
fn images_that_make_no_cartridge() {
    assert!(matches!(create_cartridge(vec![0u8; 100]), Err(EmulationError::InvalidRom)));
    assert!(matches!(
        create_cartridge(image(0x01, 0x00, 0x00)),
        Err(EmulationError::UnsupportedCartridgeType { cartridge_type: CartridgeType::Mbc1 })
    ));
    assert!(matches!(
        create_cartridge(image(0x19, 0x00, 0x00)),
        Err(EmulationError::UnsupportedCartridgeType { cartridge_type: CartridgeType::Mbc5 })
    ));
    assert!(matches!(
        create_cartridge(image(0x04, 0x00, 0x00)),
        Err(EmulationError::UnknownCartridgeType { code: 0x04 })
    ));
    // the header counts four banks, the image has two
    assert!(matches!(create_cartridge(image(0x00, 0x01, 0x00)), Err(EmulationError::InvalidRom)));
    let mut long = image(0x00, 0x00, 0x00);
    long.extend_from_slice(&[0u8; 16384]);
    assert!(matches!(create_cartridge(long), Err(EmulationError::InvalidRom)));
    assert!(matches!(
        create_cartridge(image(0x00, 0x00, 0x09)),
        Err(EmulationError::InvalidRamSizeCode { code: 0x09 })
    ));
}
