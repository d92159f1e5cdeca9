use gb_emu_common::cartridge::create_cartridge;
use gb_emu_common::error::EmulationError;
use gb_emu_common::memory_bus::{region, MemoryBus, Region};

fn image(ram_code: u8) -> Vec<u8> {
    let mut rom = vec![0u8; 32768];
    rom[0x0147] = if ram_code == 0 { 0x00 } else { 0x08 };
    rom[0x0149] = ram_code;
    for (i, byte) in rom.iter_mut().enumerate().skip(0x0200) {
        *byte = (i % 253) as u8;
    }
    rom
}

fn bus(ram_code: u8) -> MemoryBus {
    let mut bus = MemoryBus::new();
    bus.attach_cartridge(create_cartridge(image(ram_code)).unwrap());
    bus
}

#[test]
fn the_address_space_has_eleven_owners() {
    assert_eq!(region(0x0000), Region::Rom);
    assert_eq!(region(0x7FFF), Region::Rom);
    assert_eq!(region(0x8000), Region::VideoRam);
    assert_eq!(region(0x9FFF), Region::VideoRam);
    assert_eq!(region(0xA000), Region::ExternalRam);
    assert_eq!(region(0xBFFF), Region::ExternalRam);
    assert_eq!(region(0xC000), Region::WorkRam0);
    assert_eq!(region(0xCFFF), Region::WorkRam0);
    assert_eq!(region(0xD000), Region::WorkRam1);
    assert_eq!(region(0xDFFF), Region::WorkRam1);
    assert_eq!(region(0xE000), Region::EchoRam);
    assert_eq!(region(0xFDFF), Region::EchoRam);
    assert_eq!(region(0xFE00), Region::Oam);
    assert_eq!(region(0xFE9F), Region::Oam);
    assert_eq!(region(0xFEA0), Region::Unusable);
    assert_eq!(region(0xFEFF), Region::Unusable);
    assert_eq!(region(0xFF00), Region::IoRegisters);
    assert_eq!(region(0xFF7F), Region::IoRegisters);
    assert_eq!(region(0xFF80), Region::HighRam);
    assert_eq!(region(0xFFFE), Region::HighRam);
    assert_eq!(region(0xFFFF), Region::InterruptEnable);
}

#[test]
fn nothing_answers_without_a_cartridge() {
    let mut bus = MemoryBus::new();
    assert!(!bus.has_cartridge());
    for address in [0x0000u16, 0x8000, 0xA000, 0xC000, 0xE000, 0xFE00, 0xFF04, 0xFF80, 0xFFFF] {
        assert_eq!(bus.read_byte(address), Err(EmulationError::NoRom));
        assert_eq!(bus.write_byte(address, 1), Err(EmulationError::NoRom));
    }
    bus.attach_cartridge(create_cartridge(image(0)).unwrap());
    assert!(bus.has_cartridge());
    // the failed writes left nothing behind
    assert_eq!(bus.read_byte(0xC000), Ok(0));
    assert_eq!(bus.read_byte(0xFFFF), Ok(0));
}

#[test]
fn rom_is_read_and_not_written() {
    let rom = image(0);
    let mut bus = bus(0);
    assert_eq!(bus.read_byte(0x0200), Ok(rom[0x0200]));
    assert_eq!(bus.read_byte(0x7FFF), Ok(rom[0x7FFF]));
    assert_eq!(
        bus.write_byte(0x0200, 0x55),
        Err(EmulationError::InvalidMemoryWrite { address: 0x0200, value: 0x55 })
    );
    assert_eq!(bus.read_byte(0x0200), Ok(rom[0x0200]));
}

#[test]
fn video_ram_is_apart_from_cartridge_ram_and_object_memory() {
    let mut bus = bus(2);
    assert_eq!(bus.write_byte(0xA000, 0xAA), Ok(()));
    assert_eq!(bus.write_byte(0xFE00, 0xEE), Ok(()));
    assert_eq!(bus.write_byte(0x8000, 0x11), Ok(()));
    assert_eq!(bus.write_byte(0x9FFF, 0x22), Ok(()));
    assert_eq!(bus.read_byte(0x8000), Ok(0x11));
    assert_eq!(bus.read_byte(0x9FFF), Ok(0x22));
    assert_eq!(bus.read_byte(0xA000), Ok(0xAA));
    assert_eq!(bus.read_byte(0xFE00), Ok(0xEE));
    assert_eq!(bus.read_byte(0x8001), Ok(0));
    assert_eq!(bus.read_byte(0x9FFE), Ok(0));
}

#[test]
fn cartridge_ram_answers_over_its_whole_range() {
    let mut bus = bus(2);
    assert_eq!(bus.write_byte(0xA001, 0x31), Ok(()));
    assert_eq!(bus.write_byte(0xBFFF, 0x32), Ok(()));
    assert_eq!(bus.read_byte(0xA001), Ok(0x31));
    assert_eq!(bus.read_byte(0xBFFF), Ok(0x32));
}

#[test]
fn cartridge_ram_fails_where_the_cartridge_has_none() {
    let mut bus = bus(0);
    assert_eq!(bus.read_byte(0xA000), Err(EmulationError::InvalidMemoryRead { address: 0xA000 }));
    assert_eq!(
        bus.write_byte(0xB000, 9),
        Err(EmulationError::InvalidMemoryWrite { address: 0xB000, value: 9 })
    );
}

#[test]
fn the_rams_keep_what_is_written() {
    let mut bus = bus(0);
    for (address, value) in [
        (0xC000u16, 1u8),
        (0xCFFF, 2),
        (0xD000, 3),
        (0xDFFF, 4),
        (0xFE00, 5),
        (0xFE9F, 6),
        (0xFF80, 7),
        (0xFFFE, 8),
    ] {
        assert_eq!(bus.write_byte(address, value), Ok(()));
    }
    assert_eq!(bus.read_byte(0xC000), Ok(1));
    assert_eq!(bus.read_byte(0xCFFF), Ok(2));
    assert_eq!(bus.read_byte(0xD000), Ok(3));
    assert_eq!(bus.read_byte(0xDFFF), Ok(4));
    assert_eq!(bus.read_byte(0xFE00), Ok(5));
    assert_eq!(bus.read_byte(0xFE9F), Ok(6));
    assert_eq!(bus.read_byte(0xFF80), Ok(7));
    assert_eq!(bus.read_byte(0xFFFE), Ok(8));
}

#[test]
fn echo_ram_reads_zero_whatever_was_written() {
    let mut bus = bus(0);
    assert_eq!(bus.write_byte(0xC000, 0x77), Ok(()));
    for address in [0xE000u16, 0xE001, 0xF000, 0xFDFE, 0xFDFF] {
        assert_eq!(bus.write_byte(address, 0x99), Ok(()));
        assert_eq!(bus.read_byte(address), Ok(0));
    }
    for address in 0xE000..=0xFDFFu16 {
        assert_eq!(bus.read_byte(address), Ok(0));
    }
    assert_eq!(bus.read_byte(0xC000), Ok(0x77));
}

#[test]
fn the_unusable_range_reads_zero_and_takes_writes() {
    let mut bus = bus(0);
    for address in [0xFEA0u16, 0xFEC0, 0xFEFF] {
        assert_eq!(bus.write_byte(address, 0x12), Ok(()));
        assert_eq!(bus.read_byte(address), Ok(0));
    }
}

#[test]
fn the_interrupt_enable_register_reads_back_the_last_write() {
    let mut bus = bus(0);
    for value in [0x00u8, 0x01, 0x1F, 0x20, 0xA5, 0xFF] {
        assert_eq!(bus.write_byte(0xFFFF, value), Ok(()));
        assert_eq!(bus.read_byte(0xFFFF), Ok(value));
    }
    assert_eq!(bus.timers().interrupt_enable_register, 0xFF);
}

#[test]
fn the_interrupt_flags_keep_five_bits() {
    let mut bus = bus(0);
    assert_eq!(bus.write_byte(0xFF0F, 0xFF), Ok(()));
    assert_eq!(bus.read_byte(0xFF0F), Ok(0x1F));
    assert_eq!(bus.write_byte(0xFF0F, 0x05), Ok(()));
    assert_eq!(bus.read_byte(0xFF0F), Ok(0x05));
    assert!(bus.timers().interrupt_flag_register.timer);
}

#[test]
fn any_write_resets_the_divider() {
    let mut bus = bus(0);
    bus.run_timers(640);
    assert_eq!(bus.read_byte(0xFF04), Ok(10));
    assert_eq!(bus.write_byte(0xFF04, 0x5A), Ok(()));
    assert_eq!(bus.read_byte(0xFF04), Ok(0));
    bus.run_timers(64);
    assert_eq!(bus.read_byte(0xFF04), Ok(1));
    bus.reset_divider_register();
    assert_eq!(bus.read_byte(0xFF04), Ok(0));
}

#[test]
fn the_timer_registers_answer() {
    let mut bus = bus(0);
    assert_eq!(bus.write_byte(0xFF05, 0x12), Ok(()));
    assert_eq!(bus.write_byte(0xFF06, 0x34), Ok(()));
    assert_eq!(bus.write_byte(0xFF07, 0xFD), Ok(()));
    assert_eq!(bus.read_byte(0xFF05), Ok(0x12));
    assert_eq!(bus.read_byte(0xFF06), Ok(0x34));
    assert_eq!(bus.read_byte(0xFF07), Ok(0x05));
    // enabled at 16 cycles a step
    bus.run_timers(32);
    assert_eq!(bus.read_byte(0xFF05), Ok(0x14));
}

#[test]
fn starting_a_transfer_copies_the_serial_byte() {
    let mut bus = bus(0);
    assert_eq!(bus.serial_debug(), 0);
    assert_eq!(bus.write_byte(0xFF01, b'P'), Ok(()));
    assert_eq!(bus.read_byte(0xFF01), Ok(b'P'));
    assert_eq!(bus.serial_debug(), 0);
    // anything but the start pattern copies nothing
    assert_eq!(bus.write_byte(0xFF02, 0x80), Ok(()));
    assert_eq!(bus.serial_debug(), 0);
    assert_eq!(bus.write_byte(0xFF02, 0x81), Ok(()));
    assert_eq!(bus.serial_debug(), b'P');
    assert_eq!(bus.write_byte(0xFF01, b'Q'), Ok(()));
    assert_eq!(bus.serial_debug(), b'P');
    assert_eq!(bus.read_byte(0xFF02), Ok(0));
}

#[test]
fn the_other_registers_read_zero() {
    let mut bus = bus(0);
    for address in [0xFF00u16, 0xFF03, 0xFF08, 0xFF10, 0xFF40, 0xFF7F] {
        assert_eq!(bus.write_byte(address, 0xC3), Ok(()));
        assert_eq!(bus.read_byte(address), Ok(0));
    }
}

#[test]
fn a_write_reaches_one_address_only() {
    let mut bus = bus(2);
    let watched = [0x0200u16, 0x8000, 0xA000, 0xC000, 0xD000, 0xE000, 0xFE00, 0xFF05, 0xFF80, 0xFFFF];
    for target in watched {
        let before: Vec<_> = watched.iter().map(|a| bus.read_byte(*a)).collect();
        let _ = bus.write_byte(target, 0x42);
        for (i, address) in watched.iter().enumerate() {
            if *address != target {
                assert_eq!(bus.read_byte(*address), before[i]);
            }
        }
    }
}
