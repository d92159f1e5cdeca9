use gb_emu_common::cartridge::cartridge_type::CartridgeType;
use gb_emu_common::config::ConfigFile;
use gb_emu_common::error::EmulationError;

#[test]
fn messages_name_what_went_wrong() {
    assert_eq!(
        EmulationError::InvalidMemoryRead { address: 0xA000 }.message(),
        "Invalid read on address 0xA000"
    );
    assert_eq!(
        EmulationError::InvalidMemoryWrite { address: 0x0150, value: 0x1F }.message(),
        "Invalid write read on address 0x0150 with value 0x001F"
    );
    assert_eq!(
        EmulationError::UnknownOpcode { opcode: 0xD3, is_prefixed: false }.message(),
        "Unknown opcode: 0x00D3 not prefixed"
    );
    assert_eq!(
        EmulationError::UnknownOpcode { opcode: 0x07, is_prefixed: true }.message(),
        "Unknown opcode: 0x0007 prefixed"
    );
    assert_eq!(EmulationError::InvalidRomIndex { index: 32768 }.message(), "ROM has no index 32768");
    assert_eq!(EmulationError::InvalidRomIndex { index: 0 }.message(), "ROM has no index 0");
    assert_eq!(EmulationError::InvalidRom.message(), "Invalid ROM");
    assert_eq!(
        EmulationError::UnknownCartridgeType { code: 0x04 }.message(),
        "Unknown cartridge type code with code 0x04"
    );
    assert_eq!(
        EmulationError::InvalidRomSizeCode { code: 0x09 }.message(),
        "This ROM's header informs an invalid ROM size code 0x09"
    );
    assert_eq!(
        EmulationError::InvalidRamSizeCode { code: 0xAB }.message(),
        "This ROM's header informs an invalid RAM size code 0xAB"
    );
    assert_eq!(
        EmulationError::UnsupportedCartridgeType { cartridge_type: CartridgeType::Mbc1Ram }
            .message(),
        "The cartridge type \"MBC1 + RAM\" is not supported"
    );
    assert_eq!(EmulationError::NoRom.message(), "No ROM loaded");
}

#[test]
fn numbers_are_written_as_the_formatter_writes_them() {
    for address in [0usize, 9, 10, 15, 16, 255, 256, 0xFFF, 0x1000, 0xFFFF, 0x1_0000, 0xABCDEF] {
        assert_eq!(
            EmulationError::InvalidMemoryRead { address }.message(),
            format!("Invalid read on address {address:#06X}")
        );
        assert_eq!(
            EmulationError::InvalidRomIndex { index: address }.message(),
            format!("ROM has no index {address}")
        );
    }
    assert_eq!(
        EmulationError::InvalidRomIndex { index: usize::MAX }.message(),
        format!("ROM has no index {}", usize::MAX)
    );
    assert_eq!(
        EmulationError::InvalidMemoryRead { address: usize::MAX }.message(),
        format!("Invalid read on address {:#06X}", usize::MAX)
    );
    for code in 0..=255u8 {
        assert_eq!(
            EmulationError::UnknownCartridgeType { code }.message(),
            format!("Unknown cartridge type code with code {code:#04X}")
        );
        assert_eq!(
            EmulationError::InvalidMemoryWrite { address: 1, value: code }.message(),
            format!("Invalid write read on address {:#06X} with value {code:#06X}", 1)
        );
    }
}

#[test]
fn the_configuration_file_has_its_name() {
    assert_eq!(ConfigFile::LastUsedDirectory.get_file_name(), "last_directory.txt");
}
