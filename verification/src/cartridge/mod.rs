// Cartridges: the ROM image, the RAM that comes with it, and what its header says.

pub mod cartridge_type;
pub mod header;
pub mod rom_only;

use crate::cartridge::cartridge_type::CartridgeType;
use crate::cartridge::header::{header_result_view, parse_header, Header, HeaderView};
use crate::cartridge::rom_only::{rom_only_of, RomOnlyCartridge};
use crate::error::EmulationError;
use vstd::prelude::*;

verus! {

pub const ROM_BANK_SIZE: usize = 16_384;

pub const RAM_BANK_SIZE: usize = 8_192;

pub const ROM_BANK_0_START: usize = 0x0000;

pub const ROM_BANK_0_END: usize = 0x3FFF;

pub const ROM_BANK_0_SIZE: usize = ROM_BANK_0_END - ROM_BANK_0_START + 1;

pub const ROM_BANK_N_START: usize = 0x4000;

pub const ROM_BANK_N_END: usize = 0x7FFF;

pub const ROM_BANK_N_SIZE: usize = ROM_BANK_N_END - ROM_BANK_N_START + 1;

pub const EXTERNAL_RAM_START: usize = 0xA000;

pub const EXTERNAL_RAM_END: usize = 0xBFFF;

pub const EXTERNAL_RAM_SIZE: usize = EXTERNAL_RAM_END - EXTERNAL_RAM_START + 1;

/// One bank of cartridge RAM.
pub type RamBank = [u8; RAM_BANK_SIZE];

/// What a cartridge holds, as plain sequences.
pub ghost struct CartridgeView {
    /// The ROM image.
    pub rom: Seq<u8>,
    /// The RAM that the bus sees, where the cartridge has any.
    pub ram: Option<Seq<u8>>,
    /// The header that was read from the image.
    pub header: HeaderView,
}

impl CartridgeView {
    /// The ROM is two banks long, and RAM is one bank long where there is any.
    pub open spec fn wf(self) -> bool {
        &&& self.rom.len() == 2 * ROM_BANK_SIZE
        &&& self.ram matches Some(ram) ==> ram.len() == RAM_BANK_SIZE
    }

    /// Reading the ROM at the bus address `address`.
    pub open spec fn read_rom(self, address: int) -> Result<u8, EmulationError> {
        if ROM_BANK_0_START <= address <= ROM_BANK_N_END {
            Ok(self.rom[address])
        } else {
            Err(EmulationError::InvalidMemoryRead { address: address as usize })
        }
    }

    /// Writing to the ROM: it fails and changes nothing.
    pub open spec fn write_rom(self, address: int, value: u8) -> (
        CartridgeView,
        Result<(), EmulationError>,
    ) {
        (self, Err(EmulationError::InvalidMemoryWrite { address: address as usize, value }))
    }

    /// Reading cartridge RAM at the bus address `address`; it fails where there is no RAM.
    pub open spec fn read_external_ram(self, address: int) -> Result<u8, EmulationError> {
        match self.ram {
            Some(ram) => Ok(ram[address - EXTERNAL_RAM_START]),
            None => Err(EmulationError::InvalidMemoryRead { address: address as usize }),
        }
    }

    /// Writing cartridge RAM at the bus address `address`; it fails where there is no RAM.
    pub open spec fn write_external_ram(self, address: int, value: u8) -> (
        CartridgeView,
        Result<(), EmulationError>,
    ) {
        match self.ram {
            Some(ram) => (
                CartridgeView {
                    ram: Some(ram.update(address - EXTERNAL_RAM_START, value)),
                    ..self
                },
                Ok(()),
            ),
            None => (
                self,
                Err(EmulationError::InvalidMemoryWrite { address: address as usize, value }),
            ),
        }
    }
}

/// The cartridge kinds that are emulated. The bus holds one of them and asks it through the
/// methods below, whichever it is.
pub enum Cartridge {
    RomOnly(RomOnlyCartridge),
}

impl View for Cartridge {
    type V = CartridgeView;

    open spec fn view(&self) -> CartridgeView {
        match self {
            Cartridge::RomOnly(cartridge) => cartridge@,
        }
    }
}

impl Cartridge {
    /// Reads the ROM at the bus address `address`.
    pub fn read_byte_rom(&self, address: usize) -> (result: Result<u8, EmulationError>)
        ensures
            result == self@.read_rom(address as int),
    {
        match self {
            Cartridge::RomOnly(cartridge) => cartridge.read_byte_rom(address),
        }
    }

    /// Writes to the ROM, which no emulated cartridge allows.
    pub fn write_byte_rom(&mut self, address: usize, value: u8) -> (result: Result<
        (),
        EmulationError,
    >)
        ensures
            result == old(self)@.write_rom(address as int, value).1,
            final(self)@ == old(self)@.write_rom(address as int, value).0,
    {
        match self {
            Cartridge::RomOnly(cartridge) => cartridge.write_byte_rom(address, value),
        }
    }

    /// Reads cartridge RAM at the bus address `address`.
    pub fn read_byte_external_ram(&self, address: usize) -> (result: Result<u8, EmulationError>)
        requires
            EXTERNAL_RAM_START <= address <= EXTERNAL_RAM_END,
        ensures
            result == self@.read_external_ram(address as int),
    {
        match self {
            Cartridge::RomOnly(cartridge) => cartridge.read_byte_external_ram(address),
        }
    }

    /// Writes cartridge RAM at the bus address `address`.
    pub fn write_byte_external_ram(&mut self, address: usize, value: u8) -> (result: Result<
        (),
        EmulationError,
    >)
        requires
            EXTERNAL_RAM_START <= address <= EXTERNAL_RAM_END,
        ensures
            result == old(self)@.write_external_ram(address as int, value).1,
            final(self)@ == old(self)@.write_external_ram(address as int, value).0,
    {
        match self {
            Cartridge::RomOnly(cartridge) => cartridge.write_byte_external_ram(address, value),
        }
    }

    /// A copy of the header.
    pub fn get_header(&self) -> (header: Header)
        ensures
            header@ == self@.header,
    {
        match self {
            Cartridge::RomOnly(cartridge) => cartridge.get_header(),
        }
    }

    /// A copy of every RAM bank of the cartridge.
    pub fn get_ram_banks(&self) -> (banks: Vec<RamBank>)
        ensures
            match self@.ram {
                Some(ram) => banks.len() == 1 && banks[0]@ == ram,
                None => banks.len() == 0,
            },
    {
        match self {
            Cartridge::RomOnly(cartridge) => cartridge.get_ram_banks(),
        }
    }

    /// Whether the cartridge keeps its RAM when the power is off.
    pub fn has_battery(&self) -> (battery: bool)
        ensures
            battery == (self@.header.cartridge_type == CartridgeType::RomRamBattery),
    {
        match self {
            Cartridge::RomOnly(cartridge) => cartridge.has_battery(),
        }
    }
}

/// The cartridge that a ROM image makes, or the reason why it makes none: a header that
/// cannot be read, a cartridge type whose banking is not emulated, or an image whose length
/// is not that of its kind.
pub open spec fn load_cartridge(rom: Seq<u8>) -> Result<CartridgeView, EmulationError> {
    match parse_header(rom) {
        Err(error) => Err(error),
        Ok(header) => if header.cartridge_type == CartridgeType::RomOnly || header.cartridge_type
            == CartridgeType::RomRam || header.cartridge_type == CartridgeType::RomRamBattery {
            rom_only_of(rom, header)
        } else {
            Err(EmulationError::UnsupportedCartridgeType { cartridge_type: header.cartridge_type })
        },
    }
}

/// A cartridge that was built from a ROM image is well formed.
pub proof fn lemma_loaded_cartridge_wf(rom: Seq<u8>)
    ensures
        load_cartridge(rom) matches Ok(cartridge) ==> cartridge.wf(),
{
}

/// What a cartridge result stands for once the cartridge is read as its view.
pub open spec fn cartridge_result_view(result: Result<Cartridge, EmulationError>) -> Result<
    CartridgeView,
    EmulationError,
> {
    match result {
        Ok(cartridge) => Ok(cartridge@),
        Err(error) => Err(error),
    }
}

/// Builds the cartridge of a ROM image.
pub fn create_cartridge(rom: Vec<u8>) -> (result: Result<Cartridge, EmulationError>)
    ensures
        cartridge_result_view(result) == load_cartridge(rom@),
        result matches Ok(cartridge) ==> cartridge@.wf(),
{
    proof {
        lemma_loaded_cartridge_wf(rom@);
    }
    let header: Header = Header::read_rom_header(&rom)?;
    match header.cartridge_type {
        CartridgeType::RomOnly | CartridgeType::RomRam | CartridgeType::RomRamBattery => {
            match RomOnlyCartridge::new(rom, header) {
                Ok(cartridge) => Ok(Cartridge::RomOnly(cartridge)),
                Err(error) => Err(error),
            }
        },
        _ => {
            let error = EmulationError::UnsupportedCartridgeType {
                cartridge_type: header.cartridge_type,
            };
            Err(error)
        },
    }
}

} // verus!
