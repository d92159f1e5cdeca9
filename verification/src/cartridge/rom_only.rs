// The cartridge without banking.

use crate::cartridge::cartridge_type::CartridgeType;
use crate::cartridge::header::{Header, HeaderView};
use crate::cartridge::{
    CartridgeView, RamBank, EXTERNAL_RAM_END, EXTERNAL_RAM_START, RAM_BANK_SIZE, ROM_BANK_N_END,
    ROM_BANK_SIZE,
};
use crate::error::EmulationError;
use vstd::prelude::*;

verus! {

/// A cartridge without banking: 32 KiB of ROM that the bus sees as it is, and at most one
/// bank of RAM.
pub struct RomOnlyCartridge {
    rom: Vec<u8>,
    ram: Option<RamBank>,
    header: Header,
}

impl View for RomOnlyCartridge {
    type V = CartridgeView;

    closed spec fn view(&self) -> CartridgeView {
        CartridgeView {
            rom: self.rom@,
            ram: match self.ram {
                Some(ram) => Some(ram@),
                None => None,
            },
            header: self.header@,
        }
    }
}

/// What building a cartridge without banking from a ROM image and its header gives: the
/// image has to be two banks long and the header has to say so; RAM is there, filled with
/// zeros, where the header counts at least one bank.
pub open spec fn rom_only_of(rom: Seq<u8>, header: HeaderView) -> Result<
    CartridgeView,
    EmulationError,
> {
    if rom.len() != 2 * ROM_BANK_SIZE || header.rom_bank_amount != 2 {
        Err(EmulationError::InvalidRom)
    } else {
        Ok(
            CartridgeView {
                rom,
                ram: if header.ram_bank_amount > 0 {
                    Some(Seq::new(RAM_BANK_SIZE as nat, |i: int| 0u8))
                } else {
                    None
                },
                header,
            },
        )
    }
}

/// Writes `value` into the RAM bank at the bus address `address`, if there is a bank.
fn write_ram_bank(ram: &mut Option<RamBank>, address: usize, value: u8) -> (result: Result<
    (),
    EmulationError,
>)
    requires
        EXTERNAL_RAM_START <= address <= EXTERNAL_RAM_END,
    ensures
        match *old(ram) {
            Some(bank) => result == Ok::<(), EmulationError>(()) && (*final(ram) matches Some(
                after,
            ) && after@
                == bank@.update(address - EXTERNAL_RAM_START, value)),
            None => *final(ram) is None && result == Err::<(), EmulationError>(
                EmulationError::InvalidMemoryWrite { address, value },
            ),
        },
    no_unwind
{
    let pos: usize = address - EXTERNAL_RAM_START;
    match ram {
        Some(bank) => {
            bank[pos] = value;
            Ok(())
        },
        None => Err(EmulationError::InvalidMemoryWrite { address, value }),
    }
}

impl RomOnlyCartridge {
    #[verifier::type_invariant]
    spec fn well_formed(self) -> bool {
        self.rom.len() == 2 * ROM_BANK_SIZE
    }

    /// Builds the cartridge from a ROM image and the header that was read from it.
    pub fn new(rom: Vec<u8>, header: Header) -> (result: Result<RomOnlyCartridge, EmulationError>)
        ensures
            match result {
                Ok(cartridge) => rom_only_of(rom@, header@) == Ok::<CartridgeView, EmulationError>(
                    cartridge@,
                ),
                Err(error) => rom_only_of(rom@, header@) == Err::<CartridgeView, EmulationError>(
                    error,
                ),
            },
    {
        let rom_size: usize = ROM_BANK_SIZE * 2;
        if rom.len() != rom_size || header.rom_bank_amount != 2 {
            // the image has not the size of this kind of cartridge
            return Err(EmulationError::InvalidRom);
        }
        let has_ram: bool = header.ram_bank_amount > 0;
        let ram: Option<RamBank> = if has_ram {
            Some([0;RAM_BANK_SIZE])
        } else {
            None
        };

        let cartridge = RomOnlyCartridge { rom, ram, header };
        proof {
            if has_ram {
                assert(cartridge@.ram->0 =~= Seq::new(RAM_BANK_SIZE as nat, |i: int| 0u8));
            }
        }
        Ok(cartridge)
    }

    /// Reads the ROM at the bus address `address`.
    pub fn read_byte_rom(&self, address: usize) -> (result: Result<u8, EmulationError>)
        ensures
            result == self@.read_rom(address as int),
    {
        proof {
            use_type_invariant(self);
        }
        if address <= ROM_BANK_N_END {
            Ok(self.rom[address])
        } else {
            Err(EmulationError::InvalidMemoryRead { address })
        }
    }

    /// Writes to the ROM: it fails, whatever the address.
    pub fn write_byte_rom(&mut self, address: usize, value: u8) -> (result: Result<
        (),
        EmulationError,
    >)
        ensures
            result == old(self)@.write_rom(address as int, value).1,
            final(self)@ == old(self)@.write_rom(address as int, value).0,
    {
        Err(EmulationError::InvalidMemoryWrite { address, value })
    }

    /// Reads the RAM bank at the bus address `address`, if there is a bank.
    pub fn read_byte_external_ram(&self, address: usize) -> (result: Result<u8, EmulationError>)
        requires
            EXTERNAL_RAM_START <= address <= EXTERNAL_RAM_END,
        ensures
            result == self@.read_external_ram(address as int),
    {
        let pos: usize = address - EXTERNAL_RAM_START;
        match &self.ram {
            Some(ram) => Ok(ram[pos]),
            None => Err(EmulationError::InvalidMemoryRead { address }),
        }
    }

    /// Writes the RAM bank at the bus address `address`, if there is a bank.
    pub fn write_byte_external_ram(&mut self, address: usize, value: u8) -> (result: Result<
        (),
        EmulationError,
    >)
        requires
            EXTERNAL_RAM_START <= address <= EXTERNAL_RAM_END,
        ensures
            result == old(self)@.write_external_ram(address as int, value).1,
            final(self)@ == old(self)@.write_external_ram(address as int, value).0,
    {
        proof {
            use_type_invariant(&*self);
        }
        write_ram_bank(&mut self.ram, address, value)
    }

    /// A copy of the header.
    pub fn get_header(&self) -> (header: Header)
        ensures
            header@ == self@.header,
    {
        self.header.clone()
    }

    /// A copy of the RAM bank, or nothing where the cartridge has none.
    pub fn get_ram_banks(&self) -> (banks: Vec<RamBank>)
        ensures
            match self@.ram {
                Some(ram) => banks.len() == 1 && banks[0]@ == ram,
                None => banks.len() == 0,
            },
    {
        match &self.ram {
            Some(ram) => {
                let mut ram_banks: Vec<RamBank> = Vec::with_capacity(1);
                ram_banks.push(*ram);
                ram_banks
            },
            None => Vec::new(),
        }
    }

    /// Whether the cartridge keeps its RAM when the power is off.
    pub fn has_battery(&self) -> (battery: bool)
        ensures
            battery == (self@.header.cartridge_type == CartridgeType::RomRamBattery),
    {
        matches!(self.header.cartridge_type, CartridgeType::RomRamBattery)
    }
}

} // verus!
