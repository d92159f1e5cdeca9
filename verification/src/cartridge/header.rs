// The header of a ROM image.

use crate::cartridge::cartridge_type::CartridgeType;
use crate::error::EmulationError;
use vstd::prelude::*;
use vstd::slice::{slice_subrange, slice_to_vec};
use vstd::utf8::{decode_utf8, encode_utf8, encode_utf8_decode_utf8, valid_utf8};

verus! {

/// A ROM image shorter than this has no complete header.
pub const MINIMUM_ROM_SIZE: usize = 0x014F;

/// The first byte of the title.
pub const TITLE_START: usize = 0x0134;

/// The last byte of the title.
pub const TITLE_END: usize = 0x0143;

/// Where the header names the cartridge type.
pub const CARTRIDGE_TYPE_ADDRESS: usize = 0x0147;

/// Where the header holds the ROM size code.
pub const ROM_SIZE_ADDRESS: usize = 0x0148;

/// Where the header holds the RAM size code.
pub const RAM_SIZE_ADDRESS: usize = 0x0149;

/// What the header of a ROM image says about its cartridge.
#[derive(Debug, PartialEq, Eq)]
pub struct Header {
    pub title: Option<String>,
    pub cartridge_type: CartridgeType,
    pub rom_bank_amount: usize,
    pub ram_bank_amount: usize,
}

/// A [`Header`] with its title as a sequence of characters.
pub ghost struct HeaderView {
    pub title: Option<Seq<char>>,
    pub cartridge_type: CartridgeType,
    pub rom_bank_amount: usize,
    pub ram_bank_amount: usize,
}

impl View for Header {
    type V = HeaderView;

    open spec fn view(&self) -> HeaderView {
        HeaderView {
            title: match self.title {
                Some(title) => Some(title@),
                None => None,
            },
            cartridge_type: self.cartridge_type,
            rom_bank_amount: self.rom_bank_amount,
            ram_bank_amount: self.ram_bank_amount,
        }
    }
}

impl Clone for Header {
    fn clone(&self) -> (copy: Header)
        ensures
            copy@ == self@,
    {
        Header {
            title: match &self.title {
                Some(title) => Some(title.clone()),
                None => None,
            },
            cartridge_type: self.cartridge_type,
            rom_bank_amount: self.rom_bank_amount,
            ram_bank_amount: self.ram_bank_amount,
        }
    }
}

/// The title that sixteen header bytes spell: their text where they are valid UTF-8,
/// nothing where they are not.
pub open spec fn title_of(bytes: Seq<u8>) -> Option<Seq<char>> {
    if valid_utf8(bytes) {
        Some(decode_utf8(bytes))
    } else {
        None
    }
}

/// The number of 16 KiB ROM banks that a ROM size code stands for: two for code 0, and twice
/// as many with each code up to 8.
pub open spec fn rom_banks_of(code: u8) -> Option<usize>
    decreases code,
{
    if code == 0x00 {
        Some(2)
    } else if 0x01 <= code <= 0x08 {
        match rom_banks_of((code - 1) as u8) {
            Some(banks) => Some((2 * banks) as usize),
            None => None,
        }
    } else {
        None
    }
}

/// The number of 8 KiB RAM banks that a RAM size code stands for.
pub open spec fn ram_banks_of(code: u8) -> Option<usize> {
    if code == 0x00 || code == 0x01 {
        Some(0)
    } else if code == 0x02 {
        Some(1)
    } else if code == 0x03 {
        Some(4)
    } else if code == 0x04 {
        Some(16)
    } else if code == 0x05 {
        Some(8)
    } else {
        None
    }
}

/// The header of a ROM image, or the reason why it has none. The checks come in this order:
/// the length of the image, the cartridge type, the ROM size code, the RAM size code. A title
/// that is no valid text is left out and is no error.
pub open spec fn parse_header(rom: Seq<u8>) -> Result<HeaderView, EmulationError> {
    if rom.len() < MINIMUM_ROM_SIZE {
        Err(EmulationError::InvalidRom)
    } else {
        match CartridgeType::of_code(rom[CARTRIDGE_TYPE_ADDRESS as int]) {
            None => Err(
                EmulationError::UnknownCartridgeType { code: rom[CARTRIDGE_TYPE_ADDRESS as int] },
            ),
            Some(cartridge_type) => match rom_banks_of(rom[ROM_SIZE_ADDRESS as int]) {
                None => Err(
                    EmulationError::InvalidRomSizeCode { code: rom[ROM_SIZE_ADDRESS as int] },
                ),
                Some(rom_bank_amount) => match ram_banks_of(rom[RAM_SIZE_ADDRESS as int]) {
                    None => Err(
                        EmulationError::InvalidRamSizeCode { code: rom[RAM_SIZE_ADDRESS as int] },
                    ),
                    Some(ram_bank_amount) => Ok(
                        HeaderView {
                            title: title_of(rom.subrange(TITLE_START as int, TITLE_END + 1)),
                            cartridge_type,
                            rom_bank_amount,
                            ram_bank_amount,
                        },
                    ),
                },
            },
        }
    }
}

/// What a header result stands for once the title is read as characters.
pub open spec fn header_result_view(result: Result<Header, EmulationError>) -> Result<
    HeaderView,
    EmulationError,
> {
    match result {
        Ok(header) => Ok(header@),
        Err(error) => Err(error),
    }
}

impl Header {
    /// Reads the header of a ROM image.
    pub fn read_rom_header(rom: &Vec<u8>) -> (result: Result<Header, EmulationError>)
        ensures
            header_result_view(result) == parse_header(rom@),
    {
        if rom.len() < MINIMUM_ROM_SIZE {
            return Err(EmulationError::InvalidRom);
        }
        let title: &[u8] = slice_subrange(rom.as_slice(), TITLE_START, TITLE_END + 1);
        let title: Option<String> = decode_rom_title(title);
        let cartridge_type: CartridgeType = decode_cartridge_type(rom[CARTRIDGE_TYPE_ADDRESS])?;
        let rom_bank_amount: usize = get_amount_of_rom_banks(rom[ROM_SIZE_ADDRESS])?;
        let ram_bank_amount: usize = get_amount_of_ram_banks(rom[RAM_SIZE_ADDRESS])?;

        Ok(Header { title, cartridge_type, rom_bank_amount, ram_bank_amount })
    }
}

/// The error of `String::from_utf8`. Nothing is read from it.
#[verifier::external_type_specification]
#[verifier::external_body]
pub struct ExFromUtf8Error(std::string::FromUtf8Error);

/// `String::from_utf8` of the standard library. It is taken to succeed on exactly the byte
/// strings that are valid UTF-8, and the string that it returns to be made of the bytes
/// that it was given.
#[verifier::external_body]
fn string_from_utf8(bytes: Vec<u8>) -> (result: Result<String, std::string::FromUtf8Error>)
    ensures
        result is Ok <==> valid_utf8(bytes@),
        result matches Ok(text) ==> encode_utf8(text@) == bytes@,
{
    String::from_utf8(bytes)
}

/// Reads the title bytes as text.
pub fn decode_rom_title(title_buffer: &[u8]) -> (title: Option<String>)
    ensures
        match title {
            Some(text) => title_of(title_buffer@) == Some(text@),
            None => title_of(title_buffer@) is None,
        },
{
    match string_from_utf8(slice_to_vec(title_buffer)) {
        Ok(title) => {
            proof {
                encode_utf8_decode_utf8(title@);
            }
            Some(title)
        },
        Err(_) => None,
    }
}

/// Reads the cartridge type byte.
pub fn decode_cartridge_type(code: u8) -> (result: Result<CartridgeType, EmulationError>)
    ensures
        result == match CartridgeType::of_code(code) {
            Some(cartridge_type) => Ok::<CartridgeType, EmulationError>(cartridge_type),
            None => Err(EmulationError::UnknownCartridgeType { code }),
        },
{
    if let Some(cartridge_type) = CartridgeType::from_code(code) {
        Ok(cartridge_type)
    } else {
        Err(EmulationError::UnknownCartridgeType { code })
    }
}

/// Reads the ROM size code.
pub fn get_amount_of_rom_banks(code: u8) -> (result: Result<usize, EmulationError>)
    ensures
        result == match rom_banks_of(code) {
            Some(banks) => Ok::<usize, EmulationError>(banks),
            None => Err(EmulationError::InvalidRomSizeCode { code }),
        },
{
    proof {
        reveal_with_fuel(rom_banks_of, 10);
    }
    match code {
        0x00 => Ok(2),  // 32 KiB
        0x01 => Ok(4),  // 64 KiB
        0x02 => Ok(8),  // 128 KiB
        0x03 => Ok(16),  // 256 KiB
        0x04 => Ok(32),  // 512 KiB
        0x05 => Ok(64),  // 1 MiB
        0x06 => Ok(128),  // 2 MiB
        0x07 => Ok(256),  // 4 MiB
        0x08 => Ok(512),  // 8 MiB
        _ => Err(EmulationError::InvalidRomSizeCode { code }),
    }
}

/// Reads the RAM size code.
pub fn get_amount_of_ram_banks(code: u8) -> (result: Result<usize, EmulationError>)
    ensures
        result == match ram_banks_of(code) {
            Some(banks) => Ok::<usize, EmulationError>(banks),
            None => Err(EmulationError::InvalidRamSizeCode { code }),
        },
{
    match code {
        0x00 => Ok(0),  // no RAM
        0x01 => Ok(0),  // unused
        0x02 => Ok(1),  // 8 KiB
        0x03 => Ok(4),  // 32 KiB
        0x04 => Ok(16),  // 128 KiB
        0x05 => Ok(8),  // 64 KiB
        _ => Err(EmulationError::InvalidRamSizeCode { code }),
    }
}

} // verus!
