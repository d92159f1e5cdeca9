// The errors of the emulator and what they tell the user.

use crate::cartridge::cartridge_type::CartridgeType;
use vstd::prelude::*;
use vstd::string::*;

verus! {

/// Everything that can go wrong while a ROM is loaded or an instruction runs. None of these
/// is retried: each points at a damaged ROM image or at a gap in the decoder.
#[derive(Clone, Copy, Debug, PartialEq, Eq)]
pub enum EmulationError {
    /// Nothing readable lives at `address`.
    InvalidMemoryRead { address: usize },
    /// `value` cannot be written to `address`.
    InvalidMemoryWrite { address: usize, value: u8 },
    /// The opcode table holds nothing for `opcode`.
    UnknownOpcode { opcode: u8, is_prefixed: bool },
    /// The ROM image has no byte at `index`.
    InvalidRomIndex { index: usize },
    /// The ROM image is too short for a header, or its length contradicts its header.
    InvalidRom,
    /// The header names a cartridge type that does not exist.
    UnknownCartridgeType { code: u8 },
    /// The cartridge type exists, but its banking is not emulated.
    UnsupportedCartridgeType { cartridge_type: CartridgeType },
    /// The header's ROM size code is not in the table.
    InvalidRomSizeCode { code: u8 },
    /// The header's RAM size code is not in the table.
    InvalidRamSizeCode { code: u8 },
    /// The bus was used before a cartridge was attached.
    NoRom,
}

/// The character of one hexadecimal digit, in upper case.
pub open spec fn hex_digit(digit: int) -> char {
    if digit == 0 {
        '0'
    } else if digit == 1 {
        '1'
    } else if digit == 2 {
        '2'
    } else if digit == 3 {
        '3'
    } else if digit == 4 {
        '4'
    } else if digit == 5 {
        '5'
    } else if digit == 6 {
        '6'
    } else if digit == 7 {
        '7'
    } else if digit == 8 {
        '8'
    } else if digit == 9 {
        '9'
    } else if digit == 10 {
        'A'
    } else if digit == 11 {
        'B'
    } else if digit == 12 {
        'C'
    } else if digit == 13 {
        'D'
    } else if digit == 14 {
        'E'
    } else {
        'F'
    }
}

/// `value` in hexadecimal, most significant digit first, with zeros in front where it has
/// fewer than `width` digits.
pub open spec fn hex_digits(value: nat, width: nat) -> Seq<char>
    decreases value, width,
{
    if value < 16 && width <= 1 {
        seq![hex_digit(value as int)]
    } else {
        hex_digits(
            value / 16,
            if width > 0 {
                (width - 1) as nat
            } else {
                0
            },
        ) + seq![hex_digit((value % 16) as int)]
    }
}

/// `value` in decimal, most significant digit first.
pub open spec fn decimal_digits(value: nat) -> Seq<char>
    decreases value,
{
    if value < 10 {
        seq![hex_digit(value as int)]
    } else {
        decimal_digits(value / 10) + seq![hex_digit((value % 10) as int)]
    }
}

/// `value` in hexadecimal behind `0x`, with at least `width` digits.
pub open spec fn hex_text(value: nat, width: nat) -> Seq<char> {
    "0x"@ + hex_digits(value, width)
}

/// `value` in decimal.
pub open spec fn decimal_text(value: nat) -> Seq<char> {
    decimal_digits(value)
}

/// One digit as text.
fn digit_str(digit: usize) -> (text: &'static str)
    requires
        digit < 16,
    ensures
        text@ == seq![hex_digit(digit as int)],
{
    proof {
        reveal_strlit("0");
        reveal_strlit("1");
        reveal_strlit("2");
        reveal_strlit("3");
        reveal_strlit("4");
        reveal_strlit("5");
        reveal_strlit("6");
        reveal_strlit("7");
        reveal_strlit("8");
        reveal_strlit("9");
        reveal_strlit("A");
        reveal_strlit("B");
        reveal_strlit("C");
        reveal_strlit("D");
        reveal_strlit("E");
        reveal_strlit("F");
    }
    let text: &'static str = match digit {
        0 => "0",
        1 => "1",
        2 => "2",
        3 => "3",
        4 => "4",
        5 => "5",
        6 => "6",
        7 => "7",
        8 => "8",
        9 => "9",
        10 => "A",
        11 => "B",
        12 => "C",
        13 => "D",
        14 => "E",
        _ => "F",
    };
    assert(text@ =~= seq![hex_digit(digit as int)]);
    text
}

/// Appends `value` in hexadecimal to `text`, with at least `width` digits.
fn append_hex(text: &mut String, value: usize, width: usize)
    ensures
        final(text)@ == old(text)@ + hex_digits(value as nat, width as nat),
    decreases value, width,
{
    if value < 16 && width <= 1 {
        text.append(digit_str(value));
    } else {
        let ghost before = text@;
        let rest: usize = if width == 0 {
            0
        } else {
            width - 1
        };
        append_hex(text, value / 16, rest);
        text.append(digit_str(value % 16));
        assert(text@ =~= before + hex_digits(value as nat, width as nat));
    }
}

/// Appends `value` in decimal to `text`.
fn append_decimal(text: &mut String, value: usize)
    ensures
        final(text)@ == old(text)@ + decimal_digits(value as nat),
    decreases value,
{
    if value < 10 {
        text.append(digit_str(value));
    } else {
        let ghost before = text@;
        append_decimal(text, value / 10);
        text.append(digit_str(value % 10));
        assert(text@ =~= before + decimal_digits(value as nat));
    }
}

impl EmulationError {
    /// The text of [`EmulationError::message`]. Addresses, values and opcodes are written in
    /// hexadecimal with at least four digits, header codes with at least two.
    pub open spec fn message_text(self) -> Seq<char> {
        match self {
            EmulationError::InvalidMemoryRead { address } => "Invalid read on address "@
                + hex_text(address as nat, 4),
            EmulationError::InvalidMemoryWrite { address, value } =>
                "Invalid write read on address "@ + hex_text(address as nat, 4) + " with value "@
                + hex_text(value as nat, 4),
            EmulationError::UnknownOpcode { opcode, is_prefixed } => "Unknown opcode: "@
                + hex_text(opcode as nat, 4) + (if is_prefixed {
                " prefixed"@
            } else {
                " not prefixed"@
            }),
            EmulationError::InvalidRomIndex { index } => "ROM has no index "@ + decimal_text(
                index as nat,
            ),
            EmulationError::InvalidRom => "Invalid ROM"@,
            EmulationError::UnknownCartridgeType { code } =>
                "Unknown cartridge type code with code "@ + hex_text(code as nat, 2),
            EmulationError::InvalidRomSizeCode { code } =>
                "This ROM's header informs an invalid ROM size code "@ + hex_text(code as nat, 2),
            EmulationError::InvalidRamSizeCode { code } =>
                "This ROM's header informs an invalid RAM size code "@ + hex_text(code as nat, 2),
            EmulationError::UnsupportedCartridgeType { cartridge_type } => "The cartridge type \""@
                + cartridge_type.name_text() + "\" is not supported"@,
            EmulationError::NoRom => "No ROM loaded"@,
        }
    }

    /// What to tell the user about the error.
    pub fn message(&self) -> (text: String)
        ensures
            text@ == self.message_text(),
    {
        match *self {
            EmulationError::InvalidMemoryRead { address } => {
                let mut text = String::from_str("Invalid read on address ");
                text.append("0x");
                append_hex(&mut text, address, 4);
                assert(text@ =~= self.message_text());
                text
            },
            EmulationError::InvalidMemoryWrite { address, value } => {
                let mut text = String::from_str("Invalid write read on address ");
                text.append("0x");
                append_hex(&mut text, address, 4);
                text.append(" with value ");
                text.append("0x");
                append_hex(&mut text, value as usize, 4);
                assert(text@ =~= self.message_text());
                text
            },
            EmulationError::UnknownOpcode { opcode, is_prefixed } => {
                // text that says if the opcode is prefixed or not
                let prefixed_or_not_text: &'static str = if is_prefixed {
                    " prefixed"
                } else {
                    " not prefixed"
                };
                let mut text = String::from_str("Unknown opcode: ");
                text.append("0x");
                append_hex(&mut text, opcode as usize, 4);
                text.append(prefixed_or_not_text);
                assert(text@ =~= self.message_text());
                text
            },
            EmulationError::InvalidRomIndex { index } => {
                let mut text = String::from_str("ROM has no index ");
                append_decimal(&mut text, index);
                text
            },
            EmulationError::InvalidRom => String::from_str("Invalid ROM"),
            EmulationError::UnknownCartridgeType { code } => {
                let mut text = String::from_str("Unknown cartridge type code with code ");
                text.append("0x");
                append_hex(&mut text, code as usize, 2);
                assert(text@ =~= self.message_text());
                text
            },
            EmulationError::InvalidRomSizeCode { code } => {
                let mut text = String::from_str(
                    "This ROM's header informs an invalid ROM size code ",
                );
                text.append("0x");
                append_hex(&mut text, code as usize, 2);
                assert(text@ =~= self.message_text());
                text
            },
            EmulationError::InvalidRamSizeCode { code } => {
                let mut text = String::from_str(
                    "This ROM's header informs an invalid RAM size code ",
                );
                text.append("0x");
                append_hex(&mut text, code as usize, 2);
                assert(text@ =~= self.message_text());
                text
            },
            EmulationError::UnsupportedCartridgeType { cartridge_type } => {
                let mut text = String::from_str("The cartridge type \"");
                text.append(cartridge_type.name());
                text.append("\" is not supported");
                text
            },
            EmulationError::NoRom => String::from_str("No ROM loaded"),
        }
    }
}

} // verus!
