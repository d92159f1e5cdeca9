// The cartridge types that a header can name.

use vstd::prelude::*;

verus! {

/// The kind of cartridge that byte 0x0147 of the header names.
#[derive(Clone, Copy, Debug, PartialEq, Eq)]
pub enum CartridgeType {
    RomOnly,
    Mbc1,
    Mbc1Ram,
    Mbc1RamBattery,
    Mbc2,
    Mbc2Battery,
    RomRam,
    RomRamBattery,
    Mmm01,
    Mmm01Ram,
    Mmm01RamBattery,
    Mbc3TimerBattery,
    Mbc3TimerRamBattery,
    Mbc3,
    Mbc3Ram,
    Mbc3RamBattery,
    Mbc5,
    Mbc5Ram,
    Mbc5RamBattery,
    Mbc5Rumble,
    Mbc5RumbleRam,
    Mbc5RumbleRamBattery,
    Mbc6,
    Mbc7SensorRumbleRamBattery,
    PocketCamera,
    BandaiTama5,
    HuC3,
    HuC1RamBattery,
}

impl CartridgeType {
    /// The header byte that stands for this cartridge type.
    pub open spec fn code(self) -> u8 {
        match self {
            CartridgeType::RomOnly => 0x00,
            CartridgeType::Mbc1 => 0x01,
            CartridgeType::Mbc1Ram => 0x02,
            CartridgeType::Mbc1RamBattery => 0x03,
            CartridgeType::Mbc2 => 0x05,
            CartridgeType::Mbc2Battery => 0x06,
            CartridgeType::RomRam => 0x08,
            CartridgeType::RomRamBattery => 0x09,
            CartridgeType::Mmm01 => 0x0B,
            CartridgeType::Mmm01Ram => 0x0C,
            CartridgeType::Mmm01RamBattery => 0x0D,
            CartridgeType::Mbc3TimerBattery => 0x0F,
            CartridgeType::Mbc3TimerRamBattery => 0x10,
            CartridgeType::Mbc3 => 0x11,
            CartridgeType::Mbc3Ram => 0x12,
            CartridgeType::Mbc3RamBattery => 0x13,
            CartridgeType::Mbc5 => 0x19,
            CartridgeType::Mbc5Ram => 0x1A,
            CartridgeType::Mbc5RamBattery => 0x1B,
            CartridgeType::Mbc5Rumble => 0x1C,
            CartridgeType::Mbc5RumbleRam => 0x1D,
            CartridgeType::Mbc5RumbleRamBattery => 0x1E,
            CartridgeType::Mbc6 => 0x20,
            CartridgeType::Mbc7SensorRumbleRamBattery => 0x22,
            CartridgeType::PocketCamera => 0xFC,
            CartridgeType::BandaiTama5 => 0xFD,
            CartridgeType::HuC3 => 0xFE,
            CartridgeType::HuC1RamBattery => 0xFF,
        }
    }

    /// The cartridge type that the header byte `code` stands for, if there is one.
    pub open spec fn of_code(code: u8) -> Option<CartridgeType> {
        if code == 0x00 {
            Some(CartridgeType::RomOnly)
        }         else if code == 0x01 {
            Some(CartridgeType::Mbc1)
        }         else if code == 0x02 {
            Some(CartridgeType::Mbc1Ram)
        }         else if code == 0x03 {
            Some(CartridgeType::Mbc1RamBattery)
        }         else if code == 0x05 {
            Some(CartridgeType::Mbc2)
        }         else if code == 0x06 {
            Some(CartridgeType::Mbc2Battery)
        }         else if code == 0x08 {
            Some(CartridgeType::RomRam)
        }         else if code == 0x09 {
            Some(CartridgeType::RomRamBattery)
        }         else if code == 0x0B {
            Some(CartridgeType::Mmm01)
        }         else if code == 0x0C {
            Some(CartridgeType::Mmm01Ram)
        }         else if code == 0x0D {
            Some(CartridgeType::Mmm01RamBattery)
        }         else if code == 0x0F {
            Some(CartridgeType::Mbc3TimerBattery)
        }         else if code == 0x10 {
            Some(CartridgeType::Mbc3TimerRamBattery)
        }         else if code == 0x11 {
            Some(CartridgeType::Mbc3)
        }         else if code == 0x12 {
            Some(CartridgeType::Mbc3Ram)
        }         else if code == 0x13 {
            Some(CartridgeType::Mbc3RamBattery)
        }         else if code == 0x19 {
            Some(CartridgeType::Mbc5)
        }         else if code == 0x1A {
            Some(CartridgeType::Mbc5Ram)
        }         else if code == 0x1B {
            Some(CartridgeType::Mbc5RamBattery)
        }         else if code == 0x1C {
            Some(CartridgeType::Mbc5Rumble)
        }         else if code == 0x1D {
            Some(CartridgeType::Mbc5RumbleRam)
        }         else if code == 0x1E {
            Some(CartridgeType::Mbc5RumbleRamBattery)
        }         else if code == 0x20 {
            Some(CartridgeType::Mbc6)
        }         else if code == 0x22 {
            Some(CartridgeType::Mbc7SensorRumbleRamBattery)
        }         else if code == 0xFC {
            Some(CartridgeType::PocketCamera)
        }         else if code == 0xFD {
            Some(CartridgeType::BandaiTama5)
        }         else if code == 0xFE {
            Some(CartridgeType::HuC3)
        }         else if code == 0xFF {
            Some(CartridgeType::HuC1RamBattery)
        } else {
            None
        }
    }

    /// Reads a header byte as a cartridge type.
    pub fn from_code(code: u8) -> (cartridge_type: Option<CartridgeType>)
        ensures
            cartridge_type == CartridgeType::of_code(code),
    {
        match code {
            0x00 => Some(CartridgeType::RomOnly),
            0x01 => Some(CartridgeType::Mbc1),
            0x02 => Some(CartridgeType::Mbc1Ram),
            0x03 => Some(CartridgeType::Mbc1RamBattery),
            0x05 => Some(CartridgeType::Mbc2),
            0x06 => Some(CartridgeType::Mbc2Battery),
            0x08 => Some(CartridgeType::RomRam),
            0x09 => Some(CartridgeType::RomRamBattery),
            0x0B => Some(CartridgeType::Mmm01),
            0x0C => Some(CartridgeType::Mmm01Ram),
            0x0D => Some(CartridgeType::Mmm01RamBattery),
            0x0F => Some(CartridgeType::Mbc3TimerBattery),
            0x10 => Some(CartridgeType::Mbc3TimerRamBattery),
            0x11 => Some(CartridgeType::Mbc3),
            0x12 => Some(CartridgeType::Mbc3Ram),
            0x13 => Some(CartridgeType::Mbc3RamBattery),
            0x19 => Some(CartridgeType::Mbc5),
            0x1A => Some(CartridgeType::Mbc5Ram),
            0x1B => Some(CartridgeType::Mbc5RamBattery),
            0x1C => Some(CartridgeType::Mbc5Rumble),
            0x1D => Some(CartridgeType::Mbc5RumbleRam),
            0x1E => Some(CartridgeType::Mbc5RumbleRamBattery),
            0x20 => Some(CartridgeType::Mbc6),
            0x22 => Some(CartridgeType::Mbc7SensorRumbleRamBattery),
            0xFC => Some(CartridgeType::PocketCamera),
            0xFD => Some(CartridgeType::BandaiTama5),
            0xFE => Some(CartridgeType::HuC3),
            0xFF => Some(CartridgeType::HuC1RamBattery),
            _ => None,
        }
    }

    /// The header byte of this cartridge type.
    pub fn to_code(&self) -> (code: u8)
        ensures
            code == self.code(),
            CartridgeType::of_code(code) == Some(*self),
    {
        match self {
            CartridgeType::RomOnly => 0x00,
            CartridgeType::Mbc1 => 0x01,
            CartridgeType::Mbc1Ram => 0x02,
            CartridgeType::Mbc1RamBattery => 0x03,
            CartridgeType::Mbc2 => 0x05,
            CartridgeType::Mbc2Battery => 0x06,
            CartridgeType::RomRam => 0x08,
            CartridgeType::RomRamBattery => 0x09,
            CartridgeType::Mmm01 => 0x0B,
            CartridgeType::Mmm01Ram => 0x0C,
            CartridgeType::Mmm01RamBattery => 0x0D,
            CartridgeType::Mbc3TimerBattery => 0x0F,
            CartridgeType::Mbc3TimerRamBattery => 0x10,
            CartridgeType::Mbc3 => 0x11,
            CartridgeType::Mbc3Ram => 0x12,
            CartridgeType::Mbc3RamBattery => 0x13,
            CartridgeType::Mbc5 => 0x19,
            CartridgeType::Mbc5Ram => 0x1A,
            CartridgeType::Mbc5RamBattery => 0x1B,
            CartridgeType::Mbc5Rumble => 0x1C,
            CartridgeType::Mbc5RumbleRam => 0x1D,
            CartridgeType::Mbc5RumbleRamBattery => 0x1E,
            CartridgeType::Mbc6 => 0x20,
            CartridgeType::Mbc7SensorRumbleRamBattery => 0x22,
            CartridgeType::PocketCamera => 0xFC,
            CartridgeType::BandaiTama5 => 0xFD,
            CartridgeType::HuC3 => 0xFE,
            CartridgeType::HuC1RamBattery => 0xFF,
        }
    }

    /// The name under which the cartridge type is shown.
    pub fn name(&self) -> (name: &'static str)
        ensures
            name@ == self.name_text(),
    {
        match self {
            CartridgeType::RomOnly => "ROM only",
            CartridgeType::Mbc1 => "MBC1",
            CartridgeType::Mbc1Ram => "MBC1 + RAM",
            CartridgeType::Mbc1RamBattery => "MBC1 + RAM + battery",
            CartridgeType::Mbc2 => "MBC2",
            CartridgeType::Mbc2Battery => "MBC2 + battery",
            CartridgeType::RomRam => "ROM + RAM",
            CartridgeType::RomRamBattery => "ROM + RAM + battery",
            CartridgeType::Mmm01 => "MMM1",
            CartridgeType::Mmm01Ram => "MMM1 + RAM",
            CartridgeType::Mmm01RamBattery => "MMM1 + RAM + battery",
            CartridgeType::Mbc3TimerBattery => "MBC3 + timer + battery",
            CartridgeType::Mbc3TimerRamBattery => "MBC3 + timer + RAM + battery",
            CartridgeType::Mbc3 => "MBC3",
            CartridgeType::Mbc3Ram => "MBC3 + RAM",
            CartridgeType::Mbc3RamBattery => "MBC3 + RAM + battery",
            CartridgeType::Mbc5 => "MBC5",
            CartridgeType::Mbc5Ram => "MBC5 + RAM",
            CartridgeType::Mbc5RamBattery => "MBC5 + RAM + battery",
            CartridgeType::Mbc5Rumble => "MBC5 + rumble",
            CartridgeType::Mbc5RumbleRam => "MBC5 + rumble + RAM",
            CartridgeType::Mbc5RumbleRamBattery => "MBC5 + rumble + RAM + battery",
            CartridgeType::Mbc6 => "MBC6",
            CartridgeType::Mbc7SensorRumbleRamBattery => "MBC7 + sensor + rumble + RAM + battery",
            CartridgeType::PocketCamera => "Pocket Camera",
            CartridgeType::BandaiTama5 => "Bandai Tama 5",
            CartridgeType::HuC3 => "HuC3",
            CartridgeType::HuC1RamBattery => "HuC1 + RAM + battery",
        }
    }

    /// The text of [`CartridgeType::name`].
    pub open spec fn name_text(self) -> Seq<char> {
        match self {
            CartridgeType::RomOnly => "ROM only"@,
            CartridgeType::Mbc1 => "MBC1"@,
            CartridgeType::Mbc1Ram => "MBC1 + RAM"@,
            CartridgeType::Mbc1RamBattery => "MBC1 + RAM + battery"@,
            CartridgeType::Mbc2 => "MBC2"@,
            CartridgeType::Mbc2Battery => "MBC2 + battery"@,
            CartridgeType::RomRam => "ROM + RAM"@,
            CartridgeType::RomRamBattery => "ROM + RAM + battery"@,
            CartridgeType::Mmm01 => "MMM1"@,
            CartridgeType::Mmm01Ram => "MMM1 + RAM"@,
            CartridgeType::Mmm01RamBattery => "MMM1 + RAM + battery"@,
            CartridgeType::Mbc3TimerBattery => "MBC3 + timer + battery"@,
            CartridgeType::Mbc3TimerRamBattery => "MBC3 + timer + RAM + battery"@,
            CartridgeType::Mbc3 => "MBC3"@,
            CartridgeType::Mbc3Ram => "MBC3 + RAM"@,
            CartridgeType::Mbc3RamBattery => "MBC3 + RAM + battery"@,
            CartridgeType::Mbc5 => "MBC5"@,
            CartridgeType::Mbc5Ram => "MBC5 + RAM"@,
            CartridgeType::Mbc5RamBattery => "MBC5 + RAM + battery"@,
            CartridgeType::Mbc5Rumble => "MBC5 + rumble"@,
            CartridgeType::Mbc5RumbleRam => "MBC5 + rumble + RAM"@,
            CartridgeType::Mbc5RumbleRamBattery => "MBC5 + rumble + RAM + battery"@,
            CartridgeType::Mbc6 => "MBC6"@,
            CartridgeType::Mbc7SensorRumbleRamBattery => "MBC7 + sensor + rumble + RAM + battery"@,
            CartridgeType::PocketCamera => "Pocket Camera"@,
            CartridgeType::BandaiTama5 => "Bandai Tama 5"@,
            CartridgeType::HuC3 => "HuC3"@,
            CartridgeType::HuC1RamBattery => "HuC1 + RAM + battery"@,
        }
    }
}

} // verus!
