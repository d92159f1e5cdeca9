// The interrupt registers.

use vstd::prelude::*;
use vstd::std_specs::convert::FromSpecImpl;

verus! {

/// The five interrupt sources of an interrupt register, bit 0 first.
#[derive(Clone, Copy, Debug, PartialEq, Eq)]
pub struct InterruptRegister {
    pub v_blank: bool,
    pub lcd_stat: bool,
    pub timer: bool,
    pub serial: bool,
    pub joypad: bool,
}

impl InterruptRegister {
    /// The register as a byte: v-blank is worth 1, LCD status 2, timer 4, serial 8, joypad 16.
    pub open spec fn to_byte(self) -> u8 {
        ((if self.v_blank { 1int } else { 0 }) + (if self.lcd_stat { 2int } else { 0 }) + (
        if self.timer { 4int } else { 0 }) + (if self.serial { 8int } else { 0 }) + (
        if self.joypad { 16int } else { 0 })) as u8
    }

    /// The register that a byte holds in its bits 0 to 4.
    pub open spec fn of_byte(byte: u8) -> InterruptRegister {
        InterruptRegister {
            v_blank: byte % 2 == 1,
            lcd_stat: byte / 2 % 2 == 1,
            timer: byte / 4 % 2 == 1,
            serial: byte / 8 % 2 == 1,
            joypad: byte / 16 % 2 == 1,
        }
    }
}

impl From<InterruptRegister> for u8 {
    fn from(register: InterruptRegister) -> (byte: u8) {
        let v_blank: u8 = if register.v_blank { 1 } else { 0 };
        let lcd_stat: u8 = if register.lcd_stat { 1 } else { 0 };
        let timer: u8 = if register.timer { 1 } else { 0 };
        let serial: u8 = if register.serial { 1 } else { 0 };
        let joypad: u8 = if register.joypad { 1 } else { 0 };
        let byte: u8 = v_blank | (lcd_stat << 1) | (timer << 2) | (serial << 3) | (joypad << 4);
        assert(byte == v_blank + 2 * lcd_stat + 4 * timer + 8 * serial + 16 * joypad)
            by (bit_vector)
            requires
                byte == v_blank | (lcd_stat << 1u8) | (timer << 2u8) | (serial << 3u8) | (joypad
                    << 4u8),
                v_blank <= 1,
                lcd_stat <= 1,
                timer <= 1,
                serial <= 1,
                joypad <= 1,
        ;
        byte
    }
}

impl FromSpecImpl<InterruptRegister> for u8 {
    open spec fn obeys_from_spec() -> bool {
        true
    }

    open spec fn from_spec(register: InterruptRegister) -> u8 {
        register.to_byte()
    }
}

impl From<u8> for InterruptRegister {
    fn from(byte: u8) -> (register: InterruptRegister) {
        let v_blank: bool = ((byte >> 0) & 0b1) != 0;
        let lcd_stat: bool = ((byte >> 1) & 0b1) != 0;
        let timer: bool = ((byte >> 2) & 0b1) != 0;
        let serial: bool = ((byte >> 3) & 0b1) != 0;
        let joypad: bool = ((byte >> 4) & 0b1) != 0;
        assert((((byte >> 0u8) & 1) != 0) == (byte % 2 == 1) && (((byte >> 1u8) & 1) != 0) == (byte
            / 2 % 2 == 1) && (((byte >> 2u8) & 1) != 0) == (byte / 4 % 2 == 1) && (((byte >> 3u8)
            & 1) != 0) == (byte / 8 % 2 == 1) && (((byte >> 4u8) & 1) != 0) == (byte / 16 % 2
            == 1)) by (bit_vector);
        InterruptRegister { v_blank, lcd_stat, timer, serial, joypad }
    }
}

impl FromSpecImpl<u8> for InterruptRegister {
    open spec fn obeys_from_spec() -> bool {
        true
    }

    open spec fn from_spec(byte: u8) -> InterruptRegister {
        InterruptRegister::of_byte(byte)
    }
}

} // verus!
