// The register file and the flags.

use crate::bits::{high_byte, join_bytes, low_byte, split_word, word_of};
use vstd::prelude::*;
use vstd::std_specs::convert::FromSpecImpl;

verus! {

pub const ZERO_FLAG_BYTE_POSITION: u8 = 7;

pub const SUBTRACT_FLAG_BYTE_POSITION: u8 = 6;

pub const HALF_CARRY_FLAG_BYTE_POSITION: u8 = 5;

pub const CARRY_FLAG_BYTE_POSITION: u8 = 4;

/// The register file: seven 8-bit registers and the flags.
#[derive(Copy, Clone, Debug, PartialEq, Eq)]
pub struct Registers {
    pub a: u8,
    pub b: u8,
    pub c: u8,
    pub d: u8,
    pub e: u8,
    pub f: FlagsRegister,
    pub h: u8,
    pub l: u8,
}

/// The four status flags. As a byte they sit in bits 7 to 4; bits 3 to 0 are zero.
#[derive(Copy, Clone, Debug, PartialEq, Eq)]
pub struct FlagsRegister {
    pub zero: bool,
    pub subtract: bool,
    pub half_carry: bool,
    pub carry: bool,
}

impl FlagsRegister {
    /// All flags clear.
    pub fn new() -> (flags: FlagsRegister)
        ensures
            flags == (FlagsRegister {
                zero: false,
                subtract: false,
                half_carry: false,
                carry: false,
            }),
    {
        FlagsRegister { zero: false, subtract: false, half_carry: false, carry: false }
    }

    /// The flags as a byte: zero is worth 128, subtract 64, half-carry 32, carry 16.
    pub open spec fn to_byte(self) -> u8 {
        ((if self.zero { 128int } else { 0 }) + (if self.subtract { 64int } else { 0 }) + (
        if self.half_carry { 32int } else { 0 }) + (if self.carry { 16int } else { 0 })) as u8
    }

    /// The flags that a byte holds in its bits 7 to 4.
    pub open spec fn of_byte(byte: u8) -> FlagsRegister {
        FlagsRegister {
            zero: byte / 128 % 2 == 1,
            subtract: byte / 64 % 2 == 1,
            half_carry: byte / 32 % 2 == 1,
            carry: byte / 16 % 2 == 1,
        }
    }

    /// Flags survive the way through a byte, and a byte comes back without its low four bits.
    pub proof fn lemma_byte_round_trip(flags: FlagsRegister, byte: u8)
        ensures
            FlagsRegister::of_byte(flags.to_byte()) == flags,
            flags.to_byte() % 16 == 0,
            FlagsRegister::of_byte(byte).to_byte() == byte - byte % 16,
    {
    }
}

impl From<FlagsRegister> for u8 {
    fn from(flag: FlagsRegister) -> (byte: u8) {
        let zero: u8 = if flag.zero { 1 } else { 0 };
        let subtract: u8 = if flag.subtract { 1 } else { 0 };
        let half_carry: u8 = if flag.half_carry { 1 } else { 0 };
        let carry: u8 = if flag.carry { 1 } else { 0 };
        let byte: u8 = zero << ZERO_FLAG_BYTE_POSITION | subtract << SUBTRACT_FLAG_BYTE_POSITION
            | half_carry << HALF_CARRY_FLAG_BYTE_POSITION | carry << CARRY_FLAG_BYTE_POSITION;
        assert(byte == 128 * zero + 64 * subtract + 32 * half_carry + 16 * carry) by (bit_vector)
            requires
                byte == zero << 7u8 | subtract << 6u8 | half_carry << 5u8 | carry << 4u8,
                zero <= 1,
                subtract <= 1,
                half_carry <= 1,
                carry <= 1,
        ;
        byte
    }
}

impl FromSpecImpl<FlagsRegister> for u8 {
    open spec fn obeys_from_spec() -> bool {
        true
    }

    open spec fn from_spec(flag: FlagsRegister) -> u8 {
        flag.to_byte()
    }
}

impl From<u8> for FlagsRegister {
    fn from(byte: u8) -> (flags: FlagsRegister) {
        let zero: bool = ((byte >> ZERO_FLAG_BYTE_POSITION) & 0b1) != 0;
        let subtract: bool = ((byte >> SUBTRACT_FLAG_BYTE_POSITION) & 0b1) != 0;
        let half_carry: bool = ((byte >> HALF_CARRY_FLAG_BYTE_POSITION) & 0b1) != 0;
        let carry: bool = ((byte >> CARRY_FLAG_BYTE_POSITION) & 0b1) != 0;
        assert((((byte >> 7u8) & 1) != 0) == (byte / 128 % 2 == 1) && (((byte >> 6u8) & 1) != 0)
            == (byte / 64 % 2 == 1) && (((byte >> 5u8) & 1) != 0) == (byte / 32 % 2 == 1) && (((byte
            >> 4u8) & 1) != 0) == (byte / 16 % 2 == 1)) by (bit_vector);
        FlagsRegister { zero, subtract, half_carry, carry }
    }
}

impl FromSpecImpl<u8> for FlagsRegister {
    open spec fn obeys_from_spec() -> bool {
        true
    }

    open spec fn from_spec(byte: u8) -> FlagsRegister {
        FlagsRegister::of_byte(byte)
    }
}

impl Registers {
    /// All registers at zero.
    pub fn new() -> (registers: Registers)
        ensures
            registers == (Registers {
                a: 0,
                b: 0,
                c: 0,
                d: 0,
                e: 0,
                f: FlagsRegister {
                    zero: false,
                    subtract: false,
                    half_carry: false,
                    carry: false,
                },
                h: 0,
                l: 0,
            }),
    {
        Registers { a: 0, b: 0, c: 0, d: 0, e: 0, f: FlagsRegister::new(), h: 0, l: 0 }
    }

    /// The pair AF: A in the upper byte, the flags in the lower.
    pub open spec fn af(&self) -> u16 {
        word_of(self.a, self.f.to_byte())
    }

    /// The pair BC: B in the upper byte, C in the lower.
    pub open spec fn bc(&self) -> u16 {
        word_of(self.b, self.c)
    }

    /// The pair DE: D in the upper byte, E in the lower.
    pub open spec fn de(&self) -> u16 {
        word_of(self.d, self.e)
    }

    /// The pair HL: H in the upper byte, L in the lower.
    pub open spec fn hl(&self) -> u16 {
        word_of(self.h, self.l)
    }

    /// The registers with AF set to `value`; the low four bits of `value` are dropped.
    pub open spec fn with_af(self, value: u16) -> Registers {
        Registers { a: high_byte(value), f: FlagsRegister::of_byte(low_byte(value)), ..self }
    }

    /// The registers with BC set to `value`.
    pub open spec fn with_bc(self, value: u16) -> Registers {
        Registers { b: high_byte(value), c: low_byte(value), ..self }
    }

    /// The registers with DE set to `value`.
    pub open spec fn with_de(self, value: u16) -> Registers {
        Registers { d: high_byte(value), e: low_byte(value), ..self }
    }

    /// The registers with HL set to `value`.
    pub open spec fn with_hl(self, value: u16) -> Registers {
        Registers { h: high_byte(value), l: low_byte(value), ..self }
    }

    /// Reads the pair AF.
    #[verifier::when_used_as_spec(af)]
    pub fn get_af(&self) -> (value: u16)
        ensures
            value == self.af(),
    {
        let f: u8 = u8::from(self.f);
        join_bytes(self.a, f)
    }

    /// Writes the pair AF.
    pub fn set_af(&mut self, value: u16)
        ensures
            *final(self) == old(self).with_af(value),
    {
        let (high, low) = split_word(value);
        self.a = high;
        self.f = FlagsRegister::from(low);
    }

    /// Reads the pair BC.
    #[verifier::when_used_as_spec(bc)]
    pub fn get_bc(&self) -> (value: u16)
        ensures
            value == self.bc(),
    {
        join_bytes(self.b, self.c)
    }

    /// Writes the pair BC.
    pub fn set_bc(&mut self, value: u16)
        ensures
            *final(self) == old(self).with_bc(value),
    {
        let (high, low) = split_word(value);
        self.b = high;
        self.c = low;
    }

    /// Reads the pair DE.
    #[verifier::when_used_as_spec(de)]
    pub fn get_de(&self) -> (value: u16)
        ensures
            value == self.de(),
    {
        join_bytes(self.d, self.e)
    }

    /// Writes the pair DE.
    pub fn set_de(&mut self, value: u16)
        ensures
            *final(self) == old(self).with_de(value),
    {
        let (high, low) = split_word(value);
        self.d = high;
        self.e = low;
    }

    /// Reads the pair HL.
    #[verifier::when_used_as_spec(hl)]
    pub fn get_hl(&self) -> (value: u16)
        ensures
            value == self.hl(),
    {
        join_bytes(self.h, self.l)
    }

    /// Writes the pair HL.
    pub fn set_hl(&mut self, value: u16)
        ensures
            *final(self) == old(self).with_hl(value),
    {
        let (high, low) = split_word(value);
        self.h = high;
        self.l = low;
    }

    /// A pair reads back what was written to it; AF reads back all but the low four bits.
    pub proof fn lemma_pairs_round_trip(self, value: u16)
        ensures
            self.with_bc(value).bc() == value,
            self.with_de(value).de() == value,
            self.with_hl(value).hl() == value,
            self.with_af(value).af() == value - value % 16,
    {
        reveal(word_of);
        reveal(high_byte);
        reveal(low_byte);
    }
}

} // verus!
