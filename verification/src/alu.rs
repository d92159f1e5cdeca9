// The arithmetic of the processor: what each operation makes of its operands and the flags,
// stated over numbers, and the code that computes it with shifts and masks.

use crate::bits::{bit_is_set, low_nibble, test_bit};
use crate::cpu_registers::FlagsRegister;
use vstd::prelude::*;

verus! {

/// A flag as a number: 1 when set, 0 when clear.
pub open spec fn flag_bit(flag: bool) -> int {
    if flag {
        1
    } else {
        0
    }
}

/// ADD: the sum modulo 256. Carry says that the sum passed 255, half-carry that the sum of
/// the low nibbles passed 15.
#[verifier::opaque]
pub open spec fn add_result(a: u8, value: u8) -> (u8, FlagsRegister) {
    let sum = a + value;
    (
        (sum % 256) as u8,
        FlagsRegister {
            zero: sum % 256 == 0,
            subtract: false,
            half_carry: a % 16 + value % 16 > 15,
            carry: sum > 255,
        },
    )
}

/// ADC: the carry is folded into the operand, modulo 256, and the result added as in ADD.
/// The half-carry is that of the operand before the carry was folded in.
#[verifier::opaque]
pub open spec fn adc_result(a: u8, value: u8, carry: bool) -> (u8, FlagsRegister) {
    let operand = (value + flag_bit(carry)) % 256;
    let sum = a + operand;
    (
        (sum % 256) as u8,
        FlagsRegister {
            zero: sum % 256 == 0,
            subtract: false,
            half_carry: a % 16 + value % 16 > 15,
            carry: sum > 255,
        },
    )
}

/// SUB and CP: the difference modulo 256. Carry says that the operand was the larger,
/// half-carry that its low nibble was.
#[verifier::opaque]
pub open spec fn sub_result(a: u8, value: u8) -> (u8, FlagsRegister) {
    let difference = (a - value) % 256;
    (
        difference as u8,
        FlagsRegister {
            zero: difference == 0,
            subtract: true,
            half_carry: a % 16 < value % 16,
            carry: a < value,
        },
    )
}

/// SBC: the carry is folded into the operand, modulo 256, and the result subtracted.
/// Carry says that the folded operand was the larger; half-carry says that the low nibble of
/// the operand together with the carry was larger than that of the accumulator.
#[verifier::opaque]
pub open spec fn sbc_result(a: u8, value: u8, carry: bool) -> (u8, FlagsRegister) {
    let operand = (value + flag_bit(carry)) % 256;
    let difference = (a - operand) % 256;
    (
        difference as u8,
        FlagsRegister {
            zero: difference == 0,
            subtract: true,
            half_carry: a % 16 < value % 16 + flag_bit(carry),
            carry: a < operand,
        },
    )
}

/// AND.
pub open spec fn and_result(a: u8, value: u8) -> (u8, FlagsRegister) {
    (a & value, FlagsRegister { zero: a & value == 0, subtract: false, half_carry: true, carry: false })
}

/// OR.
pub open spec fn or_result(a: u8, value: u8) -> (u8, FlagsRegister) {
    (a | value, FlagsRegister { zero: a | value == 0, subtract: false, half_carry: false, carry: false })
}

/// XOR.
pub open spec fn xor_result(a: u8, value: u8) -> (u8, FlagsRegister) {
    (a ^ value, FlagsRegister { zero: a ^ value == 0, subtract: false, half_carry: false, carry: false })
}

/// INC of a byte: one more, modulo 256. The carry stays.
#[verifier::opaque]
pub open spec fn inc_result(value: u8, flags: FlagsRegister) -> (u8, FlagsRegister) {
    let next = (value + 1) % 256;
    (
        next as u8,
        FlagsRegister {
            zero: next == 0,
            subtract: false,
            half_carry: value % 16 + 1 > 15,
            carry: flags.carry,
        },
    )
}

/// DEC of a byte: one less, modulo 256. The carry stays. Half-carry says that the low
/// nibble had nothing to give.
#[verifier::opaque]
pub open spec fn dec_result(value: u8, flags: FlagsRegister) -> (u8, FlagsRegister) {
    let next = (value - 1) % 256;
    (
        next as u8,
        FlagsRegister {
            zero: next == 0,
            subtract: true,
            half_carry: value % 16 == 0,
            carry: flags.carry,
        },
    )
}

/// DAA: the correction of the accumulator after an operation on packed decimals.
///
/// The correction is 0x06 where the half-carry is set, 0x60 where the carry is set, and both
/// where both are. After an addition the accumulator itself can ask for it too: 0x06 where
/// its low nibble is above 9, 0x60 where it is above 0x99. The correction is added after an
/// addition and taken off after a subtraction, modulo 256. The carry says that 0x60 was
/// applied; the half-carry is cleared.
#[verifier::opaque]
pub open spec fn daa_result(a: u8, flags: FlagsRegister) -> (u8, FlagsRegister) {
    let low = if flags.half_carry || (!flags.subtract && a % 16 > 9) {
        0x06int
    } else {
        0
    };
    let high = if flags.carry || (!flags.subtract && a > 0x99) {
        0x60int
    } else {
        0
    };
    let adjusted = if flags.subtract {
        (a - low - high) % 256
    } else {
        (a + low + high) % 256
    };
    (
        adjusted as u8,
        FlagsRegister {
            zero: adjusted == 0,
            subtract: flags.subtract,
            half_carry: false,
            carry: high != 0,
        },
    )
}

/// CPL: every bit of the accumulator flipped.
pub open spec fn cpl_result(a: u8, flags: FlagsRegister) -> (u8, FlagsRegister) {
    (!a, FlagsRegister { subtract: true, half_carry: true, ..flags })
}

/// CCF: the carry flipped.
pub open spec fn ccf_result(flags: FlagsRegister) -> FlagsRegister {
    FlagsRegister { subtract: false, half_carry: false, carry: !flags.carry, ..flags }
}

/// SCF: the carry set.
pub open spec fn scf_result(flags: FlagsRegister) -> FlagsRegister {
    FlagsRegister { subtract: false, half_carry: false, carry: true, ..flags }
}

/// ADD of two words: the sum modulo 65536. Carry says that the sum passed 65535, half-carry
/// that the sum of the lowest nibbles passed 15. The zero flag stays.
#[verifier::opaque]
pub open spec fn add16_result(target: u16, source: u16, flags: FlagsRegister) -> (
    u16,
    FlagsRegister,
) {
    let sum = target + source;
    (
        (sum % 0x1_0000) as u16,
        FlagsRegister {
            subtract: false,
            half_carry: target % 16 + source % 16 > 15,
            carry: sum > 0xFFFF,
            ..flags
        },
    )
}

/// BIT: zero says that the bit is clear. The carry stays.
pub open spec fn bit_result(bit: u8, byte: u8, flags: FlagsRegister) -> FlagsRegister {
    FlagsRegister { zero: !bit_is_set(byte, bit), subtract: false, half_carry: true, ..flags }
}

/// RES: the byte with one bit cleared.
pub open spec fn res_result(bit: u8, byte: u8) -> u8 {
    byte & !(1u8 << bit)
}

/// SET: the byte with one bit set.
pub open spec fn set_result(bit: u8, byte: u8) -> u8 {
    byte | (1u8 << bit)
}

/// The flags after a rotate or shift that gave `result` and pushed out `carry`.
pub open spec fn shifted_flags(result: u8, carry: bool) -> FlagsRegister {
    FlagsRegister { zero: result == 0, subtract: false, half_carry: false, carry }
}

/// RL: one bit to the left, the old carry entering at bit 0, bit 7 leaving into the carry.
#[verifier::opaque]
pub open spec fn rl_result(value: u8, carry: bool) -> (u8, FlagsRegister) {
    let result = ((value * 2) % 256 + flag_bit(carry)) as u8;
    (result, shifted_flags(result, value >= 128))
}

/// RLC: one bit to the left, bit 7 entering at bit 0 and leaving into the carry.
#[verifier::opaque]
pub open spec fn rlc_result(value: u8) -> (u8, FlagsRegister) {
    let result = ((value * 2) % 256 + value / 128) as u8;
    (result, shifted_flags(result, value >= 128))
}

/// RR: one bit to the right, the old carry entering at bit 7, bit 0 leaving into the carry.
#[verifier::opaque]
pub open spec fn rr_result(value: u8, carry: bool) -> (u8, FlagsRegister) {
    let result = (value / 2 + 128 * flag_bit(carry)) as u8;
    (result, shifted_flags(result, value % 2 == 1))
}

/// RRC: one bit to the right, bit 0 entering at bit 7 and leaving into the carry.
#[verifier::opaque]
pub open spec fn rrc_result(value: u8) -> (u8, FlagsRegister) {
    let result = (value / 2 + 128 * (value % 2)) as u8;
    (result, shifted_flags(result, value % 2 == 1))
}

/// SLA: one bit to the left, 0 entering at bit 0, bit 7 leaving into the carry.
#[verifier::opaque]
pub open spec fn sla_result(value: u8) -> (u8, FlagsRegister) {
    let result = ((value * 2) % 256) as u8;
    (result, shifted_flags(result, value >= 128))
}

/// SRA: one bit to the right, bit 7 staying as it is, bit 0 leaving into the carry.
#[verifier::opaque]
pub open spec fn sra_result(value: u8) -> (u8, FlagsRegister) {
    let result = (value / 2 + 128 * (value / 128)) as u8;
    (result, shifted_flags(result, value % 2 == 1))
}

/// SRL: one bit to the right, 0 entering at bit 7, bit 0 leaving into the carry.
#[verifier::opaque]
pub open spec fn srl_result(value: u8) -> (u8, FlagsRegister) {
    let result = (value / 2) as u8;
    (result, shifted_flags(result, value % 2 == 1))
}

/// SWAP: the two nibbles exchanged; the carry is cleared.
#[verifier::opaque]
pub open spec fn swap_result(value: u8) -> (u8, FlagsRegister) {
    let result = ((value % 16) * 16 + value / 16) as u8;
    (result, shifted_flags(result, false))
}

/// A signed 8-bit displacement added to an address, modulo 65536. Bytes from 0x80 on stand
/// for the negative displacements -128 to -1.
#[verifier::opaque]
pub open spec fn displaced(address: u16, displacement: u8) -> u16 {
    let signed = if displacement < 128 {
        displacement as int
    } else {
        displacement - 256
    };
    ((address + signed) % 0x1_0000) as u16
}

/// Computes [`add_result`].
pub fn add(a: u8, value: u8) -> (result: (u8, FlagsRegister))
    ensures
        result == add_result(a, value),
{
    reveal(add_result);
    let new_value: u8 = a.wrapping_add(value);
    let did_overflow: bool = value > 255 - a;
    let half_carry: bool = low_nibble(a) + low_nibble(value) > 0xF;
    (
        new_value,
        FlagsRegister { zero: new_value == 0, subtract: false, half_carry, carry: did_overflow },
    )
}

/// Computes [`adc_result`].
pub fn adc(a: u8, value: u8, carry: bool) -> (result: (u8, FlagsRegister))
    ensures
        result == adc_result(a, value, carry),
{
    reveal(adc_result);
    let c: u8 = if carry { 1 } else { 0 };
    let operand: u8 = value.wrapping_add(c);
    let new_value: u8 = a.wrapping_add(operand);
    let did_overflow: bool = operand > 255 - a;
    let half_carry: bool = low_nibble(a) + low_nibble(value) > 0xF;
    (
        new_value,
        FlagsRegister { zero: new_value == 0, subtract: false, half_carry, carry: did_overflow },
    )
}

/// Computes [`sub_result`].
pub fn sub(a: u8, value: u8) -> (result: (u8, FlagsRegister))
    ensures
        result == sub_result(a, value),
{
    reveal(sub_result);
    let new_value: u8 = a.wrapping_sub(value);
    let half_carry: bool = low_nibble(a) < low_nibble(value);
    (
        new_value,
        FlagsRegister { zero: new_value == 0, subtract: true, half_carry, carry: value > a },
    )
}

/// Computes [`sbc_result`].
pub fn sbc(a: u8, value: u8, carry: bool) -> (result: (u8, FlagsRegister))
    ensures
        result == sbc_result(a, value, carry),
{
    reveal(sbc_result);
    let c: u8 = if carry { 1 } else { 0 };
    let operand: u8 = value.wrapping_add(c);
    let new_value: u8 = a.wrapping_sub(operand);
    let did_overflow: bool = operand > a;
    let half_carry: bool = ((new_value ^ value ^ a) & 0x10) == 0x10;
    proof {
        let wide_a: u16 = a as u16;
        let wide_value: u16 = value as u16;
        let wide_c: u16 = c as u16;
        let wide_result: u16 = new_value as u16;
        assert(half_carry == ((wide_result ^ wide_value ^ wide_a) & 0x10 == 0x10)) by (bit_vector)
            requires
                half_carry == (((new_value ^ value ^ a) & 0x10) == 0x10),
                wide_a == a as u16,
                wide_value == value as u16,
                wide_result == new_value as u16,
        ;
        assert(((wide_result ^ wide_value ^ wide_a) & 0x10 == 0x10) == (wide_a % 16 < wide_value
            % 16 + wide_c)) by (bit_vector)
            requires
                wide_a <= 255,
                wide_value <= 255,
                wide_result <= 255,
                wide_c <= 1,
                wide_result + wide_value + wide_c == wide_a || wide_result + wide_value + wide_c
                    == wide_a + 256,
        ;
    }
    (
        new_value,
        FlagsRegister { zero: new_value == 0, subtract: true, half_carry, carry: did_overflow },
    )
}

/// Computes [`and_result`].
pub fn and(a: u8, value: u8) -> (result: (u8, FlagsRegister))
    ensures
        result == and_result(a, value),
{
    let new_value: u8 = a & value;
    (
        new_value,
        FlagsRegister { zero: new_value == 0, subtract: false, half_carry: true, carry: false },
    )
}

/// Computes [`or_result`].
pub fn or(a: u8, value: u8) -> (result: (u8, FlagsRegister))
    ensures
        result == or_result(a, value),
{
    let new_value: u8 = a | value;
    (
        new_value,
        FlagsRegister { zero: new_value == 0, subtract: false, half_carry: false, carry: false },
    )
}

/// Computes [`xor_result`].
pub fn xor(a: u8, value: u8) -> (result: (u8, FlagsRegister))
    ensures
        result == xor_result(a, value),
{
    let new_value: u8 = a ^ value;
    (
        new_value,
        FlagsRegister { zero: new_value == 0, subtract: false, half_carry: false, carry: false },
    )
}

/// Computes [`inc_result`].
pub fn inc(value: u8, flags: FlagsRegister) -> (result: (u8, FlagsRegister))
    ensures
        result == inc_result(value, flags),
{
    reveal(inc_result);
    let new_value: u8 = value.wrapping_add(1);
    let half_carry: bool = low_nibble(value) + 1 > 0xF;
    (
        new_value,
        FlagsRegister { zero: new_value == 0, subtract: false, half_carry, carry: flags.carry },
    )
}

/// Computes [`dec_result`].
pub fn dec(value: u8, flags: FlagsRegister) -> (result: (u8, FlagsRegister))
    ensures
        result == dec_result(value, flags),
{
    reveal(dec_result);
    let new_value: u8 = value.wrapping_sub(1);
    let half_carry: bool = low_nibble(value) == 0;
    (
        new_value,
        FlagsRegister { zero: new_value == 0, subtract: true, half_carry, carry: flags.carry },
    )
}

/// Computes [`daa_result`].
pub fn daa(a: u8, flags: FlagsRegister) -> (result: (u8, FlagsRegister))
    ensures
        result == daa_result(a, flags),
{
    reveal(daa_result);
    let mut adjustment: u8 = 0;
    let mut carry: bool = false;
    if flags.half_carry || (!flags.subtract && low_nibble(a) > 9) {
        adjustment = adjustment + 0x06;
    }
    if flags.carry || (!flags.subtract && a > 0x99) {
        adjustment = adjustment + 0x60;
        carry = true;
    }
    let new_value: u8 = if flags.subtract {
        a.wrapping_sub(adjustment)
    } else {
        a.wrapping_add(adjustment)
    };
    (
        new_value,
        FlagsRegister { zero: new_value == 0, subtract: flags.subtract, half_carry: false, carry },
    )
}

/// Computes [`cpl_result`].
pub fn cpl(a: u8, flags: FlagsRegister) -> (result: (u8, FlagsRegister))
    ensures
        result == cpl_result(a, flags),
{
    (
        !a,
        FlagsRegister {
            zero: flags.zero,
            subtract: true,
            half_carry: true,
            carry: flags.carry,
        },
    )
}

/// Computes [`ccf_result`].
pub fn ccf(flags: FlagsRegister) -> (result: FlagsRegister)
    ensures
        result == ccf_result(flags),
{
    FlagsRegister { zero: flags.zero, subtract: false, half_carry: false, carry: !flags.carry }
}

/// Computes [`scf_result`].
pub fn scf(flags: FlagsRegister) -> (result: FlagsRegister)
    ensures
        result == scf_result(flags),
{
    FlagsRegister { zero: flags.zero, subtract: false, half_carry: false, carry: true }
}

/// Computes [`add16_result`].
pub fn add16(target: u16, source: u16, flags: FlagsRegister) -> (result: (u16, FlagsRegister))
    ensures
        result == add16_result(target, source, flags),
{
    reveal(add16_result);
    let new_value: u16 = target.wrapping_add(source);
    let did_overflow: bool = source > 0xFFFF - target;
    let target_low: u16 = target & 0xF;
    let source_low: u16 = source & 0xF;
    assert(target_low == target % 16 && source_low == source % 16) by (bit_vector)
        requires
            target_low == target & 0xF,
            source_low == source & 0xF,
    ;
    (
        new_value,
        FlagsRegister {
            zero: flags.zero,
            subtract: false,
            half_carry: target_low + source_low > 0xF,
            carry: did_overflow,
        },
    )
}

/// Computes [`bit_result`].
pub fn bit(position: u8, byte: u8, flags: FlagsRegister) -> (result: FlagsRegister)
    requires
        position < 8,
    ensures
        result == bit_result(position, byte, flags),
{
    let set: bool = test_bit(byte, position);
    FlagsRegister { zero: !set, subtract: false, half_carry: true, carry: flags.carry }
}

/// Computes [`res_result`].
pub fn res(position: u8, byte: u8) -> (result: u8)
    requires
        position < 8,
    ensures
        result == res_result(position, byte),
{
    byte & !(1u8 << position)
}

/// Computes [`set_result`].
pub fn set(position: u8, byte: u8) -> (result: u8)
    requires
        position < 8,
    ensures
        result == set_result(position, byte),
{
    byte | (1u8 << position)
}

/// The flags after a rotate or shift.
fn flags_of_shift(result: u8, carry: bool) -> (flags: FlagsRegister)
    ensures
        flags == shifted_flags(result, carry),
{
    FlagsRegister { zero: result == 0, subtract: false, half_carry: false, carry }
}

/// Computes [`rl_result`].
pub fn rl(value: u8, carry: bool) -> (result: (u8, FlagsRegister))
    ensures
        result == rl_result(value, carry),
{
    reveal(rl_result);
    let c: u8 = if carry { 1 } else { 0 };
    let new_value: u8 = (value << 1u8) | c;
    let new_c: bool = (value & 0x80) == 0x80;
    assert(new_value as u16 == (value as u16 * 2) % 256 + c as u16 && new_c == (value >= 128))
        by (bit_vector)
        requires
            c <= 1,
            new_value == (value << 1u8) | c,
            new_c == ((value & 0x80) == 0x80),
    ;
    (new_value, flags_of_shift(new_value, new_c))
}

/// Computes [`rlc_result`].
pub fn rlc(value: u8) -> (result: (u8, FlagsRegister))
    ensures
        result == rlc_result(value),
{
    reveal(rlc_result);
    let new_c: bool = (value & 0x80) == 0x80;
    let c: u8 = if new_c { 1 } else { 0 };
    let new_value: u8 = (value << 1u8) | c;
    assert(new_value as u16 == (value as u16 * 2) % 256 + (value / 128) as u16 && new_c == (value
        >= 128))
        by (bit_vector)
        requires
            c == (if (value & 0x80) == 0x80 { 1u8 } else { 0u8 }),
            new_value == (value << 1u8) | c,
            new_c == ((value & 0x80) == 0x80),
    ;
    (new_value, flags_of_shift(new_value, new_c))
}

/// Computes [`rr_result`].
pub fn rr(value: u8, carry: bool) -> (result: (u8, FlagsRegister))
    ensures
        result == rr_result(value, carry),
{
    reveal(rr_result);
    let c: u8 = if carry { 0x80 } else { 0x00 };
    let new_value: u8 = (value >> 1u8) | c;
    let new_c: bool = (value & 0x01) == 0x01;
    assert(new_value == value / 2 + c && new_c == (value % 2 == 1)) by (bit_vector)
        requires
            c == 0x80 || c == 0,
            new_value == (value >> 1u8) | c,
            new_c == ((value & 0x01) == 0x01),
    ;
    (new_value, flags_of_shift(new_value, new_c))
}

/// Computes [`rrc_result`].
pub fn rrc(value: u8) -> (result: (u8, FlagsRegister))
    ensures
        result == rrc_result(value),
{
    reveal(rrc_result);
    let new_c: bool = (value & 0x01) == 0x01;
    let c: u8 = if new_c { 0x80 } else { 0x00 };
    let new_value: u8 = (value >> 1u8) | c;
    assert(new_value == value / 2 + 128 * (value % 2) && new_c == (value % 2 == 1))
        by (bit_vector)
        requires
            c == (if (value & 0x01) == 0x01 { 0x80u8 } else { 0u8 }),
            new_value == (value >> 1u8) | c,
            new_c == ((value & 0x01) == 0x01),
    ;
    (new_value, flags_of_shift(new_value, new_c))
}

/// Computes [`sla_result`].
pub fn sla(value: u8) -> (result: (u8, FlagsRegister))
    ensures
        result == sla_result(value),
{
    reveal(sla_result);
    let new_value: u8 = (value << 1u8);
    let new_c: bool = (value & 0x80) == 0x80;
    assert(new_value as u16 == (value as u16 * 2) % 256 && new_c == (value >= 128))
        by (bit_vector)
        requires
            new_value == (value << 1u8),
            new_c == ((value & 0x80) == 0x80),
    ;
    (new_value, flags_of_shift(new_value, new_c))
}

/// Computes [`sra_result`].
pub fn sra(value: u8) -> (result: (u8, FlagsRegister))
    ensures
        result == sra_result(value),
{
    reveal(sra_result);
    let new_value: u8 = (value >> 1u8) | (value & 0x80);
    let new_c: bool = (value & 0x01) == 0x01;
    assert(new_value == value / 2 + 128 * (value / 128) && new_c == (value % 2 == 1))
        by (bit_vector)
        requires
            new_value == (value >> 1u8) | (value & 0x80),
            new_c == ((value & 0x01) == 0x01),
    ;
    (new_value, flags_of_shift(new_value, new_c))
}

/// Computes [`srl_result`].
pub fn srl(value: u8) -> (result: (u8, FlagsRegister))
    ensures
        result == srl_result(value),
{
    reveal(srl_result);
    let new_value: u8 = (value >> 1u8);
    let new_c: bool = (value & 0x01) == 0x01;
    assert(new_value == value / 2 && new_c == (value % 2 == 1)) by (bit_vector)
        requires
            new_value == (value >> 1u8),
            new_c == ((value & 0x01) == 0x01),
    ;
    (new_value, flags_of_shift(new_value, new_c))
}

/// Computes [`swap_result`].
pub fn swap(value: u8) -> (result: (u8, FlagsRegister))
    ensures
        result == swap_result(value),
{
    reveal(swap_result);
    let upper: u8 = (0xF0 & value) >> 4;
    let lower: u8 = (0x0F & value) << 4;
    let new_value: u8 = upper ^ lower;
    assert(new_value == (value % 16) * 16 + value / 16) by (bit_vector)
        requires
            new_value == ((0xF0 & value) >> 4u8) ^ ((0x0F & value) << 4u8),
    ;
    (new_value, flags_of_shift(new_value, false))
}

/// Adds a signed 8-bit displacement to an address.
pub fn displace(address: u16, displacement: u8) -> (result: u16)
    ensures
        result == displaced(address, displacement),
{
    reveal(displaced);
    if displacement < 128 {
        address.wrapping_add(displacement as u16)
    } else {
        address.wrapping_sub(256 - displacement as u16)
    }
}

/// For all bytes `a` and `b`, ADD sets the carry exactly when `a + b` is above 255, the
/// half-carry exactly when the sum of the low nibbles is above 15, the zero flag exactly when
/// the sum wrapped to a byte is 0, and never the subtract flag.
pub proof fn lemma_add_flags(a: u8, b: u8)
    ensures
        add_result(a, b).0 == (a + b) % 256,
        add_result(a, b).1.carry <==> a + b > 255,
        add_result(a, b).1.half_carry <==> (a & 0xF) + (b & 0xF) > 0xF,
        add_result(a, b).1.zero <==> (a + b) % 256 == 0,
        !add_result(a, b).1.subtract,
{
    reveal(add_result);
    assert(a & 0xF == a % 16) by (bit_vector);
    assert(b & 0xF == b % 16) by (bit_vector);
}

/// The digit that a sum or a difference of digits leaves in its place, and the 1 that it
/// carries on or borrows.
pub open spec fn decimal_digit(sum: int) -> (int, int) {
    if sum > 9 {
        (sum - 10, 1)
    } else if sum < 0 {
        (sum + 10, 1)
    } else {
        (sum, 0)
    }
}

/// DAA does what it is for. Two numbers of two decimal digits each, packed into bytes with
/// the tens in the upper nibble and added or subtracted as bytes, give after the correction
/// the packed digits of the sum or of the difference; the carry says that the sum passed 99,
/// or that the difference fell below 0. The numbers are given by their digits: `x1` and `y1`
/// the tens, `x0` and `y0` the ones.
pub proof fn lemma_daa_corrects(x1: u8, x0: u8, y1: u8, y0: u8)
    requires
        x1 < 10,
        x0 < 10,
        y1 < 10,
        y0 < 10,
    ensures
        ({
            let sum = add_result((16 * x1 + x0) as u8, (16 * y1 + y0) as u8);
            let corrected = daa_result(sum.0, sum.1);
            let ones = decimal_digit(x0 + y0);
            let tens = decimal_digit(x1 + y1 + ones.1);
            &&& corrected.0 == 16 * tens.0 + ones.0
            &&& corrected.1.carry == (tens.1 == 1)
        }),
        ({
            let difference = sub_result((16 * x1 + x0) as u8, (16 * y1 + y0) as u8);
            let corrected = daa_result(difference.0, difference.1);
            let ones = decimal_digit(x0 - y0);
            let tens = decimal_digit(x1 - y1 - ones.1);
            &&& corrected.0 == 16 * tens.0 + ones.0
            &&& corrected.1.carry == (tens.1 == 1)
        }),
{
    lemma_daa_after_add(x1, x0, y1, y0);
    lemma_daa_after_sub(x1, x0, y1, y0);
}

/// The half of [`lemma_daa_corrects`] that speaks of the addition.
proof fn lemma_daa_after_add(x1: u8, x0: u8, y1: u8, y0: u8)
    requires
        x1 < 10,
        x0 < 10,
        y1 < 10,
        y0 < 10,
    ensures
        ({
            let sum = add_result((16 * x1 + x0) as u8, (16 * y1 + y0) as u8);
            let corrected = daa_result(sum.0, sum.1);
            let ones = decimal_digit(x0 + y0);
            let tens = decimal_digit(x1 + y1 + ones.1);
            &&& corrected.0 == 16 * tens.0 + ones.0
            &&& corrected.1.carry == (tens.1 == 1)
        }),
{
    let p1: u16 = x1 as u16;
    let p0: u16 = x0 as u16;
    let q1: u16 = y1 as u16;
    let q0: u16 = y0 as u16;
    let a: u16 = (16 * x1 + x0) as u16;
    let b: u16 = (16 * y1 + y0) as u16;
    assert(a % 16 == p0 && b % 16 == q0);
    let sum = add_result(a as u8, b as u8);
    let s: u16 = sum.0 as u16;
    assert((a + b == s || a + b == s + 256) && sum.1.half_carry == (p0 + q0 > 15) && sum.1.carry
        == (a + b > 255) && !sum.1.subtract) by {
        reveal(add_result);
    }
    let low: u16 = if sum.1.half_carry || s % 16 > 9 {
        6
    } else {
        0
    };
    let high: u16 = if sum.1.carry || s > 0x99 {
        0x60
    } else {
        0
    };
    let after = daa_result(sum.0, sum.1);
    let r: u16 = after.0 as u16;
    assert((s + low + high == r || s + low + high == r + 256) && after.1.carry == (high == 0x60))
        by {
        reveal(daa_result);
    }
    let d0: u16 = decimal_digit(x0 + y0).0 as u16;
    let c0: u16 = decimal_digit(x0 + y0).1 as u16;
    let d1: u16 = decimal_digit(x1 + y1 + c0).0 as u16;
    let c1: u16 = decimal_digit(x1 + y1 + c0).1 as u16;
    assert(r == 16 * d1 + d0 && (high == 0x60) == (c1 == 1)) by (bit_vector)
        requires
            p1 < 10,
            p0 < 10,
            q1 < 10,
            q0 < 10,
            a == 16 * p1 + p0,
            b == 16 * q1 + q0,
            s <= 255,
            r <= 255,
            a + b == s || a + b == s + 256,
            low == 0 || low == 6,
            (low == 6) == (p0 + q0 > 15 || s % 16 > 9),
            high == 0 || high == 0x60,
            (high == 0x60) == (a + b > 255 || s > 0x99),
            s + low + high == r || s + low + high == r + 256,
            c0 <= 1,
            (c0 == 1) == (p0 + q0 > 9),
            p0 + q0 == d0 + 10 * c0,
            c1 <= 1,
            (c1 == 1) == (p1 + q1 + c0 > 9),
            p1 + q1 + c0 == d1 + 10 * c1,
    ;
}

/// The half of [`lemma_daa_corrects`] that speaks of the subtraction.
proof fn lemma_daa_after_sub(x1: u8, x0: u8, y1: u8, y0: u8)
    requires
        x1 < 10,
        x0 < 10,
        y1 < 10,
        y0 < 10,
    ensures
        ({
            let difference = sub_result((16 * x1 + x0) as u8, (16 * y1 + y0) as u8);
            let corrected = daa_result(difference.0, difference.1);
            let ones = decimal_digit(x0 - y0);
            let tens = decimal_digit(x1 - y1 - ones.1);
            &&& corrected.0 == 16 * tens.0 + ones.0
            &&& corrected.1.carry == (tens.1 == 1)
        }),
{
    let p1: u16 = x1 as u16;
    let p0: u16 = x0 as u16;
    let q1: u16 = y1 as u16;
    let q0: u16 = y0 as u16;
    let a: u16 = (16 * x1 + x0) as u16;
    let b: u16 = (16 * y1 + y0) as u16;
    assert(a % 16 == p0 && b % 16 == q0);
    let difference = sub_result(a as u8, b as u8);
    let d: u16 = difference.0 as u16;
    assert((a == d + b || a + 256 == d + b) && difference.1.half_carry == (p0 < q0)
        && difference.1.carry == (a < b) && difference.1.subtract) by {
        reveal(sub_result);
    }
    let less: u16 = if difference.1.half_carry {
        6
    } else {
        0
    };
    let more: u16 = if difference.1.carry {
        0x60
    } else {
        0
    };
    let after = daa_result(difference.0, difference.1);
    let t: u16 = after.0 as u16;
    assert((d == t + less + more || d + 256 == t + less + more) && after.1.carry == (more
        == 0x60)) by {
        reveal(daa_result);
    }
    let e0: u16 = decimal_digit(x0 - y0).0 as u16;
    let b0: u16 = decimal_digit(x0 - y0).1 as u16;
    let e1: u16 = decimal_digit(x1 - y1 - b0).0 as u16;
    let b1: u16 = decimal_digit(x1 - y1 - b0).1 as u16;
    assert(t == 16 * e1 + e0 && (more == 0x60) == (b1 == 1)) by (bit_vector)
        requires
            p1 < 10,
            p0 < 10,
            q1 < 10,
            q0 < 10,
            a == 16 * p1 + p0,
            b == 16 * q1 + q0,
            d <= 255,
            t <= 255,
            a == d + b || a + 256 == d + b,
            less == 0 || less == 6,
            (less == 6) == (p0 < q0),
            more == 0 || more == 0x60,
            (more == 0x60) == (a < b),
            d == t + less + more || d + 256 == t + less + more,
            b0 <= 1,
            (b0 == 1) == (p0 < q0),
            p0 + 10 * b0 == e0 + q0,
            b1 <= 1,
            (b1 == 1) == (p1 < q1 + b0),
            p1 + 10 * b1 == e1 + q1 + b0,
    ;
}

} // verus!
