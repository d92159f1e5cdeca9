// The processor: what every instruction does, stated as a function from state to state,
// and the code that does it.

use crate::alu;
use crate::alu::{
    adc_result, add16_result, add_result, and_result, bit_result, ccf_result, cpl_result,
    daa_result, dec_result, displaced, inc_result, or_result, res_result, rl_result, rlc_result,
    rr_result, rrc_result, sbc_result, scf_result, set_result, sla_result, sra_result,
    srl_result, sub_result, swap_result, xor_result,
};
use crate::cartridge::{Cartridge, CartridgeView};
use crate::bits::{high_byte, join_bytes, lemma_word_round_trip, low_byte, split_word, word_of};
use crate::cpu_registers::{FlagsRegister, Registers};
use crate::error::EmulationError;
use crate::instruction::{
    decode, decode_plain, ByteSource, ByteTarget, Data, Instruction, JumpTest, LoadType, WordSource,
    WordTarget, R, RR,
};
use crate::memory_bus::{BusView, MemoryBus};
use vstd::prelude::*;

verus! {

/// The byte that escapes to the second opcode table.
pub const PREFIX_BYTE: u8 = 0xCB;

/// Where a cartridge starts to run.
pub const ENTRY_POINT: u16 = 0x0100;

/// What executing an instruction gives: the next program counter and the cycles, or the
/// error of the access that failed.
pub type Executed = Result<(u16, u32), EmulationError>;

/// The processor together with the bus that it owns.
pub struct Cpu {
    pub bus: MemoryBus,
    pub pc: u16,
    pub registers: Registers,
    pub sp: u16,
    is_halted: bool,
    ime: bool,  // Interrupt Master Enable Flag
    set_ime: bool,  // set the IME flag only after the next instruction
    is_stopped: bool,
}

/// The state of a [`Cpu`], as plain values.
pub ghost struct CpuView {
    /// Everything behind the bus.
    pub bus: BusView,
    /// The program counter.
    pub pc: u16,
    /// The register file.
    pub registers: Registers,
    /// The stack pointer.
    pub sp: u16,
    /// Set by HALT; a halted processor executes nothing.
    pub is_halted: bool,
    /// The interrupt master enable flag.
    pub ime: bool,
    /// Set by EI: the interrupt master enable flag is to be set once the instruction after
    /// EI is through.
    pub set_ime: bool,
    /// Set by STOP.
    pub is_stopped: bool,
}

/// The address `offset` bytes after `address`, modulo 65536.
#[verifier::opaque]
pub open spec fn offset_address(address: u16, offset: int) -> u16 {
    ((address + offset) % 0x1_0000) as u16
}

/// Where a byte operand lives: in a register, or in memory at an address.
pub ghost enum Location {
    Register(R),
    Memory(u16),
}

/// An address that was read from the bytes after the opcode, as a location.
pub open spec fn in_memory(address: Result<u16, EmulationError>) -> Result<
    Location,
    EmulationError,
> {
    match address {
        Err(error) => Err(error),
        Ok(address) => Ok(Location::Memory(address)),
    }
}

impl CpuView {
    /// The bus is well formed.
    pub open spec fn wf(self) -> bool {
        self.bus.wf()
    }

    /// A processor at the entry point, with everything else at zero and no cartridge.
    pub open spec fn initial() -> CpuView {
        CpuView {
            bus: BusView::initial(),
            pc: ENTRY_POINT,
            registers: Registers {
                a: 0,
                b: 0,
                c: 0,
                d: 0,
                e: 0,
                f: FlagsRegister {
                    zero: false,
                    subtract: false,
                    half_carry: false,
                    carry: false,
                },
                h: 0,
                l: 0,
            },
            sp: 0,
            is_halted: false,
            ime: false,
            set_ime: false,
            is_stopped: false,
        }
    }

    /// The processor once a cartridge is attached: it waits at the entry point.
    pub open spec fn with_cartridge(self, cartridge: CartridgeView) -> CpuView {
        CpuView {
            bus: BusView { cartridge: Some(cartridge), ..self.bus },
            pc: ENTRY_POINT,
            ..self
        }
    }

    /// The processor with its timers advanced by `cycles`.
    pub open spec fn with_timers_after(self, cycles: u16) -> CpuView {
        CpuView { bus: BusView { timers: self.bus.timers.after(cycles), ..self.bus }, ..self }
    }

    /// The address `offset` bytes after the program counter, modulo 65536.
    pub open spec fn pc_plus(self, offset: int) -> u16 {
        offset_address(self.pc, offset)
    }

    /// The byte after the opcode.
    pub open spec fn next_byte(self) -> Result<u8, EmulationError> {
        self.bus.read(self.pc_plus(1))
    }

    /// The word after the opcode, low byte first.
    #[verifier::opaque]
    pub open spec fn next_word(self) -> Result<u16, EmulationError> {
        match self.bus.read(self.pc_plus(1)) {
            Err(error) => Err(error),
            Ok(low) => match self.bus.read(self.pc_plus(2)) {
                Err(error) => Err(error),
                Ok(high) => Ok(word_of(high, low)),
            },
        }
    }

    /// The processor after a write to the bus, and how the write ended.
    pub open spec fn write(self, address: u16, value: u8) -> (CpuView, Result<(), EmulationError>) {
        (CpuView { bus: self.bus.write(address, value).0, ..self }, self.bus.write(address, value).1)
    }

    /// The value of an 8-bit register; F reads as the flags byte.
    pub open spec fn r_value(self, r: R) -> u8 {
        match r {
            R::A => self.registers.a,
            R::B => self.registers.b,
            R::C => self.registers.c,
            R::D => self.registers.d,
            R::E => self.registers.e,
            R::F => self.registers.f.to_byte(),
            R::H => self.registers.h,
            R::L => self.registers.l,
        }
    }

    /// The processor with an 8-bit register set; F takes the flags of the byte.
    pub open spec fn with_r(self, r: R, value: u8) -> CpuView {
        CpuView {
            registers: match r {
                R::A => Registers { a: value, ..self.registers },
                R::B => Registers { b: value, ..self.registers },
                R::C => Registers { c: value, ..self.registers },
                R::D => Registers { d: value, ..self.registers },
                R::E => Registers { e: value, ..self.registers },
                R::F => Registers { f: FlagsRegister::of_byte(value), ..self.registers },
                R::H => Registers { h: value, ..self.registers },
                R::L => Registers { l: value, ..self.registers },
            },
            ..self
        }
    }

    /// The value of a register pair.
    pub open spec fn rr_value(self, rr: RR) -> u16 {
        match rr {
            RR::AF => self.registers.af(),
            RR::BC => self.registers.bc(),
            RR::DE => self.registers.de(),
            RR::HL => self.registers.hl(),
        }
    }

    /// The processor with a register pair set.
    pub open spec fn with_rr(self, rr: RR, value: u16) -> CpuView {
        CpuView {
            registers: match rr {
                RR::AF => self.registers.with_af(value),
                RR::BC => self.registers.with_bc(value),
                RR::DE => self.registers.with_de(value),
                RR::HL => self.registers.with_hl(value),
            },
            ..self
        }
    }

    /// The processor with other flags.
    pub open spec fn with_flags(self, flags: FlagsRegister) -> CpuView {
        CpuView { registers: Registers { f: flags, ..self.registers }, ..self }
    }

    /// The processor with another accumulator and other flags.
    pub open spec fn with_a_and_flags(self, a: u8, flags: FlagsRegister) -> CpuView {
        CpuView { registers: Registers { a, f: flags, ..self.registers }, ..self }
    }

    /// Whether a jump, call or return with this condition is taken.
    pub open spec fn jump_test(self, test: JumpTest) -> bool {
        match test {
            JumpTest::NotZero => !self.registers.f.zero,
            JumpTest::NotCarry => !self.registers.f.carry,
            JumpTest::Zero => self.registers.f.zero,
            JumpTest::Carry => self.registers.f.carry,
            JumpTest::Always => true,
        }
    }

    /// The address 0xFF00 plus the byte after the opcode.
    pub open spec fn high_page_address(self) -> Result<u16, EmulationError> {
        match self.next_byte() {
            Err(error) => Err(error),
            Ok(offset) => Ok((0xFF00 + offset) as u16),
        }
    }

    /// Where a byte source lives. Finding it can take a read of the bytes after the opcode,
    /// which can fail.
    pub open spec fn source_location(self, source: ByteSource) -> Result<Location, EmulationError> {
        match source {
            ByteSource::Register(r) => Ok(Location::Register(r)),
            ByteSource::Registers(rr) => Ok(Location::Memory(self.rr_value(rr))),
            ByteSource::Immediate8 => Ok(Location::Memory(self.pc_plus(1))),
            ByteSource::Direct => in_memory(self.next_word()),
            ByteSource::HL => Ok(Location::Memory(self.registers.hl())),
            ByteSource::HLI => Ok(Location::Memory(self.registers.hl())),
            ByteSource::HLD => Ok(Location::Memory(self.registers.hl())),
            ByteSource::FF00PlusC => Ok(Location::Memory((0xFF00 + self.registers.c) as u16)),
            ByteSource::FF00PlusU8 => in_memory(self.high_page_address()),
        }
    }

    /// Where a byte target lives. The immediate target lives at the address that the word
    /// after the opcode holds, as the direct target does.
    pub open spec fn target_location(self, target: ByteTarget) -> Result<Location, EmulationError> {
        match target {
            ByteTarget::Register(r) => Ok(Location::Register(r)),
            ByteTarget::Registers(rr) => Ok(Location::Memory(self.rr_value(rr))),
            ByteTarget::Immediate8 => in_memory(self.next_word()),
            ByteTarget::Direct => in_memory(self.next_word()),
            ByteTarget::HL => Ok(Location::Memory(self.registers.hl())),
            ByteTarget::HLI => Ok(Location::Memory(self.registers.hl())),
            ByteTarget::HLD => Ok(Location::Memory(self.registers.hl())),
            ByteTarget::FF00PlusC => Ok(Location::Memory((0xFF00 + self.registers.c) as u16)),
            ByteTarget::FF00PlusU8 => in_memory(self.high_page_address()),
        }
    }

    /// The byte at a location.
    pub open spec fn load(self, location: Location) -> Result<u8, EmulationError> {
        match location {
            Location::Register(r) => Ok(self.r_value(r)),
            Location::Memory(address) => self.bus.read(address),
        }
    }

    /// The processor after a byte was put at a location, and how that ended.
    pub open spec fn store(self, location: Location, value: u8) -> (
        CpuView,
        Result<(), EmulationError>,
    ) {
        match location {
            Location::Register(r) => (self.with_r(r, value), Ok(())),
            Location::Memory(address) => self.write(address, value),
        }
    }

    /// HL after an operand was used: one more for the incrementing operand, one less for the
    /// decrementing one, modulo 65536.
    pub open spec fn moved_hl(self, up: bool, down: bool) -> CpuView {
        if up {
            self.with_rr(RR::HL, offset_address(self.registers.hl(), 1))
        } else if down {
            self.with_rr(RR::HL, offset_address(self.registers.hl(), -1))
        } else {
            self
        }
    }

    /// Reading a byte source: the processor afterwards, and the value. The operand is found
    /// and HL is moved before the byte is read, so HL has moved even where the read fails.
    #[verifier::opaque]
    pub open spec fn byte_source(self, source: ByteSource) -> (CpuView, Result<u8, EmulationError>) {
        let after = self.moved_hl(source is HLI, source is HLD);
        match self.source_location(source) {
            Err(error) => (self, Err(error)),
            Ok(location) => (after, self.load(location)),
        }
    }

    /// Reading a byte target, which leaves the processor as it is.
    #[verifier::opaque]
    pub open spec fn byte_target(self, target: ByteTarget) -> Result<u8, EmulationError> {
        match self.target_location(target) {
            Err(error) => Err(error),
            Ok(location) => self.load(location),
        }
    }

    /// Writing a byte target: the processor afterwards, and how the write ended. The operand
    /// is found and HL is moved before the byte is written, so HL has moved even where the
    /// write fails.
    #[verifier::opaque]
    pub open spec fn store_byte(self, target: ByteTarget, value: u8) -> (
        CpuView,
        Result<(), EmulationError>,
    ) {
        let after = self.moved_hl(target is HLI, target is HLD);
        match self.target_location(target) {
            Err(error) => (self, Err(error)),
            Ok(location) => after.store(location, value),
        }
    }

    /// Reading a word source. The stack pointer with an offset reads as the stack pointer
    /// plus 8, modulo 65536, whatever the byte after the opcode holds.
    #[verifier::opaque]
    pub open spec fn word_source(self, source: WordSource) -> Result<u16, EmulationError> {
        match source {
            WordSource::Registers(rr) => Ok(self.rr_value(rr)),
            WordSource::Immediate16 => self.next_word(),
            WordSource::SP => Ok(self.sp),
            WordSource::SpPlusI8 => Ok(offset_address(self.sp, 8)),
        }
    }

    /// Reading a word target. The direct target reads the low byte at the address after the
    /// opcode and the high byte at the address after that one.
    #[verifier::opaque]
    pub open spec fn word_target(self, target: WordTarget) -> Result<u16, EmulationError> {
        match target {
            WordTarget::Registers(rr) => Ok(self.rr_value(rr)),
            WordTarget::Direct => match self.next_word() {
                Err(error) => Err(error),
                Ok(address) => match self.bus.read(address) {
                    Err(error) => Err(error),
                    Ok(low) => match self.bus.read(offset_address(address, 1)) {
                        Err(error) => Err(error),
                        Ok(high) => Ok(word_of(high, low)),
                    },
                },
            },
            WordTarget::SP => Ok(self.sp),
        }
    }

    /// Writing a word target: the processor afterwards, and how the write ended. The direct
    /// target takes the low byte at the address after the opcode and the high byte at the
    /// address after that one.
    #[verifier::opaque]
    pub open spec fn store_word(self, target: WordTarget, value: u16) -> (
        CpuView,
        Result<(), EmulationError>,
    ) {
        match target {
            WordTarget::Registers(rr) => (self.with_rr(rr, value), Ok(())),
            WordTarget::Direct => match self.next_word() {
                Err(error) => (self, Err(error)),
                Ok(address) => {
                    let first = self.write(address, low_byte(value));
                    if first.1 is Err {
                        first
                    } else {
                        first.0.write(offset_address(address, 1), high_byte(value))
                    }
                },
            },
            WordTarget::SP => (CpuView { sp: value, ..self }, Ok(())),
        }
    }

    /// PUSH: the stack pointer goes down by one and takes the high byte, then down by one
    /// more and takes the low byte. A failed write ends the push where it stands.
    #[verifier::opaque]
    pub open spec fn push(self, value: u16) -> (CpuView, Result<(), EmulationError>) {
        let sp1 = offset_address(self.sp, -1);
        let sp2 = offset_address(sp1, -1);
        let first = (CpuView { sp: sp1, ..self }).write(sp1, high_byte(value));
        if first.1 is Err {
            first
        } else {
            (CpuView { sp: sp2, ..first.0 }).write(sp2, low_byte(value))
        }
    }

    /// POP: the low byte is read at the stack pointer, the high byte above it, and the stack
    /// pointer goes up by one after each read that succeeded.
    #[verifier::opaque]
    pub open spec fn pop(self) -> (CpuView, Result<u16, EmulationError>) {
        let sp1 = offset_address(self.sp, 1);
        let sp2 = offset_address(sp1, 1);
        match self.bus.read(self.sp) {
            Err(error) => (self, Err(error)),
            Ok(low) => match self.bus.read(sp1) {
                Err(error) => (CpuView { sp: sp1, ..self }, Err(error)),
                Ok(high) => (CpuView { sp: sp2, ..self }, Ok(word_of(high, low))),
            },
        }
    }

    /// A return: the popped address when it is taken, the address after the opcode when not.
    pub open spec fn ret(self, should_jump: bool) -> (CpuView, Result<u16, EmulationError>) {
        if should_jump {
            self.pop()
        } else {
            (self, Ok(self.pc_plus(1)))
        }
    }

    /// What is left to do once the last access of an instruction went through: pass on its
    /// failure, or report the next program counter and the cycles.
    pub open spec fn finish(
        ended: (CpuView, Result<(), EmulationError>),
        done: (u16, u32),
    ) -> (CpuView, Result<(u16, u32), EmulationError>) {
        match ended.1 {
            Err(error) => (ended.0, Err(error)),
            Ok(_) => (ended.0, Ok(done)),
        }
    }

    /// What executing one instruction does: the processor afterwards, and either the next
    /// program counter with the cycles that the instruction took, or the error of the access
    /// that failed. The program counter itself stays where it is; the caller moves it.
    ///
    /// An instruction that does not branch continues behind its own bytes and costs its base
    /// cycles. A jump, call or return that is taken costs its cycles for that case.
    #[verifier::opaque]
    pub open spec fn execute(self, instruction: Instruction) -> (
        CpuView,
        Result<(u16, u32), EmulationError>,
    ) {
        let data = instruction.data();
        let next = self.pc_plus(data.bytes as int);
        let done = (next, data.cycles);
        let taken = data.action_cycles.unwrap();
        let flags = self.registers.f;
        match instruction {
            // The accumulator and a byte: the operand is read, then A and the flags change.
            Instruction::Add(source, _)
            | Instruction::AdC(source, _)
            | Instruction::Sub(source, _)
            | Instruction::SbC(source, _)
            | Instruction::And(source, _)
            | Instruction::Or(source, _)
            | Instruction::XOr(source, _)
            | Instruction::Cp(source, _) => {
                let (cpu, value) = self.byte_source(source);
                match value {
                    Err(error) => (cpu, Err(error)),
                    Ok(value) => {
                        let result = accumulator_result(
                            instruction,
                            cpu.registers.a,
                            value,
                            cpu.registers.f,
                        );
                        (cpu.with_a_and_flags(result.0, result.1), Ok(done))
                    },
                }
            },
            // Two words: both are read, the flags change, then the sum is stored.
            Instruction::Add16Bits(source, target, _) => match self.word_source(source) {
                Err(error) => (self, Err(error)),
                Ok(source_value) => match self.word_target(target) {
                    Err(error) => (self, Err(error)),
                    Ok(target_value) => {
                        let result = add16_result(target_value, source_value, flags);
                        Self::finish(self.with_flags(result.1).store_word(target, result.0), done)
                    },
                },
            },
            Instruction::Bit(bit, source, _) => {
                let (cpu, value) = self.byte_source(source);
                match value {
                    Err(error) => (cpu, Err(error)),
                    Ok(value) => (
                        cpu.with_flags(bit_result(bit, value, cpu.registers.f)),
                        Ok(done),
                    ),
                }
            },
            Instruction::CCF(_) => (self.with_flags(ccf_result(flags)), Ok(done)),
            Instruction::SCF(_) => (self.with_flags(scf_result(flags)), Ok(done)),
            Instruction::Cpl(_) => {
                let result = cpl_result(self.registers.a, flags);
                (self.with_a_and_flags(result.0, result.1), Ok(done))
            },
            Instruction::DAA(_) => {
                let result = daa_result(self.registers.a, flags);
                (self.with_a_and_flags(result.0, result.1), Ok(done))
            },
            // One byte up or down: the byte is read, the flags change, then it is stored.
            Instruction::Inc(target, _) | Instruction::Dec(target, _) => match self.byte_target(
                target,
            ) {
                Err(error) => (self, Err(error)),
                Ok(value) => {
                    let result = if instruction is Inc {
                        inc_result(value, flags)
                    } else {
                        dec_result(value, flags)
                    };
                    Self::finish(self.with_flags(result.1).store_byte(target, result.0), done)
                },
            },
            // One word up or down, modulo 65536; no flag changes.
            Instruction::Inc16Bits(target, _) | Instruction::Dec16Bits(
                target,
                _,
            ) => match self.word_target(target) {
                Err(error) => (self, Err(error)),
                Ok(value) => {
                    let step = if instruction is Inc16Bits {
                        1int
                    } else {
                        -1int
                    };
                    Self::finish(
                        self.store_word(target, offset_address(value, step)),
                        done,
                    )
                },
            },
            Instruction::DI(_) => (CpuView { ime: false, ..self }, Ok(done)),
            Instruction::EI(_) => (CpuView { set_ime: true, ..self }, Ok(done)),
            // One bit cleared or set: the byte is read and stored; no flag changes.
            Instruction::Res(bit, target, _) | Instruction::SetBit(
                bit,
                target,
                _,
            ) => match self.byte_target(target) {
                Err(error) => (self, Err(error)),
                Ok(value) => {
                    let result = if instruction is Res {
                        res_result(bit, value)
                    } else {
                        set_result(bit, value)
                    };
                    Self::finish(self.store_byte(target, result), done)
                },
            },
            // Rotates and shifts: the byte is read and stored, then the flags change.
            Instruction::RL(target, _)
            | Instruction::RLC(target, _)
            | Instruction::RR(target, _)
            | Instruction::RRC(target, _)
            | Instruction::SLA(target, _)
            | Instruction::SRA(target, _)
            | Instruction::SRL(target, _)
            | Instruction::Swap(target, _) => match self.byte_target(target) {
                Err(error) => (self, Err(error)),
                Ok(value) => {
                    let result = shift_result(instruction, value, flags.carry);
                    let stored = self.store_byte(target, result.0);
                    match stored.1 {
                        Err(error) => (stored.0, Err(error)),
                        Ok(_) => (stored.0.with_flags(result.1), Ok(done)),
                    }
                },
            },
            Instruction::RST(vector, _) => Self::finish(
                self.push(next),
                (vector as u16, data.cycles),
            ),
            Instruction::Stop(_) => (
                CpuView { is_stopped: true, bus: self.bus.with_divider_reset(), ..self },
                Ok(done),
            ),
            Instruction::Halt(_) => (CpuView { is_halted: true, ..self }, Ok(done)),
            Instruction::NoOp(_) => (self, Ok(done)),
            Instruction::Jp(test, source, _) => if self.jump_test(test) {
                match self.word_source(source) {
                    Err(error) => (self, Err(error)),
                    Ok(target) => (self, Ok((target, taken))),
                }
            } else {
                (self, Ok(done))
            },
            // The displacement is read whether the jump is taken or not.
            Instruction::JR(test, _) => match self.next_byte() {
                Err(error) => (self, Err(error)),
                Ok(displacement) => if self.jump_test(test) {
                    (self, Ok((displaced(next, displacement), taken)))
                } else {
                    (self, Ok(done))
                },
            },
            Instruction::Ld(LoadType::Byte(target, source), _) => {
                let (cpu, value) = self.byte_source(source);
                match value {
                    Err(error) => (cpu, Err(error)),
                    Ok(value) => Self::finish(cpu.store_byte(target, value), done),
                }
            },
            Instruction::Ld(LoadType::Word(target, source), _) => match self.word_source(source) {
                Err(error) => (self, Err(error)),
                Ok(value) => Self::finish(self.store_word(target, value), done),
            },
            Instruction::Push(rr, _) => Self::finish(self.push(self.rr_value(rr)), done),
            Instruction::Pop(rr, _) => {
                let (cpu, value) = self.pop();
                match value {
                    Err(error) => (cpu, Err(error)),
                    Ok(value) => (cpu.with_rr(rr, value), Ok(done)),
                }
            },
            // A call that is taken pushes the address three bytes on and then reads where to
            // go; one that is not taken continues three bytes on.
            Instruction::Call(test, _) => if self.jump_test(test) {
                let pushed = self.push(self.pc_plus(3));
                match pushed.1 {
                    Err(error) => (pushed.0, Err(error)),
                    Ok(_) => match pushed.0.next_word() {
                        Err(error) => (pushed.0, Err(error)),
                        Ok(target) => (pushed.0, Ok((target, taken))),
                    },
                }
            } else {
                (self, Ok((self.pc_plus(3), data.cycles)))
            },
            Instruction::Ret(test, _) => {
                let (cpu, address) = self.ret(self.jump_test(test));
                match address {
                    Err(error) => (cpu, Err(error)),
                    Ok(address) => (
                        cpu,
                        Ok(
                            (
                                address,
                                if self.jump_test(test) {
                                    taken
                                } else {
                                    data.cycles
                                },
                            ),
                        ),
                    ),
                }
            },
            // RETI returns and enables interrupts at once.
            Instruction::RetI(_) => {
                let (cpu, address) = self.ret(true);
                match address {
                    Err(error) => (cpu, Err(error)),
                    Ok(address) => (CpuView { ime: true, ..cpu }, Ok((address, data.cycles))),
                }
            },
        }
    }

    /// The opcode at the program counter: the byte there, or the byte behind it where the
    /// first is the prefix; with it, whether the prefix was there.
    pub open spec fn fetch(self) -> Result<(u8, bool), EmulationError> {
        match self.bus.read(self.pc) {
            Err(error) => Err(error),
            Ok(first) => if first == PREFIX_BYTE {
                match self.bus.read(self.pc_plus(1)) {
                    Err(error) => Err(error),
                    Ok(second) => Ok((second, true)),
                }
            } else {
                Ok((first, false))
            },
        }
    }

    /// What one step does: the processor afterwards, and the cycles that the step took or
    /// the error that ended it.
    ///
    /// A halted processor does nothing, at the cost of one cycle. Otherwise the opcode is
    /// fetched and decoded; an opcode without an instruction ends the step with
    /// `UnknownOpcode` and changes nothing. The instruction is executed. Where that fails the
    /// step fails, and the processor stays as the failed instruction left it. Where it
    /// succeeds the program counter moves on, and an enable of interrupts that the
    /// instruction before had asked for is carried out; a request stays pending exactly when
    /// this instruction was EI.
    pub open spec fn step(self) -> (CpuView, Result<u32, EmulationError>) {
        if self.is_halted {
            (self, Ok(1))
        } else {
            match self.fetch() {
                Err(error) => (self, Err(error)),
                Ok((opcode, prefixed)) => match decode(opcode, prefixed) {
                    None => (
                        self,
                        Err(EmulationError::UnknownOpcode { opcode, is_prefixed: prefixed }),
                    ),
                    Some(instruction) => {
                        let (cpu, result) = self.execute(instruction);
                        match result {
                            Err(error) => (cpu, Err(error)),
                            Ok((next_pc, cycles)) => (
                                CpuView {
                                    pc: next_pc,
                                    ime: cpu.ime || self.set_ime,
                                    set_ime: instruction is EI,
                                    ..cpu
                                },
                                Ok(cycles),
                            ),
                        }
                    },
                },
            }
        }
    }
}

impl CpuView {
    /// A fresh processor is well formed, and stays so when a well-formed cartridge is
    /// attached and when the timers advance.
    pub proof fn lemma_setup_keeps_wf(self, cartridge: CartridgeView, cycles: u16)
        ensures
            CpuView::initial().wf(),
            self.wf() && cartridge.wf() ==> self.with_cartridge(cartridge).wf(),
            self.wf() ==> self.with_timers_after(cycles).wf(),
    {
        BusView::lemma_initial_wf();
    }

    /// Writes through the processor keep it well formed.
    pub proof fn lemma_write_keeps_wf(self, address: u16, value: u8)
        requires
            self.wf(),
        ensures
            self.write(address, value).0.wf(),
    {
        self.bus.lemma_write_keeps_wf(address, value);
    }

    /// Operand accesses and the stack keep the processor well formed.
    pub proof fn lemma_accesses_keep_wf(self)
        requires
            self.wf(),
        ensures
            forall|source: ByteSource| (#[trigger] self.byte_source(source)).0.wf(),
            forall|target: ByteTarget, value: u8|
                (#[trigger] self.store_byte(target, value)).0.wf(),
            forall|target: WordTarget, value: u16|
                (#[trigger] self.store_word(target, value)).0.wf(),
            forall|value: u16| (#[trigger] self.push(value)).0.wf(),
            self.pop().0.wf(),
    {
        reveal(CpuView::byte_source);
        reveal(CpuView::store_byte);
        reveal(CpuView::store_word);
        reveal(CpuView::push);
        reveal(CpuView::pop);
        assert forall|target: ByteTarget, value: u8|
            (#[trigger] self.store_byte(target, value)).0.wf() by {
            let after = self.moved_hl(target is HLI, target is HLD);
            match self.target_location(target) {
                Ok(Location::Memory(address)) => {
                    after.lemma_write_keeps_wf(address, value);
                },
                _ => {},
            }
        }
        assert forall|target: WordTarget, value: u16|
            (#[trigger] self.store_word(target, value)).0.wf() by {
            match self.next_word() {
                Ok(address) => {
                    self.lemma_write_keeps_wf(address, low_byte(value));
                    self.write(address, low_byte(value)).0.lemma_write_keeps_wf(
                        offset_address(address, 1),
                        high_byte(value),
                    );
                },
                _ => {},
            }
        }
        assert forall|value: u16| (#[trigger] self.push(value)).0.wf() by {
            let sp1 = offset_address(self.sp, -1);
            let sp2 = offset_address(sp1, -1);
            let lowered = CpuView { sp: sp1, ..self };
            lowered.lemma_write_keeps_wf(sp1, high_byte(value));
            let first = lowered.write(sp1, high_byte(value)).0;
            (CpuView { sp: sp2, ..first }).lemma_write_keeps_wf(sp2, low_byte(value));
        }
    }

    /// Executing an instruction keeps the processor well formed, whether it succeeds or not.
    pub proof fn lemma_execute_keeps_wf(self, instruction: Instruction)
        requires
            self.wf(),
        ensures
            self.execute(instruction).0.wf(),
    {
        reveal(CpuView::execute);
        self.lemma_accesses_keep_wf();
        match instruction {
            Instruction::Add16Bits(source, target, _) => {
                match (self.word_source(source), self.word_target(target)) {
                    (Ok(source_value), Ok(target_value)) => {
                        let result = add16_result(target_value, source_value, self.registers.f);
                        self.with_flags(result.1).lemma_accesses_keep_wf();
                    },
                    _ => {},
                }
            },
            Instruction::Inc(target, _) => {
                match self.byte_target(target) {
                    Ok(value) => {
                        self.with_flags(
                            inc_result(value, self.registers.f).1,
                        ).lemma_accesses_keep_wf();
                    },
                    _ => {},
                }
            },
            Instruction::Dec(target, _) => {
                match self.byte_target(target) {
                    Ok(value) => {
                        self.with_flags(
                            dec_result(value, self.registers.f).1,
                        ).lemma_accesses_keep_wf();
                    },
                    _ => {},
                }
            },
            Instruction::Ld(LoadType::Byte(_, source), _) => {
                self.byte_source(source).0.lemma_accesses_keep_wf();
            },
            Instruction::Stop(_) => {
                assert(self.bus.with_divider_reset().wf());
            },
            Instruction::Call(_, _) => {
                assert(self.push(self.pc_plus(3)).0.wf());
            },
            _ => {},
        }
    }

    /// A step keeps the processor well formed, whether it succeeds or not.
    pub proof fn lemma_step_keeps_wf(self)
        requires
            self.wf(),
        ensures
            self.step().0.wf(),
    {
        if !self.is_halted {
            match self.fetch() {
                Ok((opcode, prefixed)) => match decode(opcode, prefixed) {
                    Some(instruction) => {
                        self.lemma_execute_keeps_wf(instruction);
                    },
                    None => {},
                },
                Err(_) => {},
            }
        }
    }

    /// A word target reads back the word that was stored to it. That holds of the stack
    /// pointer and of the pairs BC, DE and HL as they are. It holds of the direct target
    /// where the two bytes at the address after the opcode keep what is written to them and
    /// are not the bytes after the opcode themselves.
    pub proof fn lemma_word_target_reads_back(self, target: WordTarget, value: u16)
        requires
            self.wf(),
            target != WordTarget::Registers(RR::AF),
            target is Direct ==> (self.next_word() matches Ok(address) && {
                let next = offset_address(address, 1);
                &&& self.bus.keeps(address)
                &&& self.bus.keeps(next)
                &&& address != self.pc_plus(1) && address != self.pc_plus(2)
                &&& next != self.pc_plus(1) && next != self.pc_plus(2)
            }),
        ensures
            self.store_word(target, value).1 is Ok,
            self.store_word(target, value).0.word_target(target) == Ok::<u16, EmulationError>(
                value,
            ),
    {
        reveal(CpuView::store_word);
        reveal(CpuView::word_target);
        reveal(CpuView::next_word);
        lemma_word_round_trip(value, 0, 0);
        match target {
            WordTarget::Registers(rr) => {
                self.registers.lemma_pairs_round_trip(value);
            },
            WordTarget::SP => {},
            WordTarget::Direct => {
                let address = self.next_word()->Ok_0;
                let next = offset_address(address, 1);
                assert(next != address) by {
                    reveal(offset_address);
                }
                let low = low_byte(value);
                let high = high_byte(value);
                self.bus.lemma_write_then_read(address, low);
                self.bus.lemma_write_keeps_wf(address, low);
                self.bus.lemma_write_leaves_others(address, low, next);
                self.bus.lemma_write_leaves_others(address, low, self.pc_plus(1));
                self.bus.lemma_write_leaves_others(address, low, self.pc_plus(2));
                let first = self.bus.write(address, low).0;
                first.lemma_write_then_read(next, high);
                first.lemma_write_leaves_others(next, high, address);
                first.lemma_write_leaves_others(next, high, self.pc_plus(1));
                first.lemma_write_leaves_others(next, high, self.pc_plus(2));
            },
        }
    }

    /// PUSH and then POP give the word back, and the stack pointer is where it was. The two
    /// bytes below the stack pointer have to be memory that keeps what is written to it;
    /// nothing else about the processor changes but those two bytes.
    pub proof fn lemma_push_then_pop(self, value: u16)
        requires
            self.wf(),
            self.bus.keeps(offset_address(self.sp, -1)),
            self.bus.keeps(offset_address(self.sp, -2)),
        ensures
            self.push(value).1 is Ok,
            self.push(value).0.pop().1 == Ok::<u16, EmulationError>(value),
            self.push(value).0.pop().0 == (CpuView { bus: self.push(value).0.bus, ..self }),
            self.push(value).0.pop().0.sp == self.sp,
    {
        reveal(CpuView::push);
        reveal(CpuView::pop);
        reveal(offset_address);
        let sp1 = offset_address(self.sp, -1);
        let sp2 = offset_address(sp1, -1);
        assert(sp2 == offset_address(self.sp, -2));
        assert(sp1 != sp2);
        let high = high_byte(value);
        let low = low_byte(value);
        self.bus.lemma_write_then_read(sp1, high);
        self.bus.lemma_write_keeps_wf(sp1, high);
        self.bus.lemma_write_leaves_others(sp1, high, sp2);
        let first = self.bus.write(sp1, high).0;
        first.lemma_write_then_read(sp2, low);
        first.lemma_write_leaves_others(sp2, low, sp1);
        let second = first.write(sp2, low).0;
        assert(second.read(sp2) == Ok::<u8, EmulationError>(low));
        assert(second.read(sp1) == Ok::<u8, EmulationError>(high));
        lemma_word_round_trip(value, high, low);
        assert(offset_address(sp2, 1) == sp1);
        assert(offset_address(sp1, 1) == self.sp);
    }

    /// EI takes effect one instruction late. Where interrupts are disabled and no enable is
    /// pending, the step that executes EI leaves them disabled and the enable pending; and
    /// whatever the next step executes, if it succeeds, interrupts are enabled after it.
    pub proof fn lemma_ei_is_delayed(self)
        requires
            !self.is_halted,
            !self.ime,
            !self.set_ime,
            self.bus.read(self.pc) == Ok::<u8, EmulationError>(0xFB),
        ensures
            self.step().1 is Ok,
            !self.step().0.ime,
            self.step().0.set_ime,
            self.step().0.step().1 is Ok ==> self.step().0.step().0.ime,
    {
        reveal(decode_plain);
        reveal(CpuView::execute);
        assert(decode(0xFB, false) is Some && decode(0xFB, false)->0 is EI);
    }

    /// An enable of interrupts that is pending is carried out by the next step that
    /// succeeds, whatever that step executes.
    pub proof fn lemma_pending_enable_is_applied(self)
        requires
            !self.is_halted,
            self.set_ime,
        ensures
            self.step().1 is Ok ==> self.step().0.ime,
    {
    }
}

/// What an instruction on the accumulator makes of the accumulator, its operand and the
/// flags. CP compares and leaves the accumulator as it is.
pub open spec fn accumulator_result(
    instruction: Instruction,
    a: u8,
    value: u8,
    flags: FlagsRegister,
) -> (u8, FlagsRegister) {
    match instruction {
        Instruction::Add(_, _) => add_result(a, value),
        Instruction::AdC(_, _) => adc_result(a, value, flags.carry),
        Instruction::Sub(_, _) => sub_result(a, value),
        Instruction::SbC(_, _) => sbc_result(a, value, flags.carry),
        Instruction::And(_, _) => and_result(a, value),
        Instruction::Or(_, _) => or_result(a, value),
        Instruction::XOr(_, _) => xor_result(a, value),
        Instruction::Cp(_, _) => (a, sub_result(a, value).1),
        _ => (a, flags),
    }
}

/// What a rotate, a shift or a swap of the nibbles makes of a byte and the carry.
pub open spec fn shift_result(instruction: Instruction, value: u8, carry: bool) -> (
    u8,
    FlagsRegister,
) {
    match instruction {
        Instruction::RL(_, _) => rl_result(value, carry),
        Instruction::RLC(_, _) => rlc_result(value),
        Instruction::RR(_, _) => rr_result(value, carry),
        Instruction::RRC(_, _) => rrc_result(value),
        Instruction::SLA(_, _) => sla_result(value),
        Instruction::SRA(_, _) => sra_result(value),
        Instruction::Swap(_, _) => swap_result(value),
        _ => srl_result(value),
    }
}

/// `address` plus `offset`, wrapping at 65536.
fn address_plus(address: u16, offset: u16) -> (result: u16)
    ensures
        result == offset_address(address, offset as int),
{
    reveal(offset_address);
    address.wrapping_add(offset)
}

/// `address` minus `offset`, wrapping at 65536.
fn address_minus(address: u16, offset: u16) -> (result: u16)
    ensures
        result == offset_address(address, -(offset as int)),
{
    reveal(offset_address);
    address.wrapping_sub(offset)
}

impl View for Cpu {
    type V = CpuView;

    closed spec fn view(&self) -> CpuView {
        CpuView {
            bus: self.bus@,
            pc: self.pc,
            registers: self.registers,
            sp: self.sp,
            is_halted: self.is_halted,
            ime: self.ime,
            set_ime: self.set_ime,
            is_stopped: self.is_stopped,
        }
    }
}

impl Cpu {
    /// A processor without a cartridge, waiting at the entry point.
    pub fn new() -> (cpu: Cpu)
        ensures
            cpu@ == CpuView::initial(),
            cpu@.wf(),
    {
        proof {
            CpuView::initial().lemma_setup_keeps_wf(CpuView::initial().bus.cartridge->0, 0);
        }
        Cpu {
            bus: MemoryBus::new(),
            registers: Registers::new(),
            pc: ENTRY_POINT,
            sp: 0,
            is_halted: false,
            ime: false,
            set_ime: false,
            is_stopped: false,
        }
    }

    /// Attaches a cartridge and puts the program counter at its entry point.
    pub fn attach_cartridge(&mut self, cartridge: Cartridge)
        ensures
            final(self)@ == old(self)@.with_cartridge(cartridge@),
    {
        self.bus.attach_cartridge(cartridge);
        self.pc = ENTRY_POINT;
    }

    /// Whether a cartridge is attached.
    pub fn has_cartridge(&self) -> (attached: bool)
        ensures
            attached == self@.bus.cartridge is Some,
    {
        self.bus.has_cartridge()
    }

    /// Advances the timers by the cycles that an instruction took.
    pub fn run_timers(&mut self, cycles: u16)
        ensures
            final(self)@ == old(self)@.with_timers_after(cycles),
    {
        self.bus.run_timers(cycles);
    }

    /// The program counter.
    pub fn pc(&self) -> (pc: u16)
        ensures
            pc == self@.pc,
    {
        self.pc
    }

    /// The stack pointer.
    pub fn sp(&self) -> (sp: u16)
        ensures
            sp == self@.sp,
    {
        self.sp
    }

    /// The register file.
    pub fn registers(&self) -> (registers: Registers)
        ensures
            registers == self@.registers,
    {
        self.registers
    }

    /// The bus, for reading what lies behind it.
    pub fn bus(&self) -> (bus: &MemoryBus)
        ensures
            bus@ == self@.bus,
    {
        &self.bus
    }

    /// Whether HALT was executed.
    pub fn is_halted(&self) -> (halted: bool)
        ensures
            halted == self@.is_halted,
    {
        self.is_halted
    }

    /// Whether STOP was executed.
    pub fn is_stopped(&self) -> (stopped: bool)
        ensures
            stopped == self@.is_stopped,
    {
        self.is_stopped
    }

    /// The interrupt master enable flag.
    pub fn interrupts_enabled(&self) -> (enabled: bool)
        ensures
            enabled == self@.ime,
    {
        self.ime
    }

    /// Whether EI was the last instruction, so that interrupts get enabled after the next.
    pub fn interrupt_enable_pending(&self) -> (pending: bool)
        ensures
            pending == self@.set_ime,
    {
        self.set_ime
    }

    /// Fetches, decodes and executes one instruction and gives the cycles that it took.
    pub fn step(&mut self) -> (result: Result<u32, EmulationError>)
        ensures
            final(self)@ == old(self)@.step().0,
            result == old(self)@.step().1,
            old(self)@.wf() ==> final(self)@.wf(),
    {
        proof {
            if self@.wf() {
                self@.lemma_step_keeps_wf();
            }
        }
        if self.is_halted {
            return Ok(1);
        }
        let mut instruction_byte: u8 = self.bus.read_byte(self.pc)?;
        let prefixed: bool = instruction_byte == PREFIX_BYTE;
        if prefixed {
            // if this is a prefixed instruction, read the next byte instead
            instruction_byte = self.bus.read_byte(address_plus(self.pc, 1))?;
        }
        match Instruction::from_byte(instruction_byte, prefixed) {
            Some(instruction) => {
                let pending: bool = self.set_ime;
                let (next_pc, cycles) = self.execute(&instruction)?;
                self.pc = next_pc;
                if pending {
                    self.ime = true;
                }
                self.set_ime = matches!(instruction, Instruction::EI(_));
                Ok(cycles)
            },
            None => {
                let err = EmulationError::UnknownOpcode {
                    opcode: instruction_byte,
                    is_prefixed: prefixed,
                };
                Err(err)
            },
        }
    }

    /// Executes one instruction and gives the next program counter and the cycles. Every
    /// instruction has a method of its own below; this one finds it.
    pub fn execute(&mut self, instruction: &Instruction) -> (result: Executed)
        requires
            instruction.well_formed(),
        ensures
            final(self)@ == old(self)@.execute(*instruction).0,
            result == old(self)@.execute(*instruction).1,
            old(self)@.wf() ==> final(self)@.wf(),
    {
        proof {
            if self@.wf() {
                self@.lemma_execute_keeps_wf(*instruction);
            }
        }
        match instruction {
            Instruction::AdC(source, data) => return self.execute_adc(source, data),
            Instruction::Add(source, data) => return self.execute_add(source, data),
            Instruction::Add16Bits(source, target, data) => return self.execute_add16(source, target, data),
            Instruction::And(source, data) => return self.execute_and(source, data),
            Instruction::Bit(bit_pos, source, data) => return self.execute_bit(bit_pos, source, data),
            Instruction::CCF(data) => return self.execute_ccf(data),
            Instruction::Cp(source, data) => return self.execute_cp(source, data),
            Instruction::Cpl(data) => return self.execute_cpl(data),
            Instruction::DAA(data) => return self.execute_daa(data),
            Instruction::Dec(target, data) => return self.execute_dec(target, data),
            Instruction::Dec16Bits(target, data) => return self.execute_dec16(target, data),
            Instruction::DI(data) => return self.execute_di(data),
            Instruction::EI(data) => return self.execute_ei(data),
            Instruction::Inc(target, data) => return self.execute_inc(target, data),
            Instruction::Inc16Bits(target, data) => return self.execute_inc16(target, data),
            Instruction::Or(source, data) => return self.execute_or(source, data),
            Instruction::Res(bit_pos, target, data) => return self.execute_res(bit_pos, target, data),
            Instruction::RL(target, data) => return self.execute_rl(target, data),
            Instruction::RLC(target, data) => return self.execute_rlc(target, data),
            Instruction::RR(target, data) => return self.execute_rr(target, data),
            Instruction::RRC(target, data) => return self.execute_rrc(target, data),
            Instruction::RST(vec, data) => return self.execute_rst(vec, data),
            Instruction::SbC(source, data) => return self.execute_sbc(source, data),
            Instruction::SCF(data) => return self.execute_scf(data),
            Instruction::SetBit(bit_pos, target, data) => return self.execute_set(bit_pos, target, data),
            Instruction::SLA(target, data) => return self.execute_sla(target, data),
            Instruction::SRA(target, data) => return self.execute_sra(target, data),
            Instruction::SRL(target, data) => return self.execute_srl(target, data),
            Instruction::Stop(data) => return self.execute_stop(data),
            Instruction::Sub(source, data) => return self.execute_sub(source, data),
            Instruction::Swap(target, data) => return self.execute_swap(target, data),
            Instruction::XOr(source, data) => return self.execute_xor(source, data),
            Instruction::Jp(test, source, data) => return self.execute_jp(test, source, data),
            Instruction::JR(test, data) => return self.execute_jr(test, data),
            Instruction::Ld(load_type, data) => return self.execute_ld(load_type, data),
            Instruction::Push(target, data) => return self.execute_push(target, data),
            Instruction::Pop(target, data) => return self.execute_pop(target, data),
            Instruction::Call(test, data) => return self.execute_call(test, data),
            Instruction::Ret(test, data) => return self.execute_ret(test, data),
            Instruction::RetI(data) => return self.execute_reti(data),
            Instruction::NoOp(data) => return self.execute_nop(data),
            Instruction::Halt(data) => return self.execute_halt(data),
        }
    }

    /// ADC: adds the operand and the carry to A.
    fn execute_adc(&mut self, source: &ByteSource, data: &Data) -> (result: Executed)
        ensures
            final(self)@ == old(self)@.execute(Instruction::AdC(*source, *data)).0,
            result == old(self)@.execute(Instruction::AdC(*source, *data)).1,
    {
        reveal(CpuView::execute);
        // Add the source value plus the carry flag to A.
        let value: u8 = self.get_byte_source_value(source)?;
        let (new_value, flags) = alu::adc(self.registers.a, value, self.registers.f.carry);
        self.registers.f = flags;
        self.registers.a = new_value;

        let next_pc: u16 = address_plus(self.pc, data.bytes);
        Ok((next_pc, data.cycles))
    }

    /// ADD: adds the operand to A.
    fn execute_add(&mut self, source: &ByteSource, data: &Data) -> (result: Executed)
        ensures
            final(self)@ == old(self)@.execute(Instruction::Add(*source, *data)).0,
            result == old(self)@.execute(Instruction::Add(*source, *data)).1,
    {
        reveal(CpuView::execute);
        let value: u8 = self.get_byte_source_value(source)?;
        let new_value: u8 = self.add(value);
        self.registers.a = new_value;

        let next_pc: u16 = address_plus(self.pc, data.bytes);
        Ok((next_pc, data.cycles))
    }

    /// ADD of words: adds the source to the target.
    fn execute_add16(
        &mut self,
        source: &WordSource,
        target: &WordTarget,
        data: &Data,
    ) -> (result: Executed)
        ensures
            final(self)@ == old(self)@.execute(Instruction::Add16Bits(*source, *target, *data)).0,
            result == old(self)@.execute(Instruction::Add16Bits(*source, *target, *data)).1,
    {
        reveal(CpuView::execute);
        let source_value: u16 = self.get_word_source_value(source)?;
        let target_value: u16 = self.get_word_target_value(target)?;
        let (new_value, flags) = alu::add16(target_value, source_value, self.registers.f);
        self.registers.f = flags;

        self.set_word_target_value(target, new_value)?;

        let next_pc: u16 = address_plus(self.pc, data.bytes);
        Ok((next_pc, data.cycles))
    }

    /// AND: A and the operand, bit by bit.
    fn execute_and(&mut self, source: &ByteSource, data: &Data) -> (result: Executed)
        ensures
            final(self)@ == old(self)@.execute(Instruction::And(*source, *data)).0,
            result == old(self)@.execute(Instruction::And(*source, *data)).1,
    {
        reveal(CpuView::execute);
        let value: u8 = self.get_byte_source_value(source)?;
        let (new_value, flags) = alu::and(self.registers.a, value);
        self.registers.a = new_value;
        self.registers.f = flags;

        let next_pc: u16 = address_plus(self.pc, data.bytes);
        Ok((next_pc, data.cycles))
    }

    /// BIT: tests one bit of the operand.
    fn execute_bit(&mut self, bit_pos: &u8, source: &ByteSource, data: &Data) -> (result: Executed)
        requires
            Instruction::Bit(*bit_pos, *source, *data).well_formed(),
        ensures
            final(self)@ == old(self)@.execute(Instruction::Bit(*bit_pos, *source, *data)).0,
            result == old(self)@.execute(Instruction::Bit(*bit_pos, *source, *data)).1,
    {
        reveal(CpuView::execute);
        let byte: u8 = self.get_byte_source_value(source)?;
        self.registers.f = alu::bit(*bit_pos, byte, self.registers.f);

        let next_pc: u16 = address_plus(self.pc, data.bytes);
        Ok((next_pc, data.cycles))
    }

    /// CCF: flips the carry.
    fn execute_ccf(&mut self, data: &Data) -> (result: Executed)
        ensures
            final(self)@ == old(self)@.execute(Instruction::CCF(*data)).0,
            result == old(self)@.execute(Instruction::CCF(*data)).1,
    {
        reveal(CpuView::execute);
        // Complement Carry Flag.
        self.registers.f = alu::ccf(self.registers.f);

        let next_pc: u16 = address_plus(self.pc, data.bytes);
        Ok((next_pc, data.cycles))
    }

    /// CP: compares A with the operand.
    fn execute_cp(&mut self, source: &ByteSource, data: &Data) -> (result: Executed)
        ensures
            final(self)@ == old(self)@.execute(Instruction::Cp(*source, *data)).0,
            result == old(self)@.execute(Instruction::Cp(*source, *data)).1,
    {
        reveal(CpuView::execute);
        // Subtract the source from A and set the flags, but don't store the result.
        let value: u8 = self.get_byte_source_value(source)?;
        let (_, flags) = crate::alu::sub(self.registers.a, value);
        self.registers.f = flags;

        let next_pc: u16 = address_plus(self.pc, data.bytes);
        Ok((next_pc, data.cycles))
    }

    /// CPL: flips every bit of A.
    fn execute_cpl(&mut self, data: &Data) -> (result: Executed)
        ensures
            final(self)@ == old(self)@.execute(Instruction::Cpl(*data)).0,
            result == old(self)@.execute(Instruction::Cpl(*data)).1,
    {
        reveal(CpuView::execute);
        // ComPLement accumulator (A = ~A).
        let (new_value, flags) = alu::cpl(self.registers.a, self.registers.f);
        self.registers.a = new_value;
        self.registers.f = flags;

        let next_pc: u16 = address_plus(self.pc, data.bytes);
        Ok((next_pc, data.cycles))
    }

    /// DAA: corrects A after an operation on packed decimals.
    fn execute_daa(&mut self, data: &Data) -> (result: Executed)
        ensures
            final(self)@ == old(self)@.execute(Instruction::DAA(*data)).0,
            result == old(self)@.execute(Instruction::DAA(*data)).1,
    {
        reveal(CpuView::execute);
        // Decimal Adjust Accumulator after an operation on packed decimals.
        let (new_value, flags) = alu::daa(self.registers.a, self.registers.f);
        self.registers.a = new_value;
        self.registers.f = flags;

        let next_pc: u16 = address_plus(self.pc, data.bytes);
        Ok((next_pc, data.cycles))
    }

    /// DEC: the target less one.
    fn execute_dec(&mut self, target: &ByteTarget, data: &Data) -> (result: Executed)
        ensures
            final(self)@ == old(self)@.execute(Instruction::Dec(*target, *data)).0,
            result == old(self)@.execute(Instruction::Dec(*target, *data)).1,
    {
        reveal(CpuView::execute);
        let value: u8 = self.get_byte_target_value(target)?;
        let (new_value, flags) = alu::dec(value, self.registers.f);
        self.registers.f = flags;

        self.set_byte_target_value(target, new_value)?;

        let next_pc: u16 = address_plus(self.pc, data.bytes);
        Ok((next_pc, data.cycles))
    }

    /// DEC of a word: the target less one.
    fn execute_dec16(&mut self, target: &WordTarget, data: &Data) -> (result: Executed)
        ensures
            final(self)@ == old(self)@.execute(Instruction::Dec16Bits(*target, *data)).0,
            result == old(self)@.execute(Instruction::Dec16Bits(*target, *data)).1,
    {
        reveal(CpuView::execute);
        let value: u16 = self.get_word_target_value(target)?;
        let new_value: u16 = address_minus(value, 1);
        self.set_word_target_value(target, new_value)?;

        let next_pc: u16 = address_plus(self.pc, data.bytes);
        Ok((next_pc, data.cycles))
    }

    /// DI: disables interrupts at once.
    fn execute_di(&mut self, data: &Data) -> (result: Executed)
        ensures
            final(self)@ == old(self)@.execute(Instruction::DI(*data)).0,
            result == old(self)@.execute(Instruction::DI(*data)).1,
    {
        reveal(CpuView::execute);
        // Disable Interrupts by clearing the IME flag.
        self.ime = false;

        let next_pc: u16 = address_plus(self.pc, data.bytes);
        Ok((next_pc, data.cycles))
    }

    /// EI: asks for interrupts to be enabled after the next instruction.
    fn execute_ei(&mut self, data: &Data) -> (result: Executed)
        ensures
            final(self)@ == old(self)@.execute(Instruction::EI(*data)).0,
            result == old(self)@.execute(Instruction::EI(*data)).1,
    {
        reveal(CpuView::execute);
        // Enable Interrupts: the IME flag is set after the instruction following EI.
        self.set_ime = true;

        let next_pc: u16 = address_plus(self.pc, data.bytes);
        Ok((next_pc, data.cycles))
    }

    /// INC: the target plus one.
    fn execute_inc(&mut self, target: &ByteTarget, data: &Data) -> (result: Executed)
        ensures
            final(self)@ == old(self)@.execute(Instruction::Inc(*target, *data)).0,
            result == old(self)@.execute(Instruction::Inc(*target, *data)).1,
    {
        reveal(CpuView::execute);
        let value: u8 = self.get_byte_target_value(target)?;
        let (new_value, flags) = alu::inc(value, self.registers.f);
        self.registers.f = flags;

        self.set_byte_target_value(target, new_value)?;

        let next_pc: u16 = address_plus(self.pc, data.bytes);
        Ok((next_pc, data.cycles))
    }

    /// INC of a word: the target plus one.
    fn execute_inc16(&mut self, target: &WordTarget, data: &Data) -> (result: Executed)
        ensures
            final(self)@ == old(self)@.execute(Instruction::Inc16Bits(*target, *data)).0,
            result == old(self)@.execute(Instruction::Inc16Bits(*target, *data)).1,
    {
        reveal(CpuView::execute);
        let value: u16 = self.get_word_target_value(target)?;
        let new_value: u16 = address_plus(value, 1);
        self.set_word_target_value(target, new_value)?;

        let next_pc: u16 = address_plus(self.pc, data.bytes);
        Ok((next_pc, data.cycles))
    }

    /// OR: A or the operand, bit by bit.
    fn execute_or(&mut self, source: &ByteSource, data: &Data) -> (result: Executed)
        ensures
            final(self)@ == old(self)@.execute(Instruction::Or(*source, *data)).0,
            result == old(self)@.execute(Instruction::Or(*source, *data)).1,
    {
        reveal(CpuView::execute);
        // Bitwise OR
        let value: u8 = self.get_byte_source_value(source)?;
        let (new_value, flags) = alu::or(self.registers.a, value);
        self.registers.a = new_value;
        self.registers.f = flags;

        let next_pc: u16 = address_plus(self.pc, data.bytes);
        Ok((next_pc, data.cycles))
    }

    /// RES: clears one bit of the target.
    fn execute_res(&mut self, bit_pos: &u8, target: &ByteTarget, data: &Data) -> (result: Executed)
        requires
            Instruction::Res(*bit_pos, *target, *data).well_formed(),
        ensures
            final(self)@ == old(self)@.execute(Instruction::Res(*bit_pos, *target, *data)).0,
            result == old(self)@.execute(Instruction::Res(*bit_pos, *target, *data)).1,
    {
        reveal(CpuView::execute);
        // Set the bit in target to 0. Bit 0 is the rightmost one, bit 7 the leftmost.
        let byte: u8 = self.get_byte_target_value(target)?;
        let result: u8 = alu::res(*bit_pos, byte);
        self.set_byte_target_value(target, result)?;

        let next_pc: u16 = address_plus(self.pc, data.bytes);
        Ok((next_pc, data.cycles))
    }

    /// RL: rotates the target left through the carry.
    fn execute_rl(&mut self, target: &ByteTarget, data: &Data) -> (result: Executed)
        ensures
            final(self)@ == old(self)@.execute(Instruction::RL(*target, *data)).0,
            result == old(self)@.execute(Instruction::RL(*target, *data)).1,
    {
        reveal(CpuView::execute);
        // Rotate bits in target left through carry.
        let value: u8 = self.get_byte_target_value(target)?;
        let (new_value, flags) = alu::rl(value, self.registers.f.carry);
        self.set_byte_target_value(target, new_value)?;
        self.registers.f = flags;

        let next_pc: u16 = address_plus(self.pc, data.bytes);
        Ok((next_pc, data.cycles))
    }

    /// RLC: rotates the target left.
    fn execute_rlc(&mut self, target: &ByteTarget, data: &Data) -> (result: Executed)
        ensures
            final(self)@ == old(self)@.execute(Instruction::RLC(*target, *data)).0,
            result == old(self)@.execute(Instruction::RLC(*target, *data)).1,
    {
        reveal(CpuView::execute);
        // Rotate target left.
        let value: u8 = self.get_byte_target_value(target)?;
        let (new_value, flags) = alu::rlc(value);
        self.set_byte_target_value(target, new_value)?;
        self.registers.f = flags;

        let next_pc: u16 = address_plus(self.pc, data.bytes);
        Ok((next_pc, data.cycles))
    }

    /// RR: rotates the target right through the carry.
    fn execute_rr(&mut self, target: &ByteTarget, data: &Data) -> (result: Executed)
        ensures
            final(self)@ == old(self)@.execute(Instruction::RR(*target, *data)).0,
            result == old(self)@.execute(Instruction::RR(*target, *data)).1,
    {
        reveal(CpuView::execute);
        // Rotate bits in target right through carry.
        let value: u8 = self.get_byte_target_value(target)?;
        let (new_value, flags) = alu::rr(value, self.registers.f.carry);
        self.set_byte_target_value(target, new_value)?;
        self.registers.f = flags;

        let next_pc: u16 = address_plus(self.pc, data.bytes);
        Ok((next_pc, data.cycles))
    }

    /// RRC: rotates the target right.
    fn execute_rrc(&mut self, target: &ByteTarget, data: &Data) -> (result: Executed)
        ensures
            final(self)@ == old(self)@.execute(Instruction::RRC(*target, *data)).0,
            result == old(self)@.execute(Instruction::RRC(*target, *data)).1,
    {
        reveal(CpuView::execute);
        // Rotate target right.
        let value: u8 = self.get_byte_target_value(target)?;
        let (new_value, flags) = alu::rrc(value);
        self.set_byte_target_value(target, new_value)?;
        self.registers.f = flags;

        let next_pc: u16 = address_plus(self.pc, data.bytes);
        Ok((next_pc, data.cycles))
    }

    /// RST: calls one of the fixed addresses.
    fn execute_rst(&mut self, vec: &u8, data: &Data) -> (result: Executed)
        ensures
            final(self)@ == old(self)@.execute(Instruction::RST(*vec, *data)).0,
            result == old(self)@.execute(Instruction::RST(*vec, *data)).1,
    {
        reveal(CpuView::execute);
        // Call address vec: a shorter and faster CALL to one of eight fixed addresses.
        let next_instruction: u16 = address_plus(self.pc, data.bytes);
        self.push(next_instruction)?;

        let next_pc: u16 = *vec as u16;
        Ok((next_pc, data.cycles))
    }

    /// SBC: subtracts the operand and the carry from A.
    fn execute_sbc(&mut self, source: &ByteSource, data: &Data) -> (result: Executed)
        ensures
            final(self)@ == old(self)@.execute(Instruction::SbC(*source, *data)).0,
            result == old(self)@.execute(Instruction::SbC(*source, *data)).1,
    {
        reveal(CpuView::execute);
        // Subtract the value in source and the carry flag from A.
        let value: u8 = self.get_byte_source_value(source)?;
        let (result, flags) = alu::sbc(self.registers.a, value, self.registers.f.carry);
        self.registers.a = result;
        self.registers.f = flags;

        let next_pc: u16 = address_plus(self.pc, data.bytes);
        Ok((next_pc, data.cycles))
    }

    /// SCF: sets the carry.
    fn execute_scf(&mut self, data: &Data) -> (result: Executed)
        ensures
            final(self)@ == old(self)@.execute(Instruction::SCF(*data)).0,
            result == old(self)@.execute(Instruction::SCF(*data)).1,
    {
        reveal(CpuView::execute);
        // Set Carry Flag.
        self.registers.f = alu::scf(self.registers.f);

        let next_pc: u16 = address_plus(self.pc, data.bytes);
        Ok((next_pc, data.cycles))
    }

    /// SET: sets one bit of the target.
    fn execute_set(&mut self, bit_pos: &u8, target: &ByteTarget, data: &Data) -> (result: Executed)
        requires
            Instruction::SetBit(*bit_pos, *target, *data).well_formed(),
        ensures
            final(self)@ == old(self)@.execute(Instruction::SetBit(*bit_pos, *target, *data)).0,
            result == old(self)@.execute(Instruction::SetBit(*bit_pos, *target, *data)).1,
    {
        reveal(CpuView::execute);
        // Set the bit in target to 1. Bit 0 is the rightmost one, bit 7 the leftmost.
        let byte: u8 = self.get_byte_target_value(target)?;
        let result: u8 = alu::set(*bit_pos, byte);
        self.set_byte_target_value(target, result)?;

        let next_pc: u16 = address_plus(self.pc, data.bytes);
        Ok((next_pc, data.cycles))
    }

    /// SLA: shifts the target left.
    fn execute_sla(&mut self, target: &ByteTarget, data: &Data) -> (result: Executed)
        ensures
            final(self)@ == old(self)@.execute(Instruction::SLA(*target, *data)).0,
            result == old(self)@.execute(Instruction::SLA(*target, *data)).1,
    {
        reveal(CpuView::execute);
        // Shift Left Arithmetically
        let value: u8 = self.get_byte_target_value(target)?;
        let (new_value, flags) = alu::sla(value);
        self.set_byte_target_value(target, new_value)?;
        self.registers.f = flags;

        let next_pc: u16 = address_plus(self.pc, data.bytes);
        Ok((next_pc, data.cycles))
    }

    /// SRA: shifts the target right and keeps its sign.
    fn execute_sra(&mut self, target: &ByteTarget, data: &Data) -> (result: Executed)
        ensures
            final(self)@ == old(self)@.execute(Instruction::SRA(*target, *data)).0,
            result == old(self)@.execute(Instruction::SRA(*target, *data)).1,
    {
        reveal(CpuView::execute);
        // Shift Right Arithmetically
        let value: u8 = self.get_byte_target_value(target)?;
        let (new_value, flags) = alu::sra(value);
        self.set_byte_target_value(target, new_value)?;
        self.registers.f = flags;

        let next_pc: u16 = address_plus(self.pc, data.bytes);
        Ok((next_pc, data.cycles))
    }

    /// SRL: shifts the target right.
    fn execute_srl(&mut self, target: &ByteTarget, data: &Data) -> (result: Executed)
        ensures
            final(self)@ == old(self)@.execute(Instruction::SRL(*target, *data)).0,
            result == old(self)@.execute(Instruction::SRL(*target, *data)).1,
    {
        reveal(CpuView::execute);
        // Shift Right Logically
        let value: u8 = self.get_byte_target_value(target)?;
        let (new_value, flags) = alu::srl(value);
        self.set_byte_target_value(target, new_value)?;
        self.registers.f = flags;

        let next_pc: u16 = address_plus(self.pc, data.bytes);
        Ok((next_pc, data.cycles))
    }

    /// STOP: stops the processor and resets the divider.
    fn execute_stop(&mut self, data: &Data) -> (result: Executed)
        ensures
            final(self)@ == old(self)@.execute(Instruction::Stop(*data)).0,
            result == old(self)@.execute(Instruction::Stop(*data)).1,
    {
        reveal(CpuView::execute);
        self.is_stopped = true;

        // The divider register is reset when the stop instruction is executed.
        self.bus.reset_divider_register();

        let next_pc: u16 = address_plus(self.pc, data.bytes);
        Ok((next_pc, data.cycles))
    }

    /// SUB: subtracts the operand from A.
    fn execute_sub(&mut self, source: &ByteSource, data: &Data) -> (result: Executed)
        ensures
            final(self)@ == old(self)@.execute(Instruction::Sub(*source, *data)).0,
            result == old(self)@.execute(Instruction::Sub(*source, *data)).1,
    {
        reveal(CpuView::execute);
        let value: u8 = self.get_byte_source_value(source)?;
        let (result, flags) = crate::alu::sub(self.registers.a, value);
        self.registers.a = result;
        self.registers.f = flags;

        let next_pc: u16 = address_plus(self.pc, data.bytes);
        Ok((next_pc, data.cycles))
    }

    /// SWAP: exchanges the two nibbles of the target.
    fn execute_swap(&mut self, target: &ByteTarget, data: &Data) -> (result: Executed)
        ensures
            final(self)@ == old(self)@.execute(Instruction::Swap(*target, *data)).0,
            result == old(self)@.execute(Instruction::Swap(*target, *data)).1,
    {
        reveal(CpuView::execute);
        // Swap the upper four bits of the target and the lower four.
        let value: u8 = self.get_byte_target_value(target)?;
        let (new_value, flags) = alu::swap(value);
        self.set_byte_target_value(target, new_value)?;
        self.registers.f = flags;

        let next_pc: u16 = address_plus(self.pc, data.bytes);
        Ok((next_pc, data.cycles))
    }

    /// XOR: A exclusive-or the operand, bit by bit.
    fn execute_xor(&mut self, source: &ByteSource, data: &Data) -> (result: Executed)
        ensures
            final(self)@ == old(self)@.execute(Instruction::XOr(*source, *data)).0,
            result == old(self)@.execute(Instruction::XOr(*source, *data)).1,
    {
        reveal(CpuView::execute);
        // Bitwise XOR
        let value: u8 = self.get_byte_source_value(source)?;
        let (new_value, flags) = alu::xor(self.registers.a, value);
        self.registers.a = new_value;
        self.registers.f = flags;

        let next_pc: u16 = address_plus(self.pc, data.bytes);
        Ok((next_pc, data.cycles))
    }

    /// JP: jumps where the condition holds.
    fn execute_jp(
        &mut self,
        test: &JumpTest,
        source: &WordSource,
        data: &Data,
    ) -> (result: Executed)
        requires
            Instruction::Jp(*test, *source, *data).well_formed(),
        ensures
            final(self)@ == old(self)@.execute(Instruction::Jp(*test, *source, *data)).0,
            result == old(self)@.execute(Instruction::Jp(*test, *source, *data)).1,
    {
        reveal(CpuView::execute);
        let should_jump: bool = self.perform_jump_test(test);
        if should_jump {
            let next_pc: u16 = self.get_word_source_value(source)?;
            let cycles: u32 = data.get_action_cycles();
            Ok((next_pc, cycles))
        } else {
            let next_pc: u16 = address_plus(self.pc, data.bytes);
            Ok((next_pc, data.cycles))
        }
    }

    /// JR: jumps by a signed displacement where the condition holds.
    fn execute_jr(&mut self, test: &JumpTest, data: &Data) -> (result: Executed)
        requires
            Instruction::JR(*test, *data).well_formed(),
        ensures
            final(self)@ == old(self)@.execute(Instruction::JR(*test, *data)).0,
            result == old(self)@.execute(Instruction::JR(*test, *data)).1,
    {
        reveal(CpuView::execute);
        // Relative jump: the displacement counts from the instruction following the JR
        let should_jump: bool = self.perform_jump_test(test);
        let next_instruction: u16 = address_plus(self.pc, data.bytes);
        let byte: u8 = self.read_next_byte()?;

        if should_jump {
            let next_pc: u16 = alu::displace(next_instruction, byte);
            Ok((next_pc, data.get_action_cycles()))
        } else {
            Ok((next_instruction, data.cycles))
        }
    }

    /// LD: copies a byte or a word.
    fn execute_ld(&mut self, load_type: &LoadType, data: &Data) -> (result: Executed)
        ensures
            final(self)@ == old(self)@.execute(Instruction::Ld(*load_type, *data)).0,
            result == old(self)@.execute(Instruction::Ld(*load_type, *data)).1,
    {
        reveal(CpuView::execute);
        match load_type {
            LoadType::Byte(target, source) => {
                let value: u8 = self.get_byte_source_value(source)?;
                self.set_byte_target_value(target, value)?;
            },
            LoadType::Word(target, source) => {
                let value: u16 = self.get_word_source_value(source)?;
                self.set_word_target_value(target, value)?;
            },
        }

        let next_pc: u16 = address_plus(self.pc, data.bytes);
        Ok((next_pc, data.cycles))
    }

    /// PUSH: puts a register pair on the stack.
    fn execute_push(&mut self, target: &RR, data: &Data) -> (result: Executed)
        ensures
            final(self)@ == old(self)@.execute(Instruction::Push(*target, *data)).0,
            result == old(self)@.execute(Instruction::Push(*target, *data)).1,
    {
        reveal(CpuView::execute);
        let value: u16 = self.get_rr_value(target);
        self.push(value)?;

        let next_pc: u16 = address_plus(self.pc, data.bytes);
        Ok((next_pc, data.cycles))
    }

    /// POP: takes a register pair from the stack.
    fn execute_pop(&mut self, target: &RR, data: &Data) -> (result: Executed)
        ensures
            final(self)@ == old(self)@.execute(Instruction::Pop(*target, *data)).0,
            result == old(self)@.execute(Instruction::Pop(*target, *data)).1,
    {
        reveal(CpuView::execute);
        let result: u16 = self.pop()?;
        self.set_rr_value(target, result);

        let next_pc: u16 = address_plus(self.pc, data.bytes);
        Ok((next_pc, data.cycles))
    }

    /// CALL: calls a subroutine where the condition holds.
    fn execute_call(&mut self, test: &JumpTest, data: &Data) -> (result: Executed)
        requires
            Instruction::Call(*test, *data).well_formed(),
        ensures
            final(self)@ == old(self)@.execute(Instruction::Call(*test, *data)).0,
            result == old(self)@.execute(Instruction::Call(*test, *data)).1,
    {
        reveal(CpuView::execute);
        // call a subroutine
        let should_jump: bool = self.perform_jump_test(test);
        let next_pc: u16 = address_plus(self.pc, 3);

        if should_jump {
            self.push(next_pc)?;

            let cycles: u32 = data.get_action_cycles();
            let next_pc: u16 = self.read_next_word()?;
            Ok((next_pc, cycles))
        } else {
            Ok((next_pc, data.cycles))
        }
    }

    /// RET: returns where the condition holds.
    fn execute_ret(&mut self, test: &JumpTest, data: &Data) -> (result: Executed)
        requires
            Instruction::Ret(*test, *data).well_formed(),
        ensures
            final(self)@ == old(self)@.execute(Instruction::Ret(*test, *data)).0,
            result == old(self)@.execute(Instruction::Ret(*test, *data)).1,
    {
        reveal(CpuView::execute);
        // return from a subroutine
        let should_jump: bool = self.perform_jump_test(test);
        let next_pc: u16 = self.ret(should_jump)?;
        let cycles: u32 = if should_jump {
            data.get_action_cycles()
        } else {
            data.cycles
        };

        Ok((next_pc, cycles))
    }

    /// RETI: returns and enables interrupts at once.
    fn execute_reti(&mut self, data: &Data) -> (result: Executed)
        ensures
            final(self)@ == old(self)@.execute(Instruction::RetI(*data)).0,
            result == old(self)@.execute(Instruction::RetI(*data)).1,
    {
        reveal(CpuView::execute);
        // Return from a subroutine and enable interrupts right away.
        let next_pc: u16 = self.ret(true)?;
        self.ime = true;
        Ok((next_pc, data.cycles))
    }

    /// NOP: does nothing.
    fn execute_nop(&mut self, data: &Data) -> (result: Executed)
        ensures
            final(self)@ == old(self)@.execute(Instruction::NoOp(*data)).0,
            result == old(self)@.execute(Instruction::NoOp(*data)).1,
    {
        reveal(CpuView::execute);
        // do nothing
        let next_pc: u16 = address_plus(self.pc, data.bytes);
        Ok((next_pc, data.cycles))
    }

    /// HALT: halts the processor.
    fn execute_halt(&mut self, data: &Data) -> (result: Executed)
        ensures
            final(self)@ == old(self)@.execute(Instruction::Halt(*data)).0,
            result == old(self)@.execute(Instruction::Halt(*data)).1,
    {
        reveal(CpuView::execute);
        self.is_halted = true;

        let next_pc: u16 = address_plus(self.pc, data.bytes);
        Ok((next_pc, data.cycles))
    }

    /// ADD: sets the flags of the sum of A and `value` and gives the sum.
    pub fn add(&mut self, value: u8) -> (new_value: u8)
        ensures
            new_value == add_result(old(self)@.registers.a, value).0,
            final(self)@ == old(self)@.with_flags(add_result(old(self)@.registers.a, value).1),
    {
        let (new_value, flags) = crate::alu::add(self.registers.a, value);
        self.registers.f = flags;
        new_value
    }

    /// Pushes a word: high byte first, each byte below the one before.
    pub fn push(&mut self, value: u16) -> (result: Result<(), EmulationError>)
        ensures
            final(self)@ == old(self)@.push(value).0,
            result == old(self)@.push(value).1,
            final(self)@.pc == old(self)@.pc,
    {
        reveal(CpuView::push);
        let (msb, lsb) = split_word(value);
        self.sp = address_minus(self.sp, 1);
        self.bus.write_byte(self.sp, msb)?;

        self.sp = address_minus(self.sp, 1);
        self.bus.write_byte(self.sp, lsb)?;

        Ok(())
    }

    /// Pops a word: low byte first, each byte above the one before.
    pub fn pop(&mut self) -> (result: Result<u16, EmulationError>)
        ensures
            final(self)@ == old(self)@.pop().0,
            result == old(self)@.pop().1,
            final(self)@.pc == old(self)@.pc,
    {
        reveal(CpuView::pop);
        let lsb: u8 = self.bus.read_byte(self.sp)?;
        self.sp = address_plus(self.sp, 1);

        let msb: u8 = self.bus.read_byte(self.sp)?;
        self.sp = address_plus(self.sp, 1);

        let result: u16 = join_bytes(msb, lsb);
        Ok(result)
    }

    /// The address to continue at after a return that is taken or not.
    pub fn ret(&mut self, should_jump: bool) -> (result: Result<u16, EmulationError>)
        ensures
            final(self)@ == old(self)@.ret(should_jump).0,
            result == old(self)@.ret(should_jump).1,
            final(self)@.pc == old(self)@.pc,
    {
        if should_jump {
            self.pop()
        } else {
            Ok(address_plus(self.pc, 1))
        }
    }

    /// Whether the flags meet a condition.
    pub fn perform_jump_test(&self, test: &JumpTest) -> (should_jump: bool)
        ensures
            should_jump == self@.jump_test(*test),
    {
        match test {
            JumpTest::NotZero => !self.registers.f.zero,
            JumpTest::NotCarry => !self.registers.f.carry,
            JumpTest::Zero => self.registers.f.zero,
            JumpTest::Carry => self.registers.f.carry,
            JumpTest::Always => true,
        }
    }

    /// Reads a byte source; the incrementing and decrementing sources move HL.
    pub fn get_byte_source_value(&mut self, source: &ByteSource) -> (result: Result<
        u8,
        EmulationError,
    >)
        ensures
            final(self)@ == old(self)@.byte_source(*source).0,
            result == old(self)@.byte_source(*source).1,
            final(self)@.pc == old(self)@.pc,
    {
        reveal(CpuView::byte_source);
        let byte: u8 = match source {
            ByteSource::Register(r) => self.get_r_value(r),
            ByteSource::Registers(rr) => {
                let word: u16 = self.get_rr_value(rr);
                self.bus.read_byte(word)?
            },
            ByteSource::Immediate8 => self.read_next_byte()?,
            ByteSource::Direct => {
                let address: u16 = self.read_next_word()?;
                self.bus.read_byte(address)?
            },
            ByteSource::HL => {
                let hl: u16 = self.registers.get_hl();
                self.bus.read_byte(hl)?
            },
            ByteSource::HLI => {
                let hl: u16 = self.registers.get_hl();
                self.registers.set_hl(address_plus(hl, 1));  // increment HL
                self.bus.read_byte(hl)?
            },
            ByteSource::HLD => {
                let hl: u16 = self.registers.get_hl();
                self.registers.set_hl(address_minus(hl, 1));  // decrement HL
                self.bus.read_byte(hl)?
            },
            ByteSource::FF00PlusC => {
                let address: u16 = 0xFF00 + (self.registers.c as u16);
                self.bus.read_byte(address)?
            },
            ByteSource::FF00PlusU8 => {
                let byte: u16 = self.read_next_byte()? as u16;
                let address: u16 = 0xFF00 + byte;
                self.bus.read_byte(address)?
            },
        };

        Ok(byte)
    }

    /// Reads a byte target; nothing moves.
    pub fn get_byte_target_value(&mut self, target: &ByteTarget) -> (result: Result<
        u8,
        EmulationError,
    >)
        ensures
            final(self)@ == old(self)@,
            result == old(self)@.byte_target(*target),
    {
        reveal(CpuView::byte_target);
        match target {
            ByteTarget::Register(r) => Ok(self.get_r_value(r)),
            ByteTarget::Registers(rr) => {
                let word: u16 = self.get_rr_value(rr);
                self.bus.read_byte(word)
            },
            ByteTarget::Immediate8 => {
                let word: u16 = self.read_next_word()?;
                self.bus.read_byte(word)
            },
            ByteTarget::Direct => {
                let address: u16 = self.read_next_word()?;
                self.bus.read_byte(address)
            },
            ByteTarget::HL | ByteTarget::HLI | ByteTarget::HLD => {
                let hl: u16 = self.registers.get_hl();
                self.bus.read_byte(hl)
            },
            ByteTarget::FF00PlusC => {
                let address: u16 = 0xFF00 + (self.registers.c as u16);
                self.bus.read_byte(address)
            },
            ByteTarget::FF00PlusU8 => {
                let byte: u16 = self.read_next_byte()? as u16;
                let address: u16 = 0xFF00 + byte;
                self.bus.read_byte(address)
            },
        }
    }

    /// Writes a byte target; the incrementing and decrementing targets move HL.
    pub fn set_byte_target_value(&mut self, target: &ByteTarget, value: u8) -> (result: Result<
        (),
        EmulationError,
    >)
        ensures
            final(self)@ == old(self)@.store_byte(*target, value).0,
            result == old(self)@.store_byte(*target, value).1,
            final(self)@.pc == old(self)@.pc,
    {
        reveal(CpuView::store_byte);
        match target {
            ByteTarget::Register(r) => {
                self.set_r_value(r, value);
            },
            ByteTarget::Registers(rr) => {
                let word: u16 = self.get_rr_value(rr);
                self.bus.write_byte(word, value)?;
            },
            ByteTarget::Immediate8 => {
                let word: u16 = self.read_next_word()?;
                self.bus.write_byte(word, value)?;
            },
            ByteTarget::Direct => {
                let address: u16 = self.read_next_word()?;
                self.bus.write_byte(address, value)?;
            },
            ByteTarget::HL => {
                let hl: u16 = self.registers.get_hl();
                self.bus.write_byte(hl, value)?;
            },
            ByteTarget::HLI => {
                let hl: u16 = self.registers.get_hl();
                self.registers.set_hl(address_plus(hl, 1));  // increment HL
                self.bus.write_byte(hl, value)?;
            },
            ByteTarget::HLD => {
                let hl: u16 = self.registers.get_hl();
                self.registers.set_hl(address_minus(hl, 1));  // decrement HL
                self.bus.write_byte(hl, value)?;
            },
            ByteTarget::FF00PlusC => {
                let address: u16 = 0xFF00 + (self.registers.c as u16);
                self.bus.write_byte(address, value)?;
            },
            ByteTarget::FF00PlusU8 => {
                let byte: u16 = self.read_next_byte()? as u16;
                let address: u16 = 0xFF00 + byte;
                self.bus.write_byte(address, value)?;
            },
        }

        Ok(())
    }

    /// Reads a word source.
    pub fn get_word_source_value(&self, source: &WordSource) -> (result: Result<
        u16,
        EmulationError,
    >)
        ensures
            result == self@.word_source(*source),
    {
        reveal(CpuView::word_source);
        match source {
            WordSource::Registers(rr) => Ok(self.get_rr_value(rr)),
            WordSource::Immediate16 => self.read_next_word(),
            WordSource::SP => Ok(self.sp),
            WordSource::SpPlusI8 => Ok(address_plus(self.sp, 8)),
        }
    }

    /// Reads a word target.
    pub fn get_word_target_value(&mut self, target: &WordTarget) -> (result: Result<
        u16,
        EmulationError,
    >)
        ensures
            final(self)@ == old(self)@,
            result == old(self)@.word_target(*target),
    {
        reveal(CpuView::word_target);
        match target {
            WordTarget::Registers(rr) => Ok(self.get_rr_value(rr)),
            WordTarget::Direct => {
                let address: u16 = self.read_next_word()?;
                let lsb: u8 = self.bus.read_byte(address)?;
                let msb: u8 = self.bus.read_byte(address_plus(address, 1))?;
                let value: u16 = join_bytes(msb, lsb);
                Ok(value)
            },
            WordTarget::SP => Ok(self.sp),
        }
    }

    /// Writes a word target.
    pub fn set_word_target_value(&mut self, target: &WordTarget, value: u16) -> (result: Result<
        (),
        EmulationError,
    >)
        ensures
            final(self)@ == old(self)@.store_word(*target, value).0,
            result == old(self)@.store_word(*target, value).1,
            final(self)@.pc == old(self)@.pc,
    {
        reveal(CpuView::store_word);
        match target {
            WordTarget::Registers(rr) => {
                self.set_rr_value(rr, value);
            },
            WordTarget::Direct => {
                let address: u16 = self.read_next_word()?;
                let (msb, lsb) = split_word(value);

                self.bus.write_byte(address, lsb)?;
                self.bus.write_byte(address_plus(address, 1), msb)?;
            },
            WordTarget::SP => {
                self.sp = value;
            },
        }

        Ok(())
    }

    /// Reads an 8-bit register.
    pub fn get_r_value(&self, r: &R) -> (value: u8)
        ensures
            value == self@.r_value(*r),
    {
        match r {
            R::A => self.registers.a,
            R::B => self.registers.b,
            R::C => self.registers.c,
            R::D => self.registers.d,
            R::E => self.registers.e,
            R::F => u8::from(self.registers.f),
            R::H => self.registers.h,
            R::L => self.registers.l,
        }
    }

    /// Writes an 8-bit register.
    pub fn set_r_value(&mut self, r: &R, value: u8)
        ensures
            final(self)@ == old(self)@.with_r(*r, value),
    {
        match r {
            R::A => {
                self.registers.a = value;
            },
            R::B => {
                self.registers.b = value;
            },
            R::C => {
                self.registers.c = value;
            },
            R::D => {
                self.registers.d = value;
            },
            R::E => {
                self.registers.e = value;
            },
            R::F => {
                self.registers.f = FlagsRegister::from(value);
            },
            R::H => {
                self.registers.h = value;
            },
            R::L => {
                self.registers.l = value;
            },
        }
    }

    /// Reads a register pair.
    pub fn get_rr_value(&self, rr: &RR) -> (value: u16)
        ensures
            value == self@.rr_value(*rr),
    {
        match rr {
            RR::AF => self.registers.get_af(),
            RR::BC => self.registers.get_bc(),
            RR::DE => self.registers.get_de(),
            RR::HL => self.registers.get_hl(),
        }
    }

    /// Writes a register pair.
    pub fn set_rr_value(&mut self, rr: &RR, value: u16)
        ensures
            final(self)@ == old(self)@.with_rr(*rr, value),
    {
        match rr {
            RR::AF => self.registers.set_af(value),
            RR::BC => self.registers.set_bc(value),
            RR::DE => self.registers.set_de(value),
            RR::HL => self.registers.set_hl(value),
        };
    }

    /// Reads the byte after the opcode.
    pub fn read_next_byte(&self) -> (result: Result<u8, EmulationError>)
        ensures
            result == self@.next_byte(),
    {
        self.bus.read_byte(address_plus(self.pc, 1))
    }

    /// Reads the word after the opcode, low byte first.
    pub fn read_next_word(&self) -> (result: Result<u16, EmulationError>)
        ensures
            result == self@.next_word(),
    {
        reveal(CpuView::next_word);
        let lsb: u8 = self.bus.read_byte(address_plus(self.pc, 1))?;
        let msb: u8 = self.bus.read_byte(address_plus(self.pc, 2))?;
        let next_word: u16 = join_bytes(msb, lsb);

        Ok(next_word)
    }
}

} // verus!
