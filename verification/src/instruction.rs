// The instructions and the decoder: two tables of 256 opcodes each, stated by their layout
// and written out arm by arm.

use vstd::prelude::*;

verus! {

/// Timing and provenance of one decoded opcode.
#[derive(Copy, Clone, Debug, PartialEq, Eq)]
pub struct Data {
    /// Length of the instruction in bytes, prefix byte included.
    pub bytes: u16,
    /// Cycles the instruction costs when no branch is taken.
    pub cycles: u32,
    /// Cycles it costs when its branch is taken; present on conditional control flow only.
    pub action_cycles: Option<u32>,
    /// The opcode byte the instruction was decoded from.
    pub opcode: u8,
    /// Whether the opcode was looked up in the table behind the 0xCB prefix.
    pub is_prefixed: bool,
}

/// One decoded instruction: its family, its operands and its timing.
#[derive(Copy, Clone, Debug, PartialEq, Eq)]
pub enum Instruction {
    AdC(ByteSource, Data),
    Add(ByteSource, Data),
    Add16Bits(WordSource, WordTarget, Data),
    And(ByteSource, Data),
    Bit(u8, ByteSource, Data),
    CCF(Data),
    Cp(ByteSource, Data),
    Cpl(Data),
    DAA(Data),
    Dec(ByteTarget, Data),
    Dec16Bits(WordTarget, Data),
    DI(Data),
    EI(Data),
    Inc(ByteTarget, Data),
    Inc16Bits(WordTarget, Data),
    Or(ByteSource, Data),
    Res(u8, ByteTarget, Data),
    RL(ByteTarget, Data),
    RLC(ByteTarget, Data),
    RR(ByteTarget, Data),
    RRC(ByteTarget, Data),
    RST(u8, Data),
    SbC(ByteSource, Data),
    SCF(Data),
    SetBit(u8, ByteTarget, Data),
    SLA(ByteTarget, Data),
    SRA(ByteTarget, Data),
    SRL(ByteTarget, Data),
    Stop(Data),
    Sub(ByteSource, Data),
    Swap(ByteTarget, Data),
    XOr(ByteSource, Data),
    Jp(JumpTest, WordSource, Data),
    JR(JumpTest, Data),
    Ld(LoadType, Data),
    Push(RR, Data),
    Pop(RR, Data),
    Call(JumpTest, Data),
    Ret(JumpTest, Data),
    RetI(Data),
    NoOp(Data),
    Halt(Data),
}

/// The 8-bit registers.
#[derive(Copy, Clone, Debug, PartialEq, Eq)]
pub enum R {
    A,
    B,
    C,
    D,
    E,
    F,
    H,
    L,
}

/// The 16-bit register pairs.
#[derive(Copy, Clone, Debug, PartialEq, Eq)]
pub enum RR {
    AF,
    BC,
    DE,
    HL,
}

/// The condition of a jump, call or return.
#[derive(Copy, Clone, Debug, PartialEq, Eq)]
pub enum JumpTest {
    NotZero,
    Zero,
    NotCarry,
    Carry,
    Always,
}

/// Where an instruction writes a byte, or reads the byte that it changes.
#[derive(Copy, Clone, Debug, PartialEq, Eq)]
pub enum ByteTarget {
    Register(R),
    Registers(RR),
    Immediate8,
    Direct,
    HL,
    HLI,
    HLD,
    FF00PlusC,
    FF00PlusU8,
}

/// Where an instruction reads a byte.
#[derive(Copy, Clone, Debug, PartialEq, Eq)]
pub enum ByteSource {
    Register(R),
    Registers(RR),
    Immediate8,
    Direct,
    HL,
    HLI,
    HLD,
    FF00PlusC,
    FF00PlusU8,
}

/// Where an instruction reads a word.
#[derive(Copy, Clone, Debug, PartialEq, Eq)]
pub enum WordSource {
    Registers(RR),
    SP,
    Immediate16,
    SpPlusI8,
}

/// Where an instruction writes a word.
#[derive(Copy, Clone, Debug, PartialEq, Eq)]
pub enum WordTarget {
    Registers(RR),
    SP,
    Direct,
}

/// The two kinds of load.
#[derive(Copy, Clone, Debug, PartialEq, Eq)]
pub enum LoadType {
    Byte(ByteTarget, ByteSource),
    Word(WordTarget, WordSource),
}

impl Data {
    /// Timing of an opcode of the plain table.
    pub fn new(bytes: u16, cycles: u32, action_cycles: Option<u32>, opcode: u8) -> (data: Data)
        ensures
            data == (Data { bytes, cycles, action_cycles, opcode, is_prefixed: false }),
    {
        Data { bytes, cycles, action_cycles, opcode, is_prefixed: false }
    }

    /// Timing of an opcode of the table behind the 0xCB prefix.
    pub fn new_cb(bytes: u16, cycles: u32, action_cycles: Option<u32>, opcode: u8) -> (data: Data)
        ensures
            data == (Data { bytes, cycles, action_cycles, opcode, is_prefixed: true }),
    {
        Data { bytes, cycles, action_cycles, opcode, is_prefixed: true }
    }

    /// The cycles the instruction costs when its branch is taken.
    ///
    /// Only conditional control flow carries this value; asking for it anywhere else is a
    /// fault in the opcode table, which the precondition rules out.
    pub fn get_action_cycles(&self) -> (cycles: u32)
        requires
            self.action_cycles is Some,
        ensures
            self.action_cycles == Some(cycles),
    {
        match self.action_cycles {
            Some(action_cycles) => action_cycles,
            None => 0,
        }
    }
}

/// The register in column `col` of an opcode table: B, C, D, E, H, L, none (the byte at HL), A.
pub open spec fn column_register(col: int) -> Option<R> {
    if col == 0 {
        Some(R::B)
    } else if col == 1 {
        Some(R::C)
    } else if col == 2 {
        Some(R::D)
    } else if col == 3 {
        Some(R::E)
    } else if col == 4 {
        Some(R::H)
    } else if col == 5 {
        Some(R::L)
    } else if col == 6 {
        None
    } else {
        Some(R::A)
    }
}

/// Column `col` read as an operand.
pub open spec fn column_source(col: int) -> ByteSource {
    match column_register(col) {
        Some(r) => ByteSource::Register(r),
        None => ByteSource::HL,
    }
}

/// Column `col` written as an operand.
pub open spec fn column_target(col: int) -> ByteTarget {
    match column_register(col) {
        Some(r) => ByteTarget::Register(r),
        None => ByteTarget::HL,
    }
}

/// The 16-bit operand numbered `pair` in the loads and the 16-bit arithmetic: BC, DE, HL, SP.
pub open spec fn pair_target(pair: int) -> WordTarget {
    if pair == 0 {
        WordTarget::Registers(RR::BC)
    } else if pair == 1 {
        WordTarget::Registers(RR::DE)
    } else if pair == 2 {
        WordTarget::Registers(RR::HL)
    } else {
        WordTarget::SP
    }
}

/// The same numbering as [`pair_target`], read.
pub open spec fn pair_source(pair: int) -> WordSource {
    if pair == 0 {
        WordSource::Registers(RR::BC)
    } else if pair == 1 {
        WordSource::Registers(RR::DE)
    } else if pair == 2 {
        WordSource::Registers(RR::HL)
    } else {
        WordSource::SP
    }
}

/// The register pair numbered `pair` on the stack instructions: BC, DE, HL, AF.
pub open spec fn stack_pair(pair: int) -> RR {
    if pair == 0 {
        RR::BC
    } else if pair == 1 {
        RR::DE
    } else if pair == 2 {
        RR::HL
    } else {
        RR::AF
    }
}

/// The condition numbered `cc`: NZ, Z, NC, C.
pub open spec fn condition(cc: int) -> JumpTest {
    if cc == 0 {
        JumpTest::NotZero
    } else if cc == 1 {
        JumpTest::Zero
    } else if cc == 2 {
        JumpTest::NotCarry
    } else {
        JumpTest::Carry
    }
}

/// The accumulator operation in row `row`: ADD, ADC, SUB, SBC, AND, XOR, OR, CP.
pub open spec fn arithmetic(row: int, source: ByteSource, data: Data) -> Instruction {
    if row == 0 {
        Instruction::Add(source, data)
    } else if row == 1 {
        Instruction::AdC(source, data)
    } else if row == 2 {
        Instruction::Sub(source, data)
    } else if row == 3 {
        Instruction::SbC(source, data)
    } else if row == 4 {
        Instruction::And(source, data)
    } else if row == 5 {
        Instruction::XOr(source, data)
    } else if row == 6 {
        Instruction::Or(source, data)
    } else {
        Instruction::Cp(source, data)
    }
}

/// The rotate or shift in row `row` of the prefixed table:
/// RLC, RRC, RL, RR, SLA, SRA, SWAP, SRL.
pub open spec fn rotation(row: int, target: ByteTarget, data: Data) -> Instruction {
    if row == 0 {
        Instruction::RLC(target, data)
    } else if row == 1 {
        Instruction::RRC(target, data)
    } else if row == 2 {
        Instruction::RL(target, data)
    } else if row == 3 {
        Instruction::RR(target, data)
    } else if row == 4 {
        Instruction::SLA(target, data)
    } else if row == 5 {
        Instruction::SRA(target, data)
    } else if row == 6 {
        Instruction::Swap(target, data)
    } else {
        Instruction::SRL(target, data)
    }
}

/// Timing of an unconditional opcode of the plain table.
pub open spec fn timing(bytes: u16, cycles: u32, opcode: u8) -> Data {
    Data { bytes, cycles, action_cycles: None, opcode, is_prefixed: false }
}

/// Timing of an opcode of the plain table that costs `taken` cycles when it branches.
pub open spec fn branch_timing(bytes: u16, cycles: u32, taken: u32, opcode: u8) -> Data {
    Data { bytes, cycles, action_cycles: Some(taken), opcode, is_prefixed: false }
}

/// Timing of an opcode of the prefixed table: two bytes, never a branch.
pub open spec fn prefixed_timing(cycles: u32, opcode: u8) -> Data {
    Data { bytes: 2, cycles, action_cycles: None, opcode, is_prefixed: true }
}

/// What holds of the timing of every entry of either table. An instruction of the plain
/// table is one to three bytes long; one of the prefixed table is two bytes long and costs 8,
/// 12 or 16 cycles. Every cost is a multiple of four cycles from 4 to 24, and a branch that
/// is taken costs no less than one that is not.
pub open spec fn plausible_timing(data: Data) -> bool {
    &&& 4 <= data.cycles <= 24
    &&& data.cycles % 4 == 0
    &&& if data.is_prefixed {
        data.bytes == 2 && data.cycles >= 8 && data.cycles <= 16 && data.action_cycles is None
    } else {
        1 <= data.bytes <= 3
    }
    &&& data.action_cycles matches Some(taken) ==> data.cycles <= taken <= 24 && taken % 4 == 0
}

/// The opcodes of the plain table that select no instruction. 0xCB is among them: it is the
/// escape to the prefixed table and has to be recognised before decoding.
pub open spec fn is_unassigned(opcode: u8) -> bool {
    opcode == 0xCB || opcode == 0xD3 || opcode == 0xDB || opcode == 0xDD || opcode == 0xE3
        || opcode == 0xE4 || opcode == 0xEB || opcode == 0xEC || opcode == 0xED || opcode == 0xF4
        || opcode == 0xFC || opcode == 0xFD
}

/// Opcodes 0x00 to 0x3F: loads of immediates, 16-bit arithmetic, increments and decrements,
/// relative jumps and the accumulator rotates.
pub open spec fn decode_low_block(opcode: u8) -> Instruction {
    let row = opcode as int / 8;
    let col = opcode as int % 8;
    let a = ByteTarget::Register(R::A);
    if col == 0 {
        if row == 0 {
            Instruction::NoOp(timing(1, 4, opcode))
        } else if row == 1 {
            Instruction::Ld(LoadType::Word(WordTarget::Direct, WordSource::SP), timing(3, 20, opcode))
        } else if row == 2 {
            Instruction::Stop(timing(1, 4, opcode))
        } else if row == 3 {
            Instruction::JR(JumpTest::Always, branch_timing(2, 12, 12, opcode))
        } else {
            Instruction::JR(condition(row - 4), branch_timing(2, 8, 12, opcode))
        }
    } else if col == 1 {
        if row % 2 == 0 {
            Instruction::Ld(
                LoadType::Word(pair_target(row / 2), WordSource::Immediate16),
                timing(3, 12, opcode),
            )
        } else {
            Instruction::Add16Bits(
                pair_source(row / 2),
                WordTarget::Registers(RR::HL),
                timing(1, 8, opcode),
            )
        }
    } else if col == 2 {
        let through = if row / 2 == 0 {
            (ByteTarget::Registers(RR::BC), ByteSource::Registers(RR::BC))
        } else if row / 2 == 1 {
            (ByteTarget::Registers(RR::DE), ByteSource::Registers(RR::DE))
        } else if row / 2 == 2 {
            (ByteTarget::HLI, ByteSource::HLI)
        } else {
            (ByteTarget::HLD, ByteSource::HLD)
        };
        if row % 2 == 0 {
            Instruction::Ld(
                LoadType::Byte(through.0, ByteSource::Register(R::A)),
                timing(1, 8, opcode),
            )
        } else {
            Instruction::Ld(LoadType::Byte(a, through.1), timing(1, 8, opcode))
        }
    } else if col == 3 {
        if row % 2 == 0 {
            Instruction::Inc16Bits(pair_target(row / 2), timing(1, 8, opcode))
        } else {
            Instruction::Dec16Bits(pair_target(row / 2), timing(1, 8, opcode))
        }
    } else if col == 4 {
        Instruction::Inc(column_target(row), timing(1, if row == 6 { 12 } else { 4 }, opcode))
    } else if col == 5 {
        Instruction::Dec(column_target(row), timing(1, if row == 6 { 12 } else { 4 }, opcode))
    } else if col == 6 {
        Instruction::Ld(
            LoadType::Byte(column_target(row), ByteSource::Immediate8),
            timing(2, if row == 6 { 12 } else { 8 }, opcode),
        )
    } else {
        if row == 0 {
            Instruction::RLC(a, timing(1, 4, opcode))
        } else if row == 1 {
            Instruction::RRC(a, timing(1, 4, opcode))
        } else if row == 2 {
            Instruction::RL(a, timing(1, 4, opcode))
        } else if row == 3 {
            Instruction::RR(a, timing(1, 4, opcode))
        } else if row == 4 {
            Instruction::DAA(timing(1, 4, opcode))
        } else if row == 5 {
            Instruction::Cpl(timing(1, 4, opcode))
        } else if row == 6 {
            Instruction::SCF(timing(1, 4, opcode))
        } else {
            Instruction::CCF(timing(1, 4, opcode))
        }
    }
}

/// Opcodes 0xC0 to 0xFF, the unassigned ones left aside: control flow, the stack, arithmetic
/// on an immediate and the loads through 0xFF00 and through an absolute address.
pub open spec fn decode_high_block(opcode: u8) -> Instruction {
    let row = (opcode as int - 0xC0) / 8;
    let col = opcode as int % 8;
    let a = ByteTarget::Register(R::A);
    let from_a = ByteSource::Register(R::A);
    if col == 0 {
        if row < 4 {
            Instruction::Ret(condition(row), branch_timing(1, 8, 20, opcode))
        } else if row == 4 {
            Instruction::Ld(LoadType::Byte(ByteTarget::FF00PlusU8, from_a), timing(2, 12, opcode))
        } else if row == 5 {
            Instruction::Add(ByteSource::Immediate8, timing(2, 16, opcode))
        } else if row == 6 {
            Instruction::Ld(LoadType::Byte(a, ByteSource::FF00PlusU8), timing(2, 12, opcode))
        } else {
            Instruction::Ld(
                LoadType::Word(WordTarget::Registers(RR::HL), WordSource::SpPlusI8),
                timing(2, 12, opcode),
            )
        }
    } else if col == 1 {
        if row % 2 == 0 {
            Instruction::Pop(stack_pair(row / 2), timing(1, 12, opcode))
        } else if row == 1 {
            Instruction::Ret(JumpTest::Always, branch_timing(1, 16, 16, opcode))
        } else if row == 3 {
            Instruction::RetI(timing(1, 16, opcode))
        } else if row == 5 {
            Instruction::Jp(
                JumpTest::Always,
                WordSource::Registers(RR::HL),
                branch_timing(1, 4, 4, opcode),
            )
        } else {
            Instruction::Ld(
                LoadType::Word(WordTarget::SP, WordSource::Registers(RR::HL)),
                timing(1, 8, opcode),
            )
        }
    } else if col == 2 {
        if row < 4 {
            Instruction::Jp(condition(row), WordSource::Immediate16, branch_timing(3, 12, 16, opcode))
        } else if row == 4 {
            Instruction::Ld(LoadType::Byte(ByteTarget::FF00PlusC, from_a), timing(1, 8, opcode))
        } else if row == 5 {
            Instruction::Ld(LoadType::Byte(ByteTarget::Direct, from_a), timing(3, 16, opcode))
        } else if row == 6 {
            Instruction::Ld(LoadType::Byte(a, ByteSource::FF00PlusC), timing(1, 8, opcode))
        } else {
            Instruction::Ld(LoadType::Byte(a, ByteSource::Direct), timing(3, 16, opcode))
        }
    } else if col == 3 {
        if row == 0 {
            Instruction::Jp(JumpTest::Always, WordSource::Immediate16, branch_timing(3, 16, 16, opcode))
        } else if row == 6 {
            Instruction::DI(timing(1, 4, opcode))
        } else {
            Instruction::EI(timing(1, 4, opcode))
        }
    } else if col == 4 {
        Instruction::Call(condition(row), branch_timing(3, 12, 24, opcode))
    } else if col == 5 {
        if row % 2 == 0 {
            Instruction::Push(stack_pair(row / 2), timing(1, 16, opcode))
        } else {
            Instruction::Call(JumpTest::Always, branch_timing(3, 24, 24, opcode))
        }
    } else if col == 6 {
        arithmetic(row, ByteSource::Immediate8, timing(2, 8, opcode))
    } else {
        Instruction::RST((row * 8) as u8, timing(1, 16, opcode))
    }
}

/// What the plain table holds for `opcode`.
///
/// The table is laid out in four blocks of 64 opcodes. The two middle blocks are regular:
/// 0x40 to 0x7F load the register of the row from the operand of the column (0x76 is HALT),
/// and 0x80 to 0xBF apply the accumulator operation of the row to the operand of the column;
/// either costs 4 cycles, or 8 when the byte at HL takes part.
#[verifier::opaque]
pub open spec fn decode_plain(opcode: u8) -> Option<Instruction> {
    let block = opcode as int / 64;
    let row = (opcode as int / 8) % 8;
    let col = opcode as int % 8;
    if is_unassigned(opcode) {
        None
    } else if opcode == 0x76 {
        Some(Instruction::Halt(timing(1, 4, opcode)))
    } else if block == 0 {
        Some(decode_low_block(opcode))
    } else if block == 1 {
        Some(
            Instruction::Ld(
                LoadType::Byte(column_target(row), column_source(col)),
                timing(1, if row == 6 || col == 6 { 8 } else { 4 }, opcode),
            ),
        )
    } else if block == 2 {
        Some(arithmetic(row, column_source(col), timing(1, if col == 6 { 8 } else { 4 }, opcode)))
    } else {
        Some(decode_high_block(opcode))
    }
}

/// What the table behind the 0xCB prefix holds for `opcode`.
///
/// Every opcode is assigned. Rows of eight opcodes share an operation: eight rows of rotates
/// and shifts, then BIT, RES and SET for bits 0 to 7 in turn. The column gives the operand.
/// An operation on the byte at HL costs 16 cycles (BIT: 12), any other 8.
#[verifier::opaque]
pub open spec fn decode_prefixed(opcode: u8) -> Option<Instruction> {
    let row = opcode as int / 8;
    let col = opcode as int % 8;
    let slow: u32 = if col == 6 { 16 } else { 8 };
    let test: u32 = if col == 6 { 12 } else { 8 };
    if row < 8 {
        Some(rotation(row, column_target(col), prefixed_timing(slow, opcode)))
    } else if row < 16 {
        Some(Instruction::Bit((row - 8) as u8, column_source(col), prefixed_timing(test, opcode)))
    } else if row < 24 {
        Some(Instruction::Res((row - 16) as u8, column_target(col), prefixed_timing(slow, opcode)))
    } else {
        Some(Instruction::SetBit((row - 24) as u8, column_target(col), prefixed_timing(slow, opcode)))
    }
}

/// The decoder as a function: the instruction that `opcode` selects in the plain table or,
/// with `prefixed`, in the table behind 0xCB; `None` where the table holds nothing.
pub open spec fn decode(opcode: u8, prefixed: bool) -> Option<Instruction> {
    if prefixed {
        decode_prefixed(opcode)
    } else {
        decode_plain(opcode)
    }
}

impl Instruction {
    /// The timing record that the instruction carries.
    pub open spec fn data(self) -> Data {
        match self {
            Instruction::AdC(_, data) => data,
            Instruction::Add(_, data) => data,
            Instruction::Add16Bits(_, _, data) => data,
            Instruction::And(_, data) => data,
            Instruction::Bit(_, _, data) => data,
            Instruction::CCF(data) => data,
            Instruction::Cp(_, data) => data,
            Instruction::Cpl(data) => data,
            Instruction::DAA(data) => data,
            Instruction::Dec(_, data) => data,
            Instruction::Dec16Bits(_, data) => data,
            Instruction::DI(data) => data,
            Instruction::EI(data) => data,
            Instruction::Inc(_, data) => data,
            Instruction::Inc16Bits(_, data) => data,
            Instruction::Or(_, data) => data,
            Instruction::Res(_, _, data) => data,
            Instruction::RL(_, data) => data,
            Instruction::RLC(_, data) => data,
            Instruction::RR(_, data) => data,
            Instruction::RRC(_, data) => data,
            Instruction::RST(_, data) => data,
            Instruction::SbC(_, data) => data,
            Instruction::SCF(data) => data,
            Instruction::SetBit(_, _, data) => data,
            Instruction::SLA(_, data) => data,
            Instruction::SRA(_, data) => data,
            Instruction::SRL(_, data) => data,
            Instruction::Stop(data) => data,
            Instruction::Sub(_, data) => data,
            Instruction::Swap(_, data) => data,
            Instruction::XOr(_, data) => data,
            Instruction::Jp(_, _, data) => data,
            Instruction::JR(_, data) => data,
            Instruction::Ld(_, data) => data,
            Instruction::Push(_, data) => data,
            Instruction::Pop(_, data) => data,
            Instruction::Call(_, data) => data,
            Instruction::Ret(_, data) => data,
            Instruction::RetI(data) => data,
            Instruction::NoOp(data) => data,
            Instruction::Halt(data) => data,
        }
    }

    /// What the executor relies on: a jump, call or return knows what it costs when taken,
    /// and a bit operation names one of the bits 0 to 7.
    pub open spec fn well_formed(self) -> bool {
        match self {
            Instruction::Jp(_, _, data) => data.action_cycles is Some,
            Instruction::JR(_, data) => data.action_cycles is Some,
            Instruction::Call(_, data) => data.action_cycles is Some,
            Instruction::Ret(_, data) => data.action_cycles is Some,
            Instruction::Bit(bit, _, _) => bit < 8,
            Instruction::Res(bit, _, _) => bit < 8,
            Instruction::SetBit(bit, _, _) => bit < 8,
            _ => true,
        }
    }

    /// Decodes one opcode byte. `prefixed` says that the byte followed 0xCB and is looked up
    /// in the second table. `None` is a decode failure, which the caller has to report.
    pub fn from_byte(byte: u8, prefixed: bool) -> (instruction: Option<Instruction>)
        ensures
            instruction == decode(byte, prefixed),
            instruction matches Some(i) ==> i.well_formed() && i.data().opcode == byte
                && i.data().is_prefixed == prefixed && plausible_timing(i.data()),
            instruction is None <==> !prefixed && is_unassigned(byte),
    {
        proof {
            Self::lemma_decoded(byte, prefixed);
        }
        if prefixed {
            Instruction::from_byte_0xcb_prefixed(byte)
        } else {
            Instruction::from_byte_not_prefixed(byte)
        }
    }

    /// Every decoded instruction is well formed, remembers the opcode and the table it came
    /// from, and has a timing that the hardware can have; only the unassigned opcodes of the
    /// plain table decode to nothing.
    pub proof fn lemma_decoded(opcode: u8, prefixed: bool)
        ensures
            decode(opcode, prefixed) matches Some(i) ==> i.well_formed() && i.data().opcode
                == opcode && i.data().is_prefixed == prefixed && plausible_timing(i.data()),
            decode(opcode, prefixed) is None <==> !prefixed && is_unassigned(opcode),
    {
        reveal(decode_plain);
        reveal(decode_prefixed);
    }

    /// The plain table, one arm for each assigned opcode.
    #[verifier::rlimit(60)]
    fn from_byte_not_prefixed(opcode: u8) -> (instruction: Option<Instruction>)
        ensures
            instruction == decode_plain(opcode),
    {
        reveal(decode_plain);
        match opcode {
            // NOP
            0x00 => Some(Instruction::NoOp(Data::new(1, 4, None, opcode))),
            // LD BC, u16
            0x01 => Some(Instruction::Ld(
                LoadType::Word(WordTarget::Registers(RR::BC), WordSource::Immediate16),
                Data::new(3, 12, None, opcode),
            )),
            // LD (BC), A
            0x02 => Some(Instruction::Ld(
                LoadType::Byte(ByteTarget::Registers(RR::BC), ByteSource::Register(R::A)),
                Data::new(1, 8, None, opcode),
            )),
            // INC BC
            0x03 => Some(Instruction::Inc16Bits(
                WordTarget::Registers(RR::BC),
                Data::new(1, 8, None, opcode),
            )),
            // INC B
            0x04 => Some(Instruction::Inc(
                ByteTarget::Register(R::B),
                Data::new(1, 4, None, opcode),
            )),
            // DEC B
            0x05 => Some(Instruction::Dec(
                ByteTarget::Register(R::B),
                Data::new(1, 4, None, opcode),
            )),
            // LD B, u8
            0x06 => Some(Instruction::Ld(
                LoadType::Byte(ByteTarget::Register(R::B), ByteSource::Immediate8),
                Data::new(2, 8, None, opcode),
            )),
            // RLC A
            0x07 => Some(Instruction::RLC(
                ByteTarget::Register(R::A),
                Data::new(1, 4, None, opcode),
            )),
            // LD (u16), SP
            0x08 => Some(Instruction::Ld(
                LoadType::Word(WordTarget::Direct, WordSource::SP),
                Data::new(3, 20, None, opcode),
            )),
            // ADD HL, BC
            0x09 => Some(Instruction::Add16Bits(
                WordSource::Registers(RR::BC),
                WordTarget::Registers(RR::HL),
                Data::new(1, 8, None, opcode),
            )),
            // LD A, (BC)
            0x0A => Some(Instruction::Ld(
                LoadType::Byte(ByteTarget::Register(R::A), ByteSource::Registers(RR::BC)),
                Data::new(1, 8, None, opcode),
            )),
            // DEC BC
            0x0B => Some(Instruction::Dec16Bits(
                WordTarget::Registers(RR::BC),
                Data::new(1, 8, None, opcode),
            )),
            // INC C
            0x0C => Some(Instruction::Inc(
                ByteTarget::Register(R::C),
                Data::new(1, 4, None, opcode),
            )),
            // DEC C
            0x0D => Some(Instruction::Dec(
                ByteTarget::Register(R::C),
                Data::new(1, 4, None, opcode),
            )),
            // LD C, u8
            0x0E => Some(Instruction::Ld(
                LoadType::Byte(ByteTarget::Register(R::C), ByteSource::Immediate8),
                Data::new(2, 8, None, opcode),
            )),
            // RRC A
            0x0F => Some(Instruction::RRC(
                ByteTarget::Register(R::A),
                Data::new(1, 4, None, opcode),
            )),
            // STOP
            0x10 => Some(Instruction::Stop(Data::new(1, 4, None, opcode))),
            // LD DE, u16
            0x11 => Some(Instruction::Ld(
                LoadType::Word(WordTarget::Registers(RR::DE), WordSource::Immediate16),
                Data::new(3, 12, None, opcode),
            )),
            // LD (DE), A
            0x12 => Some(Instruction::Ld(
                LoadType::Byte(ByteTarget::Registers(RR::DE), ByteSource::Register(R::A)),
                Data::new(1, 8, None, opcode),
            )),
            // INC DE
            0x13 => Some(Instruction::Inc16Bits(
                WordTarget::Registers(RR::DE),
                Data::new(1, 8, None, opcode),
            )),
            // INC D
            0x14 => Some(Instruction::Inc(
                ByteTarget::Register(R::D),
                Data::new(1, 4, None, opcode),
            )),
            // DEC D
            0x15 => Some(Instruction::Dec(
                ByteTarget::Register(R::D),
                Data::new(1, 4, None, opcode),
            )),
            // LD D, u8
            0x16 => Some(Instruction::Ld(
                LoadType::Byte(ByteTarget::Register(R::D), ByteSource::Immediate8),
                Data::new(2, 8, None, opcode),
            )),
            // RL A
            0x17 => Some(Instruction::RL(
                ByteTarget::Register(R::A),
                Data::new(1, 4, None, opcode),
            )),
            // JR i8
            0x18 => Some(Instruction::JR(JumpTest::Always, Data::new(2, 12, Some(12), opcode))),
            // ADD HL, DE
            0x19 => Some(Instruction::Add16Bits(
                WordSource::Registers(RR::DE),
                WordTarget::Registers(RR::HL),
                Data::new(1, 8, None, opcode),
            )),
            // LD A, (DE)
            0x1A => Some(Instruction::Ld(
                LoadType::Byte(ByteTarget::Register(R::A), ByteSource::Registers(RR::DE)),
                Data::new(1, 8, None, opcode),
            )),
            // DEC DE
            0x1B => Some(Instruction::Dec16Bits(
                WordTarget::Registers(RR::DE),
                Data::new(1, 8, None, opcode),
            )),
            // INC E
            0x1C => Some(Instruction::Inc(
                ByteTarget::Register(R::E),
                Data::new(1, 4, None, opcode),
            )),
            // DEC E
            0x1D => Some(Instruction::Dec(
                ByteTarget::Register(R::E),
                Data::new(1, 4, None, opcode),
            )),
            // LD E, u8
            0x1E => Some(Instruction::Ld(
                LoadType::Byte(ByteTarget::Register(R::E), ByteSource::Immediate8),
                Data::new(2, 8, None, opcode),
            )),
            // RR A
            0x1F => Some(Instruction::RR(
                ByteTarget::Register(R::A),
                Data::new(1, 4, None, opcode),
            )),
            // JR NZ, i8
            0x20 => Some(Instruction::JR(JumpTest::NotZero, Data::new(2, 8, Some(12), opcode))),
            // LD HL, u16
            0x21 => Some(Instruction::Ld(
                LoadType::Word(WordTarget::Registers(RR::HL), WordSource::Immediate16),
                Data::new(3, 12, None, opcode),
            )),
            // LD (HL+), A
            0x22 => Some(Instruction::Ld(
                LoadType::Byte(ByteTarget::HLI, ByteSource::Register(R::A)),
                Data::new(1, 8, None, opcode),
            )),
            // INC HL
            0x23 => Some(Instruction::Inc16Bits(
                WordTarget::Registers(RR::HL),
                Data::new(1, 8, None, opcode),
            )),
            // INC H
            0x24 => Some(Instruction::Inc(
                ByteTarget::Register(R::H),
                Data::new(1, 4, None, opcode),
            )),
            // DEC H
            0x25 => Some(Instruction::Dec(
                ByteTarget::Register(R::H),
                Data::new(1, 4, None, opcode),
            )),
            // LD H, u8
            0x26 => Some(Instruction::Ld(
                LoadType::Byte(ByteTarget::Register(R::H), ByteSource::Immediate8),
                Data::new(2, 8, None, opcode),
            )),
            // DAA
            0x27 => Some(Instruction::DAA(Data::new(1, 4, None, opcode))),
            // JR Z, i8
            0x28 => Some(Instruction::JR(JumpTest::Zero, Data::new(2, 8, Some(12), opcode))),
            // ADD HL, HL
            0x29 => Some(Instruction::Add16Bits(
                WordSource::Registers(RR::HL),
                WordTarget::Registers(RR::HL),
                Data::new(1, 8, None, opcode),
            )),
            // LD A, (HL+)
            0x2A => Some(Instruction::Ld(
                LoadType::Byte(ByteTarget::Register(R::A), ByteSource::HLI),
                Data::new(1, 8, None, opcode),
            )),
            // DEC HL
            0x2B => Some(Instruction::Dec16Bits(
                WordTarget::Registers(RR::HL),
                Data::new(1, 8, None, opcode),
            )),
            // INC L
            0x2C => Some(Instruction::Inc(
                ByteTarget::Register(R::L),
                Data::new(1, 4, None, opcode),
            )),
            // DEC L
            0x2D => Some(Instruction::Dec(
                ByteTarget::Register(R::L),
                Data::new(1, 4, None, opcode),
            )),
            // LD L, u8
            0x2E => Some(Instruction::Ld(
                LoadType::Byte(ByteTarget::Register(R::L), ByteSource::Immediate8),
                Data::new(2, 8, None, opcode),
            )),
            // CPL
            0x2F => Some(Instruction::Cpl(Data::new(1, 4, None, opcode))),
            // JR NC, i8
            0x30 => Some(Instruction::JR(JumpTest::NotCarry, Data::new(2, 8, Some(12), opcode))),
            // LD SP, u16
            0x31 => Some(Instruction::Ld(
                LoadType::Word(WordTarget::SP, WordSource::Immediate16),
                Data::new(3, 12, None, opcode),
            )),
            // LD (HL-), A
            0x32 => Some(Instruction::Ld(
                LoadType::Byte(ByteTarget::HLD, ByteSource::Register(R::A)),
                Data::new(1, 8, None, opcode),
            )),
            // INC SP
            0x33 => Some(Instruction::Inc16Bits(WordTarget::SP, Data::new(1, 8, None, opcode))),
            // INC (HL)
            0x34 => Some(Instruction::Inc(ByteTarget::HL, Data::new(1, 12, None, opcode))),
            // DEC (HL)
            0x35 => Some(Instruction::Dec(ByteTarget::HL, Data::new(1, 12, None, opcode))),
            // LD (HL), u8
            0x36 => Some(Instruction::Ld(
                LoadType::Byte(ByteTarget::HL, ByteSource::Immediate8),
                Data::new(2, 12, None, opcode),
            )),
            // SCF
            0x37 => Some(Instruction::SCF(Data::new(1, 4, None, opcode))),
            // JR C, i8
            0x38 => Some(Instruction::JR(JumpTest::Carry, Data::new(2, 8, Some(12), opcode))),
            // ADD HL, SP
            0x39 => Some(Instruction::Add16Bits(
                WordSource::SP,
                WordTarget::Registers(RR::HL),
                Data::new(1, 8, None, opcode),
            )),
            // LD A, (HL-)
            0x3A => Some(Instruction::Ld(
                LoadType::Byte(ByteTarget::Register(R::A), ByteSource::HLD),
                Data::new(1, 8, None, opcode),
            )),
            // DEC SP
            0x3B => Some(Instruction::Dec16Bits(WordTarget::SP, Data::new(1, 8, None, opcode))),
            // INC A
            0x3C => Some(Instruction::Inc(
                ByteTarget::Register(R::A),
                Data::new(1, 4, None, opcode),
            )),
            // DEC A
            0x3D => Some(Instruction::Dec(
                ByteTarget::Register(R::A),
                Data::new(1, 4, None, opcode),
            )),
            // LD A, u8
            0x3E => Some(Instruction::Ld(
                LoadType::Byte(ByteTarget::Register(R::A), ByteSource::Immediate8),
                Data::new(2, 8, None, opcode),
            )),
            // CCF
            0x3F => Some(Instruction::CCF(Data::new(1, 4, None, opcode))),
            // LD B, B
            0x40 => Some(Instruction::Ld(
                LoadType::Byte(ByteTarget::Register(R::B), ByteSource::Register(R::B)),
                Data::new(1, 4, None, opcode),
            )),
            // LD B, C
            0x41 => Some(Instruction::Ld(
                LoadType::Byte(ByteTarget::Register(R::B), ByteSource::Register(R::C)),
                Data::new(1, 4, None, opcode),
            )),
            // LD B, D
            0x42 => Some(Instruction::Ld(
                LoadType::Byte(ByteTarget::Register(R::B), ByteSource::Register(R::D)),
                Data::new(1, 4, None, opcode),
            )),
            // LD B, E
            0x43 => Some(Instruction::Ld(
                LoadType::Byte(ByteTarget::Register(R::B), ByteSource::Register(R::E)),
                Data::new(1, 4, None, opcode),
            )),
            // LD B, H
            0x44 => Some(Instruction::Ld(
                LoadType::Byte(ByteTarget::Register(R::B), ByteSource::Register(R::H)),
                Data::new(1, 4, None, opcode),
            )),
            // LD B, L
            0x45 => Some(Instruction::Ld(
                LoadType::Byte(ByteTarget::Register(R::B), ByteSource::Register(R::L)),
                Data::new(1, 4, None, opcode),
            )),
            // LD B, (HL)
            0x46 => Some(Instruction::Ld(
                LoadType::Byte(ByteTarget::Register(R::B), ByteSource::HL),
                Data::new(1, 8, None, opcode),
            )),
            // LD B, A
            0x47 => Some(Instruction::Ld(
                LoadType::Byte(ByteTarget::Register(R::B), ByteSource::Register(R::A)),
                Data::new(1, 4, None, opcode),
            )),
            // LD C, B
            0x48 => Some(Instruction::Ld(
                LoadType::Byte(ByteTarget::Register(R::C), ByteSource::Register(R::B)),
                Data::new(1, 4, None, opcode),
            )),
            // LD C, C
            0x49 => Some(Instruction::Ld(
                LoadType::Byte(ByteTarget::Register(R::C), ByteSource::Register(R::C)),
                Data::new(1, 4, None, opcode),
            )),
            // LD C, D
            0x4A => Some(Instruction::Ld(
                LoadType::Byte(ByteTarget::Register(R::C), ByteSource::Register(R::D)),
                Data::new(1, 4, None, opcode),
            )),
            // LD C, E
            0x4B => Some(Instruction::Ld(
                LoadType::Byte(ByteTarget::Register(R::C), ByteSource::Register(R::E)),
                Data::new(1, 4, None, opcode),
            )),
            // LD C, H
            0x4C => Some(Instruction::Ld(
                LoadType::Byte(ByteTarget::Register(R::C), ByteSource::Register(R::H)),
                Data::new(1, 4, None, opcode),
            )),
            // LD C, L
            0x4D => Some(Instruction::Ld(
                LoadType::Byte(ByteTarget::Register(R::C), ByteSource::Register(R::L)),
                Data::new(1, 4, None, opcode),
            )),
            // LD C, (HL)
            0x4E => Some(Instruction::Ld(
                LoadType::Byte(ByteTarget::Register(R::C), ByteSource::HL),
                Data::new(1, 8, None, opcode),
            )),
            // LD C, A
            0x4F => Some(Instruction::Ld(
                LoadType::Byte(ByteTarget::Register(R::C), ByteSource::Register(R::A)),
                Data::new(1, 4, None, opcode),
            )),
            // LD D, B
            0x50 => Some(Instruction::Ld(
                LoadType::Byte(ByteTarget::Register(R::D), ByteSource::Register(R::B)),
                Data::new(1, 4, None, opcode),
            )),
            // LD D, C
            0x51 => Some(Instruction::Ld(
                LoadType::Byte(ByteTarget::Register(R::D), ByteSource::Register(R::C)),
                Data::new(1, 4, None, opcode),
            )),
            // LD D, D
            0x52 => Some(Instruction::Ld(
                LoadType::Byte(ByteTarget::Register(R::D), ByteSource::Register(R::D)),
                Data::new(1, 4, None, opcode),
            )),
            // LD D, E
            0x53 => Some(Instruction::Ld(
                LoadType::Byte(ByteTarget::Register(R::D), ByteSource::Register(R::E)),
                Data::new(1, 4, None, opcode),
            )),
            // LD D, H
            0x54 => Some(Instruction::Ld(
                LoadType::Byte(ByteTarget::Register(R::D), ByteSource::Register(R::H)),
                Data::new(1, 4, None, opcode),
            )),
            // LD D, L
            0x55 => Some(Instruction::Ld(
                LoadType::Byte(ByteTarget::Register(R::D), ByteSource::Register(R::L)),
                Data::new(1, 4, None, opcode),
            )),
            // LD D, (HL)
            0x56 => Some(Instruction::Ld(
                LoadType::Byte(ByteTarget::Register(R::D), ByteSource::HL),
                Data::new(1, 8, None, opcode),
            )),
            // LD D, A
            0x57 => Some(Instruction::Ld(
                LoadType::Byte(ByteTarget::Register(R::D), ByteSource::Register(R::A)),
                Data::new(1, 4, None, opcode),
            )),
            // LD E, B
            0x58 => Some(Instruction::Ld(
                LoadType::Byte(ByteTarget::Register(R::E), ByteSource::Register(R::B)),
                Data::new(1, 4, None, opcode),
            )),
            // LD E, C
            0x59 => Some(Instruction::Ld(
                LoadType::Byte(ByteTarget::Register(R::E), ByteSource::Register(R::C)),
                Data::new(1, 4, None, opcode),
            )),
            // LD E, D
            0x5A => Some(Instruction::Ld(
                LoadType::Byte(ByteTarget::Register(R::E), ByteSource::Register(R::D)),
                Data::new(1, 4, None, opcode),
            )),
            // LD E, E
            0x5B => Some(Instruction::Ld(
                LoadType::Byte(ByteTarget::Register(R::E), ByteSource::Register(R::E)),
                Data::new(1, 4, None, opcode),
            )),
            // LD E, H
            0x5C => Some(Instruction::Ld(
                LoadType::Byte(ByteTarget::Register(R::E), ByteSource::Register(R::H)),
                Data::new(1, 4, None, opcode),
            )),
            // LD E, L
            0x5D => Some(Instruction::Ld(
                LoadType::Byte(ByteTarget::Register(R::E), ByteSource::Register(R::L)),
                Data::new(1, 4, None, opcode),
            )),
            // LD E, (HL)
            0x5E => Some(Instruction::Ld(
                LoadType::Byte(ByteTarget::Register(R::E), ByteSource::HL),
                Data::new(1, 8, None, opcode),
            )),
            // LD E, A
            0x5F => Some(Instruction::Ld(
                LoadType::Byte(ByteTarget::Register(R::E), ByteSource::Register(R::A)),
                Data::new(1, 4, None, opcode),
            )),
            // LD H, B
            0x60 => Some(Instruction::Ld(
                LoadType::Byte(ByteTarget::Register(R::H), ByteSource::Register(R::B)),
                Data::new(1, 4, None, opcode),
            )),
            // LD H, C
            0x61 => Some(Instruction::Ld(
                LoadType::Byte(ByteTarget::Register(R::H), ByteSource::Register(R::C)),
                Data::new(1, 4, None, opcode),
            )),
            // LD H, D
            0x62 => Some(Instruction::Ld(
                LoadType::Byte(ByteTarget::Register(R::H), ByteSource::Register(R::D)),
                Data::new(1, 4, None, opcode),
            )),
            // LD H, E
            0x63 => Some(Instruction::Ld(
                LoadType::Byte(ByteTarget::Register(R::H), ByteSource::Register(R::E)),
                Data::new(1, 4, None, opcode),
            )),
            // LD H, H
            0x64 => Some(Instruction::Ld(
                LoadType::Byte(ByteTarget::Register(R::H), ByteSource::Register(R::H)),
                Data::new(1, 4, None, opcode),
            )),
            // LD H, L
            0x65 => Some(Instruction::Ld(
                LoadType::Byte(ByteTarget::Register(R::H), ByteSource::Register(R::L)),
                Data::new(1, 4, None, opcode),
            )),
            // LD H, (HL)
            0x66 => Some(Instruction::Ld(
                LoadType::Byte(ByteTarget::Register(R::H), ByteSource::HL),
                Data::new(1, 8, None, opcode),
            )),
            // LD H, A
            0x67 => Some(Instruction::Ld(
                LoadType::Byte(ByteTarget::Register(R::H), ByteSource::Register(R::A)),
                Data::new(1, 4, None, opcode),
            )),
            // LD L, B
            0x68 => Some(Instruction::Ld(
                LoadType::Byte(ByteTarget::Register(R::L), ByteSource::Register(R::B)),
                Data::new(1, 4, None, opcode),
            )),
            // LD L, C
            0x69 => Some(Instruction::Ld(
                LoadType::Byte(ByteTarget::Register(R::L), ByteSource::Register(R::C)),
                Data::new(1, 4, None, opcode),
            )),
            // LD L, D
            0x6A => Some(Instruction::Ld(
                LoadType::Byte(ByteTarget::Register(R::L), ByteSource::Register(R::D)),
                Data::new(1, 4, None, opcode),
            )),
            // LD L, E
            0x6B => Some(Instruction::Ld(
                LoadType::Byte(ByteTarget::Register(R::L), ByteSource::Register(R::E)),
                Data::new(1, 4, None, opcode),
            )),
            // LD L, H
            0x6C => Some(Instruction::Ld(
                LoadType::Byte(ByteTarget::Register(R::L), ByteSource::Register(R::H)),
                Data::new(1, 4, None, opcode),
            )),
            // LD L, L
            0x6D => Some(Instruction::Ld(
                LoadType::Byte(ByteTarget::Register(R::L), ByteSource::Register(R::L)),
                Data::new(1, 4, None, opcode),
            )),
            // LD L, (HL)
            0x6E => Some(Instruction::Ld(
                LoadType::Byte(ByteTarget::Register(R::L), ByteSource::HL),
                Data::new(1, 8, None, opcode),
            )),
            // LD L, A
            0x6F => Some(Instruction::Ld(
                LoadType::Byte(ByteTarget::Register(R::L), ByteSource::Register(R::A)),
                Data::new(1, 4, None, opcode),
            )),
            // LD (HL), B
            0x70 => Some(Instruction::Ld(
                LoadType::Byte(ByteTarget::HL, ByteSource::Register(R::B)),
                Data::new(1, 8, None, opcode),
            )),
            // LD (HL), C
            0x71 => Some(Instruction::Ld(
                LoadType::Byte(ByteTarget::HL, ByteSource::Register(R::C)),
                Data::new(1, 8, None, opcode),
            )),
            // LD (HL), D
            0x72 => Some(Instruction::Ld(
                LoadType::Byte(ByteTarget::HL, ByteSource::Register(R::D)),
                Data::new(1, 8, None, opcode),
            )),
            // LD (HL), E
            0x73 => Some(Instruction::Ld(
                LoadType::Byte(ByteTarget::HL, ByteSource::Register(R::E)),
                Data::new(1, 8, None, opcode),
            )),
            // LD (HL), H
            0x74 => Some(Instruction::Ld(
                LoadType::Byte(ByteTarget::HL, ByteSource::Register(R::H)),
                Data::new(1, 8, None, opcode),
            )),
            // LD (HL), L
            0x75 => Some(Instruction::Ld(
                LoadType::Byte(ByteTarget::HL, ByteSource::Register(R::L)),
                Data::new(1, 8, None, opcode),
            )),
            // HALT
            0x76 => Some(Instruction::Halt(Data::new(1, 4, None, opcode))),
            // LD (HL), A
            0x77 => Some(Instruction::Ld(
                LoadType::Byte(ByteTarget::HL, ByteSource::Register(R::A)),
                Data::new(1, 8, None, opcode),
            )),
            // LD A, B
            0x78 => Some(Instruction::Ld(
                LoadType::Byte(ByteTarget::Register(R::A), ByteSource::Register(R::B)),
                Data::new(1, 4, None, opcode),
            )),
            // LD A, C
            0x79 => Some(Instruction::Ld(
                LoadType::Byte(ByteTarget::Register(R::A), ByteSource::Register(R::C)),
                Data::new(1, 4, None, opcode),
            )),
            // LD A, D
            0x7A => Some(Instruction::Ld(
                LoadType::Byte(ByteTarget::Register(R::A), ByteSource::Register(R::D)),
                Data::new(1, 4, None, opcode),
            )),
            // LD A, E
            0x7B => Some(Instruction::Ld(
                LoadType::Byte(ByteTarget::Register(R::A), ByteSource::Register(R::E)),
                Data::new(1, 4, None, opcode),
            )),
            // LD A, H
            0x7C => Some(Instruction::Ld(
                LoadType::Byte(ByteTarget::Register(R::A), ByteSource::Register(R::H)),
                Data::new(1, 4, None, opcode),
            )),
            // LD A, L
            0x7D => Some(Instruction::Ld(
                LoadType::Byte(ByteTarget::Register(R::A), ByteSource::Register(R::L)),
                Data::new(1, 4, None, opcode),
            )),
            // LD A, (HL)
            0x7E => Some(Instruction::Ld(
                LoadType::Byte(ByteTarget::Register(R::A), ByteSource::HL),
                Data::new(1, 8, None, opcode),
            )),
            // LD A, A
            0x7F => Some(Instruction::Ld(
                LoadType::Byte(ByteTarget::Register(R::A), ByteSource::Register(R::A)),
                Data::new(1, 4, None, opcode),
            )),
            // ADD A, B
            0x80 => Some(Instruction::Add(
                ByteSource::Register(R::B),
                Data::new(1, 4, None, opcode),
            )),
            // ADD A, C
            0x81 => Some(Instruction::Add(
                ByteSource::Register(R::C),
                Data::new(1, 4, None, opcode),
            )),
            // ADD A, D
            0x82 => Some(Instruction::Add(
                ByteSource::Register(R::D),
                Data::new(1, 4, None, opcode),
            )),
            // ADD A, E
            0x83 => Some(Instruction::Add(
                ByteSource::Register(R::E),
                Data::new(1, 4, None, opcode),
            )),
            // ADD A, H
            0x84 => Some(Instruction::Add(
                ByteSource::Register(R::H),
                Data::new(1, 4, None, opcode),
            )),
            // ADD A, L
            0x85 => Some(Instruction::Add(
                ByteSource::Register(R::L),
                Data::new(1, 4, None, opcode),
            )),
            // ADD A, (HL)
            0x86 => Some(Instruction::Add(ByteSource::HL, Data::new(1, 8, None, opcode))),
            // ADD A, A
            0x87 => Some(Instruction::Add(
                ByteSource::Register(R::A),
                Data::new(1, 4, None, opcode),
            )),
            // ADC A, B
            0x88 => Some(Instruction::AdC(
                ByteSource::Register(R::B),
                Data::new(1, 4, None, opcode),
            )),
            // ADC A, C
            0x89 => Some(Instruction::AdC(
                ByteSource::Register(R::C),
                Data::new(1, 4, None, opcode),
            )),
            // ADC A, D
            0x8A => Some(Instruction::AdC(
                ByteSource::Register(R::D),
                Data::new(1, 4, None, opcode),
            )),
            // ADC A, E
            0x8B => Some(Instruction::AdC(
                ByteSource::Register(R::E),
                Data::new(1, 4, None, opcode),
            )),
            // ADC A, H
            0x8C => Some(Instruction::AdC(
                ByteSource::Register(R::H),
                Data::new(1, 4, None, opcode),
            )),
            // ADC A, L
            0x8D => Some(Instruction::AdC(
                ByteSource::Register(R::L),
                Data::new(1, 4, None, opcode),
            )),
            // ADC A, (HL)
            0x8E => Some(Instruction::AdC(ByteSource::HL, Data::new(1, 8, None, opcode))),
            // ADC A, A
            0x8F => Some(Instruction::AdC(
                ByteSource::Register(R::A),
                Data::new(1, 4, None, opcode),
            )),
            // SUB A, B
            0x90 => Some(Instruction::Sub(
                ByteSource::Register(R::B),
                Data::new(1, 4, None, opcode),
            )),
            // SUB A, C
            0x91 => Some(Instruction::Sub(
                ByteSource::Register(R::C),
                Data::new(1, 4, None, opcode),
            )),
            // SUB A, D
            0x92 => Some(Instruction::Sub(
                ByteSource::Register(R::D),
                Data::new(1, 4, None, opcode),
            )),
            // SUB A, E
            0x93 => Some(Instruction::Sub(
                ByteSource::Register(R::E),
                Data::new(1, 4, None, opcode),
            )),
            // SUB A, H
            0x94 => Some(Instruction::Sub(
                ByteSource::Register(R::H),
                Data::new(1, 4, None, opcode),
            )),
            // SUB A, L
            0x95 => Some(Instruction::Sub(
                ByteSource::Register(R::L),
                Data::new(1, 4, None, opcode),
            )),
            // SUB A, (HL)
            0x96 => Some(Instruction::Sub(ByteSource::HL, Data::new(1, 8, None, opcode))),
            // SUB A, A
            0x97 => Some(Instruction::Sub(
                ByteSource::Register(R::A),
                Data::new(1, 4, None, opcode),
            )),
            // SBC A, B
            0x98 => Some(Instruction::SbC(
                ByteSource::Register(R::B),
                Data::new(1, 4, None, opcode),
            )),
            // SBC A, C
            0x99 => Some(Instruction::SbC(
                ByteSource::Register(R::C),
                Data::new(1, 4, None, opcode),
            )),
            // SBC A, D
            0x9A => Some(Instruction::SbC(
                ByteSource::Register(R::D),
                Data::new(1, 4, None, opcode),
            )),
            // SBC A, E
            0x9B => Some(Instruction::SbC(
                ByteSource::Register(R::E),
                Data::new(1, 4, None, opcode),
            )),
            // SBC A, H
            0x9C => Some(Instruction::SbC(
                ByteSource::Register(R::H),
                Data::new(1, 4, None, opcode),
            )),
            // SBC A, L
            0x9D => Some(Instruction::SbC(
                ByteSource::Register(R::L),
                Data::new(1, 4, None, opcode),
            )),
            // SBC A, (HL)
            0x9E => Some(Instruction::SbC(ByteSource::HL, Data::new(1, 8, None, opcode))),
            // SBC A, A
            0x9F => Some(Instruction::SbC(
                ByteSource::Register(R::A),
                Data::new(1, 4, None, opcode),
            )),
            // AND A, B
            0xA0 => Some(Instruction::And(
                ByteSource::Register(R::B),
                Data::new(1, 4, None, opcode),
            )),
            // AND A, C
            0xA1 => Some(Instruction::And(
                ByteSource::Register(R::C),
                Data::new(1, 4, None, opcode),
            )),
            // AND A, D
            0xA2 => Some(Instruction::And(
                ByteSource::Register(R::D),
                Data::new(1, 4, None, opcode),
            )),
            // AND A, E
            0xA3 => Some(Instruction::And(
                ByteSource::Register(R::E),
                Data::new(1, 4, None, opcode),
            )),
            // AND A, H
            0xA4 => Some(Instruction::And(
                ByteSource::Register(R::H),
                Data::new(1, 4, None, opcode),
            )),
            // AND A, L
            0xA5 => Some(Instruction::And(
                ByteSource::Register(R::L),
                Data::new(1, 4, None, opcode),
            )),
            // AND A, (HL)
            0xA6 => Some(Instruction::And(ByteSource::HL, Data::new(1, 8, None, opcode))),
            // AND A, A
            0xA7 => Some(Instruction::And(
                ByteSource::Register(R::A),
                Data::new(1, 4, None, opcode),
            )),
            // XOR A, B
            0xA8 => Some(Instruction::XOr(
                ByteSource::Register(R::B),
                Data::new(1, 4, None, opcode),
            )),
            // XOR A, C
            0xA9 => Some(Instruction::XOr(
                ByteSource::Register(R::C),
                Data::new(1, 4, None, opcode),
            )),
            // XOR A, D
            0xAA => Some(Instruction::XOr(
                ByteSource::Register(R::D),
                Data::new(1, 4, None, opcode),
            )),
            // XOR A, E
            0xAB => Some(Instruction::XOr(
                ByteSource::Register(R::E),
                Data::new(1, 4, None, opcode),
            )),
            // XOR A, H
            0xAC => Some(Instruction::XOr(
                ByteSource::Register(R::H),
                Data::new(1, 4, None, opcode),
            )),
            // XOR A, L
            0xAD => Some(Instruction::XOr(
                ByteSource::Register(R::L),
                Data::new(1, 4, None, opcode),
            )),
            // XOR A, (HL)
            0xAE => Some(Instruction::XOr(ByteSource::HL, Data::new(1, 8, None, opcode))),
            // XOR A, A
            0xAF => Some(Instruction::XOr(
                ByteSource::Register(R::A),
                Data::new(1, 4, None, opcode),
            )),
            // OR A, B
            0xB0 => Some(Instruction::Or(
                ByteSource::Register(R::B),
                Data::new(1, 4, None, opcode),
            )),
            // OR A, C
            0xB1 => Some(Instruction::Or(
                ByteSource::Register(R::C),
                Data::new(1, 4, None, opcode),
            )),
            // OR A, D
            0xB2 => Some(Instruction::Or(
                ByteSource::Register(R::D),
                Data::new(1, 4, None, opcode),
            )),
            // OR A, E
            0xB3 => Some(Instruction::Or(
                ByteSource::Register(R::E),
                Data::new(1, 4, None, opcode),
            )),
            // OR A, H
            0xB4 => Some(Instruction::Or(
                ByteSource::Register(R::H),
                Data::new(1, 4, None, opcode),
            )),
            // OR A, L
            0xB5 => Some(Instruction::Or(
                ByteSource::Register(R::L),
                Data::new(1, 4, None, opcode),
            )),
            // OR A, (HL)
            0xB6 => Some(Instruction::Or(ByteSource::HL, Data::new(1, 8, None, opcode))),
            // OR A, A
            0xB7 => Some(Instruction::Or(
                ByteSource::Register(R::A),
                Data::new(1, 4, None, opcode),
            )),
            // CP A, B
            0xB8 => Some(Instruction::Cp(
                ByteSource::Register(R::B),
                Data::new(1, 4, None, opcode),
            )),
            // CP A, C
            0xB9 => Some(Instruction::Cp(
                ByteSource::Register(R::C),
                Data::new(1, 4, None, opcode),
            )),
            // CP A, D
            0xBA => Some(Instruction::Cp(
                ByteSource::Register(R::D),
                Data::new(1, 4, None, opcode),
            )),
            // CP A, E
            0xBB => Some(Instruction::Cp(
                ByteSource::Register(R::E),
                Data::new(1, 4, None, opcode),
            )),
            // CP A, H
            0xBC => Some(Instruction::Cp(
                ByteSource::Register(R::H),
                Data::new(1, 4, None, opcode),
            )),
            // CP A, L
            0xBD => Some(Instruction::Cp(
                ByteSource::Register(R::L),
                Data::new(1, 4, None, opcode),
            )),
            // CP A, (HL)
            0xBE => Some(Instruction::Cp(ByteSource::HL, Data::new(1, 8, None, opcode))),
            // CP A, A
            0xBF => Some(Instruction::Cp(
                ByteSource::Register(R::A),
                Data::new(1, 4, None, opcode),
            )),
            // RET NZ
            0xC0 => Some(Instruction::Ret(JumpTest::NotZero, Data::new(1, 8, Some(20), opcode))),
            // POP BC
            0xC1 => Some(Instruction::Pop(RR::BC, Data::new(1, 12, None, opcode))),
            // JP NZ, u16
            0xC2 => Some(Instruction::Jp(
                JumpTest::NotZero,
                WordSource::Immediate16,
                Data::new(3, 12, Some(16), opcode),
            )),
            // JP u16
            0xC3 => Some(Instruction::Jp(
                JumpTest::Always,
                WordSource::Immediate16,
                Data::new(3, 16, Some(16), opcode),
            )),
            // CALL NZ, u16
            0xC4 => Some(Instruction::Call(JumpTest::NotZero, Data::new(3, 12, Some(24), opcode))),
            // PUSH BC
            0xC5 => Some(Instruction::Push(RR::BC, Data::new(1, 16, None, opcode))),
            // ADD A, u8
            0xC6 => Some(Instruction::Add(ByteSource::Immediate8, Data::new(2, 8, None, opcode))),
            // RST 0x00
            0xC7 => Some(Instruction::RST(0x00, Data::new(1, 16, None, opcode))),
            // RET Z
            0xC8 => Some(Instruction::Ret(JumpTest::Zero, Data::new(1, 8, Some(20), opcode))),
            // RET
            0xC9 => Some(Instruction::Ret(JumpTest::Always, Data::new(1, 16, Some(16), opcode))),
            // JP Z, u16
            0xCA => Some(Instruction::Jp(
                JumpTest::Zero,
                WordSource::Immediate16,
                Data::new(3, 12, Some(16), opcode),
            )),
            // CALL Z, u16
            0xCC => Some(Instruction::Call(JumpTest::Zero, Data::new(3, 12, Some(24), opcode))),
            // CALL u16
            0xCD => Some(Instruction::Call(JumpTest::Always, Data::new(3, 24, Some(24), opcode))),
            // ADC A, u8
            0xCE => Some(Instruction::AdC(ByteSource::Immediate8, Data::new(2, 8, None, opcode))),
            // RST 0x08
            0xCF => Some(Instruction::RST(0x08, Data::new(1, 16, None, opcode))),
            // RET NC
            0xD0 => Some(Instruction::Ret(JumpTest::NotCarry, Data::new(1, 8, Some(20), opcode))),
            // POP DE
            0xD1 => Some(Instruction::Pop(RR::DE, Data::new(1, 12, None, opcode))),
            // JP NC, u16
            0xD2 => Some(Instruction::Jp(
                JumpTest::NotCarry,
                WordSource::Immediate16,
                Data::new(3, 12, Some(16), opcode),
            )),
            // CALL NC, u16
            0xD4 => Some(Instruction::Call(JumpTest::NotCarry, Data::new(3, 12, Some(24), opcode))),
            // PUSH DE
            0xD5 => Some(Instruction::Push(RR::DE, Data::new(1, 16, None, opcode))),
            // SUB A, u8
            0xD6 => Some(Instruction::Sub(ByteSource::Immediate8, Data::new(2, 8, None, opcode))),
            // RST 0x10
            0xD7 => Some(Instruction::RST(0x10, Data::new(1, 16, None, opcode))),
            // RET C
            0xD8 => Some(Instruction::Ret(JumpTest::Carry, Data::new(1, 8, Some(20), opcode))),
            // RETI
            0xD9 => Some(Instruction::RetI(Data::new(1, 16, None, opcode))),
            // JP C, u16
            0xDA => Some(Instruction::Jp(
                JumpTest::Carry,
                WordSource::Immediate16,
                Data::new(3, 12, Some(16), opcode),
            )),
            // CALL C, u16
            0xDC => Some(Instruction::Call(JumpTest::Carry, Data::new(3, 12, Some(24), opcode))),
            // SBC A, u8
            0xDE => Some(Instruction::SbC(ByteSource::Immediate8, Data::new(2, 8, None, opcode))),
            // RST 0x18
            0xDF => Some(Instruction::RST(0x18, Data::new(1, 16, None, opcode))),
            // LD (FF00+u8), A
            0xE0 => Some(Instruction::Ld(
                LoadType::Byte(ByteTarget::FF00PlusU8, ByteSource::Register(R::A)),
                Data::new(2, 12, None, opcode),
            )),
            // POP HL
            0xE1 => Some(Instruction::Pop(RR::HL, Data::new(1, 12, None, opcode))),
            // LD (FF00+C), A
            0xE2 => Some(Instruction::Ld(
                LoadType::Byte(ByteTarget::FF00PlusC, ByteSource::Register(R::A)),
                Data::new(1, 8, None, opcode),
            )),
            // PUSH HL
            0xE5 => Some(Instruction::Push(RR::HL, Data::new(1, 16, None, opcode))),
            // AND A, u8
            0xE6 => Some(Instruction::And(ByteSource::Immediate8, Data::new(2, 8, None, opcode))),
            // RST 0x20
            0xE7 => Some(Instruction::RST(0x20, Data::new(1, 16, None, opcode))),
            // ADD A, u8
            0xE8 => Some(Instruction::Add(ByteSource::Immediate8, Data::new(2, 16, None, opcode))),
            // JP HL
            0xE9 => Some(Instruction::Jp(
                JumpTest::Always,
                WordSource::Registers(RR::HL),
                Data::new(1, 4, Some(4), opcode),
            )),
            // LD (u16), A
            0xEA => Some(Instruction::Ld(
                LoadType::Byte(ByteTarget::Direct, ByteSource::Register(R::A)),
                Data::new(3, 16, None, opcode),
            )),
            // XOR A, u8
            0xEE => Some(Instruction::XOr(ByteSource::Immediate8, Data::new(2, 8, None, opcode))),
            // RST 0x28
            0xEF => Some(Instruction::RST(0x28, Data::new(1, 16, None, opcode))),
            // LD A, (FF00+u8)
            0xF0 => Some(Instruction::Ld(
                LoadType::Byte(ByteTarget::Register(R::A), ByteSource::FF00PlusU8),
                Data::new(2, 12, None, opcode),
            )),
            // POP AF
            0xF1 => Some(Instruction::Pop(RR::AF, Data::new(1, 12, None, opcode))),
            // LD A, (FF00+C)
            0xF2 => Some(Instruction::Ld(
                LoadType::Byte(ByteTarget::Register(R::A), ByteSource::FF00PlusC),
                Data::new(1, 8, None, opcode),
            )),
            // DI
            0xF3 => Some(Instruction::DI(Data::new(1, 4, None, opcode))),
            // PUSH AF
            0xF5 => Some(Instruction::Push(RR::AF, Data::new(1, 16, None, opcode))),
            // OR A, u8
            0xF6 => Some(Instruction::Or(ByteSource::Immediate8, Data::new(2, 8, None, opcode))),
            // RST 0x30
            0xF7 => Some(Instruction::RST(0x30, Data::new(1, 16, None, opcode))),
            // LD HL, SP+i8
            0xF8 => Some(Instruction::Ld(
                LoadType::Word(WordTarget::Registers(RR::HL), WordSource::SpPlusI8),
                Data::new(2, 12, None, opcode),
            )),
            // LD SP, HL
            0xF9 => Some(Instruction::Ld(
                LoadType::Word(WordTarget::SP, WordSource::Registers(RR::HL)),
                Data::new(1, 8, None, opcode),
            )),
            // LD A, (u16)
            0xFA => Some(Instruction::Ld(
                LoadType::Byte(ByteTarget::Register(R::A), ByteSource::Direct),
                Data::new(3, 16, None, opcode),
            )),
            // EI
            0xFB => Some(Instruction::EI(Data::new(1, 4, None, opcode))),
            // CP A, u8
            0xFE => Some(Instruction::Cp(ByteSource::Immediate8, Data::new(2, 8, None, opcode))),
            // RST 0x38
            0xFF => Some(Instruction::RST(0x38, Data::new(1, 16, None, opcode))),
            _ => None,
        }
    }

    /// The table behind the 0xCB prefix, one arm for each opcode.
    fn from_byte_0xcb_prefixed(opcode: u8) -> (instruction: Option<Instruction>)
        ensures
            instruction == decode_prefixed(opcode),
    {
        reveal(decode_prefixed);
        match opcode {
            // RLC B
            0x00 => Some(Instruction::RLC(
                ByteTarget::Register(R::B),
                Data::new_cb(2, 8, None, opcode),
            )),
            // RLC C
            0x01 => Some(Instruction::RLC(
                ByteTarget::Register(R::C),
                Data::new_cb(2, 8, None, opcode),
            )),
            // RLC D
            0x02 => Some(Instruction::RLC(
                ByteTarget::Register(R::D),
                Data::new_cb(2, 8, None, opcode),
            )),
            // RLC E
            0x03 => Some(Instruction::RLC(
                ByteTarget::Register(R::E),
                Data::new_cb(2, 8, None, opcode),
            )),
            // RLC H
            0x04 => Some(Instruction::RLC(
                ByteTarget::Register(R::H),
                Data::new_cb(2, 8, None, opcode),
            )),
            // RLC L
            0x05 => Some(Instruction::RLC(
                ByteTarget::Register(R::L),
                Data::new_cb(2, 8, None, opcode),
            )),
            // RLC (HL)
            0x06 => Some(Instruction::RLC(ByteTarget::HL, Data::new_cb(2, 16, None, opcode))),
            // RLC A
            0x07 => Some(Instruction::RLC(
                ByteTarget::Register(R::A),
                Data::new_cb(2, 8, None, opcode),
            )),
            // RRC B
            0x08 => Some(Instruction::RRC(
                ByteTarget::Register(R::B),
                Data::new_cb(2, 8, None, opcode),
            )),
            // RRC C
            0x09 => Some(Instruction::RRC(
                ByteTarget::Register(R::C),
                Data::new_cb(2, 8, None, opcode),
            )),
            // RRC D
            0x0A => Some(Instruction::RRC(
                ByteTarget::Register(R::D),
                Data::new_cb(2, 8, None, opcode),
            )),
            // RRC E
            0x0B => Some(Instruction::RRC(
                ByteTarget::Register(R::E),
                Data::new_cb(2, 8, None, opcode),
            )),
            // RRC H
            0x0C => Some(Instruction::RRC(
                ByteTarget::Register(R::H),
                Data::new_cb(2, 8, None, opcode),
            )),
            // RRC L
            0x0D => Some(Instruction::RRC(
                ByteTarget::Register(R::L),
                Data::new_cb(2, 8, None, opcode),
            )),
            // RRC (HL)
            0x0E => Some(Instruction::RRC(ByteTarget::HL, Data::new_cb(2, 16, None, opcode))),
            // RRC A
            0x0F => Some(Instruction::RRC(
                ByteTarget::Register(R::A),
                Data::new_cb(2, 8, None, opcode),
            )),
            // RL B
            0x10 => Some(Instruction::RL(
                ByteTarget::Register(R::B),
                Data::new_cb(2, 8, None, opcode),
            )),
            // RL C
            0x11 => Some(Instruction::RL(
                ByteTarget::Register(R::C),
                Data::new_cb(2, 8, None, opcode),
            )),
            // RL D
            0x12 => Some(Instruction::RL(
                ByteTarget::Register(R::D),
                Data::new_cb(2, 8, None, opcode),
            )),
            // RL E
            0x13 => Some(Instruction::RL(
                ByteTarget::Register(R::E),
                Data::new_cb(2, 8, None, opcode),
            )),
            // RL H
            0x14 => Some(Instruction::RL(
                ByteTarget::Register(R::H),
                Data::new_cb(2, 8, None, opcode),
            )),
            // RL L
            0x15 => Some(Instruction::RL(
                ByteTarget::Register(R::L),
                Data::new_cb(2, 8, None, opcode),
            )),
            // RL (HL)
            0x16 => Some(Instruction::RL(ByteTarget::HL, Data::new_cb(2, 16, None, opcode))),
            // RL A
            0x17 => Some(Instruction::RL(
                ByteTarget::Register(R::A),
                Data::new_cb(2, 8, None, opcode),
            )),
            // RR B
            0x18 => Some(Instruction::RR(
                ByteTarget::Register(R::B),
                Data::new_cb(2, 8, None, opcode),
            )),
            // RR C
            0x19 => Some(Instruction::RR(
                ByteTarget::Register(R::C),
                Data::new_cb(2, 8, None, opcode),
            )),
            // RR D
            0x1A => Some(Instruction::RR(
                ByteTarget::Register(R::D),
                Data::new_cb(2, 8, None, opcode),
            )),
            // RR E
            0x1B => Some(Instruction::RR(
                ByteTarget::Register(R::E),
                Data::new_cb(2, 8, None, opcode),
            )),
            // RR H
            0x1C => Some(Instruction::RR(
                ByteTarget::Register(R::H),
                Data::new_cb(2, 8, None, opcode),
            )),
            // RR L
            0x1D => Some(Instruction::RR(
                ByteTarget::Register(R::L),
                Data::new_cb(2, 8, None, opcode),
            )),
            // RR (HL)
            0x1E => Some(Instruction::RR(ByteTarget::HL, Data::new_cb(2, 16, None, opcode))),
            // RR A
            0x1F => Some(Instruction::RR(
                ByteTarget::Register(R::A),
                Data::new_cb(2, 8, None, opcode),
            )),
            // SLA B
            0x20 => Some(Instruction::SLA(
                ByteTarget::Register(R::B),
                Data::new_cb(2, 8, None, opcode),
            )),
            // SLA C
            0x21 => Some(Instruction::SLA(
                ByteTarget::Register(R::C),
                Data::new_cb(2, 8, None, opcode),
            )),
            // SLA D
            0x22 => Some(Instruction::SLA(
                ByteTarget::Register(R::D),
                Data::new_cb(2, 8, None, opcode),
            )),
            // SLA E
            0x23 => Some(Instruction::SLA(
                ByteTarget::Register(R::E),
                Data::new_cb(2, 8, None, opcode),
            )),
            // SLA H
            0x24 => Some(Instruction::SLA(
                ByteTarget::Register(R::H),
                Data::new_cb(2, 8, None, opcode),
            )),
            // SLA L
            0x25 => Some(Instruction::SLA(
                ByteTarget::Register(R::L),
                Data::new_cb(2, 8, None, opcode),
            )),
            // SLA (HL)
            0x26 => Some(Instruction::SLA(ByteTarget::HL, Data::new_cb(2, 16, None, opcode))),
            // SLA A
            0x27 => Some(Instruction::SLA(
                ByteTarget::Register(R::A),
                Data::new_cb(2, 8, None, opcode),
            )),
            // SRA B
            0x28 => Some(Instruction::SRA(
                ByteTarget::Register(R::B),
                Data::new_cb(2, 8, None, opcode),
            )),
            // SRA C
            0x29 => Some(Instruction::SRA(
                ByteTarget::Register(R::C),
                Data::new_cb(2, 8, None, opcode),
            )),
            // SRA D
            0x2A => Some(Instruction::SRA(
                ByteTarget::Register(R::D),
                Data::new_cb(2, 8, None, opcode),
            )),
            // SRA E
            0x2B => Some(Instruction::SRA(
                ByteTarget::Register(R::E),
                Data::new_cb(2, 8, None, opcode),
            )),
            // SRA H
            0x2C => Some(Instruction::SRA(
                ByteTarget::Register(R::H),
                Data::new_cb(2, 8, None, opcode),
            )),
            // SRA L
            0x2D => Some(Instruction::SRA(
                ByteTarget::Register(R::L),
                Data::new_cb(2, 8, None, opcode),
            )),
            // SRA (HL)
            0x2E => Some(Instruction::SRA(ByteTarget::HL, Data::new_cb(2, 16, None, opcode))),
            // SRA A
            0x2F => Some(Instruction::SRA(
                ByteTarget::Register(R::A),
                Data::new_cb(2, 8, None, opcode),
            )),
            // SWAP B
            0x30 => Some(Instruction::Swap(
                ByteTarget::Register(R::B),
                Data::new_cb(2, 8, None, opcode),
            )),
            // SWAP C
            0x31 => Some(Instruction::Swap(
                ByteTarget::Register(R::C),
                Data::new_cb(2, 8, None, opcode),
            )),
            // SWAP D
            0x32 => Some(Instruction::Swap(
                ByteTarget::Register(R::D),
                Data::new_cb(2, 8, None, opcode),
            )),
            // SWAP E
            0x33 => Some(Instruction::Swap(
                ByteTarget::Register(R::E),
                Data::new_cb(2, 8, None, opcode),
            )),
            // SWAP H
            0x34 => Some(Instruction::Swap(
                ByteTarget::Register(R::H),
                Data::new_cb(2, 8, None, opcode),
            )),
            // SWAP L
            0x35 => Some(Instruction::Swap(
                ByteTarget::Register(R::L),
                Data::new_cb(2, 8, None, opcode),
            )),
            // SWAP (HL)
            0x36 => Some(Instruction::Swap(ByteTarget::HL, Data::new_cb(2, 16, None, opcode))),
            // SWAP A
            0x37 => Some(Instruction::Swap(
                ByteTarget::Register(R::A),
                Data::new_cb(2, 8, None, opcode),
            )),
            // SRL B
            0x38 => Some(Instruction::SRL(
                ByteTarget::Register(R::B),
                Data::new_cb(2, 8, None, opcode),
            )),
            // SRL C
            0x39 => Some(Instruction::SRL(
                ByteTarget::Register(R::C),
                Data::new_cb(2, 8, None, opcode),
            )),
            // SRL D
            0x3A => Some(Instruction::SRL(
                ByteTarget::Register(R::D),
                Data::new_cb(2, 8, None, opcode),
            )),
            // SRL E
            0x3B => Some(Instruction::SRL(
                ByteTarget::Register(R::E),
                Data::new_cb(2, 8, None, opcode),
            )),
            // SRL H
            0x3C => Some(Instruction::SRL(
                ByteTarget::Register(R::H),
                Data::new_cb(2, 8, None, opcode),
            )),
            // SRL L
            0x3D => Some(Instruction::SRL(
                ByteTarget::Register(R::L),
                Data::new_cb(2, 8, None, opcode),
            )),
            // SRL (HL)
            0x3E => Some(Instruction::SRL(ByteTarget::HL, Data::new_cb(2, 16, None, opcode))),
            // SRL A
            0x3F => Some(Instruction::SRL(
                ByteTarget::Register(R::A),
                Data::new_cb(2, 8, None, opcode),
            )),
            // BIT 0, B
            0x40 => Some(Instruction::Bit(
                0,
                ByteSource::Register(R::B),
                Data::new_cb(2, 8, None, opcode),
            )),
            // BIT 0, C
            0x41 => Some(Instruction::Bit(
                0,
                ByteSource::Register(R::C),
                Data::new_cb(2, 8, None, opcode),
            )),
            // BIT 0, D
            0x42 => Some(Instruction::Bit(
                0,
                ByteSource::Register(R::D),
                Data::new_cb(2, 8, None, opcode),
            )),
            // BIT 0, E
            0x43 => Some(Instruction::Bit(
                0,
                ByteSource::Register(R::E),
                Data::new_cb(2, 8, None, opcode),
            )),
            // BIT 0, H
            0x44 => Some(Instruction::Bit(
                0,
                ByteSource::Register(R::H),
                Data::new_cb(2, 8, None, opcode),
            )),
            // BIT 0, L
            0x45 => Some(Instruction::Bit(
                0,
                ByteSource::Register(R::L),
                Data::new_cb(2, 8, None, opcode),
            )),
            // BIT 0, (HL)
            0x46 => Some(Instruction::Bit(0, ByteSource::HL, Data::new_cb(2, 12, None, opcode))),
            // BIT 0, A
            0x47 => Some(Instruction::Bit(
                0,
                ByteSource::Register(R::A),
                Data::new_cb(2, 8, None, opcode),
            )),
            // BIT 1, B
            0x48 => Some(Instruction::Bit(
                1,
                ByteSource::Register(R::B),
                Data::new_cb(2, 8, None, opcode),
            )),
            // BIT 1, C
            0x49 => Some(Instruction::Bit(
                1,
                ByteSource::Register(R::C),
                Data::new_cb(2, 8, None, opcode),
            )),
            // BIT 1, D
            0x4A => Some(Instruction::Bit(
                1,
                ByteSource::Register(R::D),
                Data::new_cb(2, 8, None, opcode),
            )),
            // BIT 1, E
            0x4B => Some(Instruction::Bit(
                1,
                ByteSource::Register(R::E),
                Data::new_cb(2, 8, None, opcode),
            )),
            // BIT 1, H
            0x4C => Some(Instruction::Bit(
                1,
                ByteSource::Register(R::H),
                Data::new_cb(2, 8, None, opcode),
            )),
            // BIT 1, L
            0x4D => Some(Instruction::Bit(
                1,
                ByteSource::Register(R::L),
                Data::new_cb(2, 8, None, opcode),
            )),
            // BIT 1, (HL)
            0x4E => Some(Instruction::Bit(1, ByteSource::HL, Data::new_cb(2, 12, None, opcode))),
            // BIT 1, A
            0x4F => Some(Instruction::Bit(
                1,
                ByteSource::Register(R::A),
                Data::new_cb(2, 8, None, opcode),
            )),
            // BIT 2, B
            0x50 => Some(Instruction::Bit(
                2,
                ByteSource::Register(R::B),
                Data::new_cb(2, 8, None, opcode),
            )),
            // BIT 2, C
            0x51 => Some(Instruction::Bit(
                2,
                ByteSource::Register(R::C),
                Data::new_cb(2, 8, None, opcode),
            )),
            // BIT 2, D
            0x52 => Some(Instruction::Bit(
                2,
                ByteSource::Register(R::D),
                Data::new_cb(2, 8, None, opcode),
            )),
            // BIT 2, E
            0x53 => Some(Instruction::Bit(
                2,
                ByteSource::Register(R::E),
                Data::new_cb(2, 8, None, opcode),
            )),
            // BIT 2, H
            0x54 => Some(Instruction::Bit(
                2,
                ByteSource::Register(R::H),
                Data::new_cb(2, 8, None, opcode),
            )),
            // BIT 2, L
            0x55 => Some(Instruction::Bit(
                2,
                ByteSource::Register(R::L),
                Data::new_cb(2, 8, None, opcode),
            )),
            // BIT 2, (HL)
            0x56 => Some(Instruction::Bit(2, ByteSource::HL, Data::new_cb(2, 12, None, opcode))),
            // BIT 2, A
            0x57 => Some(Instruction::Bit(
                2,
                ByteSource::Register(R::A),
                Data::new_cb(2, 8, None, opcode),
            )),
            // BIT 3, B
            0x58 => Some(Instruction::Bit(
                3,
                ByteSource::Register(R::B),
                Data::new_cb(2, 8, None, opcode),
            )),
            // BIT 3, C
            0x59 => Some(Instruction::Bit(
                3,
                ByteSource::Register(R::C),
                Data::new_cb(2, 8, None, opcode),
            )),
            // BIT 3, D
            0x5A => Some(Instruction::Bit(
                3,
                ByteSource::Register(R::D),
                Data::new_cb(2, 8, None, opcode),
            )),
            // BIT 3, E
            0x5B => Some(Instruction::Bit(
                3,
                ByteSource::Register(R::E),
                Data::new_cb(2, 8, None, opcode),
            )),
            // BIT 3, H
            0x5C => Some(Instruction::Bit(
                3,
                ByteSource::Register(R::H),
                Data::new_cb(2, 8, None, opcode),
            )),
            // BIT 3, L
            0x5D => Some(Instruction::Bit(
                3,
                ByteSource::Register(R::L),
                Data::new_cb(2, 8, None, opcode),
            )),
            // BIT 3, (HL)
            0x5E => Some(Instruction::Bit(3, ByteSource::HL, Data::new_cb(2, 12, None, opcode))),
            // BIT 3, A
            0x5F => Some(Instruction::Bit(
                3,
                ByteSource::Register(R::A),
                Data::new_cb(2, 8, None, opcode),
            )),
            // BIT 4, B
            0x60 => Some(Instruction::Bit(
                4,
                ByteSource::Register(R::B),
                Data::new_cb(2, 8, None, opcode),
            )),
            // BIT 4, C
            0x61 => Some(Instruction::Bit(
                4,
                ByteSource::Register(R::C),
                Data::new_cb(2, 8, None, opcode),
            )),
            // BIT 4, D
            0x62 => Some(Instruction::Bit(
                4,
                ByteSource::Register(R::D),
                Data::new_cb(2, 8, None, opcode),
            )),
            // BIT 4, E
            0x63 => Some(Instruction::Bit(
                4,
                ByteSource::Register(R::E),
                Data::new_cb(2, 8, None, opcode),
            )),
            // BIT 4, H
            0x64 => Some(Instruction::Bit(
                4,
                ByteSource::Register(R::H),
                Data::new_cb(2, 8, None, opcode),
            )),
            // BIT 4, L
            0x65 => Some(Instruction::Bit(
                4,
                ByteSource::Register(R::L),
                Data::new_cb(2, 8, None, opcode),
            )),
            // BIT 4, (HL)
            0x66 => Some(Instruction::Bit(4, ByteSource::HL, Data::new_cb(2, 12, None, opcode))),
            // BIT 4, A
            0x67 => Some(Instruction::Bit(
                4,
                ByteSource::Register(R::A),
                Data::new_cb(2, 8, None, opcode),
            )),
            // BIT 5, B
            0x68 => Some(Instruction::Bit(
                5,
                ByteSource::Register(R::B),
                Data::new_cb(2, 8, None, opcode),
            )),
            // BIT 5, C
            0x69 => Some(Instruction::Bit(
                5,
                ByteSource::Register(R::C),
                Data::new_cb(2, 8, None, opcode),
            )),
            // BIT 5, D
            0x6A => Some(Instruction::Bit(
                5,
                ByteSource::Register(R::D),
                Data::new_cb(2, 8, None, opcode),
            )),
            // BIT 5, E
            0x6B => Some(Instruction::Bit(
                5,
                ByteSource::Register(R::E),
                Data::new_cb(2, 8, None, opcode),
            )),
            // BIT 5, H
            0x6C => Some(Instruction::Bit(
                5,
                ByteSource::Register(R::H),
                Data::new_cb(2, 8, None, opcode),
            )),
            // BIT 5, L
            0x6D => Some(Instruction::Bit(
                5,
                ByteSource::Register(R::L),
                Data::new_cb(2, 8, None, opcode),
            )),
            // BIT 5, (HL)
            0x6E => Some(Instruction::Bit(5, ByteSource::HL, Data::new_cb(2, 12, None, opcode))),
            // BIT 5, A
            0x6F => Some(Instruction::Bit(
                5,
                ByteSource::Register(R::A),
                Data::new_cb(2, 8, None, opcode),
            )),
            // BIT 6, B
            0x70 => Some(Instruction::Bit(
                6,
                ByteSource::Register(R::B),
                Data::new_cb(2, 8, None, opcode),
            )),
            // BIT 6, C
            0x71 => Some(Instruction::Bit(
                6,
                ByteSource::Register(R::C),
                Data::new_cb(2, 8, None, opcode),
            )),
            // BIT 6, D
            0x72 => Some(Instruction::Bit(
                6,
                ByteSource::Register(R::D),
                Data::new_cb(2, 8, None, opcode),
            )),
            // BIT 6, E
            0x73 => Some(Instruction::Bit(
                6,
                ByteSource::Register(R::E),
                Data::new_cb(2, 8, None, opcode),
            )),
            // BIT 6, H
            0x74 => Some(Instruction::Bit(
                6,
                ByteSource::Register(R::H),
                Data::new_cb(2, 8, None, opcode),
            )),
            // BIT 6, L
            0x75 => Some(Instruction::Bit(
                6,
                ByteSource::Register(R::L),
                Data::new_cb(2, 8, None, opcode),
            )),
            // BIT 6, (HL)
            0x76 => Some(Instruction::Bit(6, ByteSource::HL, Data::new_cb(2, 12, None, opcode))),
            // BIT 6, A
            0x77 => Some(Instruction::Bit(
                6,
                ByteSource::Register(R::A),
                Data::new_cb(2, 8, None, opcode),
            )),
            // BIT 7, B
            0x78 => Some(Instruction::Bit(
                7,
                ByteSource::Register(R::B),
                Data::new_cb(2, 8, None, opcode),
            )),
            // BIT 7, C
            0x79 => Some(Instruction::Bit(
                7,
                ByteSource::Register(R::C),
                Data::new_cb(2, 8, None, opcode),
            )),
            // BIT 7, D
            0x7A => Some(Instruction::Bit(
                7,
                ByteSource::Register(R::D),
                Data::new_cb(2, 8, None, opcode),
            )),
            // BIT 7, E
            0x7B => Some(Instruction::Bit(
                7,
                ByteSource::Register(R::E),
                Data::new_cb(2, 8, None, opcode),
            )),
            // BIT 7, H
            0x7C => Some(Instruction::Bit(
                7,
                ByteSource::Register(R::H),
                Data::new_cb(2, 8, None, opcode),
            )),
            // BIT 7, L
            0x7D => Some(Instruction::Bit(
                7,
                ByteSource::Register(R::L),
                Data::new_cb(2, 8, None, opcode),
            )),
            // BIT 7, (HL)
            0x7E => Some(Instruction::Bit(7, ByteSource::HL, Data::new_cb(2, 12, None, opcode))),
            // BIT 7, A
            0x7F => Some(Instruction::Bit(
                7,
                ByteSource::Register(R::A),
                Data::new_cb(2, 8, None, opcode),
            )),
            // RES 0, B
            0x80 => Some(Instruction::Res(
                0,
                ByteTarget::Register(R::B),
                Data::new_cb(2, 8, None, opcode),
            )),
            // RES 0, C
            0x81 => Some(Instruction::Res(
                0,
                ByteTarget::Register(R::C),
                Data::new_cb(2, 8, None, opcode),
            )),
            // RES 0, D
            0x82 => Some(Instruction::Res(
                0,
                ByteTarget::Register(R::D),
                Data::new_cb(2, 8, None, opcode),
            )),
            // RES 0, E
            0x83 => Some(Instruction::Res(
                0,
                ByteTarget::Register(R::E),
                Data::new_cb(2, 8, None, opcode),
            )),
            // RES 0, H
            0x84 => Some(Instruction::Res(
                0,
                ByteTarget::Register(R::H),
                Data::new_cb(2, 8, None, opcode),
            )),
            // RES 0, L
            0x85 => Some(Instruction::Res(
                0,
                ByteTarget::Register(R::L),
                Data::new_cb(2, 8, None, opcode),
            )),
            // RES 0, (HL)
            0x86 => Some(Instruction::Res(0, ByteTarget::HL, Data::new_cb(2, 16, None, opcode))),
            // RES 0, A
            0x87 => Some(Instruction::Res(
                0,
                ByteTarget::Register(R::A),
                Data::new_cb(2, 8, None, opcode),
            )),
            // RES 1, B
            0x88 => Some(Instruction::Res(
                1,
                ByteTarget::Register(R::B),
                Data::new_cb(2, 8, None, opcode),
            )),
            // RES 1, C
            0x89 => Some(Instruction::Res(
                1,
                ByteTarget::Register(R::C),
                Data::new_cb(2, 8, None, opcode),
            )),
            // RES 1, D
            0x8A => Some(Instruction::Res(
                1,
                ByteTarget::Register(R::D),
                Data::new_cb(2, 8, None, opcode),
            )),
            // RES 1, E
            0x8B => Some(Instruction::Res(
                1,
                ByteTarget::Register(R::E),
                Data::new_cb(2, 8, None, opcode),
            )),
            // RES 1, H
            0x8C => Some(Instruction::Res(
                1,
                ByteTarget::Register(R::H),
                Data::new_cb(2, 8, None, opcode),
            )),
            // RES 1, L
            0x8D => Some(Instruction::Res(
                1,
                ByteTarget::Register(R::L),
                Data::new_cb(2, 8, None, opcode),
            )),
            // RES 1, (HL)
            0x8E => Some(Instruction::Res(1, ByteTarget::HL, Data::new_cb(2, 16, None, opcode))),
            // RES 1, A
            0x8F => Some(Instruction::Res(
                1,
                ByteTarget::Register(R::A),
                Data::new_cb(2, 8, None, opcode),
            )),
            // RES 2, B
            0x90 => Some(Instruction::Res(
                2,
                ByteTarget::Register(R::B),
                Data::new_cb(2, 8, None, opcode),
            )),
            // RES 2, C
            0x91 => Some(Instruction::Res(
                2,
                ByteTarget::Register(R::C),
                Data::new_cb(2, 8, None, opcode),
            )),
            // RES 2, D
            0x92 => Some(Instruction::Res(
                2,
                ByteTarget::Register(R::D),
                Data::new_cb(2, 8, None, opcode),
            )),
            // RES 2, E
            0x93 => Some(Instruction::Res(
                2,
                ByteTarget::Register(R::E),
                Data::new_cb(2, 8, None, opcode),
            )),
            // RES 2, H
            0x94 => Some(Instruction::Res(
                2,
                ByteTarget::Register(R::H),
                Data::new_cb(2, 8, None, opcode),
            )),
            // RES 2, L
            0x95 => Some(Instruction::Res(
                2,
                ByteTarget::Register(R::L),
                Data::new_cb(2, 8, None, opcode),
            )),
            // RES 2, (HL)
            0x96 => Some(Instruction::Res(2, ByteTarget::HL, Data::new_cb(2, 16, None, opcode))),
            // RES 2, A
            0x97 => Some(Instruction::Res(
                2,
                ByteTarget::Register(R::A),
                Data::new_cb(2, 8, None, opcode),
            )),
            // RES 3, B
            0x98 => Some(Instruction::Res(
                3,
                ByteTarget::Register(R::B),
                Data::new_cb(2, 8, None, opcode),
            )),
            // RES 3, C
            0x99 => Some(Instruction::Res(
                3,
                ByteTarget::Register(R::C),
                Data::new_cb(2, 8, None, opcode),
            )),
            // RES 3, D
            0x9A => Some(Instruction::Res(
                3,
                ByteTarget::Register(R::D),
                Data::new_cb(2, 8, None, opcode),
            )),
            // RES 3, E
            0x9B => Some(Instruction::Res(
                3,
                ByteTarget::Register(R::E),
                Data::new_cb(2, 8, None, opcode),
            )),
            // RES 3, H
            0x9C => Some(Instruction::Res(
                3,
                ByteTarget::Register(R::H),
                Data::new_cb(2, 8, None, opcode),
            )),
            // RES 3, L
            0x9D => Some(Instruction::Res(
                3,
                ByteTarget::Register(R::L),
                Data::new_cb(2, 8, None, opcode),
            )),
            // RES 3, (HL)
            0x9E => Some(Instruction::Res(3, ByteTarget::HL, Data::new_cb(2, 16, None, opcode))),
            // RES 3, A
            0x9F => Some(Instruction::Res(
                3,
                ByteTarget::Register(R::A),
                Data::new_cb(2, 8, None, opcode),
            )),
            // RES 4, B
            0xA0 => Some(Instruction::Res(
                4,
                ByteTarget::Register(R::B),
                Data::new_cb(2, 8, None, opcode),
            )),
            // RES 4, C
            0xA1 => Some(Instruction::Res(
                4,
                ByteTarget::Register(R::C),
                Data::new_cb(2, 8, None, opcode),
            )),
            // RES 4, D
            0xA2 => Some(Instruction::Res(
                4,
                ByteTarget::Register(R::D),
                Data::new_cb(2, 8, None, opcode),
            )),
            // RES 4, E
            0xA3 => Some(Instruction::Res(
                4,
                ByteTarget::Register(R::E),
                Data::new_cb(2, 8, None, opcode),
            )),
            // RES 4, H
            0xA4 => Some(Instruction::Res(
                4,
                ByteTarget::Register(R::H),
                Data::new_cb(2, 8, None, opcode),
            )),
            // RES 4, L
            0xA5 => Some(Instruction::Res(
                4,
                ByteTarget::Register(R::L),
                Data::new_cb(2, 8, None, opcode),
            )),
            // RES 4, (HL)
            0xA6 => Some(Instruction::Res(4, ByteTarget::HL, Data::new_cb(2, 16, None, opcode))),
            // RES 4, A
            0xA7 => Some(Instruction::Res(
                4,
                ByteTarget::Register(R::A),
                Data::new_cb(2, 8, None, opcode),
            )),
            // RES 5, B
            0xA8 => Some(Instruction::Res(
                5,
                ByteTarget::Register(R::B),
                Data::new_cb(2, 8, None, opcode),
            )),
            // RES 5, C
            0xA9 => Some(Instruction::Res(
                5,
                ByteTarget::Register(R::C),
                Data::new_cb(2, 8, None, opcode),
            )),
            // RES 5, D
            0xAA => Some(Instruction::Res(
                5,
                ByteTarget::Register(R::D),
                Data::new_cb(2, 8, None, opcode),
            )),
            // RES 5, E
            0xAB => Some(Instruction::Res(
                5,
                ByteTarget::Register(R::E),
                Data::new_cb(2, 8, None, opcode),
            )),
            // RES 5, H
            0xAC => Some(Instruction::Res(
                5,
                ByteTarget::Register(R::H),
                Data::new_cb(2, 8, None, opcode),
            )),
            // RES 5, L
            0xAD => Some(Instruction::Res(
                5,
                ByteTarget::Register(R::L),
                Data::new_cb(2, 8, None, opcode),
            )),
            // RES 5, (HL)
            0xAE => Some(Instruction::Res(5, ByteTarget::HL, Data::new_cb(2, 16, None, opcode))),
            // RES 5, A
            0xAF => Some(Instruction::Res(
                5,
                ByteTarget::Register(R::A),
                Data::new_cb(2, 8, None, opcode),
            )),
            // RES 6, B
            0xB0 => Some(Instruction::Res(
                6,
                ByteTarget::Register(R::B),
                Data::new_cb(2, 8, None, opcode),
            )),
            // RES 6, C
            0xB1 => Some(Instruction::Res(
                6,
                ByteTarget::Register(R::C),
                Data::new_cb(2, 8, None, opcode),
            )),
            // RES 6, D
            0xB2 => Some(Instruction::Res(
                6,
                ByteTarget::Register(R::D),
                Data::new_cb(2, 8, None, opcode),
            )),
            // RES 6, E
            0xB3 => Some(Instruction::Res(
                6,
                ByteTarget::Register(R::E),
                Data::new_cb(2, 8, None, opcode),
            )),
            // RES 6, H
            0xB4 => Some(Instruction::Res(
                6,
                ByteTarget::Register(R::H),
                Data::new_cb(2, 8, None, opcode),
            )),
            // RES 6, L
            0xB5 => Some(Instruction::Res(
                6,
                ByteTarget::Register(R::L),
                Data::new_cb(2, 8, None, opcode),
            )),
            // RES 6, (HL)
            0xB6 => Some(Instruction::Res(6, ByteTarget::HL, Data::new_cb(2, 16, None, opcode))),
            // RES 6, A
            0xB7 => Some(Instruction::Res(
                6,
                ByteTarget::Register(R::A),
                Data::new_cb(2, 8, None, opcode),
            )),
            // RES 7, B
            0xB8 => Some(Instruction::Res(
                7,
                ByteTarget::Register(R::B),
                Data::new_cb(2, 8, None, opcode),
            )),
            // RES 7, C
            0xB9 => Some(Instruction::Res(
                7,
                ByteTarget::Register(R::C),
                Data::new_cb(2, 8, None, opcode),
            )),
            // RES 7, D
            0xBA => Some(Instruction::Res(
                7,
                ByteTarget::Register(R::D),
                Data::new_cb(2, 8, None, opcode),
            )),
            // RES 7, E
            0xBB => Some(Instruction::Res(
                7,
                ByteTarget::Register(R::E),
                Data::new_cb(2, 8, None, opcode),
            )),
            // RES 7, H
            0xBC => Some(Instruction::Res(
                7,
                ByteTarget::Register(R::H),
                Data::new_cb(2, 8, None, opcode),
            )),
            // RES 7, L
            0xBD => Some(Instruction::Res(
                7,
                ByteTarget::Register(R::L),
                Data::new_cb(2, 8, None, opcode),
            )),
            // RES 7, (HL)
            0xBE => Some(Instruction::Res(7, ByteTarget::HL, Data::new_cb(2, 16, None, opcode))),
            // RES 7, A
            0xBF => Some(Instruction::Res(
                7,
                ByteTarget::Register(R::A),
                Data::new_cb(2, 8, None, opcode),
            )),
            // SET 0, B
            0xC0 => Some(Instruction::SetBit(
                0,
                ByteTarget::Register(R::B),
                Data::new_cb(2, 8, None, opcode),
            )),
            // SET 0, C
            0xC1 => Some(Instruction::SetBit(
                0,
                ByteTarget::Register(R::C),
                Data::new_cb(2, 8, None, opcode),
            )),
            // SET 0, D
            0xC2 => Some(Instruction::SetBit(
                0,
                ByteTarget::Register(R::D),
                Data::new_cb(2, 8, None, opcode),
            )),
            // SET 0, E
            0xC3 => Some(Instruction::SetBit(
                0,
                ByteTarget::Register(R::E),
                Data::new_cb(2, 8, None, opcode),
            )),
            // SET 0, H
            0xC4 => Some(Instruction::SetBit(
                0,
                ByteTarget::Register(R::H),
                Data::new_cb(2, 8, None, opcode),
            )),
            // SET 0, L
            0xC5 => Some(Instruction::SetBit(
                0,
                ByteTarget::Register(R::L),
                Data::new_cb(2, 8, None, opcode),
            )),
            // SET 0, (HL)
            0xC6 => Some(Instruction::SetBit(0, ByteTarget::HL, Data::new_cb(2, 16, None, opcode))),
            // SET 0, A
            0xC7 => Some(Instruction::SetBit(
                0,
                ByteTarget::Register(R::A),
                Data::new_cb(2, 8, None, opcode),
            )),
            // SET 1, B
            0xC8 => Some(Instruction::SetBit(
                1,
                ByteTarget::Register(R::B),
                Data::new_cb(2, 8, None, opcode),
            )),
            // SET 1, C
            0xC9 => Some(Instruction::SetBit(
                1,
                ByteTarget::Register(R::C),
                Data::new_cb(2, 8, None, opcode),
            )),
            // SET 1, D
            0xCA => Some(Instruction::SetBit(
                1,
                ByteTarget::Register(R::D),
                Data::new_cb(2, 8, None, opcode),
            )),
            // SET 1, E
            0xCB => Some(Instruction::SetBit(
                1,
                ByteTarget::Register(R::E),
                Data::new_cb(2, 8, None, opcode),
            )),
            // SET 1, H
            0xCC => Some(Instruction::SetBit(
                1,
                ByteTarget::Register(R::H),
                Data::new_cb(2, 8, None, opcode),
            )),
            // SET 1, L
            0xCD => Some(Instruction::SetBit(
                1,
                ByteTarget::Register(R::L),
                Data::new_cb(2, 8, None, opcode),
            )),
            // SET 1, (HL)
            0xCE => Some(Instruction::SetBit(1, ByteTarget::HL, Data::new_cb(2, 16, None, opcode))),
            // SET 1, A
            0xCF => Some(Instruction::SetBit(
                1,
                ByteTarget::Register(R::A),
                Data::new_cb(2, 8, None, opcode),
            )),
            // SET 2, B
            0xD0 => Some(Instruction::SetBit(
                2,
                ByteTarget::Register(R::B),
                Data::new_cb(2, 8, None, opcode),
            )),
            // SET 2, C
            0xD1 => Some(Instruction::SetBit(
                2,
                ByteTarget::Register(R::C),
                Data::new_cb(2, 8, None, opcode),
            )),
            // SET 2, D
            0xD2 => Some(Instruction::SetBit(
                2,
                ByteTarget::Register(R::D),
                Data::new_cb(2, 8, None, opcode),
            )),
            // SET 2, E
            0xD3 => Some(Instruction::SetBit(
                2,
                ByteTarget::Register(R::E),
                Data::new_cb(2, 8, None, opcode),
            )),
            // SET 2, H
            0xD4 => Some(Instruction::SetBit(
                2,
                ByteTarget::Register(R::H),
                Data::new_cb(2, 8, None, opcode),
            )),
            // SET 2, L
            0xD5 => Some(Instruction::SetBit(
                2,
                ByteTarget::Register(R::L),
                Data::new_cb(2, 8, None, opcode),
            )),
            // SET 2, (HL)
            0xD6 => Some(Instruction::SetBit(2, ByteTarget::HL, Data::new_cb(2, 16, None, opcode))),
            // SET 2, A
            0xD7 => Some(Instruction::SetBit(
                2,
                ByteTarget::Register(R::A),
                Data::new_cb(2, 8, None, opcode),
            )),
            // SET 3, B
            0xD8 => Some(Instruction::SetBit(
                3,
                ByteTarget::Register(R::B),
                Data::new_cb(2, 8, None, opcode),
            )),
            // SET 3, C
            0xD9 => Some(Instruction::SetBit(
                3,
                ByteTarget::Register(R::C),
                Data::new_cb(2, 8, None, opcode),
            )),
            // SET 3, D
            0xDA => Some(Instruction::SetBit(
                3,
                ByteTarget::Register(R::D),
                Data::new_cb(2, 8, None, opcode),
            )),
            // SET 3, E
            0xDB => Some(Instruction::SetBit(
                3,
                ByteTarget::Register(R::E),
                Data::new_cb(2, 8, None, opcode),
            )),
            // SET 3, H
            0xDC => Some(Instruction::SetBit(
                3,
                ByteTarget::Register(R::H),
                Data::new_cb(2, 8, None, opcode),
            )),
            // SET 3, L
            0xDD => Some(Instruction::SetBit(
                3,
                ByteTarget::Register(R::L),
                Data::new_cb(2, 8, None, opcode),
            )),
            // SET 3, (HL)
            0xDE => Some(Instruction::SetBit(3, ByteTarget::HL, Data::new_cb(2, 16, None, opcode))),
            // SET 3, A
            0xDF => Some(Instruction::SetBit(
                3,
                ByteTarget::Register(R::A),
                Data::new_cb(2, 8, None, opcode),
            )),
            // SET 4, B
            0xE0 => Some(Instruction::SetBit(
                4,
                ByteTarget::Register(R::B),
                Data::new_cb(2, 8, None, opcode),
            )),
            // SET 4, C
            0xE1 => Some(Instruction::SetBit(
                4,
                ByteTarget::Register(R::C),
                Data::new_cb(2, 8, None, opcode),
            )),
            // SET 4, D
            0xE2 => Some(Instruction::SetBit(
                4,
                ByteTarget::Register(R::D),
                Data::new_cb(2, 8, None, opcode),
            )),
            // SET 4, E
            0xE3 => Some(Instruction::SetBit(
                4,
                ByteTarget::Register(R::E),
                Data::new_cb(2, 8, None, opcode),
            )),
            // SET 4, H
            0xE4 => Some(Instruction::SetBit(
                4,
                ByteTarget::Register(R::H),
                Data::new_cb(2, 8, None, opcode),
            )),
            // SET 4, L
            0xE5 => Some(Instruction::SetBit(
                4,
                ByteTarget::Register(R::L),
                Data::new_cb(2, 8, None, opcode),
            )),
            // SET 4, (HL)
            0xE6 => Some(Instruction::SetBit(4, ByteTarget::HL, Data::new_cb(2, 16, None, opcode))),
            // SET 4, A
            0xE7 => Some(Instruction::SetBit(
                4,
                ByteTarget::Register(R::A),
                Data::new_cb(2, 8, None, opcode),
            )),
            // SET 5, B
            0xE8 => Some(Instruction::SetBit(
                5,
                ByteTarget::Register(R::B),
                Data::new_cb(2, 8, None, opcode),
            )),
            // SET 5, C
            0xE9 => Some(Instruction::SetBit(
                5,
                ByteTarget::Register(R::C),
                Data::new_cb(2, 8, None, opcode),
            )),
            // SET 5, D
            0xEA => Some(Instruction::SetBit(
                5,
                ByteTarget::Register(R::D),
                Data::new_cb(2, 8, None, opcode),
            )),
            // SET 5, E
            0xEB => Some(Instruction::SetBit(
                5,
                ByteTarget::Register(R::E),
                Data::new_cb(2, 8, None, opcode),
            )),
            // SET 5, H
            0xEC => Some(Instruction::SetBit(
                5,
                ByteTarget::Register(R::H),
                Data::new_cb(2, 8, None, opcode),
            )),
            // SET 5, L
            0xED => Some(Instruction::SetBit(
                5,
                ByteTarget::Register(R::L),
                Data::new_cb(2, 8, None, opcode),
            )),
            // SET 5, (HL)
            0xEE => Some(Instruction::SetBit(5, ByteTarget::HL, Data::new_cb(2, 16, None, opcode))),
            // SET 5, A
            0xEF => Some(Instruction::SetBit(
                5,
                ByteTarget::Register(R::A),
                Data::new_cb(2, 8, None, opcode),
            )),
            // SET 6, B
            0xF0 => Some(Instruction::SetBit(
                6,
                ByteTarget::Register(R::B),
                Data::new_cb(2, 8, None, opcode),
            )),
            // SET 6, C
            0xF1 => Some(Instruction::SetBit(
                6,
                ByteTarget::Register(R::C),
                Data::new_cb(2, 8, None, opcode),
            )),
            // SET 6, D
            0xF2 => Some(Instruction::SetBit(
                6,
                ByteTarget::Register(R::D),
                Data::new_cb(2, 8, None, opcode),
            )),
            // SET 6, E
            0xF3 => Some(Instruction::SetBit(
                6,
                ByteTarget::Register(R::E),
                Data::new_cb(2, 8, None, opcode),
            )),
            // SET 6, H
            0xF4 => Some(Instruction::SetBit(
                6,
                ByteTarget::Register(R::H),
                Data::new_cb(2, 8, None, opcode),
            )),
            // SET 6, L
            0xF5 => Some(Instruction::SetBit(
                6,
                ByteTarget::Register(R::L),
                Data::new_cb(2, 8, None, opcode),
            )),
            // SET 6, (HL)
            0xF6 => Some(Instruction::SetBit(6, ByteTarget::HL, Data::new_cb(2, 16, None, opcode))),
            // SET 6, A
            0xF7 => Some(Instruction::SetBit(
                6,
                ByteTarget::Register(R::A),
                Data::new_cb(2, 8, None, opcode),
            )),
            // SET 7, B
            0xF8 => Some(Instruction::SetBit(
                7,
                ByteTarget::Register(R::B),
                Data::new_cb(2, 8, None, opcode),
            )),
            // SET 7, C
            0xF9 => Some(Instruction::SetBit(
                7,
                ByteTarget::Register(R::C),
                Data::new_cb(2, 8, None, opcode),
            )),
            // SET 7, D
            0xFA => Some(Instruction::SetBit(
                7,
                ByteTarget::Register(R::D),
                Data::new_cb(2, 8, None, opcode),
            )),
            // SET 7, E
            0xFB => Some(Instruction::SetBit(
                7,
                ByteTarget::Register(R::E),
                Data::new_cb(2, 8, None, opcode),
            )),
            // SET 7, H
            0xFC => Some(Instruction::SetBit(
                7,
                ByteTarget::Register(R::H),
                Data::new_cb(2, 8, None, opcode),
            )),
            // SET 7, L
            0xFD => Some(Instruction::SetBit(
                7,
                ByteTarget::Register(R::L),
                Data::new_cb(2, 8, None, opcode),
            )),
            // SET 7, (HL)
            0xFE => Some(Instruction::SetBit(7, ByteTarget::HL, Data::new_cb(2, 16, None, opcode))),
            // SET 7, A
            0xFF => Some(Instruction::SetBit(
                7,
                ByteTarget::Register(R::A),
                Data::new_cb(2, 8, None, opcode),
            )),
        }
    }
}

} // verus!
