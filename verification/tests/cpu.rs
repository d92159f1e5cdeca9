use gb_emu_common::cartridge::create_cartridge;
use gb_emu_common::cpu::Cpu;
use gb_emu_common::cpu_registers::FlagsRegister;
use gb_emu_common::error::EmulationError;
use gb_emu_common::instruction::{
    ByteSource, ByteTarget, Data, Instruction, JumpTest, WordSource, WordTarget, R, RR,
};

/// A processor with a cartridge whose ROM holds `program` from 0x0100 on.
fn cpu_with(program: &[u8], ram_code: u8) -> Cpu {
    let mut rom = vec![0u8; 32768];
    rom[0x0147] = if ram_code == 0 { 0x00 } else { 0x08 };
    rom[0x0149] = ram_code;
    rom[0x0100..0x0100 + program.len()].copy_from_slice(program);
    let mut cpu = Cpu::new();
    cpu.attach_cartridge(create_cartridge(rom).unwrap());
    cpu.sp = 0xFFFE;
    cpu
}

fn cpu(program: &[u8]) -> Cpu {
    cpu_with(program, 0)
}

fn flags(zero: bool, subtract: bool, half_carry: bool, carry: bool) -> FlagsRegister {
    FlagsRegister { zero, subtract, half_carry, carry }
}

#[test]
fn a_fresh_processor_waits_at_the_entry_point() {
    let cpu = Cpu::new();
    assert_eq!(cpu.pc, 0x0100);
    assert_eq!(cpu.sp, 0);
    assert_eq!(cpu.registers.get_af(), 0);
    assert!(!cpu.is_halted());
    assert!(!cpu.is_stopped());
    assert!(!cpu.interrupts_enabled());
    assert!(!cpu.interrupt_enable_pending());
    assert!(!cpu.has_cartridge());
}

#[test]
fn attaching_a_cartridge_puts_the_program_counter_at_the_entry_point() {
    let mut cpu = cpu(&[0x00]);
    assert!(cpu.has_cartridge());
    assert_eq!(cpu.pc, 0x0100);
    cpu.pc = 0x4000;
    let mut rom = vec![0u8; 32768];
    rom[0x0100] = 0x76;
    cpu.attach_cartridge(create_cartridge(rom).unwrap());
    assert_eq!(cpu.pc, 0x0100);
    assert_eq!(cpu.bus.read_byte(0x0100), Ok(0x76));
}

#[test]
fn nop_moves_on_by_one_byte_in_four_cycles() {
    let mut cpu = cpu(&[0x00]);
    assert_eq!(cpu.step(), Ok(4));
    assert_eq!(cpu.pc, 0x0101);
}

#[test]
fn push_then_pop_gives_the_word_back() {
    for (sp, value) in [(0xD000u16, 0x1234u16), (0xFFFE, 0xABCD), (0xC002, 0x0000), (0xDFFF, 0xFFFF), (0xFE10, 0x00FF)] {
        let mut cpu = cpu(&[]);
        cpu.sp = sp;
        assert_eq!(cpu.push(value), Ok(()));
        assert_eq!(cpu.sp, sp.wrapping_sub(2));
        assert_eq!(cpu.bus.read_byte(sp.wrapping_sub(1)), Ok((value >> 8) as u8));
        assert_eq!(cpu.bus.read_byte(sp.wrapping_sub(2)), Ok(value as u8));
        assert_eq!(cpu.pop(), Ok(value));
        assert_eq!(cpu.sp, sp);
    }
}

#[test]
fn the_stack_wraps_around_the_address_space() {
    let mut cpu = cpu(&[]);
    cpu.sp = 0x0000;
    // 0xFFFF is the interrupt enable register and 0xFFFE the last byte of high RAM
    assert_eq!(cpu.push(0xBEEF), Ok(()));
    assert_eq!(cpu.sp, 0xFFFE);
    assert_eq!(cpu.bus.read_byte(0xFFFF), Ok(0xBE));
    assert_eq!(cpu.bus.read_byte(0xFFFE), Ok(0xEF));
    assert_eq!(cpu.pop(), Ok(0xBEEF));
    assert_eq!(cpu.sp, 0x0000);
}

#[test]
fn a_push_into_rom_fails_where_it_stands() {
    let mut cpu = cpu(&[]);
    cpu.sp = 0x4000;
    assert_eq!(
        cpu.push(0x1234),
        Err(EmulationError::InvalidMemoryWrite { address: 0x3FFF, value: 0x12 })
    );
    assert_eq!(cpu.sp, 0x3FFF);
    // the first byte goes through, the second does not
    cpu.sp = 0x8001;
    assert_eq!(
        cpu.push(0x5678),
        Err(EmulationError::InvalidMemoryWrite { address: 0x7FFF, value: 0x78 })
    );
    assert_eq!(cpu.sp, 0x7FFF);
    assert_eq!(cpu.bus.read_byte(0x8000), Ok(0x56));
}

#[test]
fn a_pop_moves_the_stack_pointer_after_each_read_that_succeeds() {
    let mut cpu = cpu(&[]);
    cpu.sp = 0x9FFF;
    cpu.bus.write_byte(0x9FFF, 0x44).unwrap();
    assert_eq!(cpu.pop(), Err(EmulationError::InvalidMemoryRead { address: 0xA000 }));
    assert_eq!(cpu.sp, 0xA000);
    assert_eq!(cpu.pop(), Err(EmulationError::InvalidMemoryRead { address: 0xA000 }));
    assert_eq!(cpu.sp, 0xA000);
}

#[test]
fn push_and_pop_as_instructions() {
    // PUSH BC; POP DE; PUSH AF; POP HL
    let mut cpu = cpu(&[0xC5, 0xD1, 0xF5, 0xE1]);
    cpu.registers.set_bc(0x1234);
    cpu.registers.set_af(0x56FF);
    assert_eq!(cpu.step(), Ok(16));
    assert_eq!(cpu.sp, 0xFFFC);
    assert_eq!(cpu.step(), Ok(12));
    assert_eq!(cpu.registers.get_de(), 0x1234);
    assert_eq!(cpu.sp, 0xFFFE);
    assert_eq!(cpu.step(), Ok(16));
    assert_eq!(cpu.step(), Ok(12));
    assert_eq!(cpu.registers.get_hl(), 0x56F0);
    assert_eq!(cpu.pc, 0x0104);
}

#[test]
fn pop_af_drops_the_low_nibble() {
    let mut cpu = cpu(&[0xF1]);
    cpu.sp = 0xC000;
    cpu.bus.write_byte(0xC000, 0xFF).unwrap();
    cpu.bus.write_byte(0xC001, 0x12).unwrap();
    assert_eq!(cpu.step(), Ok(12));
    assert_eq!(cpu.registers.a, 0x12);
    assert_eq!(cpu.registers.f, flags(true, true, true, true));
    assert_eq!(cpu.registers.get_af(), 0x12F0);
}

#[test]
fn ei_enables_interrupts_one_instruction_late() {
    // EI; NOP; NOP
    let mut cpu = cpu(&[0xFB, 0x00, 0x00]);
    assert!(!cpu.interrupts_enabled());
    assert_eq!(cpu.step(), Ok(4));
    assert!(!cpu.interrupts_enabled());
    assert!(cpu.interrupt_enable_pending());
    assert_eq!(cpu.step(), Ok(4));
    assert!(cpu.interrupts_enabled());
    assert!(!cpu.interrupt_enable_pending());
    assert_eq!(cpu.step(), Ok(4));
    assert!(cpu.interrupts_enabled());
}

#[test]
fn ei_is_carried_out_whatever_the_next_instruction_is() {
    // EI; DI: the enable is carried out once DI is through
    let mut cpu = cpu(&[0xFB, 0xF3, 0xF3]);
    cpu.step().unwrap();
    assert!(!cpu.interrupts_enabled());
    cpu.step().unwrap();
    assert!(cpu.interrupts_enabled());
    // DI on its own disables at once
    cpu.step().unwrap();
    assert!(!cpu.interrupts_enabled());

    // EI; EI; NOP
    let mut cpu = cpu_with(&[0xFB, 0xFB, 0x00], 0);
    cpu.step().unwrap();
    assert!(!cpu.interrupts_enabled());
    cpu.step().unwrap();
    assert!(cpu.interrupts_enabled());
    assert!(cpu.interrupt_enable_pending());
    cpu.step().unwrap();
    assert!(!cpu.interrupt_enable_pending());
}

#[test]
fn a_failed_step_leaves_the_enable_pending() {
    // EI; an opcode that is no instruction
    let mut cpu = cpu(&[0xFB, 0xDD]);
    cpu.step().unwrap();
    assert_eq!(
        cpu.step(),
        Err(EmulationError::UnknownOpcode { opcode: 0xDD, is_prefixed: false })
    );
    assert!(!cpu.interrupts_enabled());
    assert!(cpu.interrupt_enable_pending());
    assert_eq!(cpu.pc, 0x0101);
}

#[test]
fn di_and_reti_act_at_once() {
    // a RETI that returns to 0x0150
    let mut cpu = cpu(&[0xD9]);
    cpu.sp = 0xC000;
    cpu.bus.write_byte(0xC000, 0x50).unwrap();
    cpu.bus.write_byte(0xC001, 0x01).unwrap();
    assert_eq!(cpu.step(), Ok(16));
    assert!(cpu.interrupts_enabled());
    assert_eq!(cpu.pc, 0x0150);
    assert_eq!(cpu.sp, 0xC002);
}

#[test]
fn bit_7_of_h_sets_zero_and_leaves_the_registers() {
    let mut cpu = cpu(&[0xCB, 0x7C, 0xCB, 0x7C]);
    cpu.registers.a = 0x12;
    cpu.registers.h = 0x80;
    cpu.registers.l = 0x34;
    cpu.registers.f = flags(true, true, false, true);
    assert_eq!(cpu.step(), Ok(8));
    assert_eq!(cpu.pc, 0x0102);
    assert_eq!(cpu.registers.f, flags(false, false, true, true));
    assert_eq!((cpu.registers.a, cpu.registers.h, cpu.registers.l), (0x12, 0x80, 0x34));
    cpu.registers.h = 0x7F;
    assert_eq!(cpu.step(), Ok(8));
    assert_eq!(cpu.registers.f, flags(true, false, true, true));
    assert_eq!((cpu.registers.a, cpu.registers.h, cpu.registers.l), (0x12, 0x7F, 0x34));
    assert_eq!(cpu.registers.get_bc(), 0);
    assert_eq!(cpu.registers.get_de(), 0);
}

#[test]
fn an_opcode_without_an_instruction_ends_the_step() {
    for opcode in [0xD3u8, 0xDB, 0xDD, 0xE3, 0xE4, 0xEB, 0xEC, 0xED, 0xF4, 0xFC, 0xFD] {
        let mut cpu = cpu(&[opcode]);
        cpu.registers.a = 7;
        assert_eq!(
            cpu.step(),
            Err(EmulationError::UnknownOpcode { opcode, is_prefixed: false })
        );
        assert_eq!(cpu.pc, 0x0100);
        assert_eq!(cpu.registers.a, 7);
    }
}

#[test]
fn a_step_without_a_cartridge_fails() {
    let mut cpu = Cpu::new();
    assert_eq!(cpu.step(), Err(EmulationError::NoRom));
    assert_eq!(cpu.pc, 0x0100);
}

#[test]
fn halt_ends_execution() {
    // HALT; INC A
    let mut cpu = cpu(&[0x76, 0x3C]);
    assert_eq!(cpu.step(), Ok(4));
    assert!(cpu.is_halted());
    assert_eq!(cpu.pc, 0x0101);
    for _ in 0..3 {
        assert_eq!(cpu.step(), Ok(1));
        assert_eq!(cpu.pc, 0x0101);
        assert_eq!(cpu.registers.a, 0);
    }
}

#[test]
fn stop_resets_the_divider() {
    // STOP; INC A
    let mut cpu = cpu(&[0x10, 0x3C]);
    cpu.run_timers(640);
    assert_eq!(cpu.bus.read_byte(0xFF04), Ok(10));
    assert_eq!(cpu.step(), Ok(4));
    assert!(cpu.is_stopped());
    assert_eq!(cpu.bus.read_byte(0xFF04), Ok(0));
    assert_eq!(cpu.pc, 0x0101);
    // the flag is all that STOP leaves behind
    assert_eq!(cpu.step(), Ok(4));
    assert_eq!(cpu.registers.a, 1);
    assert!(cpu.is_stopped());
}

#[test]
fn loads_of_immediates() {
    // LD B,0x12; LD C,0x34; LD HL,0xC123; LD (HL),0x56; LD SP,0xD000; LD A,0x9A
    let mut cpu = cpu(&[0x06, 0x12, 0x0E, 0x34, 0x21, 0x23, 0xC1, 0x36, 0x56, 0x31, 0x00, 0xD0, 0x3E, 0x9A]);
    assert_eq!(cpu.step(), Ok(8));
    assert_eq!(cpu.step(), Ok(8));
    assert_eq!(cpu.registers.get_bc(), 0x1234);
    assert_eq!(cpu.step(), Ok(12));
    assert_eq!(cpu.registers.get_hl(), 0xC123);
    assert_eq!(cpu.step(), Ok(12));
    assert_eq!(cpu.bus.read_byte(0xC123), Ok(0x56));
    assert_eq!(cpu.step(), Ok(12));
    assert_eq!(cpu.sp, 0xD000);
    assert_eq!(cpu.step(), Ok(8));
    assert_eq!(cpu.registers.a, 0x9A);
    assert_eq!(cpu.pc, 0x010E);
    assert_eq!(cpu.registers.f, FlagsRegister::new());
}

#[test]
fn loads_between_registers() {
    // LD B,A; LD D,B; LD L,D; LD A,L after LD A,0x77
    let mut cpu = cpu(&[0x3E, 0x77, 0x47, 0x50, 0x6A, 0x3E, 0x00, 0x7D]);
    cpu.step().unwrap();
    assert_eq!(cpu.step(), Ok(4));
    assert_eq!(cpu.step(), Ok(4));
    assert_eq!(cpu.step(), Ok(4));
    cpu.step().unwrap();
    assert_eq!(cpu.registers.a, 0);
    assert_eq!(cpu.step(), Ok(4));
    assert_eq!(cpu.registers.a, 0x77);
    assert_eq!((cpu.registers.b, cpu.registers.d, cpu.registers.l), (0x77, 0x77, 0x77));
}

#[test]
fn loads_through_hl_move_it() {
    // LD (HL+),A; LD (HL-),A; LD A,(HL+); LD A,(HL-)
    let mut cpu = cpu(&[0x22, 0x32, 0x2A, 0x3A]);
    cpu.registers.set_hl(0xC000);
    cpu.registers.a = 0x11;
    assert_eq!(cpu.step(), Ok(8));
    assert_eq!(cpu.registers.get_hl(), 0xC001);
    assert_eq!(cpu.bus.read_byte(0xC000), Ok(0x11));
    cpu.registers.a = 0x22;
    assert_eq!(cpu.step(), Ok(8));
    assert_eq!(cpu.registers.get_hl(), 0xC000);
    assert_eq!(cpu.bus.read_byte(0xC001), Ok(0x22));
    assert_eq!(cpu.step(), Ok(8));
    assert_eq!(cpu.registers.a, 0x11);
    assert_eq!(cpu.registers.get_hl(), 0xC001);
    assert_eq!(cpu.step(), Ok(8));
    assert_eq!(cpu.registers.a, 0x22);
    assert_eq!(cpu.registers.get_hl(), 0xC000);
}

#[test]
fn hl_wraps_when_it_moves() {
    let mut cpu = cpu(&[0x2A, 0x3A]);
    cpu.registers.set_hl(0xFFFF);
    cpu.bus.write_byte(0xFFFF, 0x0F).unwrap();
    cpu.step().unwrap();
    assert_eq!(cpu.registers.a, 0x0F);
    assert_eq!(cpu.registers.get_hl(), 0x0000);
    cpu.step().unwrap();
    assert_eq!(cpu.registers.get_hl(), 0xFFFF);
}

#[test]
fn hl_has_moved_even_where_the_access_fails() {
    // LD A,(HL+) from cartridge RAM that is not there
    let mut cpu = cpu(&[0x2A]);
    cpu.registers.set_hl(0xA000);
    assert_eq!(cpu.step(), Err(EmulationError::InvalidMemoryRead { address: 0xA000 }));
    assert_eq!(cpu.registers.get_hl(), 0xA001);
    assert_eq!(cpu.pc, 0x0100);
    // LD (HL-),A into ROM
    let mut cpu = cpu_with(&[0x32], 0);
    cpu.registers.set_hl(0x0200);
    cpu.registers.a = 9;
    assert_eq!(
        cpu.step(),
        Err(EmulationError::InvalidMemoryWrite { address: 0x0200, value: 9 })
    );
    assert_eq!(cpu.registers.get_hl(), 0x01FF);
}

#[test]
fn loads_through_the_high_page_and_absolute_addresses() {
    // LD (FF00+0x80),A; LD A,(FF00+0x80); LD (FF00+C),A; LD A,(FF00+C); LD (0xC234),A; LD A,(0xC234)
    let mut cpu = cpu(&[0xE0, 0x80, 0xF0, 0x80, 0xE2, 0xF2, 0xEA, 0x34, 0xC2, 0xFA, 0x34, 0xC2]);
    cpu.registers.a = 0x5A;
    assert_eq!(cpu.step(), Ok(12));
    assert_eq!(cpu.bus.read_byte(0xFF80), Ok(0x5A));
    cpu.registers.a = 0;
    assert_eq!(cpu.step(), Ok(12));
    assert_eq!(cpu.registers.a, 0x5A);
    cpu.registers.c = 0x90;
    cpu.registers.a = 0x6B;
    assert_eq!(cpu.step(), Ok(8));
    assert_eq!(cpu.bus.read_byte(0xFF90), Ok(0x6B));
    cpu.registers.a = 0;
    assert_eq!(cpu.step(), Ok(8));
    assert_eq!(cpu.registers.a, 0x6B);
    assert_eq!(cpu.step(), Ok(16));
    assert_eq!(cpu.bus.read_byte(0xC234), Ok(0x6B));
    cpu.registers.a = 0;
    assert_eq!(cpu.step(), Ok(16));
    assert_eq!(cpu.registers.a, 0x6B);
    assert_eq!(cpu.pc, 0x010C);
}

#[test]
fn loads_of_words() {
    // LD (0xC100),SP; LD SP,HL; LD HL,SP+i8
    let mut cpu = cpu(&[0x08, 0x00, 0xC1, 0xF9, 0xF8, 0xFE]);
    cpu.sp = 0xABCD;
    assert_eq!(cpu.step(), Ok(20));
    assert_eq!(cpu.bus.read_byte(0xC100), Ok(0xCD));
    assert_eq!(cpu.bus.read_byte(0xC101), Ok(0xAB));
    cpu.registers.set_hl(0xD123);
    assert_eq!(cpu.step(), Ok(8));
    assert_eq!(cpu.sp, 0xD123);
    // the offset reads as 8 whatever the byte says, and no flag changes
    cpu.registers.f = flags(true, true, true, true);
    assert_eq!(cpu.step(), Ok(12));
    assert_eq!(cpu.registers.get_hl(), 0xD12B);
    assert_eq!(cpu.registers.f, flags(true, true, true, true));
    assert_eq!(cpu.pc, 0x0106);
}

#[test]
fn arithmetic_on_the_accumulator() {
    // ADD A,B; ADC A,C; SUB D; SBC A,E; AND H; XOR L; OR B; CP C
    let mut cpu = cpu(&[0x80, 0x89, 0x92, 0x9B, 0xA4, 0xAD, 0xB0, 0xB9]);
    cpu.registers.a = 0xF0;
    cpu.registers.b = 0x20;
    cpu.registers.c = 0x0F;
    cpu.registers.d = 0x01;
    cpu.registers.e = 0x1E;
    cpu.registers.h = 0xF3;
    cpu.registers.l = 0xF0;
    assert_eq!(cpu.step(), Ok(4));
    assert_eq!(cpu.registers.a, 0x10);
    assert_eq!(cpu.registers.f, flags(false, false, false, true));
    cpu.step().unwrap();
    assert_eq!(cpu.registers.a, 0x20);
    assert_eq!(cpu.registers.f, flags(false, false, false, false));
    cpu.step().unwrap();
    assert_eq!(cpu.registers.a, 0x1F);
    assert_eq!(cpu.registers.f, flags(false, true, true, false));
    cpu.step().unwrap();
    assert_eq!(cpu.registers.a, 0x01);
    assert_eq!(cpu.registers.f, flags(false, true, false, false));
    cpu.step().unwrap();
    assert_eq!(cpu.registers.a, 0x01);
    assert_eq!(cpu.registers.f, flags(false, false, true, false));
    cpu.step().unwrap();
    assert_eq!(cpu.registers.a, 0xF1);
    assert_eq!(cpu.registers.f, flags(false, false, false, false));
    cpu.step().unwrap();
    assert_eq!(cpu.registers.a, 0xF1);
    cpu.registers.a = 0x0F;
    cpu.step().unwrap();
    assert_eq!(cpu.registers.a, 0x0F);
    assert_eq!(cpu.registers.f, flags(true, true, false, false));
    assert_eq!(cpu.pc, 0x0108);
}

#[test]
fn arithmetic_on_memory_and_immediates() {
    // ADD A,(HL); ADD A,0x05; SUB 0x10; CP 0x20; XOR 0xFF
    let mut cpu = cpu(&[0x86, 0xC6, 0x05, 0xD6, 0x10, 0xFE, 0x20, 0xEE, 0xFF]);
    cpu.registers.set_hl(0xC000);
    cpu.bus.write_byte(0xC000, 0x30).unwrap();
    assert_eq!(cpu.step(), Ok(8));
    assert_eq!(cpu.registers.a, 0x30);
    assert_eq!(cpu.step(), Ok(8));
    assert_eq!(cpu.registers.a, 0x35);
    assert_eq!(cpu.step(), Ok(8));
    assert_eq!(cpu.registers.a, 0x25);
    assert_eq!(cpu.step(), Ok(8));
    assert_eq!(cpu.registers.a, 0x25);
    assert_eq!(cpu.registers.f, flags(false, true, false, false));
    assert_eq!(cpu.step(), Ok(8));
    assert_eq!(cpu.registers.a, 0xDA);
    assert_eq!(cpu.pc, 0x0109);
}

#[test]
fn the_add_helper_sets_the_flags_and_gives_the_sum() {
    let mut cpu = cpu(&[]);
    cpu.registers.a = 0xFF;
    assert_eq!(cpu.add(0x01), 0x00);
    assert_eq!(cpu.registers.f, flags(true, false, true, true));
    assert_eq!(cpu.registers.a, 0xFF);
}

#[test]
fn increments_and_decrements() {
    // INC B; DEC C; INC (HL); DEC (HL); INC DE; DEC HL; INC SP
    let mut cpu = cpu(&[0x04, 0x0D, 0x34, 0x35, 0x13, 0x2B, 0x33]);
    cpu.registers.b = 0x0F;
    cpu.registers.c = 0x01;
    cpu.registers.set_hl(0xC000);
    cpu.registers.f = flags(false, true, false, true);
    assert_eq!(cpu.step(), Ok(4));
    assert_eq!(cpu.registers.b, 0x10);
    assert_eq!(cpu.registers.f, flags(false, false, true, true));
    assert_eq!(cpu.step(), Ok(4));
    assert_eq!(cpu.registers.c, 0x00);
    assert_eq!(cpu.registers.f, flags(true, true, false, true));
    cpu.bus.write_byte(0xC000, 0xFF).unwrap();
    assert_eq!(cpu.step(), Ok(12));
    assert_eq!(cpu.bus.read_byte(0xC000), Ok(0x00));
    assert_eq!(cpu.registers.f, flags(true, false, true, true));
    assert_eq!(cpu.step(), Ok(12));
    assert_eq!(cpu.bus.read_byte(0xC000), Ok(0xFF));
    assert_eq!(cpu.registers.f, flags(false, true, true, true));
    let before = cpu.registers.f;
    cpu.registers.set_de(0xFFFF);
    assert_eq!(cpu.step(), Ok(8));
    assert_eq!(cpu.registers.get_de(), 0x0000);
    assert_eq!(cpu.step(), Ok(8));
    assert_eq!(cpu.registers.get_hl(), 0xBFFF);
    cpu.sp = 0xFFFF;
    assert_eq!(cpu.step(), Ok(8));
    assert_eq!(cpu.sp, 0x0000);
    assert_eq!(cpu.registers.f, before);
}

#[test]
fn opcode_03_increments_the_pair_bc() {
    let mut cpu = cpu(&[0x03, 0x03]);
    cpu.registers.set_bc(0xC0FF);
    cpu.bus.write_byte(0xC0FF, 0x41).unwrap();
    cpu.registers.f = flags(true, true, true, true);
    assert_eq!(cpu.step(), Ok(8));
    assert_eq!(cpu.registers.get_bc(), 0xC100);
    assert_eq!(cpu.bus.read_byte(0xC0FF), Ok(0x41));
    assert_eq!(cpu.registers.f, flags(true, true, true, true));
    cpu.registers.set_bc(0xFFFF);
    assert_eq!(cpu.step(), Ok(8));
    assert_eq!(cpu.registers.get_bc(), 0x0000);
}

#[test]
fn opcode_4a_loads_c_from_d() {
    // LD C,D; LD C,(HL); LD A,(HL)
    let mut cpu = cpu(&[0x4A, 0x4E, 0x7E]);
    cpu.registers.d = 0x5D;
    cpu.registers.a = 0x11;
    cpu.registers.set_hl(0xC000);
    cpu.bus.write_byte(0xC000, 0x77).unwrap();
    assert_eq!(cpu.step(), Ok(4));
    assert_eq!(cpu.registers.c, 0x5D);
    assert_eq!(cpu.registers.a, 0x11);
    assert_eq!(cpu.registers.get_hl(), 0xC000);
    assert_eq!(cpu.step(), Ok(8));
    assert_eq!(cpu.registers.c, 0x77);
    assert_eq!(cpu.step(), Ok(8));
    assert_eq!(cpu.registers.a, 0x77);
}

#[test]
fn add_of_words() {
    // ADD HL,BC; ADD HL,HL; ADD HL,SP
    let mut cpu = cpu(&[0x09, 0x29, 0x39]);
    cpu.registers.set_hl(0x8A23);
    cpu.registers.set_bc(0x0605);
    cpu.registers.f = flags(true, true, false, false);
    assert_eq!(cpu.step(), Ok(8));
    assert_eq!(cpu.registers.get_hl(), 0x9028);
    assert_eq!(cpu.registers.f, flags(true, false, false, false));
    assert_eq!(cpu.step(), Ok(8));
    assert_eq!(cpu.registers.get_hl(), 0x2050);
    assert_eq!(cpu.registers.f, flags(true, false, true, true));
    cpu.sp = 0x0001;
    assert_eq!(cpu.step(), Ok(8));
    assert_eq!(cpu.registers.get_hl(), 0x2051);
    assert_eq!(cpu.registers.f, flags(true, false, false, false));
}

#[test]
fn rotates_of_the_accumulator_set_zero_from_the_result() {
    // RLCA; RRCA; RLA; RRA
    let mut cpu = cpu(&[0x07, 0x0F, 0x17, 0x1F, 0x17]);
    cpu.registers.a = 0x85;
    assert_eq!(cpu.step(), Ok(4));
    assert_eq!(cpu.registers.a, 0x0B);
    assert_eq!(cpu.registers.f, flags(false, false, false, true));
    assert_eq!(cpu.step(), Ok(4));
    assert_eq!(cpu.registers.a, 0x85);
    assert_eq!(cpu.registers.f, flags(false, false, false, true));
    assert_eq!(cpu.step(), Ok(4));
    assert_eq!(cpu.registers.a, 0x0B);
    assert_eq!(cpu.registers.f, flags(false, false, false, true));
    assert_eq!(cpu.step(), Ok(4));
    assert_eq!(cpu.registers.a, 0x85);
    assert_eq!(cpu.registers.f, flags(false, false, false, true));
    cpu.registers.a = 0x80;
    cpu.registers.f = flags(false, false, false, false);
    assert_eq!(cpu.step(), Ok(4));
    assert_eq!(cpu.registers.a, 0x00);
    assert_eq!(cpu.registers.f, flags(true, false, false, true));
}

#[test]
fn prefixed_rotates_and_shifts() {
    // RLC B; RRC C; RL D; RR E; SLA H; SRA L; SRL A; RL (HL)
    let mut cpu = cpu(&[
        0xCB, 0x00, 0xCB, 0x09, 0xCB, 0x12, 0xCB, 0x1B, 0xCB, 0x24, 0xCB, 0x2D, 0xCB, 0x3F, 0xCB,
        0x16,
    ]);
    cpu.registers.b = 0x80;
    cpu.registers.c = 0x01;
    cpu.registers.d = 0x40;
    cpu.registers.e = 0x02;
    cpu.registers.h = 0xC0;
    cpu.registers.l = 0x81;
    cpu.registers.a = 0x01;
    assert_eq!(cpu.step(), Ok(8));
    assert_eq!(cpu.registers.b, 0x01);
    assert!(cpu.registers.f.carry);
    assert_eq!(cpu.step(), Ok(8));
    assert_eq!(cpu.registers.c, 0x80);
    assert!(cpu.registers.f.carry);
    assert_eq!(cpu.step(), Ok(8));
    assert_eq!(cpu.registers.d, 0x81);
    assert!(!cpu.registers.f.carry);
    assert_eq!(cpu.step(), Ok(8));
    assert_eq!(cpu.registers.e, 0x01);
    assert!(!cpu.registers.f.carry);
    assert_eq!(cpu.step(), Ok(8));
    assert_eq!(cpu.registers.h, 0x80);
    assert!(cpu.registers.f.carry);
    assert_eq!(cpu.step(), Ok(8));
    assert_eq!(cpu.registers.l, 0xC0);
    assert!(cpu.registers.f.carry);
    assert_eq!(cpu.step(), Ok(8));
    assert_eq!(cpu.registers.a, 0x00);
    assert_eq!(cpu.registers.f, flags(true, false, false, true));
    cpu.registers.set_hl(0xC000);
    cpu.bus.write_byte(0xC000, 0x7F).unwrap();
    assert_eq!(cpu.step(), Ok(16));
    assert_eq!(cpu.bus.read_byte(0xC000), Ok(0xFF));
    assert_eq!(cpu.registers.f, flags(false, false, false, false));
    assert_eq!(cpu.pc, 0x0110);
}

#[test]
fn swap_exchanges_the_nibbles() {
    // SWAP B; SWAP C; SWAP (HL); SWAP A
    let mut cpu = cpu(&[0xCB, 0x30, 0xCB, 0x31, 0xCB, 0x36, 0xCB, 0x37]);
    cpu.registers.b = 0xA5;
    cpu.registers.c = 0x00;
    cpu.registers.a = 0xF1;
    cpu.registers.f = flags(true, true, true, true);
    assert_eq!(cpu.step(), Ok(8));
    assert_eq!(cpu.registers.b, 0x5A);
    assert_eq!(cpu.registers.f, flags(false, false, false, false));
    cpu.registers.f = flags(false, true, true, true);
    assert_eq!(cpu.step(), Ok(8));
    assert_eq!(cpu.registers.c, 0x00);
    assert_eq!(cpu.registers.f, flags(true, false, false, false));
    cpu.registers.set_hl(0xC000);
    cpu.bus.write_byte(0xC000, 0x12).unwrap();
    assert_eq!(cpu.step(), Ok(16));
    assert_eq!(cpu.bus.read_byte(0xC000), Ok(0x21));
    assert_eq!(cpu.step(), Ok(8));
    assert_eq!(cpu.registers.a, 0x1F);
    assert_eq!(cpu.pc, 0x0108);
}

#[test]
fn swap_of_every_byte() {
    for value in 0..=255u8 {
        let mut cpu = cpu(&[0xCB, 0x32]);
        cpu.registers.d = value;
        cpu.registers.f = flags(true, true, true, true);
        assert_eq!(cpu.step(), Ok(8));
        assert_eq!(cpu.registers.d, (value << 4) | (value >> 4));
        assert_eq!(cpu.registers.f, flags(value == 0, false, false, false));
    }
}

#[test]
fn a_swap_that_cannot_store_fails() {
    // SWAP (HL) with HL in ROM
    let mut cpu = cpu(&[0xCB, 0x36]);
    cpu.registers.set_hl(0x0100);
    cpu.registers.f = flags(false, true, true, true);
    assert_eq!(
        cpu.step(),
        Err(EmulationError::InvalidMemoryWrite { address: 0x0100, value: 0xBC })
    );
    assert_eq!(cpu.registers.f, flags(false, true, true, true));
    assert_eq!(cpu.pc, 0x0100);
}

#[test]
fn bits_are_tested_cleared_and_set() {
    // BIT 0,B; RES 0,B; SET 7,B; BIT 1,(HL); RES 7,(HL); SET 0,(HL)
    let mut cpu = cpu(&[0xCB, 0x40, 0xCB, 0x80, 0xCB, 0xF8, 0xCB, 0x4E, 0xCB, 0xBE, 0xCB, 0xC6]);
    cpu.registers.b = 0x01;
    cpu.registers.f = flags(true, true, false, true);
    assert_eq!(cpu.step(), Ok(8));
    assert_eq!(cpu.registers.f, flags(false, false, true, true));
    let kept = cpu.registers.f;
    assert_eq!(cpu.step(), Ok(8));
    assert_eq!(cpu.registers.b, 0x00);
    assert_eq!(cpu.step(), Ok(8));
    assert_eq!(cpu.registers.b, 0x80);
    assert_eq!(cpu.registers.f, kept);
    cpu.registers.set_hl(0xC000);
    cpu.bus.write_byte(0xC000, 0xFD).unwrap();
    assert_eq!(cpu.step(), Ok(12));
    assert!(cpu.registers.f.zero);
    assert_eq!(cpu.step(), Ok(16));
    assert_eq!(cpu.bus.read_byte(0xC000), Ok(0x7D));
    cpu.bus.write_byte(0xC000, 0x7C).unwrap();
    assert_eq!(cpu.step(), Ok(16));
    assert_eq!(cpu.bus.read_byte(0xC000), Ok(0x7D));
}

#[test]
fn bit_1_and_res_7_of_l() {
    // BIT 1,L; RES 7,L
    let mut cpu = cpu(&[0xCB, 0x4D, 0xCB, 0xBD, 0xCB, 0x4D]);
    cpu.registers.h = 0x00;
    cpu.registers.l = 0x82;
    cpu.step().unwrap();
    assert!(!cpu.registers.f.zero);
    cpu.step().unwrap();
    assert_eq!(cpu.registers.l, 0x02);
    assert_eq!(cpu.registers.h, 0x00);
    cpu.registers.h = 0xFF;
    cpu.registers.l = 0xFD;
    cpu.step().unwrap();
    assert!(cpu.registers.f.zero);
}

#[test]
fn the_flag_instructions_as_opcodes() {
    // SCF; CCF; CCF; CPL; DAA
    let mut cpu = cpu(&[0x37, 0x3F, 0x3F, 0x2F, 0x27]);
    cpu.registers.f = flags(true, true, true, false);
    assert_eq!(cpu.step(), Ok(4));
    assert_eq!(cpu.registers.f, flags(true, false, false, true));
    assert_eq!(cpu.step(), Ok(4));
    assert_eq!(cpu.registers.f, flags(true, false, false, false));
    assert_eq!(cpu.step(), Ok(4));
    assert_eq!(cpu.registers.f, flags(true, false, false, true));
    cpu.registers.a = 0x0F;
    assert_eq!(cpu.step(), Ok(4));
    assert_eq!(cpu.registers.a, 0xF0);
    assert_eq!(cpu.registers.f, flags(true, true, true, true));
    cpu.registers.a = 0x3C;
    cpu.registers.f = flags(false, false, false, false);
    assert_eq!(cpu.step(), Ok(4));
    assert_eq!(cpu.registers.a, 0x42);
    assert_eq!(cpu.registers.f, flags(false, false, false, false));
}

#[test]
fn absolute_jumps() {
    // JP 0x0200
    let mut cpu = cpu(&[0xC3, 0x00, 0x02]);
    assert_eq!(cpu.step(), Ok(16));
    assert_eq!(cpu.pc, 0x0200);
    // JP NZ,0x0300 with zero set and clear
    let mut cpu = cpu_with(&[0xC2, 0x00, 0x03, 0xC2, 0x00, 0x03], 0);
    cpu.registers.f.zero = true;
    assert_eq!(cpu.step(), Ok(12));
    assert_eq!(cpu.pc, 0x0103);
    cpu.registers.f.zero = false;
    assert_eq!(cpu.step(), Ok(16));
    assert_eq!(cpu.pc, 0x0300);
    // JP Z, JP NC, JP C
    let mut cpu = cpu_with(&[0xCA, 0x10, 0x02, 0xD2, 0x20, 0x02, 0xDA, 0x30, 0x02], 0);
    cpu.registers.f = flags(false, false, false, true);
    assert_eq!(cpu.step(), Ok(12));
    assert_eq!(cpu.step(), Ok(12));
    assert_eq!(cpu.step(), Ok(16));
    assert_eq!(cpu.pc, 0x0230);
    // JP HL
    let mut cpu = cpu_with(&[0xE9], 0);
    cpu.registers.set_hl(0x4567);
    assert_eq!(cpu.step(), Ok(4));
    assert_eq!(cpu.pc, 0x4567);
}

#[test]
fn relative_jumps_count_from_the_next_instruction() {
    // JR +5
    let mut cpu = cpu(&[0x18, 0x05]);
    assert_eq!(cpu.step(), Ok(12));
    assert_eq!(cpu.pc, 0x0107);
    // JR -2 jumps to itself
    let mut cpu = cpu_with(&[0x18, 0xFE], 0);
    assert_eq!(cpu.step(), Ok(12));
    assert_eq!(cpu.pc, 0x0100);
    // JR -128
    let mut cpu = cpu_with(&[0x18, 0x80], 0);
    assert_eq!(cpu.step(), Ok(12));
    assert_eq!(cpu.pc, 0x0082);
    // JR NZ taken and not taken, JR C
    let mut cpu = cpu_with(&[0x20, 0x02, 0x20, 0x02, 0x00, 0x00, 0x38, 0x10], 0);
    cpu.registers.f.zero = true;
    assert_eq!(cpu.step(), Ok(8));
    assert_eq!(cpu.pc, 0x0102);
    cpu.registers.f.zero = false;
    assert_eq!(cpu.step(), Ok(12));
    assert_eq!(cpu.pc, 0x0106);
    cpu.registers.f.carry = true;
    assert_eq!(cpu.step(), Ok(12));
    assert_eq!(cpu.pc, 0x0118);
}

#[test]
fn calls_and_returns() {
    // CALL 0x0200 at 0x0100; RET at 0x0200
    let mut rom_program = vec![0u8; 0x0101];
    rom_program[0] = 0xCD;
    rom_program[1] = 0x00;
    rom_program[2] = 0x02;
    rom_program[0x0100] = 0xC9;
    let mut cpu = cpu(&rom_program);
    cpu.sp = 0xD000;
    assert_eq!(cpu.step(), Ok(24));
    assert_eq!(cpu.pc, 0x0200);
    assert_eq!(cpu.sp, 0xCFFE);
    assert_eq!(cpu.bus.read_byte(0xCFFF), Ok(0x01));
    assert_eq!(cpu.bus.read_byte(0xCFFE), Ok(0x03));
    assert_eq!(cpu.step(), Ok(16));
    assert_eq!(cpu.pc, 0x0103);
    assert_eq!(cpu.sp, 0xD000);
}

#[test]
fn conditional_calls_and_returns_cost_more_when_taken() {
    // CALL NZ,0x0200; CALL Z,0x0200
    let mut program = vec![0u8; 0x0102];
    program[..6].copy_from_slice(&[0xC4, 0x00, 0x02, 0xCC, 0x00, 0x02]);
    // at 0x0200: RET C; RET NC
    program[0x0100] = 0xD8;
    program[0x0101] = 0xD0;
    let mut cpu = cpu(&program);
    cpu.sp = 0xD000;
    cpu.registers.f.zero = true;
    assert_eq!(cpu.step(), Ok(12));
    assert_eq!(cpu.pc, 0x0103);
    assert_eq!(cpu.sp, 0xD000);
    assert_eq!(cpu.step(), Ok(24));
    assert_eq!(cpu.pc, 0x0200);
    assert_eq!(cpu.sp, 0xCFFE);
    // a return that is not taken goes on one byte
    assert_eq!(cpu.step(), Ok(8));
    assert_eq!(cpu.pc, 0x0201);
    assert_eq!(cpu.sp, 0xCFFE);
    assert_eq!(cpu.step(), Ok(20));
    assert_eq!(cpu.pc, 0x0106);
    assert_eq!(cpu.sp, 0xD000);
}

#[test]
fn restarts_call_their_fixed_addresses() {
    for (opcode, vector) in [
        (0xC7u8, 0x00u16),
        (0xCF, 0x08),
        (0xD7, 0x10),
        (0xDF, 0x18),
        (0xE7, 0x20),
        (0xEF, 0x28),
        (0xF7, 0x30),
        (0xFF, 0x38),
    ] {
        let mut cpu = cpu(&[opcode]);
        cpu.sp = 0xD000;
        assert_eq!(cpu.step(), Ok(16));
        assert_eq!(cpu.pc, vector);
        assert_eq!(cpu.pop(), Ok(0x0101));
    }
}

#[test]
fn the_processor_can_be_looked_at() {
    let mut cpu = cpu(&[0x3E, 0x42, 0x31, 0x00, 0xD0]);
    cpu.step().unwrap();
    cpu.step().unwrap();
    assert_eq!(cpu.pc(), 0x0105);
    assert_eq!(cpu.sp(), 0xD000);
    assert_eq!(cpu.registers().a, 0x42);
    assert_eq!(cpu.registers(), cpu.registers);
    assert_eq!(cpu.bus().read_byte(0x0100), Ok(0x3E));
    assert!(cpu.bus().has_cartridge());
}

#[test]
fn a_word_that_was_stored_reads_back() {
    for value in [0x0000u16, 0x1234, 0x00FF, 0xFF00, 0xABCD, 0xFFFF] {
        for target in [
            WordTarget::Registers(RR::BC),
            WordTarget::Registers(RR::DE),
            WordTarget::Registers(RR::HL),
            WordTarget::SP,
            WordTarget::Direct,
        ] {
            // the word after the opcode is 0xC100
            let mut cpu = cpu(&[0x00, 0x00, 0xC1]);
            assert_eq!(cpu.set_word_target_value(&target, value), Ok(()));
            assert_eq!(cpu.get_word_target_value(&target), Ok(value));
        }
    }
    // at the end of the address space the high byte wraps to 0x0000, which is ROM
    let mut cpu = cpu(&[0x00, 0xFF, 0xFF]);
    assert_eq!(
        cpu.set_word_target_value(&WordTarget::Direct, 0x1234),
        Err(EmulationError::InvalidMemoryWrite { address: 0x0000, value: 0x12 })
    );
    assert_eq!(cpu.bus.read_byte(0xFFFF), Ok(0x34));
}

#[test]
fn jump_tests_read_the_flags() {
    let mut cpu = cpu(&[]);
    cpu.registers.f = flags(true, false, false, false);
    assert!(cpu.perform_jump_test(&JumpTest::Zero));
    assert!(!cpu.perform_jump_test(&JumpTest::NotZero));
    assert!(cpu.perform_jump_test(&JumpTest::NotCarry));
    assert!(!cpu.perform_jump_test(&JumpTest::Carry));
    assert!(cpu.perform_jump_test(&JumpTest::Always));
    cpu.registers.f = flags(false, false, false, true);
    assert!(!cpu.perform_jump_test(&JumpTest::Zero));
    assert!(cpu.perform_jump_test(&JumpTest::NotZero));
    assert!(!cpu.perform_jump_test(&JumpTest::NotCarry));
    assert!(cpu.perform_jump_test(&JumpTest::Carry));
}

#[test]
fn registers_by_name() {
    let mut cpu = cpu(&[]);
    for (i, r) in [R::A, R::B, R::C, R::D, R::E, R::H, R::L].iter().enumerate() {
        cpu.set_r_value(r, 0x10 + i as u8);
    }
    assert_eq!(cpu.registers.a, 0x10);
    assert_eq!(cpu.registers.b, 0x11);
    assert_eq!(cpu.registers.c, 0x12);
    assert_eq!(cpu.registers.d, 0x13);
    assert_eq!(cpu.registers.e, 0x14);
    assert_eq!(cpu.registers.h, 0x15);
    assert_eq!(cpu.registers.l, 0x16);
    assert_eq!(cpu.get_r_value(&R::D), 0x13);
    cpu.set_r_value(&R::F, 0xFF);
    assert_eq!(cpu.get_r_value(&R::F), 0xF0);
    assert_eq!(cpu.get_rr_value(&RR::BC), 0x1112);
    assert_eq!(cpu.get_rr_value(&RR::DE), 0x1314);
    assert_eq!(cpu.get_rr_value(&RR::HL), 0x1516);
    assert_eq!(cpu.get_rr_value(&RR::AF), 0x10F0);
    cpu.set_rr_value(&RR::DE, 0xCAFE);
    assert_eq!((cpu.registers.d, cpu.registers.e), (0xCA, 0xFE));
    cpu.set_rr_value(&RR::AF, 0x1234);
    assert_eq!(cpu.get_rr_value(&RR::AF), 0x1230);
}

#[test]
fn operands_are_found_where_they_live() {
    let mut cpu = cpu(&[0x00, 0x90, 0xC2]);
    cpu.bus.write_byte(0xC290, 0x99).unwrap();
    cpu.bus.write_byte(0xFF90, 0x77).unwrap();
    cpu.registers.set_bc(0xC290);
    assert_eq!(cpu.read_next_byte(), Ok(0x90));
    assert_eq!(cpu.read_next_word(), Ok(0xC290));
    assert_eq!(cpu.get_byte_source_value(&ByteSource::Immediate8), Ok(0x90));
    assert_eq!(cpu.get_byte_source_value(&ByteSource::Direct), Ok(0x99));
    assert_eq!(cpu.get_byte_source_value(&ByteSource::Registers(RR::BC)), Ok(0x99));
    assert_eq!(cpu.get_byte_source_value(&ByteSource::FF00PlusU8), Ok(0x77));
    assert_eq!(cpu.get_byte_source_value(&ByteSource::Register(R::B)), Ok(0xC2));
    // the immediate target lives at the address after the opcode
    assert_eq!(cpu.get_byte_target_value(&ByteTarget::Immediate8), Ok(0x99));
    assert_eq!(cpu.get_byte_target_value(&ByteTarget::Direct), Ok(0x99));
    assert_eq!(cpu.set_byte_target_value(&ByteTarget::Immediate8, 0x55), Ok(()));
    assert_eq!(cpu.bus.read_byte(0xC290), Ok(0x55));
    cpu.registers.c = 0x90;
    assert_eq!(cpu.get_byte_target_value(&ByteTarget::FF00PlusC), Ok(0x77));
    assert_eq!(cpu.set_byte_target_value(&ByteTarget::FF00PlusU8, 0x66), Ok(()));
    assert_eq!(cpu.get_byte_source_value(&ByteSource::FF00PlusC), Ok(0x66));
    // reading a target through HL does not move HL
    cpu.registers.set_hl(0xC290);
    assert_eq!(cpu.get_byte_target_value(&ByteTarget::HLI), Ok(0x55));
    assert_eq!(cpu.get_byte_target_value(&ByteTarget::HLD), Ok(0x55));
    assert_eq!(cpu.registers.get_hl(), 0xC290);
}

#[test]
fn word_operands() {
    let mut cpu = cpu(&[0x00, 0x00, 0xC1]);
    cpu.sp = 0xFFF8;
    cpu.registers.set_de(0x1234);
    assert_eq!(cpu.get_word_source_value(&WordSource::Registers(RR::DE)), Ok(0x1234));
    assert_eq!(cpu.get_word_source_value(&WordSource::Immediate16), Ok(0xC100));
    assert_eq!(cpu.get_word_source_value(&WordSource::SP), Ok(0xFFF8));
    assert_eq!(cpu.get_word_source_value(&WordSource::SpPlusI8), Ok(0x0000));
    assert_eq!(cpu.get_word_target_value(&WordTarget::SP), Ok(0xFFF8));
    assert_eq!(cpu.get_word_target_value(&WordTarget::Registers(RR::DE)), Ok(0x1234));
    assert_eq!(cpu.set_word_target_value(&WordTarget::Direct, 0xABCD), Ok(()));
    assert_eq!(cpu.bus.read_byte(0xC100), Ok(0xCD));
    assert_eq!(cpu.bus.read_byte(0xC101), Ok(0xAB));
    assert_eq!(cpu.get_word_target_value(&WordTarget::Direct), Ok(0xABCD));
    assert_eq!(cpu.set_word_target_value(&WordTarget::SP, 0x8000), Ok(()));
    assert_eq!(cpu.sp, 0x8000);
    assert_eq!(cpu.set_word_target_value(&WordTarget::Registers(RR::HL), 0x4321), Ok(()));
    assert_eq!(cpu.registers.get_hl(), 0x4321);
}

#[test]
fn instructions_can_be_executed_by_hand() {
    let mut cpu = cpu(&[]);
    cpu.registers.a = 0x3A;
    cpu.registers.b = 0xC6;
    let add = Instruction::Add(ByteSource::Register(R::B), Data::new(1, 4, None, 0x80));
    assert_eq!(cpu.execute(&add), Ok((0x0101, 4)));
    assert_eq!(cpu.registers.a, 0x00);
    assert_eq!(cpu.registers.f, flags(true, false, true, true));
    // the program counter is the caller's to move
    assert_eq!(cpu.pc, 0x0100);
    let jump = Instruction::Jp(
        JumpTest::Carry,
        WordSource::Registers(RR::HL),
        Data::new(1, 4, Some(9), 0xE9),
    );
    cpu.registers.set_hl(0x1000);
    assert_eq!(cpu.execute(&jump), Ok((0x1000, 9)));
    cpu.registers.f.carry = false;
    assert_eq!(cpu.execute(&jump), Ok((0x0101, 4)));
    let ret = Instruction::Ret(JumpTest::Always, Data::new(1, 16, Some(16), 0xC9));
    cpu.sp = 0xC000;
    cpu.bus.write_byte(0xC000, 0x34).unwrap();
    cpu.bus.write_byte(0xC001, 0x12).unwrap();
    assert_eq!(cpu.ret(false), Ok(0x0101));
    assert_eq!(cpu.execute(&ret), Ok((0x1234, 16)));
    // the program counter wraps
    cpu.pc = 0xFFFF;
    let nop = Instruction::NoOp(Data::new(1, 4, None, 0x00));
    assert_eq!(cpu.execute(&nop), Ok((0x0000, 4)));
}

#[test]
fn a_call_pushes_before_it_reads_where_to_go() {
    // the program counter sits at the end of work RAM's neighbour: the target bytes are not
    // readable, but the return address is on the stack by then
    let mut cpu = cpu(&[]);
    cpu.pc = 0x9FFD;
    cpu.sp = 0xD000;
    cpu.bus.write_byte(0x9FFD, 0xCD).unwrap();
    cpu.bus.write_byte(0x9FFE, 0x00).unwrap();
    cpu.bus.write_byte(0x9FFF, 0x02).unwrap();
    assert_eq!(cpu.step(), Ok(24));
    assert_eq!(cpu.pc, 0x0200);
    cpu.pc = 0x9FFE;
    cpu.sp = 0xD000;
    cpu.bus.write_byte(0x9FFE, 0xCD).unwrap();
    assert_eq!(cpu.step(), Err(EmulationError::InvalidMemoryRead { address: 0xA000 }));
    assert_eq!(cpu.sp, 0xCFFE);
    assert_eq!(cpu.pc, 0x9FFE);
    assert_eq!(cpu.pop(), Ok(0xA001));
}
