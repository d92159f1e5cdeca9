// The bus: every address of the sixteen-bit address space has one owner, and every access
// goes to it.

use crate::cartridge::{
    Cartridge, CartridgeView, EXTERNAL_RAM_END, EXTERNAL_RAM_START, ROM_BANK_0_START,
    ROM_BANK_N_END,
};
use crate::error::EmulationError;
use crate::gpu::{Gpu, GpuView, OAM_BEGIN, OAM_END, VRAM_BEGIN, VRAM_END};
use crate::interrupt::InterruptRegister;
use crate::timer::{TimerControl, Timers};
use vstd::prelude::*;

verus! {

pub const WORK_RAM_0_START: usize = 0xC000;

pub const WORK_RAM_0_END: usize = 0xCFFF;

pub const WORK_RAM_0_SIZE: usize = WORK_RAM_0_END - WORK_RAM_0_START + 1;

pub const WORK_RAM_N_START: usize = 0xD000;

pub const WORK_RAM_N_END: usize = 0xDFFF;

pub const WORK_RAM_N_SIZE: usize = WORK_RAM_N_END - WORK_RAM_N_START + 1;

pub const ECHO_RAM_START: usize = 0xE000;

pub const ECHO_RAM_END: usize = 0xFDFF;

pub const ECHO_RAM_SIZE: usize = ECHO_RAM_END - ECHO_RAM_START + 1;

pub const UNUSABLE_START: usize = 0xFEA0;

pub const UNUSABLE_END: usize = 0xFEFF;

pub const IO_REGISTERS_START: usize = 0xFF00;

pub const IO_REGISTERS_END: usize = 0xFF7F;

pub const IO_REGISTERS_SIZE: usize = IO_REGISTERS_END - IO_REGISTERS_START + 1;

pub const HIGH_RAM_START: usize = 0xFF80;

pub const HIGH_RAM_END: usize = 0xFFFE;

pub const HIGH_RAM_SIZE: usize = HIGH_RAM_END - HIGH_RAM_START + 1;

pub const INTERRUPT_ENABLE_REGISTER: usize = 0xFFFF;

pub const INTERRUPT_FLAG_REGISTER: usize = 0xFF0F;

// Serial port
pub const SERIAL_DATA_REGISTER: usize = 0xFF01;

pub const SERIAL_CONTROL_REGISTER: usize = 0xFF02;

/// The value that starts a serial transfer when it is written to the control register.
pub const SERIAL_TRANSFER_START: u8 = 0x81;

// Timers
pub const DIVIDER_REGISTER: usize = 0xFF04;

pub const TIMER_COUNTER_REGISTER: usize = 0xFF05;

pub const TIMER_MODULO_REGISTER: usize = 0xFF06;

pub const TIMER_CONTROL_REGISTER: usize = 0xFF07;

/// The owner of an address. The sixteen-bit address space falls into these ranges, which do
/// not overlap and leave nothing out.
#[derive(Clone, Copy, Debug, PartialEq, Eq)]
pub enum Region {
    /// 0x0000 to 0x7FFF: the ROM of the cartridge.
    Rom,
    /// 0x8000 to 0x9FFF: video RAM.
    VideoRam,
    /// 0xA000 to 0xBFFF: the RAM of the cartridge.
    ExternalRam,
    /// 0xC000 to 0xCFFF: the first bank of work RAM.
    WorkRam0,
    /// 0xD000 to 0xDFFF: the second bank of work RAM.
    WorkRam1,
    /// 0xE000 to 0xFDFF: off limits; reads give 0 and writes do nothing.
    EchoRam,
    /// 0xFE00 to 0xFE9F: object attribute memory.
    Oam,
    /// 0xFEA0 to 0xFEFF: unusable; reads give 0 and writes do nothing.
    Unusable,
    /// 0xFF00 to 0xFF7F: the input and output registers.
    IoRegisters,
    /// 0xFF80 to 0xFFFE: high RAM.
    HighRam,
    /// 0xFFFF: the interrupt enable register.
    InterruptEnable,
}

/// The owner of `address`.
pub open spec fn region_of(address: u16) -> Region {
    if address <= ROM_BANK_N_END {
        Region::Rom
    } else if address <= VRAM_END {
        Region::VideoRam
    } else if address <= EXTERNAL_RAM_END {
        Region::ExternalRam
    } else if address <= WORK_RAM_0_END {
        Region::WorkRam0
    } else if address <= WORK_RAM_N_END {
        Region::WorkRam1
    } else if address <= ECHO_RAM_END {
        Region::EchoRam
    } else if address <= OAM_END {
        Region::Oam
    } else if address <= UNUSABLE_END {
        Region::Unusable
    } else if address <= IO_REGISTERS_END {
        Region::IoRegisters
    } else if address <= HIGH_RAM_END {
        Region::HighRam
    } else {
        Region::InterruptEnable
    }
}

/// Finds the owner of `address`.
pub fn region(address: u16) -> (region: Region)
    ensures
        region == region_of(address),
{
    let address: usize = address as usize;
    if address <= ROM_BANK_N_END {
        Region::Rom
    } else if address <= VRAM_END {
        Region::VideoRam
    } else if address <= EXTERNAL_RAM_END {
        Region::ExternalRam
    } else if address <= WORK_RAM_0_END {
        Region::WorkRam0
    } else if address <= WORK_RAM_N_END {
        Region::WorkRam1
    } else if address <= ECHO_RAM_END {
        Region::EchoRam
    } else if address <= OAM_END {
        Region::Oam
    } else if address <= UNUSABLE_END {
        Region::Unusable
    } else if address <= IO_REGISTERS_END {
        Region::IoRegisters
    } else if address <= HIGH_RAM_END {
        Region::HighRam
    } else {
        Region::InterruptEnable
    }
}

/// Everything behind the bus.
pub struct MemoryBus {
    gpu: Gpu,
    cartridge: Option<Cartridge>,
    work_ram_0: [u8; WORK_RAM_0_SIZE],
    work_ram_1: [u8; WORK_RAM_N_SIZE],
    high_ram: [u8; HIGH_RAM_SIZE],
    timers: Timers,
    serial_data: u8,
    serial_debug: u8,
}

/// What a [`MemoryBus`] holds, as plain values.
pub ghost struct BusView {
    /// The cartridge, once one is attached.
    pub cartridge: Option<CartridgeView>,
    /// Video RAM, object attribute memory and the decoded tiles.
    pub gpu: GpuView,
    /// The first bank of work RAM.
    pub work_ram_0: Seq<u8>,
    /// The second bank of work RAM.
    pub work_ram_1: Seq<u8>,
    /// High RAM.
    pub high_ram: Seq<u8>,
    /// The timer registers and the two interrupt registers.
    pub timers: Timers,
    /// The serial data register.
    pub serial_data: u8,
    /// The serial data byte as it stood when a transfer was last started.
    pub serial_debug: u8,
}

impl BusView {
    /// Every memory has its size, and the cartridge and the video memory are well formed.
    pub open spec fn wf(self) -> bool {
        &&& self.cartridge matches Some(cartridge) ==> cartridge.wf()
        &&& self.gpu.wf()
        &&& self.work_ram_0.len() == WORK_RAM_0_SIZE
        &&& self.work_ram_1.len() == WORK_RAM_N_SIZE
        &&& self.high_ram.len() == HIGH_RAM_SIZE
    }

    /// A bus without a cartridge, with every memory and every register at zero.
    pub open spec fn initial() -> BusView {
        BusView {
            cartridge: None,
            gpu: GpuView::initial(),
            work_ram_0: Seq::new(WORK_RAM_0_SIZE as nat, |i: int| 0u8),
            work_ram_1: Seq::new(WORK_RAM_N_SIZE as nat, |i: int| 0u8),
            high_ram: Seq::new(HIGH_RAM_SIZE as nat, |i: int| 0u8),
            timers: Timers {
                divider_register: 0,
                timer_counter: 0,
                timer_modulo: 0,
                timer_control: TimerControl::of_byte(0),
                interrupt_flag_register: InterruptRegister::of_byte(0),
                interrupt_enable_register: 0,
                cycle_count: 0,
            },
            serial_data: 0,
            serial_debug: 0,
        }
    }

    /// What a read of the input or output register at `address` gives. The serial data
    /// register, the four timer registers and the interrupt flags answer; every other
    /// register reads as 0.
    pub open spec fn read_io(self, address: int) -> u8 {
        if address == SERIAL_DATA_REGISTER {
            self.serial_data
        } else if address == DIVIDER_REGISTER {
            self.timers.divider_register
        } else if address == TIMER_COUNTER_REGISTER {
            self.timers.timer_counter
        } else if address == TIMER_MODULO_REGISTER {
            self.timers.timer_modulo
        } else if address == TIMER_CONTROL_REGISTER {
            self.timers.timer_control.to_byte()
        } else if address == INTERRUPT_FLAG_REGISTER {
            self.timers.interrupt_flag_register.to_byte()
        } else {
            0
        }
    }

    /// The bus after `value` was written to the input or output register at `address`.
    /// Whatever is written to the divider sets it to 0. Writing the start pattern to the
    /// serial control register copies the serial data byte to the debug byte. A register that
    /// does not answer reads ignores writes.
    pub open spec fn write_io(self, address: int, value: u8) -> BusView {
        if address == SERIAL_DATA_REGISTER {
            BusView { serial_data: value, ..self }
        } else if address == SERIAL_CONTROL_REGISTER {
            if value == SERIAL_TRANSFER_START {
                BusView { serial_debug: self.serial_data, ..self }
            } else {
                self
            }
        } else if address == DIVIDER_REGISTER {
            BusView { timers: Timers { divider_register: 0, ..self.timers }, ..self }
        } else if address == TIMER_COUNTER_REGISTER {
            BusView { timers: Timers { timer_counter: value, ..self.timers }, ..self }
        } else if address == TIMER_MODULO_REGISTER {
            BusView { timers: Timers { timer_modulo: value, ..self.timers }, ..self }
        } else if address == TIMER_CONTROL_REGISTER {
            BusView {
                timers: Timers { timer_control: TimerControl::of_byte(value), ..self.timers },
                ..self
            }
        } else if address == INTERRUPT_FLAG_REGISTER {
            BusView {
                timers: Timers {
                    interrupt_flag_register: InterruptRegister::of_byte(value),
                    ..self.timers
                },
                ..self
            }
        } else {
            self
        }
    }

    /// What a read of `address` gives. Without a cartridge every read fails with `NoRom`.
    /// With one, the owner of the address answers; only the cartridge can fail.
    #[verifier::opaque]
    pub open spec fn read(self, address: u16) -> Result<u8, EmulationError> {
        match self.cartridge {
            None => Err(EmulationError::NoRom),
            Some(cartridge) => match region_of(address) {
                Region::Rom => cartridge.read_rom(address as int),
                Region::VideoRam => Ok(self.gpu.read_vram(address as int)),
                Region::ExternalRam => cartridge.read_external_ram(address as int),
                Region::WorkRam0 => Ok(self.work_ram_0[address - WORK_RAM_0_START]),
                Region::WorkRam1 => Ok(self.work_ram_1[address - WORK_RAM_N_START]),
                Region::EchoRam => Ok(0),
                Region::Oam => Ok(self.gpu.read_oam(address as int)),
                Region::Unusable => Ok(0),
                Region::IoRegisters => Ok(self.read_io(address as int)),
                Region::HighRam => Ok(self.high_ram[address - HIGH_RAM_START]),
                Region::InterruptEnable => Ok(self.timers.interrupt_enable_register),
            },
        }
    }

    /// The bus after a write of `value` to `address`, and how the write ended. Without a
    /// cartridge every write fails with `NoRom`. With one, the owner of the address takes the
    /// value; only the cartridge can fail. A failed write changes nothing.
    #[verifier::opaque]
    pub open spec fn write(self, address: u16, value: u8) -> (BusView, Result<(), EmulationError>) {
        match self.cartridge {
            None => (self, Err(EmulationError::NoRom)),
            Some(cartridge) => match region_of(address) {
                Region::Rom => (
                    BusView {
                        cartridge: Some(cartridge.write_rom(address as int, value).0),
                        ..self
                    },
                    cartridge.write_rom(address as int, value).1,
                ),
                Region::VideoRam => (
                    BusView { gpu: self.gpu.write_vram(address as int, value), ..self },
                    Ok(()),
                ),
                Region::ExternalRam => (
                    BusView {
                        cartridge: Some(cartridge.write_external_ram(address as int, value).0),
                        ..self
                    },
                    cartridge.write_external_ram(address as int, value).1,
                ),
                Region::WorkRam0 => (
                    BusView {
                        work_ram_0: self.work_ram_0.update(address - WORK_RAM_0_START, value),
                        ..self
                    },
                    Ok(()),
                ),
                Region::WorkRam1 => (
                    BusView {
                        work_ram_1: self.work_ram_1.update(address - WORK_RAM_N_START, value),
                        ..self
                    },
                    Ok(()),
                ),
                Region::EchoRam => (self, Ok(())),
                Region::Oam => (
                    BusView { gpu: self.gpu.write_oam(address as int, value), ..self },
                    Ok(()),
                ),
                Region::Unusable => (self, Ok(())),
                Region::IoRegisters => (self.write_io(address as int, value), Ok(())),
                Region::HighRam => (
                    BusView {
                        high_ram: self.high_ram.update(address - HIGH_RAM_START, value),
                        ..self
                    },
                    Ok(()),
                ),
                Region::InterruptEnable => (
                    BusView {
                        timers: Timers { interrupt_enable_register: value, ..self.timers },
                        ..self
                    },
                    Ok(()),
                ),
            },
        }
    }

    /// The bus with the divider register back at 0.
    pub open spec fn with_divider_reset(self) -> BusView {
        BusView { timers: Timers { divider_register: 0, ..self.timers }, ..self }
    }

    /// Whether `address` keeps what is written to it: the RAMs, object attribute memory, the
    /// interrupt enable register, and the serial data, timer counter and timer modulo
    /// registers. Cartridge RAM counts where the cartridge has any.
    pub open spec fn keeps(self, address: u16) -> bool {
        self.cartridge matches Some(cartridge) && match region_of(address) {
            Region::VideoRam => true,
            Region::ExternalRam => cartridge.ram is Some,
            Region::WorkRam0 => true,
            Region::WorkRam1 => true,
            Region::Oam => true,
            Region::HighRam => true,
            Region::InterruptEnable => true,
            Region::IoRegisters => address == SERIAL_DATA_REGISTER || address
                == TIMER_COUNTER_REGISTER || address == TIMER_MODULO_REGISTER,
            _ => false,
        }
    }

    /// A fresh bus is well formed.
    pub proof fn lemma_initial_wf()
        ensures
            BusView::initial().wf(),
    {
        GpuView::lemma_initial_wf();
    }

    /// Writes keep the bus well formed.
    pub proof fn lemma_write_keeps_wf(self, address: u16, value: u8)
        requires
            self.wf(),
        ensures
            self.write(address, value).0.wf(),
    {
        reveal(BusView::write);
        self.gpu.lemma_writes_keep_wf(address as int, value);
    }

    /// An address that keeps what is written to it takes every write and reads back the value.
    pub proof fn lemma_write_then_read(self, address: u16, value: u8)
        requires
            self.wf(),
            self.keeps(address),
        ensures
            self.write(address, value).1 is Ok,
            self.write(address, value).0.read(address) == Ok::<u8, EmulationError>(value),
            self.write(address, value).0.keeps(address),
    {
        reveal(BusView::read);
        reveal(BusView::write);
    }

    /// A write leaves what every other address reads as it was, whether the write succeeds
    /// or not.
    pub proof fn lemma_write_leaves_others(self, address: u16, value: u8, other: u16)
        requires
            self.wf(),
            other != address,
        ensures
            self.write(address, value).0.read(other) == self.read(other),
            self.write(address, value).0.keeps(other) == self.keeps(other),
    {
        reveal(BusView::read);
        reveal(BusView::write);
        if self.cartridge is Some {
            assert(self.write(address, value).0.read(other) == self.read(other));
        }
    }

    /// The routing of the address space, at its seams. Once a cartridge is attached:
    /// the first and the last byte of video RAM take a write and read it back, and the write
    /// reaches neither the first byte of cartridge RAM nor the first byte of object attribute
    /// memory; echo RAM reads as 0 whatever was written, to it or elsewhere;
    /// and the interrupt enable register reads back the last value written to it.
    pub proof fn lemma_address_routing(self, address: u16, value: u8)
        requires
            self.wf(),
            self.cartridge is Some,
        ensures
            address == 0x8000 || address == 0x9FFF ==> {
                let after = self.write(address, value);
                &&& after.1 is Ok
                &&& after.0.read(address) == Ok::<u8, EmulationError>(value)
                &&& after.0.read(0xA000) == self.read(0xA000)
                &&& after.0.read(0xFE00) == self.read(0xFE00)
            },
            0xE000 <= address <= 0xFDFF ==> {
                &&& self.read(address) == Ok::<u8, EmulationError>(0)
                &&& self.write(address, value).1 is Ok
                &&& self.write(address, value).0 == self
            },
            self.write(0xFFFF, value).1 is Ok,
            self.write(0xFFFF, value).0.read(0xFFFF) == Ok::<u8, EmulationError>(value),
    {
        reveal(BusView::read);
        reveal(BusView::write);
    }
}

impl View for MemoryBus {
    type V = BusView;

    closed spec fn view(&self) -> BusView {
        BusView {
            cartridge: match self.cartridge {
                Some(cartridge) => Some(cartridge@),
                None => None,
            },
            gpu: self.gpu@,
            work_ram_0: self.work_ram_0@,
            work_ram_1: self.work_ram_1@,
            high_ram: self.high_ram@,
            timers: self.timers,
            serial_data: self.serial_data,
            serial_debug: self.serial_debug,
        }
    }
}

impl MemoryBus {
    /// A bus with nothing attached and everything at zero.
    pub fn new() -> (bus: MemoryBus)
        ensures
            bus@ == BusView::initial(),
            bus@.wf(),
    {
        proof {
            BusView::lemma_initial_wf();
        }
        let bus = MemoryBus {
            gpu: Gpu::new(),
            cartridge: None,
            work_ram_0: [0;WORK_RAM_0_SIZE],
            work_ram_1: [0;WORK_RAM_N_SIZE],
            high_ram: [0;HIGH_RAM_SIZE],
            timers: Timers::new(),
            serial_data: 0,
            serial_debug: 0,
        };
        proof {
            assert(bus@.work_ram_0 =~= BusView::initial().work_ram_0);
            assert(bus@.work_ram_1 =~= BusView::initial().work_ram_1);
            assert(bus@.high_ram =~= BusView::initial().high_ram);
        }
        bus
    }

    /// Attaches a cartridge; one that was attached before is dropped.
    pub fn attach_cartridge(&mut self, cartridge: Cartridge)
        ensures
            final(self)@ == (BusView { cartridge: Some(cartridge@), ..old(self)@ }),
            old(self)@.wf() && cartridge@.wf() ==> final(self)@.wf(),
    {
        self.cartridge = Some(cartridge);
    }

    /// Whether a cartridge is attached.
    pub fn has_cartridge(&self) -> (attached: bool)
        ensures
            attached == self@.cartridge is Some,
    {
        self.cartridge.is_some()
    }

    /// The serial data byte as it stood when a transfer was last started.
    pub fn serial_debug(&self) -> (byte: u8)
        ensures
            byte == self@.serial_debug,
    {
        self.serial_debug
    }

    /// The timer registers and the two interrupt registers.
    pub fn timers(&self) -> (timers: Timers)
        ensures
            timers == self@.timers,
    {
        self.timers
    }

    /// Reads the byte at `address` from its owner.
    pub fn read_byte(&self, address: u16) -> (result: Result<u8, EmulationError>)
        ensures
            result == self@.read(address),
    {
        reveal(BusView::read);
        let cartridge: &Cartridge = match &self.cartridge {
            Some(cartridge) => cartridge,
            None => {
                return Err(EmulationError::NoRom);
            },
        };
        let owner: Region = region(address);
        let address: usize = address as usize;
        match owner {
            Region::Rom => cartridge.read_byte_rom(address),
            Region::VideoRam => self.gpu.read_byte_vram(address),
            Region::ExternalRam => cartridge.read_byte_external_ram(address),
            Region::WorkRam0 => {
                let pos: usize = address - WORK_RAM_0_START;
                Ok(self.work_ram_0[pos])
            },
            Region::WorkRam1 => {
                let pos: usize = address - WORK_RAM_N_START;
                Ok(self.work_ram_1[pos])
            },
            Region::EchoRam => {
                // this area is off limits by design
                Ok(0)
            },
            Region::Oam => self.gpu.read_byte_oam(address),
            Region::Unusable => Ok(0),
            Region::IoRegisters => {
                if address == SERIAL_DATA_REGISTER {
                    Ok(self.serial_data)
                } else if address == DIVIDER_REGISTER {
                    Ok(self.timers.divider_register)
                } else if address == TIMER_COUNTER_REGISTER {
                    Ok(self.timers.timer_counter)
                } else if address == TIMER_MODULO_REGISTER {
                    Ok(self.timers.timer_modulo)
                } else if address == TIMER_CONTROL_REGISTER {
                    Ok(u8::from(self.timers.timer_control))
                } else if address == INTERRUPT_FLAG_REGISTER {
                    Ok(u8::from(self.timers.interrupt_flag_register))
                } else {
                    // the other registers are not emulated
                    Ok(0)
                }
            },
            Region::HighRam => {
                let pos: usize = address - HIGH_RAM_START;
                Ok(self.high_ram[pos])
            },
            Region::InterruptEnable => Ok(self.timers.interrupt_enable_register),
        }
    }

    /// Writes `value` to the owner of `address`.
    pub fn write_byte(&mut self, address: u16, value: u8) -> (result: Result<(), EmulationError>)
        ensures
            final(self)@ == old(self)@.write(address, value).0,
            result == old(self)@.write(address, value).1,
            old(self)@.wf() ==> final(self)@.wf(),
    {
        reveal(BusView::write);
        proof {
            if self@.wf() {
                self@.lemma_write_keeps_wf(address, value);
            }
        }
        if self.cartridge.is_none() {
            return Err(EmulationError::NoRom);
        }
        let owner: Region = region(address);
        let address: usize = address as usize;
        match owner {
            Region::Rom => match &mut self.cartridge {
                Some(cartridge) => cartridge.write_byte_rom(address, value),
                None => Err(EmulationError::NoRom),
            },
            Region::VideoRam => self.gpu.write_byte_vram(address, value),
            Region::ExternalRam => match &mut self.cartridge {
                Some(cartridge) => cartridge.write_byte_external_ram(address, value),
                None => Err(EmulationError::NoRom),
            },
            Region::WorkRam0 => {
                let pos: usize = address - WORK_RAM_0_START;
                self.work_ram_0[pos] = value;
                Ok(())
            },
            Region::WorkRam1 => {
                let pos: usize = address - WORK_RAM_N_START;
                self.work_ram_1[pos] = value;
                Ok(())
            },
            Region::EchoRam => {
                // this area is off limits by design
                Ok(())
            },
            Region::Oam => self.gpu.write_byte_oam(address, value),
            Region::Unusable => Ok(()),
            Region::IoRegisters => {
                if address == SERIAL_DATA_REGISTER {
                    self.serial_data = value;
                } else if address == SERIAL_CONTROL_REGISTER {
                    if value == SERIAL_TRANSFER_START {
                        self.serial_debug = self.serial_data;
                    }
                } else if address == DIVIDER_REGISTER {
                    // Writing any value to this register resets it to $00
                    self.reset_divider_register();
                } else if address == TIMER_COUNTER_REGISTER {
                    self.timers.timer_counter = value;
                } else if address == TIMER_MODULO_REGISTER {
                    self.timers.timer_modulo = value;
                } else if address == TIMER_CONTROL_REGISTER {
                    self.timers.timer_control = TimerControl::from(value);
                } else if address == INTERRUPT_FLAG_REGISTER {
                    self.timers.interrupt_flag_register = InterruptRegister::from(value);
                }
                Ok(())
            },
            Region::HighRam => {
                let pos: usize = address - HIGH_RAM_START;
                self.high_ram[pos] = value;
                Ok(())
            },
            Region::InterruptEnable => {
                self.timers.interrupt_enable_register = value;
                Ok(())
            },
        }
    }

    /// Puts the divider register back at 0.
    pub fn reset_divider_register(&mut self)
        ensures
            final(self)@ == old(self)@.with_divider_reset(),
            old(self)@.wf() ==> final(self)@.wf(),
    {
        self.timers.divider_register = 0;
    }

    /// Advances the timers by the cycles that an instruction took.
    pub fn run_timers(&mut self, cycles: u16)
        ensures
            final(self)@ == (BusView { timers: old(self)@.timers.after(cycles), ..old(self)@ }),
            old(self)@.wf() ==> final(self)@.wf(),
    {
        self.timers.run(cycles);
    }
}

} // verus!
