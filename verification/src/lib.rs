// An emulator of the processor, the memory and the cartridges of a handheld game console.
// Every function is verified against a statement of what it computes; the statements are
// the `spec` functions over the views of the types.

use vstd::prelude::*;

pub mod alu;
pub mod bits;
pub mod cartridge;
pub mod config;
pub mod cpu;
pub mod cpu_registers;
pub mod error;
pub mod gpu;
pub mod instruction;
pub mod interrupt;
pub mod memory_bus;
pub mod timer;

use crate::cartridge::{create_cartridge, lemma_loaded_cartridge_wf, load_cartridge};
use crate::cpu::{Cpu, CpuView};
use crate::error::EmulationError;

verus! {

/// One session of the emulator: the processor with everything that it owns, and the cycles
/// that have passed.
pub struct GameBoy {
    pub cpu: Cpu,
    pub cycle: u32,
}

/// What a [`GameBoy`] holds, as plain values.
pub ghost struct GameBoyView {
    pub cpu: CpuView,
    pub cycle: u32,
}

impl View for GameBoy {
    type V = GameBoyView;

    open spec fn view(&self) -> GameBoyView {
        GameBoyView { cpu: self.cpu@, cycle: self.cycle }
    }
}

impl GameBoyView {
    /// The processor is well formed.
    pub open spec fn wf(self) -> bool {
        self.cpu.wf()
    }

    /// A session before anything was loaded.
    pub open spec fn initial() -> GameBoyView {
        GameBoyView { cpu: CpuView::initial(), cycle: 0 }
    }

    /// What loading a ROM image does. An image that makes a cartridge has it attached, and
    /// the processor waits at the entry point; an image that makes none changes nothing.
    pub open spec fn load_rom(self, rom: Seq<u8>) -> (GameBoyView, Result<(), EmulationError>) {
        match load_cartridge(rom) {
            Err(error) => (self, Err(error)),
            Ok(cartridge) => (GameBoyView { cpu: self.cpu.with_cartridge(cartridge), ..self }, Ok(())),
        }
    }

    /// What one step of the session does. The processor steps. Where that fails, the session
    /// fails with the same error and counts nothing. Where it succeeds, the cycles are added
    /// to the count, which wraps at 2^32, and the timers advance by them.
    pub open spec fn step(self) -> (GameBoyView, Result<(), EmulationError>) {
        let (cpu, result) = self.cpu.step();
        match result {
            Err(error) => (GameBoyView { cpu, ..self }, Err(error)),
            Ok(cycles) => (
                GameBoyView {
                    cpu: cpu.with_timers_after((cycles % 0x1_0000) as u16),
                    cycle: ((self.cycle + cycles) % 0x1_0000_0000) as u32,
                },
                Ok(()),
            ),
        }
    }

    /// A session is well formed from the start, and loading and stepping keep it so,
    /// whether they succeed or not.
    pub proof fn lemma_session_stays_wf(self, rom: Seq<u8>)
        ensures
            GameBoyView::initial().wf(),
            self.wf() ==> self.load_rom(rom).0.wf(),
            self.wf() ==> self.step().0.wf(),
    {
        let fresh = CpuView::initial();
        fresh.lemma_setup_keeps_wf(fresh.bus.cartridge->0, 0);
        if self.wf() {
            lemma_loaded_cartridge_wf(rom);
            match load_cartridge(rom) {
                Ok(cartridge) => {
                    self.cpu.lemma_setup_keeps_wf(cartridge, 0);
                },
                Err(_) => {},
            }
            self.cpu.lemma_step_keeps_wf();
            let (cpu, result) = self.cpu.step();
            match result {
                Ok(cycles) => {
                    cpu.lemma_setup_keeps_wf(fresh.bus.cartridge->0, (cycles % 0x1_0000) as u16);
                },
                Err(_) => {},
            }
        }
    }
}

impl GameBoy {
    /// A session before anything was loaded.
    pub fn new() -> (game_boy: GameBoy)
        ensures
            game_boy@ == GameBoyView::initial(),
            game_boy@.wf(),
    {
        proof {
            GameBoyView::initial().lemma_session_stays_wf(Seq::empty());
        }
        GameBoy { cpu: Cpu::new(), cycle: 0 }
    }

    /// Builds the cartridge of a ROM image and attaches it.
    pub fn load_rom(&mut self, rom: Vec<u8>) -> (result: Result<(), EmulationError>)
        ensures
            final(self)@ == old(self)@.load_rom(rom@).0,
            result == old(self)@.load_rom(rom@).1,
            old(self)@.wf() ==> final(self)@.wf(),
    {
        proof {
            self@.lemma_session_stays_wf(rom@);
        }
        let cartridge = create_cartridge(rom)?;
        self.cpu.attach_cartridge(cartridge);

        Ok(())
    }

    /// Runs one instruction.
    pub fn step(&mut self) -> (result: Result<(), EmulationError>)
        ensures
            final(self)@ == old(self)@.step().0,
            result == old(self)@.step().1,
            old(self)@.wf() ==> final(self)@.wf(),
    {
        proof {
            self@.lemma_session_stays_wf(Seq::empty());
        }
        let cycles: u32 = self.cpu.step()?;

        self.cycle = self.cycle.wrapping_add(cycles);
        self.cpu.run_timers((cycles % 0x1_0000) as u16);
        Ok(())
    }

    /// Whether a ROM was loaded.
    pub fn has_rom_loaded(&self) -> (loaded: bool)
        ensures
            loaded == self@.cpu.bus.cartridge is Some,
    {
        self.cpu.has_cartridge()
    }
}

} // verus!
