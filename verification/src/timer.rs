// The divider and the timer counter.

use crate::interrupt::InterruptRegister;
use vstd::prelude::*;
use vstd::std_specs::convert::FromSpecImpl;

verus! {

/// The timer registers, together with the two interrupt registers.
#[derive(Clone, Copy, Debug, PartialEq, Eq)]
pub struct Timers {
    /// FF04 - DIV - Divider Register (R/W)
    pub divider_register: u8,
    /// FF05 - TIMA - Timer counter (R/W)
    pub timer_counter: u8,
    /// FF06 - TMA - Timer Modulo (R/W)
    pub timer_modulo: u8,
    /// FF07 - TAC - Timer Control (R/W)
    pub timer_control: TimerControl,
    /// FF0F - IF - Interrupt Flag (R/W)
    pub interrupt_flag_register: InterruptRegister,
    /// FFFF - IE - Interrupt Enable (R/W), kept as the byte that was written
    pub interrupt_enable_register: u8,
    /// Cycle counter in t-cycles
    pub cycle_count: u16,
}

/// The timer control register: whether the counter runs, and how fast.
#[derive(Clone, Copy, Debug, PartialEq, Eq)]
pub struct TimerControl {
    pub enable: bool,
    pub speed: CpuSpeed,
}

/// How many cycles pass between two steps of the timer counter.
#[derive(Clone, Copy, Debug, PartialEq, Eq)]
pub enum CpuSpeed {
    Clock1024,
    Clock16,
    Clock64,
    Clock256,
}

impl CpuSpeed {
    /// The number of cycles in the name.
    pub open spec fn cycles(self) -> u16 {
        match self {
            CpuSpeed::Clock1024 => 1024,
            CpuSpeed::Clock16 => 16,
            CpuSpeed::Clock64 => 64,
            CpuSpeed::Clock256 => 256,
        }
    }

    /// The two bits that select the speed in the control register.
    pub open spec fn code(self) -> u8 {
        match self {
            CpuSpeed::Clock1024 => 0,
            CpuSpeed::Clock16 => 1,
            CpuSpeed::Clock64 => 2,
            CpuSpeed::Clock256 => 3,
        }
    }

    /// The speed that the two bits `code` select.
    pub open spec fn of_code(code: int) -> CpuSpeed {
        if code == 0 {
            CpuSpeed::Clock1024
        } else if code == 1 {
            CpuSpeed::Clock16
        } else if code == 2 {
            CpuSpeed::Clock64
        } else {
            CpuSpeed::Clock256
        }
    }

    /// The cycles between two steps of the counter.
    pub fn to_u16(&self) -> (cycles: u16)
        ensures
            cycles == self.cycles(),
    {
        match *self {
            CpuSpeed::Clock1024 => 1024,
            CpuSpeed::Clock16 => 16,
            CpuSpeed::Clock256 => 256,
            CpuSpeed::Clock64 => 64,
        }
    }
}

impl TimerControl {
    /// A stopped counter at the slowest speed.
    pub fn new() -> (control: TimerControl)
        ensures
            control == TimerControl::of_byte(0),
    {
        TimerControl::from(0)
    }

    /// The control register as a byte: the speed in bits 0 and 1, the enable bit worth 4.
    pub open spec fn to_byte(self) -> u8 {
        ((if self.enable { 4int } else { 0 }) + self.speed.code()) as u8
    }

    /// The control register that a byte holds in its bits 0 to 2.
    pub open spec fn of_byte(byte: u8) -> TimerControl {
        TimerControl { enable: byte / 4 % 2 == 1, speed: CpuSpeed::of_code(byte as int % 4) }
    }
}

impl From<TimerControl> for u8 {
    fn from(timer: TimerControl) -> (byte: u8) {
        let enable: u8 = if timer.enable { 1 } else { 0 };
        let speed: u8 = match timer.speed {
            CpuSpeed::Clock1024 => 0b00,
            CpuSpeed::Clock16 => 0b01,
            CpuSpeed::Clock64 => 0b10,
            CpuSpeed::Clock256 => 0b11,
        };
        let byte: u8 = (enable << 2) | speed;
        assert(byte == 4 * enable + speed) by (bit_vector)
            requires
                byte == (enable << 2u8) | speed,
                enable <= 1,
                speed <= 3,
        ;
        byte
    }
}

impl FromSpecImpl<TimerControl> for u8 {
    open spec fn obeys_from_spec() -> bool {
        true
    }

    open spec fn from_spec(timer: TimerControl) -> u8 {
        timer.to_byte()
    }
}

impl From<u8> for TimerControl {
    fn from(byte: u8) -> (control: TimerControl) {
        let enable: u8 = (byte & 0b00000100) >> 2;
        let enable: bool = if enable != 0 { true } else { false };
        let speed: u8 = byte & 0b00000011;
        assert((((byte & 4) >> 2u8) != 0) == (byte / 4 % 2 == 1) && (byte & 3) == byte % 4)
            by (bit_vector);
        let speed: CpuSpeed = match speed {
            0b00 => CpuSpeed::Clock1024,
            0b01 => CpuSpeed::Clock16,
            0b10 => CpuSpeed::Clock64,
            _ => CpuSpeed::Clock256,
        };
        TimerControl { enable, speed }
    }
}

impl FromSpecImpl<u8> for TimerControl {
    open spec fn obeys_from_spec() -> bool {
        true
    }

    open spec fn from_spec(byte: u8) -> TimerControl {
        TimerControl::of_byte(byte)
    }
}

/// The number of times that a counter which steps every `period` cycles has stepped while
/// the cycle count went from `before` to `after`, taken modulo 65536.
pub open spec fn steps_between(before: u16, after: u16, period: u16) -> int {
    (after as int / period as int - before as int / period as int) % 0x1_0000
}

impl Timers {
    /// All registers at zero.
    pub fn new() -> (timers: Timers)
        ensures
            timers == (Timers {
                divider_register: 0,
                timer_counter: 0,
                timer_modulo: 0,
                timer_control: TimerControl::of_byte(0),
                interrupt_flag_register: InterruptRegister::of_byte(0),
                interrupt_enable_register: 0,
                cycle_count: 0,
            }),
    {
        Timers {
            divider_register: 0,
            timer_counter: 0,
            timer_modulo: 0,
            timer_control: TimerControl::from(0),
            interrupt_flag_register: InterruptRegister::from(0),
            interrupt_enable_register: 0,
            cycle_count: 0,
        }
    }

    /// The registers after `cycles` more cycles.
    ///
    /// The cycle count wraps at 65536. The divider steps every 64 cycles and wraps at 256. The
    /// timer counter, while enabled, steps at the speed of the control register; when it
    /// passes 255 it restarts from the timer modulo.
    pub open spec fn after(self, cycles: u16) -> Timers {
        let count = ((self.cycle_count + cycles) % 0x1_0000) as u16;
        let divider_steps = steps_between(self.cycle_count, count, 64) % 256;
        let counter_steps = steps_between(
            self.cycle_count,
            count,
            self.timer_control.speed.cycles(),
        ) % 256;
        Timers {
            cycle_count: count,
            divider_register: ((self.divider_register + divider_steps) % 256) as u8,
            timer_counter: if !self.timer_control.enable {
                self.timer_counter
            } else if self.timer_counter + counter_steps > 255 {
                self.timer_modulo
            } else {
                (self.timer_counter + counter_steps) as u8
            },
            ..self
        }
    }

    /// Advances the timers by the cycles that an instruction took.
    #[verifier::rlimit(40)]
    pub fn run(&mut self, cycles: u16)
        ensures
            *final(self) == old(self).after(cycles),
    {
        let old_cycle_count: u16 = self.cycle_count;
        self.cycle_count = self.cycle_count.wrapping_add(cycles);

        let diff: u16 = (self.cycle_count / 64).wrapping_sub(old_cycle_count / 64);
        self.divider_register = self.divider_register.wrapping_add((diff % 256) as u8);

        // Check if the timer is enabled
        if self.timer_control.enable {
            let frequency: u16 = self.timer_control.speed.to_u16();
            assert(frequency == 1024 || frequency == 16 || frequency == 64 || frequency == 256);
            let diff: u16 = (self.cycle_count / frequency).wrapping_sub(
                old_cycle_count / frequency,
            );
            let step: u8 = (diff % 256) as u8;
            if step > 255 - self.timer_counter {
                self.timer_counter = self.timer_modulo;
            } else {
                self.timer_counter = self.timer_counter + step;
            }
        }
    }
}

} // verus!
