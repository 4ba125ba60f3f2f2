//! The timer: the divider DIV, and the counter TIMA with its modulo TMA and
//! its control TAC.
//!
//! ```text
//! TAC  bit 2     timer enable
//!      bits 1-0  input clock: 00 4096 Hz, 01 262144 Hz, 10 65536 Hz, 11 16384 Hz
//! ```

use vstd::prelude::*;
use crate::hardware::bit_operations;
use crate::hardware::interrupt;
use crate::hardware::interrupt::Flag as InterruptFlag;
use crate::hardware::memory::Memory;
use crate::hardware::memory::MemoryView;
use crate::hardware::memory_map;

verus! {

/// Machine cycles between two steps of DIV (16384 Hz)
pub const DIV_THRESHOLD: usize = 256;

/// Machine cycles between two steps of TIMA at 4096 Hz
pub const CLOCK0_CYCLES: isize = 1024;

/// Machine cycles between two steps of TIMA at 262144 Hz
pub const CLOCK1_CYCLES: isize = 16;

/// Machine cycles between two steps of TIMA at 65536 Hz
pub const CLOCK2_CYCLES: isize = 64;

/// Machine cycles between two steps of TIMA at 16384 Hz
pub const CLOCK3_CYCLES: isize = 256;

#[derive(Clone, Copy, Debug)]
pub struct Timer {
    /// Cycles counted towards the next step of DIV
    pub divider_accumulated_cycles: usize,
    /// Cycles left until the next step of TIMA
    pub accumulated_cycles: isize,
    /// The clock selector that the countdown was last set for
    pub frequency: u8,
}

/// The clock selector in TAC.
pub open spec fn selector(control: u8) -> u8 {
    control % 4
}

/// Cycles between two steps of TIMA for a clock selector.
pub open spec fn period(selector: u8) -> isize {
    if selector == 0 {
        CLOCK0_CYCLES
    } else if selector == 1 {
        CLOCK1_CYCLES
    } else if selector == 2 {
        CLOCK2_CYCLES
    } else {
        CLOCK3_CYCLES
    }
}

/// The bus after one step of TIMA: the counter goes up by one, or from 0xFF
/// to the modulo in TMA with a request of the timer interrupt.
pub open spec fn counted(memory: MemoryView) -> MemoryView {
    let timer_counter = memory.read(memory_map::TIMA);
    let timer_modulo = memory.read(memory_map::TMA);
    if timer_counter == 255 {
        interrupt::raised(memory.write(memory_map::TIMA, timer_modulo), InterruptFlag::TIMER)
    } else {
        memory.write(memory_map::TIMA, (timer_counter + 1) as u8)
    }
}

impl Timer {
    /// The divider count is below its threshold, and the countdown is within
    /// the longest period.
    pub open spec fn well_formed(self) -> bool {
        &&& self.divider_accumulated_cycles < DIV_THRESHOLD
        &&& 0 < self.accumulated_cycles <= CLOCK0_CYCLES
    }

    pub open spec fn initial() -> Timer {
        Timer { divider_accumulated_cycles: 0, accumulated_cycles: 1024, frequency: 0x00 }
    }

    /// The cycle counts can take `cycles` more cycles.
    pub open spec fn accepts(self, cycles: usize) -> bool {
        &&& self.divider_accumulated_cycles + cycles <= usize::MAX
        &&& cycles <= isize::MAX
        &&& self.accumulated_cycles - cycles >= isize::MIN
    }

    /// The timer and the bus after `cycles` more cycles.
    ///
    /// DIV goes up by one, modulo 256, when 256 cycles have come together,
    /// whatever TAC says. A new clock selector in TAC restarts the countdown
    /// of TIMA at the period of that clock. While TAC enables the timer, the
    /// cycles are taken from the countdown, and when it reaches zero TIMA
    /// steps and the countdown restarts.
    pub open spec fn updated(self, memory: MemoryView, cycles: usize) -> (Timer, MemoryView) {
        let control = memory.read(memory_map::TAC);
        let enabled = bit_operations::bit_is_set(control, 2);
        let divided = self.divider_accumulated_cycles + cycles >= DIV_THRESHOLD;
        let memory1 = if divided {
            memory.write(memory_map::DIV, ((memory.read(memory_map::DIV) + 1) % 256) as u8)
        } else {
            memory
        };
        let countdown = if self.frequency != selector(control) {
            period(selector(control))
        } else {
            self.accumulated_cycles
        };
        let elapsed = enabled && countdown - cycles <= 0;
        (
            Timer {
                divider_accumulated_cycles: if divided {
                    0
                } else {
                    (self.divider_accumulated_cycles + cycles) as usize
                },
                accumulated_cycles: if elapsed {
                    period(selector(control))
                } else if enabled {
                    (countdown - cycles) as isize
                } else {
                    countdown
                },
                frequency: selector(control),
            },
            if elapsed {
                counted(memory1)
            } else {
                memory1
            },
        )
    }

    pub fn new() -> (timer: Timer)
        ensures
            timer == Timer::initial(),
            timer.well_formed(),
    {
        Timer { divider_accumulated_cycles: 0, accumulated_cycles: 1024, frequency: 0x00 }
    }

    /// Advances the timer by `cycles` machine cycles.
    pub fn updater(&mut self, memory: &mut Memory, cycles: usize)
        requires
            old(self).accepts(cycles),
        ensures
            (*final(self), final(memory)@) == old(self).updated(old(memory)@, cycles),
            old(self).well_formed() ==> final(self).well_formed(),
    {
        let control: u8 = memory.fetch(memory_map::TAC);
        let timer_enabled: bool = bit_operations::simple_bit(control, 2);
        let timer_frequency_control: u8 = control % 4;
        let timer_frequency_cycles: isize = match timer_frequency_control {
            0x00 => CLOCK0_CYCLES,
            0x01 => CLOCK1_CYCLES,
            0x02 => CLOCK2_CYCLES,
            _ => CLOCK3_CYCLES,
        };

        self.divider_accumulated_cycles += cycles;

        if self.divider_accumulated_cycles >= DIV_THRESHOLD {
            let current_div: u8 = memory.fetch(memory_map::DIV);
            self.divider_accumulated_cycles = 0;
            memory.write(memory_map::DIV, current_div.wrapping_add(1));
        }

        if self.frequency != timer_frequency_control {
            self.frequency = timer_frequency_control;
            self.accumulated_cycles = timer_frequency_cycles;
        }

        if timer_enabled {
            self.accumulated_cycles -= cycles as isize;
            if self.accumulated_cycles <= 0 {
                let timer_counter: u8 = memory.fetch(memory_map::TIMA);
                let timer_modulo: u8 = memory.fetch(memory_map::TMA);
                self.accumulated_cycles = timer_frequency_cycles;

                // On overflow the counter restarts at the modulo and requests
                // the interrupt
                if timer_counter == 255 {
                    memory.write(memory_map::TIMA, timer_modulo);
                    request_interrupt(memory, InterruptFlag::TIMER);
                } else {
                    memory.write(memory_map::TIMA, timer_counter.wrapping_add(1));
                }
            }
        }
    }
}

fn request_interrupt(memory: &mut Memory, flag: InterruptFlag)
    ensures
        final(memory)@ == interrupt::raised(old(memory)@, flag),
{
    interrupt::request(memory, flag);
}

} // verus!
