//! The system: processor, timer and pixel processing unit around one bus.
//!
//! A system is built by [`System::new`] alone, and every operation keeps it
//! well formed.
//!
//! A tick executes one instruction and then hands its cost to the timer and
//! to the pixel processing unit, in this order. What the two request of the
//! interrupt controller is on the bus before the next instruction starts.

use vstd::prelude::*;
use crate::hardware::cpu::CPU;
use crate::hardware::cpu::CPURegisters;
use crate::hardware::cpu::Fault;
use crate::hardware::cpu::Machine;
use crate::hardware::instruction_set;
use crate::hardware::interrupt;
use crate::hardware::memory::ConfigError;
use crate::hardware::memory::Memory;
use crate::hardware::memory::MemoryView;
use crate::hardware::memory::power_on;
use crate::hardware::memory_map;
use crate::hardware::ppu;
use crate::hardware::ppu::PPU;
use crate::hardware::ppu::PPUView;
use crate::hardware::timer::Timer;

verus! {

#[derive(Debug)]
pub struct System {
    cpu: CPU,
    ppu: PPU,
    timer: Timer,
    memory: Memory,
}

pub struct SystemView {
    pub cpu: CPU,
    pub ppu: PPUView,
    pub timer: Timer,
    pub memory: MemoryView,
}

impl View for System {
    type V = SystemView;

    closed spec fn view(&self) -> SystemView {
        SystemView { cpu: self.cpu, ppu: self.ppu@, timer: self.timer, memory: self.memory@ }
    }
}

impl SystemView {
    /// The processor and the bus.
    pub open spec fn machine(self) -> Machine {
        Machine { cpu: self.cpu, memory: self.memory }
    }

    /// The timer and the pixel processing unit are well formed, and the unit
    /// has spent less than a vertical blank in its mode.
    pub open spec fn well_formed(self) -> bool {
        &&& self.timer.well_formed()
        &&& self.ppu.well_formed()
        &&& self.ppu.accumulated_cycles < ppu::MODE01_THRESHOLD
    }

    /// The system at power-on, around a bus that holds `memory`.
    pub open spec fn initial(memory: MemoryView) -> SystemView {
        SystemView { cpu: CPU::initial(), ppu: PPUView::initial(), timer: Timer::initial(), memory }
    }

    /// The system after one tick, with the cost of the instruction. An
    /// instruction fault stops the tick before the timer and the pixel
    /// processing unit have their turn.
    pub open spec fn cycled(self) -> (SystemView, Result<usize, Fault>) {
        let outcome = instruction_set::cycle_spec(self.machine());
        match outcome.result {
            Ok(cycles) => {
                let (timer, memory1) = self.timer.updated(outcome.machine.memory, cycles);
                let (ppu, memory2) = ppu::stepped(self.ppu, memory1, cycles);
                (SystemView { cpu: outcome.machine.cpu, ppu, timer, memory: memory2 }, Ok(cycles))
            },
            Err(fault) => (
                SystemView { cpu: outcome.machine.cpu, memory: outcome.machine.memory, ..self },
                Err(fault),
            ),
        }
    }
}

impl System {
    /// Builds the system at power-on from the boot ROM image and the
    /// cartridge image. An absent cartridge is stood in for by 16 KiB of
    /// zeroes.
    pub fn new(boot_rom: Vec<u8>, cartridge: Option<Vec<u8>>, stop_at: Option<u16>) -> (r: Result<
        System,
        ConfigError,
    >)
        ensures
            match (r, power_on(
                boot_rom@,
                match cartridge {
                    Some(data) => Some(data@),
                    None => None,
                },
                stop_at,
            )) {
                (Ok(system), Ok(memory)) => system@ == SystemView::initial(memory) && system@.well_formed(),
                (Err(e), Err(expected)) => e == expected,
                _ => false,
            },
    {
        let cpu = CPU::new();
        let ppu = PPU::new();
        let timer = Timer::new();
        match Memory::new(boot_rom, cartridge, stop_at) {
            Ok(memory) => Ok(System { cpu, ppu, timer, memory }),
            Err(e) => Err(e),
        }
    }

    /// Resets the register file for a run of the boot ROM.
    pub fn boot(&mut self)
        requires
            old(self)@.well_formed(),
        ensures
            final(self)@.well_formed(),
            final(self)@ == (SystemView {
                cpu: CPU { registers: CPURegisters::cleared(0xFFFF), ..old(self)@.cpu },
                ..old(self)@
            }),
    {
        self.cpu.boot();
    }

    /// One tick: executes one instruction, then advances the timer and the
    /// pixel processing unit by its cost, and returns that cost.
    pub fn cycle(&mut self) -> (r: Result<usize, Fault>)
        requires
            old(self)@.well_formed(),
        ensures
            final(self)@.well_formed(),
            (final(self)@, r) == old(self)@.cycled(),
            r matches Ok(cycles) ==> 1 <= cycles <= 6,
    {
        match self.cpu.cycle(&mut self.memory) {
            Ok(cpu_cycles) => {
                self.timer.updater(&mut self.memory, cpu_cycles);
                self.ppu.cycle(&mut self.memory, cpu_cycles);
                Ok(cpu_cycles)
            },
            Err(fault) => Err(fault),
        }
    }

    /// Gives the interrupt controller its turn. To be called between two
    /// ticks.
    pub fn interrupt(&mut self)
        requires
            old(self)@.well_formed(),
        ensures
            final(self)@.well_formed(),
            final(self)@.machine() == interrupt::dispatched(old(self)@.machine()),
            final(self)@.ppu == old(self)@.ppu,
            final(self)@.timer == old(self)@.timer,
    {
        interrupt::handler(&mut self.cpu, &mut self.memory);
    }

    /// A copy of the frame buffer: 160 by 144 shades, line after line.
    pub fn video_buffer(&mut self) -> (buffer: Vec<u8>)
        requires
            old(self)@.well_formed(),
        ensures
            buffer@ == old(self)@.ppu.video.frame_buffer,
            buffer@.len() == 160 * 144,
            final(self)@ == old(self)@,
    {
        let buffer = self.ppu.video.frame_buffer.clone();
        assert(buffer@ =~= self.ppu.video.frame_buffer@);
        buffer
    }

    /// The mode of the pixel processing unit, from the low two bits of STAT.
    pub fn video_mode(&mut self) -> (mode: u8)
        ensures
            mode == ppu::mode_of(old(self)@.memory.read(memory_map::STAT)),
            final(self)@ == old(self)@,
    {
        self.memory.fetch(memory_map::STAT) % 4
    }

    /// Whether a STOP instruction has been executed.
    pub fn has_stopped(&mut self) -> (stopped: bool)
        ensures
            stopped == old(self)@.cpu.stopped,
            final(self)@ == old(self)@,
    {
        self.cpu.stopped
    }
}

} // verus!
