//! The interrupt controller.
//!
//! Five sources share the enable register IE and the request register IF,
//! one bit each, bit 0 first in priority. Each has a fixed handler address.

use vstd::prelude::*;
use crate::hardware::bit_operations;
use crate::hardware::cpu::CPU;
use crate::hardware::cpu::Machine;
use crate::hardware::cpu::machine;
use crate::hardware::memory::Memory;
use crate::hardware::memory::MemoryView;
use crate::hardware::memory_map;

verus! {

/// The interrupt sources, in the order of their priority.
#[allow(non_camel_case_types)]
#[derive(Clone, Copy, Debug, PartialEq, Eq, Structural)]
pub enum Flag {
    /// Vertical blank, bit 0
    VBLANK,
    /// LCD controller status, bit 1
    LCDC,
    /// Timer overflow, bit 2
    TIMER,
    /// Serial transfer completion, bit 3
    SERIAL,
    /// High-to-low of P10-P13 (joypad), bit 4
    P10P13,
}

impl Flag {
    /// The bit of the source in IE and IF.
    pub open spec fn bit_index(self) -> int {
        match self {
            Flag::VBLANK => 0,
            Flag::LCDC => 1,
            Flag::TIMER => 2,
            Flag::SERIAL => 3,
            Flag::P10P13 => 4,
        }
    }

    /// The source as a mask on IE and IF.
    pub open spec fn mask_value(self) -> u8 {
        bit_operations::bit_weight(self.bit_index()) as u8
    }

    /// The address that the handler of the source starts at.
    pub open spec fn handler_entry(self) -> u16 {
        (0x0040 + 8 * self.bit_index()) as u16
    }

    pub fn index(&self) -> (r: usize)
        ensures
            r == self.bit_index(),
    {
        match self {
            Flag::VBLANK => 0,
            Flag::LCDC => 1,
            Flag::TIMER => 2,
            Flag::SERIAL => 3,
            Flag::P10P13 => 4,
        }
    }

    pub fn mask(&self) -> (r: u8)
        ensures
            r == self.mask_value(),
    {
        match self {
            Flag::VBLANK => 0x01,
            Flag::LCDC => 0x02,
            Flag::TIMER => 0x04,
            Flag::SERIAL => 0x08,
            Flag::P10P13 => 0x10,
        }
    }

    pub fn handler_address(&self) -> (r: u16)
        ensures
            r == self.handler_entry(),
    {
        match self {
            Flag::VBLANK => memory_map::VBI0,
            Flag::LCDC => memory_map::LCS0,
            Flag::TIMER => memory_map::TOI0,
            Flag::SERIAL => memory_map::STCI,
            Flag::P10P13 => memory_map::HTLP,
        }
    }
}

/// Whether the source is both enabled and requested.
pub open spec fn pending(enable: u8, request: u8, flag: Flag) -> bool {
    bit_operations::bit_is_set(enable, flag.bit_index()) && bit_operations::bit_is_set(
        request,
        flag.bit_index(),
    )
}

/// The pending source of the highest priority, if any is pending.
pub open spec fn selected(enable: u8, request: u8) -> Option<Flag> {
    if pending(enable, request, Flag::VBLANK) {
        Some(Flag::VBLANK)
    } else if pending(enable, request, Flag::LCDC) {
        Some(Flag::LCDC)
    } else if pending(enable, request, Flag::TIMER) {
        Some(Flag::TIMER)
    } else if pending(enable, request, Flag::SERIAL) {
        Some(Flag::SERIAL)
    } else if pending(enable, request, Flag::P10P13) {
        Some(Flag::P10P13)
    } else {
        None
    }
}

/// The bus after the source has requested an interrupt: its bit is set in IF.
pub open spec fn raised(memory: MemoryView, flag: Flag) -> MemoryView {
    memory.write(
        memory_map::IF,
        bit_operations::with_bit(memory.read(memory_map::IF), flag.bit_index()) as u8,
    )
}

/// The interrupt that is serviced next: none while the master enable flag is
/// off.
pub open spec fn serviced(m: Machine) -> Option<Flag> {
    if m.cpu.interruption_enabled {
        selected(m.memory.read(memory_map::IE), m.memory.read(memory_map::IF))
    } else {
        None
    }
}

/// The machine after the interrupt controller has had its turn. Where an
/// interrupt is serviced, its request bit is cleared, the program counter is
/// pushed and set to the handler, and the master enable and halted flags are
/// cleared. Else the machine is as it was.
pub open spec fn dispatched(m: Machine) -> Machine {
    match serviced(m) {
        Some(flag) => {
            let request = m.memory.read(memory_map::IF);
            let m1 = m.write_data(
                memory_map::IF,
                bit_operations::without_bit(request, flag.bit_index()) as u8,
            );
            let m2 = m1.push(m1.cpu.registers.program_counter);
            m2.with_cpu(
                CPU { halted: false, interruption_enabled: false, ..m2.cpu.with_pc(flag.handler_entry()) },
            )
        },
        None => m,
    }
}

/// Of the sources that are both enabled and requested, the one that is
/// serviced has the lowest bit: no pending source comes before it.
pub proof fn lemma_priority(enable: u8, request: u8, flag: Flag, other: Flag)
    requires
        selected(enable, request) == Some(flag),
        pending(enable, request, other),
    ensures
        flag.bit_index() <= other.bit_index(),
        pending(enable, request, flag),
{
}

/// An interrupt is serviced exactly when the master enable flag is on and
/// some source is pending.
pub proof fn lemma_serviced(m: Machine)
    ensures
        serviced(m) is Some <==> m.cpu.interruption_enabled && exists|flag: Flag|
            pending(m.memory.read(memory_map::IE), m.memory.read(memory_map::IF), flag),
{
    let enable = m.memory.read(memory_map::IE);
    let request = m.memory.read(memory_map::IF);
    if m.cpu.interruption_enabled && selected(enable, request) is Some {
        assert(pending(enable, request, selected(enable, request).unwrap()));
    }
    if exists|flag: Flag| pending(enable, request, flag) {
        let flag = choose|flag: Flag| pending(enable, request, flag);
        assert(selected(enable, request) is Some);
    }
}

/// The pending source of the highest priority.
fn select(enable: u8, request: u8) -> (r: Option<Flag>)
    ensures
        r == selected(enable, request),
{
    if bit_operations::simple_bit(enable, 0) && bit_operations::simple_bit(request, 0) {
        Some(Flag::VBLANK)
    } else if bit_operations::simple_bit(enable, 1) && bit_operations::simple_bit(request, 1) {
        Some(Flag::LCDC)
    } else if bit_operations::simple_bit(enable, 2) && bit_operations::simple_bit(request, 2) {
        Some(Flag::TIMER)
    } else if bit_operations::simple_bit(enable, 3) && bit_operations::simple_bit(request, 3) {
        Some(Flag::SERIAL)
    } else if bit_operations::simple_bit(enable, 4) && bit_operations::simple_bit(request, 4) {
        Some(Flag::P10P13)
    } else {
        None
    }
}

/// Sets the request bit of `flag` in IF.
pub fn request(memory: &mut Memory, flag: Flag)
    ensures
        final(memory)@ == raised(old(memory)@, flag),
{
    let interrupt_request: u8 = bit_operations::set(memory.fetch(memory_map::IF), flag.index());
    memory.write(memory_map::IF, interrupt_request);
}

/// Services the pending interrupt of the highest priority, if the master
/// enable flag is on and one is pending. To be called between two
/// instructions.
pub fn handler(cpu: &mut CPU, memory: &mut Memory)
    ensures
        machine(*final(cpu), *final(memory)) == dispatched(machine(*old(cpu), *old(memory))),
        serviced(machine(*old(cpu), *old(memory))) is None ==> *final(cpu) == *old(cpu)
            && final(memory)@ == old(memory)@,
{
    if !cpu.interruption_enabled {
        return ;
    }
    let interrupt_enable: u8 = memory.fetch(memory_map::IE);
    let interrupt_request: u8 = memory.fetch(memory_map::IF);
    match select(interrupt_enable, interrupt_request) {
        Some(flag) => {
            let handle_request: u8 = bit_operations::reset(interrupt_request, flag.index());
            cpu.write_data(memory, memory_map::IF, handle_request);
            let return_address: u16 = cpu.registers.program_counter;
            cpu.registers.stack_pointer = cpu.registers.stack_pointer.wrapping_sub(1);
            let high_address: u16 = cpu.registers.stack_pointer;
            cpu.write_data(memory, high_address, bit_operations::msb(return_address, 8));
            cpu.registers.stack_pointer = cpu.registers.stack_pointer.wrapping_sub(1);
            let low_address: u16 = cpu.registers.stack_pointer;
            cpu.write_data(memory, low_address, bit_operations::lsb(return_address, 8));
            cpu.registers.program_counter = flag.handler_address();
            cpu.halted = false;
            cpu.interruption_enabled = false;
        },
        None => {},
    }
}

} // verus!
