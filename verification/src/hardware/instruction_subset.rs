//! The instructions behind the 0xCB prefix: rotates, shifts, nibble swap, and
//! single-bit test, reset and set, each on one of eight operands.
//!
//! The low three bits of the opcode select the operand (B, C, D, E, H, L, the
//! byte at HL, A), the high five bits the operation.

use vstd::prelude::*;
use crate::hardware::bit_operations;
use crate::hardware::cpu::CPU;
use crate::hardware::cpu::Machine;
use crate::hardware::cpu::machine;
use crate::hardware::flags;
use crate::hardware::memory::Memory;

verus! {

/// The byte and the flags that operation `kind` makes of `value`: 0 RLC,
/// 1 RRC, 2 RL, 3 RR, 4 SLA, 5 SRA, 6 SWAP, 7 SRL.
pub open spec fn transformed(kind: int, value: u8, register_flags: u8) -> (u8, u8) {
    if kind == 0 {
        bit_operations::rlc(value)
    } else if kind == 1 {
        bit_operations::rrc(value)
    } else if kind == 2 {
        bit_operations::rl(value, register_flags)
    } else if kind == 3 {
        bit_operations::rr(value, register_flags)
    } else if kind == 4 {
        bit_operations::sla(value)
    } else if kind == 5 {
        bit_operations::sra(value)
    } else if kind == 6 {
        let d8 = bit_operations::swapped(value as u16, 4) as u8;
        (d8, flags::pack(d8 == 0, false, false, false))
    } else {
        bit_operations::srl(value)
    }
}

/// Machine cycles of a prefixed instruction: 4 on the byte at HL, else 2.
pub open spec fn subset_cycles(opcode: u8) -> usize {
    if opcode % 8 == 6 {
        4
    } else {
        2
    }
}

/// The machine after the prefixed instruction `opcode`.
pub open spec fn subset_spec(m: Machine, opcode: u8) -> Machine {
    let operand = opcode % 8;
    let kind = opcode / 8;
    let (m1, value) = m.read_operand(operand as int);
    if kind < 8 {
        let (d8, register_flags) = transformed(kind as int, value, m.cpu.registers.r_f);
        let m2 = m1.write_operand(operand as int, d8);
        m2.with_cpu(m2.cpu.with_f(register_flags))
    } else if kind < 16 {
        m1.with_cpu(
            m1.cpu.with_f(
                flags::pack(
                    !bit_operations::bit_is_set(value, kind - 8),
                    false,
                    true,
                    flags::carry(m.cpu.registers.r_f),
                ),
            ),
        )
    } else if kind < 24 {
        m1.write_operand(operand as int, bit_operations::without_bit(value, kind - 16) as u8)
    } else {
        m1.write_operand(operand as int, bit_operations::with_bit(value, kind - 24) as u8)
    }
}

/// Executes the instruction `opcode` of the 0xCB table and returns its cost
/// in machine cycles. Every opcode of this table is an instruction.
pub fn execute(cpu: &mut CPU, memory: &mut Memory, opcode: u8) -> (cycles: usize)
    ensures
        machine(*final(cpu), *final(memory)) == subset_spec(machine(*old(cpu), *old(memory)), opcode),
        cycles == subset_cycles(opcode),
        cycles == 2 || cycles == 4,
        flags::canonical(old(cpu).registers.r_f) ==> flags::canonical(final(cpu).registers.r_f),
        final(cpu).halted == old(cpu).halted,
        final(cpu).stopped == old(cpu).stopped,
{
    let operand: u8 = opcode % 8;
    let cycles: usize = if operand == 0x06 {
        4
    } else {
        2
    };
    let register_flags: u8 = cpu.registers.r_f;
    let d8: u8 = cpu.read_operand(memory, operand);
    match opcode {
        /* RLC r/(HL) */
        0x00..=0x07 => {
            let action_pair = bit_operations::rotate_left_carry(d8, register_flags);
            cpu.write_operand(memory, operand, action_pair.0);
            cpu.registers.r_f = action_pair.1;
        },
        /* RRC r/(HL) */
        0x08..=0x0F => {
            let action_pair = bit_operations::rotate_right_carry(d8, register_flags);
            cpu.write_operand(memory, operand, action_pair.0);
            cpu.registers.r_f = action_pair.1;
        },
        /* RL r/(HL) */
        0x10..=0x17 => {
            let action_pair = bit_operations::rotate_left(d8, register_flags);
            cpu.write_operand(memory, operand, action_pair.0);
            cpu.registers.r_f = action_pair.1;
        },
        /* RR r/(HL) */
        0x18..=0x1F => {
            let action_pair = bit_operations::rotate_right(d8, register_flags);
            cpu.write_operand(memory, operand, action_pair.0);
            cpu.registers.r_f = action_pair.1;
        },
        /* SLA r/(HL) */
        0x20..=0x27 => {
            let action_pair = bit_operations::shift_left(d8);
            cpu.write_operand(memory, operand, action_pair.0);
            cpu.registers.r_f = action_pair.1;
        },
        /* SRA r/(HL) */
        0x28..=0x2F => {
            let action_pair = bit_operations::shift_right(d8);
            cpu.write_operand(memory, operand, action_pair.0);
            cpu.registers.r_f = action_pair.1;
        },
        /* SWAP r/(HL) */
        0x30..=0x37 => {
            let swapped: u16 = bit_operations::swap_nibbles(d8 as u16, 4);
            let register_data: u8 = swapped as u8;
            cpu.write_operand(memory, operand, register_data);
            cpu.registers.r_f = flags::compose(register_data == 0, false, false, false);
        },
        /* SRL r/(HL) */
        0x38..=0x3F => {
            let action_pair = bit_operations::shift_right_reset(d8);
            cpu.write_operand(memory, operand, action_pair.0);
            cpu.registers.r_f = action_pair.1;
        },
        /* BIT b,r/(HL) */
        0x40..=0x7F => {
            let index: usize = ((opcode / 8) - 0x08) as usize;
            let zero: bool = !bit_operations::simple_bit(d8, index);
            // H is set, and CY keeps its value
            cpu.registers.r_f = flags::compose(zero, false, true, flags::carry_set(register_flags));
        },
        /* RES b,r/(HL) */
        0x80..=0xBF => {
            let index: usize = ((opcode / 8) - 0x10) as usize;
            let n8: u8 = bit_operations::reset(d8, index);
            cpu.write_operand(memory, operand, n8);
        },
        /* SET b,r/(HL) */
        0xC0..=0xFF => {
            let index: usize = ((opcode / 8) - 0x18) as usize;
            let n8: u8 = bit_operations::set(d8, index);
            cpu.write_operand(memory, operand, n8);
        },
    }
    cycles
}

} // verus!
