//! The primary instruction table.
//!
//! The table has four quarters of 64 opcodes, and a quarter has eight rows
//! and eight columns: `opcode % 8` is the column of an opcode. The two middle
//! quarters are regular (register loads, accumulator arithmetic); the first
//! and the last are described column by column.
//!
//! Operands in memory are little-endian: the low byte comes first.

use vstd::prelude::*;
use crate::hardware::arithmetic;
use crate::hardware::bit_operations;
use crate::hardware::cpu::CPU;
use crate::hardware::cpu::CPURegisters;
use crate::hardware::cpu::Fault;
use crate::hardware::cpu::Machine;
use crate::hardware::cpu::high_byte;
use crate::hardware::cpu::low_byte;
use crate::hardware::cpu::machine;
use crate::hardware::cpu::word;
use crate::hardware::flags;
use crate::hardware::instruction_subset;
use crate::hardware::memory::Memory;
use crate::hardware::memory::MemoryView;
use crate::hardware::memory::lemma_read_after_write;
use crate::hardware::memory::lemma_read_after_write_elsewhere;
use crate::hardware::memory::lemma_write_keeps_well_formed;

verus! {

/// What the execution of one instruction leaves: the machine, and the cost in
/// machine cycles or the fault.
pub struct Outcome {
    pub machine: Machine,
    pub result: Result<usize, Fault>,
}

pub open spec fn completed(machine: Machine, cycles: usize) -> Outcome {
    Outcome { machine, result: Ok(cycles) }
}

/// The outcome of an opcode that is no instruction: the machine is left as it
/// is, and the fault names the opcode and the address it was read from, one
/// below the program counter.
pub open spec fn illegal(m: Machine, opcode: u8) -> Outcome {
    Outcome {
        machine: m,
        result: Err(Fault::IllegalOpcode { pc: m.cpu.registers.program_counter.wrapping_sub(1), opcode }),
    }
}

/// Whether `opcode` is one of the eleven holes of the table.
pub open spec fn is_illegal(opcode: u8) -> bool {
    opcode == 0xD3 || opcode == 0xDB || opcode == 0xDD || opcode == 0xE3 || opcode == 0xE4 || opcode == 0xEB
        || opcode == 0xEC || opcode == 0xED || opcode == 0xF4 || opcode == 0xFC || opcode == 0xFD
}

/// The register pair of a 16-bit instruction: 0 BC, 1 DE, 2 HL, 3 SP.
pub open spec fn pair(cpu: CPU, index: int) -> u16 {
    if index == 0 {
        cpu.bc()
    } else if index == 1 {
        cpu.de()
    } else if index == 2 {
        cpu.hl()
    } else {
        cpu.registers.stack_pointer
    }
}

pub open spec fn with_pair(cpu: CPU, index: int, value: u16) -> CPU {
    if index == 0 {
        cpu.with_bc(value)
    } else if index == 1 {
        cpu.with_de(value)
    } else if index == 2 {
        cpu.with_hl(value)
    } else {
        cpu.with_sp(value)
    }
}

/// The register pair of a push or pop: 0 BC, 1 DE, 2 HL, 3 AF.
pub open spec fn stack_pair(cpu: CPU, index: int) -> u16 {
    if index == 0 {
        cpu.bc()
    } else if index == 1 {
        cpu.de()
    } else if index == 2 {
        cpu.hl()
    } else {
        cpu.af()
    }
}

/// The processor with `value` in a stack pair. F takes the high nibble of the
/// low byte only: its low nibble is forced to zero.
pub open spec fn with_stack_pair(cpu: CPU, index: int, value: u16) -> CPU {
    if index == 0 {
        cpu.with_bc(value)
    } else if index == 1 {
        cpu.with_de(value)
    } else if index == 2 {
        cpu.with_hl(value)
    } else {
        cpu.with_a(high_byte(value)).with_f(((low_byte(value) / 16) * 16) as u8)
    }
}

/// The condition of a conditional jump, call or return: 0 NZ, 1 Z, 2 NC, 3 C.
pub open spec fn condition(cpu: CPU, index: int) -> bool {
    if index == 0 {
        !flags::zero(cpu.registers.r_f)
    } else if index == 1 {
        flags::zero(cpu.registers.r_f)
    } else if index == 2 {
        !flags::carry(cpu.registers.r_f)
    } else {
        flags::carry(cpu.registers.r_f)
    }
}

/// The accumulator operation of a row: 0 ADD, 1 ADC, 2 SUB, 3 SBC, 4 AND,
/// 5 XOR, 6 OR, 7 CP.
pub open spec fn accumulated(cpu: CPU, kind: int, data: u8) -> CPU {
    if kind == 0 {
        arithmetic::added(cpu, data)
    } else if kind == 1 {
        arithmetic::added_with_carry(cpu, data)
    } else if kind == 2 {
        arithmetic::subtracted(cpu, data)
    } else if kind == 3 {
        arithmetic::subtracted_with_carry(cpu, data)
    } else if kind == 4 {
        arithmetic::conjoined(cpu, data)
    } else if kind == 5 {
        arithmetic::exclusive(cpu, data)
    } else if kind == 6 {
        arithmetic::disjoined(cpu, data)
    } else {
        arithmetic::compared(cpu, data)
    }
}

/// `offset` read as a two's complement number.
pub open spec fn signed(offset: u8) -> int {
    if offset < 128 {
        offset as int
    } else {
        offset - 256
    }
}

/// `base` moved by the signed `offset`, modulo 65536.
pub open spec fn displaced(base: u16, offset: u8) -> u16 {
    ((base + signed(offset)) % 0x10000) as u16
}

/// The flags of SP plus a signed offset: H and CY are the carries out of bit
/// 3 and bit 7 of the low byte, Z and N are cleared.
pub open spec fn displacement_flags(base: u16, offset: u8) -> u8 {
    flags::pack(false, false, base % 16 + offset % 16 > 0xF, base % 256 + offset > 0xFF)
}

/// ADD HL,rr: Z stays, N is cleared, H is the carry out of bit 11, CY the
/// carry out of bit 15.
pub open spec fn hl_sum(cpu: CPU, value: u16) -> CPU {
    let hl = cpu.hl();
    cpu.with_hl(((hl + value) % 0x10000) as u16).with_f(
        flags::pack(flags::zero(cpu.registers.r_f), false, hl % 0x1000 + value % 0x1000 > 0xFFF, hl + value > 0xFFFF),
    )
}

/// Whether DAA corrects the low digit: after an addition when the digit is
/// above 9 or H is set, after a subtraction when H is set.
pub open spec fn corrects_low(a: u8, f: u8) -> bool {
    flags::half_carry(f) || (!flags::subtract(f) && a % 16 > 9)
}

/// Whether DAA corrects the high digit: after an addition when the byte is
/// above 0x99 or CY is set, after a subtraction when CY is set.
pub open spec fn corrects_high(a: u8, f: u8) -> bool {
    flags::carry(f) || (!flags::subtract(f) && a > 0x99)
}

/// What DAA adds to A after an addition and takes from it after a
/// subtraction.
pub open spec fn correction(a: u8, f: u8) -> int {
    (if corrects_high(a, f) {
        0x60int
    } else {
        0
    }) + (if corrects_low(a, f) {
        0x06int
    } else {
        0
    })
}

/// DAA: A corrected to two decimal digits. CY is set exactly when the high
/// digit was corrected, H is cleared, N stays.
pub open spec fn decimal_adjusted(cpu: CPU) -> CPU {
    let a = cpu.registers.r_a;
    let f = cpu.registers.r_f;
    let d8 = if flags::subtract(f) {
        arithmetic::wrapped(a - correction(a, f))
    } else {
        arithmetic::wrapped(a + correction(a, f))
    };
    cpu.with_a(d8).with_f(flags::pack(d8 == 0, flags::subtract(f), false, corrects_high(a, f)))
}

/// The accumulator and flag instructions of column 7: 0 RLCA, 1 RRCA, 2 RLA,
/// 3 RRA, 4 DAA, 5 CPL, 6 SCF, 7 CCF. The four rotates clear Z whatever the
/// result is.
pub open spec fn adjusted(cpu: CPU, row: int) -> CPU {
    let a = cpu.registers.r_a;
    let f = cpu.registers.r_f;
    if row < 4 {
        let rotated = if row == 0 {
            bit_operations::rlc(a)
        } else if row == 1 {
            bit_operations::rrc(a)
        } else if row == 2 {
            bit_operations::rl(a, f)
        } else {
            bit_operations::rr(a, f)
        };
        cpu.with_a(rotated.0).with_f(flags::pack(false, false, false, flags::carry(rotated.1)))
    } else if row == 4 {
        decimal_adjusted(cpu)
    } else if row == 5 {
        cpu.with_a((255 - a) as u8).with_f(flags::pack(flags::zero(f), true, true, flags::carry(f)))
    } else if row == 6 {
        cpu.with_f(flags::pack(flags::zero(f), false, false, true))
    } else {
        cpu.with_f(flags::pack(flags::zero(f), false, false, !flags::carry(f)))
    }
}

/// A jump to `target` that is taken when `taken` holds.
pub open spec fn jump(m: Machine, taken: bool, target: u16, cycles_taken: usize, cycles_skipped: usize) -> Outcome {
    if taken {
        completed(m.with_cpu(m.cpu.with_pc(target)), cycles_taken)
    } else {
        completed(m, cycles_skipped)
    }
}

/// A call of `target`: the program counter is pushed, then set to `target`.
pub open spec fn call(m: Machine, target: u16) -> Machine {
    let m1 = m.push(m.cpu.registers.program_counter);
    m1.with_cpu(m1.cpu.with_pc(target))
}

/// A return: the program counter is popped.
pub open spec fn ret(m: Machine) -> Machine {
    let (m1, a16) = m.pop();
    m1.with_cpu(m1.cpu.with_pc(a16))
}

/// Column 0 of the first quarter: NOP, LD (a16),SP, STOP, JR r8 and the four
/// conditional JR.
pub open spec fn control_column(m: Machine, row: int) -> Outcome {
    if row == 0 {
        completed(m, 1)
    } else if row == 1 {
        let (m1, a16) = m.fetch_word();
        let sp = m1.cpu.registers.stack_pointer;
        completed(m1.write_data(a16, low_byte(sp)).write_data(a16.wrapping_add(1), high_byte(sp)), 5)
    } else if row == 2 {
        let (m1, _) = m.fetch_operand();
        completed(m1.with_cpu(CPU { stopped: true, ..m1.cpu }), 1)
    } else {
        let (m1, r8) = m.fetch_operand();
        jump(m1, row == 3 || condition(m1.cpu, row - 4), displaced(m1.cpu.registers.program_counter, r8), 3, 2)
    }
}

/// The first quarter, opcodes 0x00 to 0x3F.
#[verifier::opaque]
pub open spec fn first_quarter(m: Machine, opcode: u8) -> Outcome {
    let column = opcode % 8;
    let row = (opcode / 8) as int;
    let cpu = m.cpu;
    if column == 0 {
        control_column(m, row)
    } else if column == 1 {
        if row % 2 == 0 {
            let (m1, d16) = m.fetch_word();
            completed(m1.with_cpu(with_pair(m1.cpu, row / 2, d16)), 3)
        } else {
            completed(m.with_cpu(hl_sum(cpu, pair(cpu, row / 2))), 2)
        }
    } else if column == 2 {
        let address = if row / 2 == 0 {
            cpu.bc()
        } else if row / 2 == 1 {
            cpu.de()
        } else {
            cpu.hl()
        };
        let m1 = if row % 2 == 0 {
            m.write_data(address, cpu.registers.r_a)
        } else {
            let (m2, d8) = m.fetch_data(address);
            m2.with_cpu(m2.cpu.with_a(d8))
        };
        if row / 2 == 2 {
            completed(m1.with_cpu(m1.cpu.with_hl(address.wrapping_add(1))), 2)
        } else if row / 2 == 3 {
            completed(m1.with_cpu(m1.cpu.with_hl(address.wrapping_sub(1))), 2)
        } else {
            completed(m1, 2)
        }
    } else if column == 3 {
        if row % 2 == 0 {
            completed(m.with_cpu(with_pair(cpu, row / 2, pair(cpu, row / 2).wrapping_add(1))), 2)
        } else {
            completed(m.with_cpu(with_pair(cpu, row / 2, pair(cpu, row / 2).wrapping_sub(1))), 2)
        }
    } else if column == 4 || column == 5 {
        let (m1, value) = m.read_operand(row);
        let (cpu1, d8) = if column == 4 {
            arithmetic::incremented(m1.cpu, value)
        } else {
            arithmetic::decremented(m1.cpu, value)
        };
        completed(
            m1.with_cpu(cpu1).write_operand(row, d8),
            if row == 6 {
                3
            } else {
                1
            },
        )
    } else if column == 6 {
        let (m1, d8) = m.fetch_operand();
        completed(
            m1.write_operand(row, d8),
            if row == 6 {
                3
            } else {
                2
            },
        )
    } else {
        completed(m.with_cpu(adjusted(cpu, row)), 1)
    }
}

/// The second quarter, opcodes 0x40 to 0x7F: LD between two operands, and
/// HALT where both would be the byte at HL.
#[verifier::opaque]
pub open spec fn load_quarter(m: Machine, opcode: u8) -> Outcome {
    let source = (opcode % 8) as int;
    let target = ((opcode - 0x40) / 8) as int;
    if opcode == 0x76 {
        completed(m.with_cpu(CPU { halted: true, ..m.cpu }), 1)
    } else {
        let (m1, d8) = m.read_operand(source);
        completed(
            m1.write_operand(target, d8),
            if source == 6 || target == 6 {
                2
            } else {
                1
            },
        )
    }
}

/// The third quarter, opcodes 0x80 to 0xBF: the accumulator operation of the
/// row on the operand of the column.
#[verifier::opaque]
pub open spec fn accumulator_quarter(m: Machine, opcode: u8) -> Outcome {
    let (m1, d8) = m.read_operand((opcode % 8) as int);
    completed(m1.with_cpu(accumulated(m1.cpu, ((opcode - 0x80) / 8) as int, d8)), 2)
}

/// Column 0 of the last quarter: the four conditional RET, the two loads of
/// the page at 0xFF00, ADD SP,r8 and LD HL,SP+r8.
pub open spec fn return_column(m: Machine, row: int) -> Outcome {
    if row < 4 {
        if condition(m.cpu, row) {
            completed(ret(m), 5)
        } else {
            completed(m, 2)
        }
    } else {
        let (m1, a8) = m.fetch_operand();
        let sp = m1.cpu.registers.stack_pointer;
        if row == 4 {
            completed(m1.write_data((0xFF00 + a8) as u16, m1.cpu.registers.r_a), 3)
        } else if row == 5 {
            completed(m1.with_cpu(m1.cpu.with_sp(displaced(sp, a8)).with_f(displacement_flags(sp, a8))), 4)
        } else if row == 6 {
            let (m2, d8) = m1.fetch_data((0xFF00 + a8) as u16);
            completed(m2.with_cpu(m2.cpu.with_a(d8)), 3)
        } else {
            completed(m1.with_cpu(m1.cpu.with_hl(displaced(sp, a8)).with_f(displacement_flags(sp, a8))), 3)
        }
    }
}

/// Column 1 of the last quarter: the four POP, RET, RETI, JP (HL), LD SP,HL.
pub open spec fn pop_column(m: Machine, row: int) -> Outcome {
    if row % 2 == 0 {
        let (m1, value) = m.pop();
        completed(m1.with_cpu(with_stack_pair(m1.cpu, row / 2, value)), 3)
    } else if row == 1 {
        completed(ret(m), 4)
    } else if row == 3 {
        completed(ret(m.with_cpu(CPU { interruption_enabled: true, ..m.cpu })), 4)
    } else if row == 5 {
        completed(m.with_cpu(m.cpu.with_pc(m.cpu.hl())), 1)
    } else {
        completed(m.with_cpu(m.cpu.with_sp(m.cpu.hl())), 2)
    }
}

/// Column 2 of the last quarter: the four conditional JP, and the loads
/// between A and the byte at 0xFF00 + C or at a 16-bit address.
pub open spec fn jump_column(m: Machine, row: int) -> Outcome {
    if row < 4 {
        let (m1, a16) = m.fetch_word();
        jump(m1, condition(m1.cpu, row), a16, 4, 3)
    } else if row == 4 {
        completed(m.write_data((0xFF00 + m.cpu.registers.r_c) as u16, m.cpu.registers.r_a), 2)
    } else if row == 5 {
        let (m1, a16) = m.fetch_word();
        completed(m1.write_data(a16, m1.cpu.registers.r_a), 4)
    } else if row == 6 {
        let (m1, d8) = m.fetch_data((0xFF00 + m.cpu.registers.r_c) as u16);
        completed(m1.with_cpu(m1.cpu.with_a(d8)), 2)
    } else {
        let (m1, a16) = m.fetch_word();
        let (m2, d8) = m1.fetch_data(a16);
        completed(m2.with_cpu(m2.cpu.with_a(d8)), 4)
    }
}

/// The last quarter, opcodes 0xC0 to 0xFF.
#[verifier::opaque]
pub open spec fn last_quarter(m: Machine, opcode: u8) -> Outcome {
    let column = opcode % 8;
    let row = ((opcode - 0xC0) / 8) as int;
    if column == 0 {
        return_column(m, row)
    } else if column == 1 {
        pop_column(m, row)
    } else if column == 2 {
        jump_column(m, row)
    } else if column == 3 {
        if row == 0 {
            let (m1, a16) = m.fetch_word();
            jump(m1, true, a16, 4, 4)
        } else if row == 1 {
            let (m1, prefixed) = m.fetch_operand();
            completed(instruction_subset::subset_spec(m1, prefixed), instruction_subset::subset_cycles(prefixed))
        } else if row == 6 {
            completed(m.with_cpu(CPU { interruption_enabled: false, ..m.cpu }), 1)
        } else if row == 7 {
            completed(m.with_cpu(CPU { interruption_enabled: true, ..m.cpu }), 1)
        } else {
            illegal(m, opcode)
        }
    } else if column == 4 {
        if row < 4 {
            let (m1, a16) = m.fetch_word();
            if condition(m1.cpu, row) {
                completed(call(m1, a16), 6)
            } else {
                completed(m1, 3)
            }
        } else {
            illegal(m, opcode)
        }
    } else if column == 5 {
        if row % 2 == 0 {
            completed(m.push(stack_pair(m.cpu, row / 2)), 4)
        } else if row == 1 {
            let (m1, a16) = m.fetch_word();
            completed(call(m1, a16), 6)
        } else {
            illegal(m, opcode)
        }
    } else if column == 6 {
        let (m1, d8) = m.fetch_operand();
        completed(m1.with_cpu(accumulated(m1.cpu, row, d8)), 2)
    } else {
        completed(call(m, (row * 8) as u16), 4)
    }
}

/// The outcome of the instruction `opcode` on the machine `m`, whose program
/// counter stands on the byte after the opcode.
pub open spec fn execute_spec(m: Machine, opcode: u8) -> Outcome {
    if opcode < 0x40 {
        first_quarter(m, opcode)
    } else if opcode < 0x80 {
        load_quarter(m, opcode)
    } else if opcode < 0xC0 {
        accumulator_quarter(m, opcode)
    } else {
        last_quarter(m, opcode)
    }
}


/// The machine after the opcode at the program counter was fetched: the
/// opcode is latched and the program counter stands on the byte after it.
pub open spec fn fetched(m: Machine) -> (Machine, u8) {
    let pc = m.cpu.registers.program_counter;
    let opcode = m.memory.read(pc);
    let registers = CPURegisters {
        address_register: pc,
        data_register: opcode,
        instruction_register: opcode,
        program_counter: pc.wrapping_add(1),
        ..m.cpu.registers
    };
    (m.with_cpu(CPU { registers, ..m.cpu }), opcode)
}

/// One fetch-decode-execute cycle of the machine `m`.
pub open spec fn cycle_spec(m: Machine) -> Outcome {
    execute_spec(fetched(m).0, fetched(m).1)
}

/// The opcode of PUSH for the stack pair `index`.
pub open spec fn push_opcode(index: int) -> u8 {
    (0xC5 + 0x10 * index) as u8
}

/// The opcode of POP for the stack pair `index`.
pub open spec fn pop_opcode(index: int) -> u8 {
    (0xC1 + 0x10 * index) as u8
}

/// The opcode of LD rr,d16 for the pair `index`.
pub open spec fn load_literal_opcode(index: int) -> u8 {
    (0x01 + 0x10 * index) as u8
}

/// PUSH pushes its stack pair.
pub proof fn lemma_push(m: Machine, source: int)
    requires
        0 <= source < 4,
    ensures
        execute_spec(m, push_opcode(source)) == completed(m.push(stack_pair(m.cpu, source)), 4),
{
    reveal(last_quarter);
    let opcode = push_opcode(source);
    if source == 0 {
        assert(opcode == 0xC5 && opcode % 8 == 5 && (opcode - 0xC0) / 8 == 0);
    } else if source == 1 {
        assert(opcode == 0xD5 && opcode % 8 == 5 && (opcode - 0xC0) / 8 == 2);
    } else if source == 2 {
        assert(opcode == 0xE5 && opcode % 8 == 5 && (opcode - 0xC0) / 8 == 4);
    } else {
        assert(opcode == 0xF5 && opcode % 8 == 5 && (opcode - 0xC0) / 8 == 6);
    }
}

/// POP pops a word into its stack pair.
pub proof fn lemma_pop(m: Machine, target: int)
    requires
        0 <= target < 4,
    ensures
        execute_spec(m, pop_opcode(target)) == completed(
            m.pop().0.with_cpu(with_stack_pair(m.pop().0.cpu, target, m.pop().1)),
            3,
        ),
{
    reveal(last_quarter);
    let opcode = pop_opcode(target);
    if target == 0 {
        assert(opcode == 0xC1 && opcode % 8 == 1 && (opcode - 0xC0) / 8 == 0);
    } else if target == 1 {
        assert(opcode == 0xD1 && opcode % 8 == 1 && (opcode - 0xC0) / 8 == 2);
    } else if target == 2 {
        assert(opcode == 0xE1 && opcode % 8 == 1 && (opcode - 0xC0) / 8 == 4);
    } else {
        assert(opcode == 0xF1 && opcode % 8 == 1 && (opcode - 0xC0) / 8 == 6);
    }
}

/// Whether the two bytes below the stack pointer give back the two bytes of
/// `value` once it is pushed.
pub open spec fn reads_back(m: Machine, value: u16) -> bool {
    let sp = m.cpu.registers.stack_pointer;
    let pushed = m.push(value);
    &&& pushed.memory.read(sp.wrapping_sub(1)) == high_byte(value)
    &&& pushed.memory.read(sp.wrapping_sub(2)) == low_byte(value)
}

/// The stack gives back what is pushed where the two bytes below the stack
/// pointer store what is written to them: in video RAM, work RAM and its echo,
/// OAM, and the high page but for the DMA register.
pub proof fn lemma_stack_reads_back(m: Machine, value: u16)
    requires
        m.memory.well_formed(),
        MemoryView::stores(m.cpu.registers.stack_pointer.wrapping_sub(1)),
        MemoryView::stores(m.cpu.registers.stack_pointer.wrapping_sub(2)),
    ensures
        reads_back(m, value),
{
    let sp = m.cpu.registers.stack_pointer;
    let sp1 = sp.wrapping_sub(1);
    let sp2 = sp1.wrapping_sub(1);
    assert(sp2 == sp.wrapping_sub(2));
    let memory1 = m.memory.write(sp1, high_byte(value));
    let memory2 = memory1.write(sp2, low_byte(value));
    assert(m.push(value).memory == memory2);
    lemma_write_keeps_well_formed(m.memory, sp1, high_byte(value));
    lemma_read_after_write(memory1, sp2, low_byte(value));
    lemma_read_after_write(m.memory, sp1, high_byte(value));
    lemma_read_after_write_elsewhere(memory1, sp2, low_byte(value), sp1);
}

/// A word that was pushed is the word that is popped, and the stack pointer
/// is back where it was, where the stack gives back what is pushed.
pub proof fn lemma_pop_after_push(m: Machine, value: u16)
    requires
        reads_back(m, value),
    ensures
        m.push(value).pop().1 == value,
        m.push(value).pop().0.cpu.registers.stack_pointer == m.cpu.registers.stack_pointer,
        m.push(value).cpu.registers.stack_pointer == m.cpu.registers.stack_pointer.wrapping_sub(2),
        m.push(value).pop().0.memory == m.push(value).memory,
{
    let sp = m.cpu.registers.stack_pointer;
    let sp1 = sp.wrapping_sub(1);
    let sp2 = sp1.wrapping_sub(1);
    assert(sp2 == sp.wrapping_sub(2));
    assert(sp2.wrapping_add(1) == sp1);
    assert(sp1.wrapping_add(1) == sp);
    assert(word(high_byte(value), low_byte(value)) == value);
}

/// PUSH of one pair followed at once by POP into a pair gives the second pair
/// the two bytes of the first, and puts the stack pointer back.
///
/// This holds where the stack gives back what is pushed. AF takes a low byte
/// only if its low nibble is zero, as the low byte of AF itself always has.
pub proof fn lemma_push_pop_round_trip(m: Machine, source: int, target: int)
    requires
        0 <= source < 4,
        0 <= target < 4,
        reads_back(m, stack_pair(m.cpu, source)),
        target == 3 ==> stack_pair(m.cpu, source) % 16 == 0,
    ensures
        ({
            let pushed = execute_spec(m, push_opcode(source)).machine;
            let popped = execute_spec(pushed, pop_opcode(target)).machine;
            &&& stack_pair(popped.cpu, target) == stack_pair(m.cpu, source)
            &&& popped.cpu.registers.stack_pointer == m.cpu.registers.stack_pointer
        }),
{
    let value = stack_pair(m.cpu, source);
    lemma_push(m, source);
    lemma_pop(m.push(value), target);
    lemma_pop_after_push(m, value);
    assert(word(high_byte(value), low_byte(value)) == value);
    if target == 3 {
        assert((low_byte(value) / 16) * 16 == low_byte(value));
    }
}

/// LD rr,d16 loads the pair with the literal that follows the opcode, low
/// byte first: reading the pair back gives the literal.
pub proof fn lemma_load_literal_round_trip(m: Machine, index: int)
    requires
        0 <= index < 4,
    ensures
        ({
            let pc = m.cpu.registers.program_counter;
            let literal = word(m.memory.read(pc.wrapping_add(1)), m.memory.read(pc));
            let loaded = execute_spec(m, load_literal_opcode(index));
            &&& pair(loaded.machine.cpu, index) == literal
            &&& loaded.machine.memory == m.memory
            &&& loaded.machine.cpu.registers.program_counter == pc.wrapping_add(2)
            &&& loaded.result == Ok::<usize, Fault>(3)
        }),
{
    reveal(first_quarter);
    let opcode = load_literal_opcode(index);
    if index == 0 {
        assert(opcode == 0x01 && opcode % 8 == 1 && opcode / 8 == 0);
    } else if index == 1 {
        assert(opcode == 0x11 && opcode % 8 == 1 && opcode / 8 == 2);
    } else if index == 2 {
        assert(opcode == 0x21 && opcode % 8 == 1 && opcode / 8 == 4);
    } else {
        assert(opcode == 0x31 && opcode % 8 == 1 && opcode / 8 == 6);
    }
}
proof fn lemma_complement(value: u8)
    by (bit_vector)
    ensures
        !value == 255 - value,
        value & 0xF0 == (value / 16) * 16,
{
}

/// Fetches a 16-bit operand, low byte first.
fn fetch_word(cpu: &mut CPU, memory: &mut Memory) -> (d16: u16)
    ensures
        machine(*final(cpu), *final(memory)) == machine(*old(cpu), *old(memory)).fetch_word().0,
        d16 == machine(*old(cpu), *old(memory)).fetch_word().1,
{
    let lsb: u8 = cpu.fetch_operand(memory);
    let msb: u8 = cpu.fetch_operand(memory);
    bit_operations::endianess(lsb as u16, msb as u16, 8)
}

/// Pushes `value`: SP goes down by one and takes the high byte, goes down by
/// one again and takes the low byte.
fn push_word(cpu: &mut CPU, memory: &mut Memory, value: u16)
    ensures
        machine(*final(cpu), *final(memory)) == machine(*old(cpu), *old(memory)).push(value),
{
    cpu.registers.stack_pointer = cpu.registers.stack_pointer.wrapping_sub(1);
    let high_address: u16 = cpu.registers.stack_pointer;
    cpu.write_data(memory, high_address, bit_operations::msb(value, 8));
    cpu.registers.stack_pointer = cpu.registers.stack_pointer.wrapping_sub(1);
    let low_address: u16 = cpu.registers.stack_pointer;
    cpu.write_data(memory, low_address, bit_operations::lsb(value, 8));
}

/// Pops a word: the low byte is read at SP, the high byte one above, and SP
/// goes up by one after each.
fn pop_word(cpu: &mut CPU, memory: &mut Memory) -> (d16: u16)
    ensures
        machine(*final(cpu), *final(memory)) == machine(*old(cpu), *old(memory)).pop().0,
        d16 == machine(*old(cpu), *old(memory)).pop().1,
{
    let low_address: u16 = cpu.registers.stack_pointer;
    let lsb: u8 = cpu.fetch_data(memory, low_address);
    cpu.registers.stack_pointer = cpu.registers.stack_pointer.wrapping_add(1);
    let high_address: u16 = cpu.registers.stack_pointer;
    let msb: u8 = cpu.fetch_data(memory, high_address);
    cpu.registers.stack_pointer = cpu.registers.stack_pointer.wrapping_add(1);
    bit_operations::endianess(lsb as u16, msb as u16, 8)
}

/// `base` moved by `r8` read as a two's complement number.
fn displaced_address(base: u16, r8: u8) -> (a16: u16)
    ensures
        a16 == displaced(base, r8),
{
    if r8 < 0x80 {
        base.wrapping_add(r8 as u16)
    } else {
        base.wrapping_sub(0x100 - (r8 as u16))
    }
}

/// Moves the program counter by a signed offset.
fn jump_relative(cpu: &mut CPU, r8: u8)
    ensures
        *final(cpu) == old(cpu).with_pc(displaced(old(cpu).registers.program_counter, r8)),
{
    cpu.registers.program_counter = displaced_address(cpu.registers.program_counter, r8);
}

/// The stack pointer moved by a signed offset, with the flags of that sum.
fn displace(sp: u16, r8: u8) -> (r: (u16, u8))
    ensures
        r.0 == displaced(sp, r8),
        r.1 == displacement_flags(sp, r8),
{
    let d16: u16 = displaced_address(sp, r8);
    let half_carry: bool = (sp % 16) + ((r8 % 16) as u16) > 0xF;
    let carry: bool = (sp % 256) + (r8 as u16) > 0xFF;
    (d16, flags::compose(false, false, half_carry, carry))
}

/// ADD HL,rr.
fn add_to_hl(cpu: &mut CPU, value: u16)
    ensures
        *final(cpu) == hl_sum(*old(cpu), value),
{
    let d16_hl: u16 = cpu.address_hl();
    let d16: u16 = d16_hl.wrapping_add(value);
    let zero: bool = flags::zero_set(cpu.registers.r_f);
    let half_carry: bool = (d16_hl % 0x1000) + (value % 0x1000) > 0xFFF;
    let carry: bool = d16_hl > 0xFFFF - value;
    cpu.registers.r_h = bit_operations::msb(d16, 8);
    cpu.registers.r_l = bit_operations::lsb(d16, 8);
    cpu.registers.r_f = flags::compose(zero, false, half_carry, carry);
}

/// DAA: corrects A to two decimal digits after an addition or a subtraction
/// of two such numbers.
fn decimal_adjust(cpu: &mut CPU)
    ensures
        *final(cpu) == decimal_adjusted(*old(cpu)),
{
    let register_flags: u8 = cpu.registers.r_f;
    let register_data: u8 = cpu.registers.r_a;
    let subtract: bool = flags::subtract_set(register_flags);
    let low: bool = flags::half_carry_set(register_flags) || (!subtract && register_data % 16 > 0x09);
    let high: bool = flags::carry_set(register_flags) || (!subtract && register_data > 0x99);
    let mut adjust: u8 = 0x00;
    if high {
        adjust = adjust + 0x60;
    }
    if low {
        adjust = adjust + 0x06;
    }
    let d8: u8 = if subtract {
        register_data.wrapping_sub(adjust)
    } else {
        register_data.wrapping_add(adjust)
    };
    cpu.registers.r_f = flags::compose(d8 == 0, subtract, false, high);
    cpu.registers.r_a = d8;
}

/// The one's complement of `value`.
fn complement(value: u8) -> (r: u8)
    ensures
        r == 255 - value,
{
    proof {
        lemma_complement(value);
    }
    !value
}

/// `value` with its low nibble cleared.
fn upper_nibble(value: u8) -> (r: u8)
    ensures
        r == (value / 16) * 16,
{
    proof {
        lemma_complement(value);
    }
    value & 0xF0
}

/// Executes the instructions 0x00 to 0x07.
fn execute_row_00(cpu: &mut CPU, memory: &mut Memory, opcode: u8) -> (r: Result<usize, Fault>)
    requires
        0x00 <= opcode <= 0x07,
    ensures
        machine(*final(cpu), *final(memory)) == execute_spec(machine(*old(cpu), *old(memory)), opcode).machine,
        r == execute_spec(machine(*old(cpu), *old(memory)), opcode).result,
        r is Err <==> is_illegal(opcode),
        is_illegal(opcode) ==> execute_spec(machine(*old(cpu), *old(memory)), opcode) == illegal(
            machine(*old(cpu), *old(memory)),
            opcode,
        ),
        r matches Ok(cycles) ==> 1 <= cycles <= 6,
        flags::canonical(old(cpu).registers.r_f) ==> flags::canonical(final(cpu).registers.r_f),
        old(cpu).halted ==> final(cpu).halted,
        old(cpu).stopped ==> final(cpu).stopped,
{
    proof {
        reveal(first_quarter);
    }
    assert(opcode / 8 == 0 && opcode % 8 == opcode - 0x00);
    match opcode {
        /* NOP */
        0x00 => {
            Ok(1)
        },
        /* LD BC,d16 */
        0x01 => {
            let d16: u16 = fetch_word(cpu, memory);
            cpu.registers.r_b = bit_operations::msb(d16, 8);
            cpu.registers.r_c = bit_operations::lsb(d16, 8);
            Ok(3)
        },
        /* LD (BC),A */
        0x02 => {
            let a16: u16 = bit_operations::join_words(cpu.registers.r_b as u16, cpu.registers.r_c as u16, 8);
            let d8: u8 = cpu.registers.r_a;
            cpu.write_data(memory, a16, d8);
            Ok(2)
        },
        /* INC BC */
        0x03 => {
            let d16: u16 = bit_operations::join_words(
                cpu.registers.r_b as u16,
                cpu.registers.r_c as u16,
                8,
            ).wrapping_add(1);
            cpu.registers.r_b = bit_operations::msb(d16, 8);
            cpu.registers.r_c = bit_operations::lsb(d16, 8);
            Ok(2)
        },
        /* INC B */
        0x04 => {
            let d8: u8 = cpu.registers.r_b;
            cpu.registers.r_b = crate::hardware::arithmetic::increment(cpu, d8);
            Ok(1)
        },
        /* DEC B */
        0x05 => {
            let d8: u8 = cpu.registers.r_b;
            cpu.registers.r_b = crate::hardware::arithmetic::decrement(cpu, d8);
            Ok(1)
        },
        /* LD B,d8 */
        0x06 => {
            let d8: u8 = cpu.fetch_operand(memory);
            cpu.registers.r_b = d8;
            Ok(2)
        },
        /* RLCA */
        0x07 => {
            let action_pair = bit_operations::rotate_left_carry(cpu.registers.r_a, cpu.registers.r_f);
            // Z is cleared even when the result is zero
            cpu.registers.r_f = flags::compose(false, false, false, flags::carry_set(action_pair.1));
            cpu.registers.r_a = action_pair.0;
            Ok(1)
        },
        // whatever is not listed is no instruction
        _ => Err(Fault::IllegalOpcode { pc: cpu.registers.program_counter.wrapping_sub(1), opcode }),
    }
}

/// Executes the instructions 0x08 to 0x0F.
fn execute_row_08(cpu: &mut CPU, memory: &mut Memory, opcode: u8) -> (r: Result<usize, Fault>)
    requires
        0x08 <= opcode <= 0x0F,
    ensures
        machine(*final(cpu), *final(memory)) == execute_spec(machine(*old(cpu), *old(memory)), opcode).machine,
        r == execute_spec(machine(*old(cpu), *old(memory)), opcode).result,
        r is Err <==> is_illegal(opcode),
        is_illegal(opcode) ==> execute_spec(machine(*old(cpu), *old(memory)), opcode) == illegal(
            machine(*old(cpu), *old(memory)),
            opcode,
        ),
        r matches Ok(cycles) ==> 1 <= cycles <= 6,
        flags::canonical(old(cpu).registers.r_f) ==> flags::canonical(final(cpu).registers.r_f),
        old(cpu).halted ==> final(cpu).halted,
        old(cpu).stopped ==> final(cpu).stopped,
{
    proof {
        reveal(first_quarter);
    }
    assert(opcode / 8 == 1 && opcode % 8 == opcode - 0x08);
    match opcode {
        /* LD (a16),SP */
        0x08 => {
            let a16: u16 = fetch_word(cpu, memory);
            let sp: u16 = cpu.registers.stack_pointer;
            cpu.write_data(memory, a16, bit_operations::lsb(sp, 8));
            cpu.write_data(memory, a16.wrapping_add(1), bit_operations::msb(sp, 8));
            Ok(5)
        },
        /* ADD HL,BC */
        0x09 => {
            let d16: u16 = bit_operations::join_words(cpu.registers.r_b as u16, cpu.registers.r_c as u16, 8);
            add_to_hl(cpu, d16);
            Ok(2)
        },
        /* LD A,(BC) */
        0x0A => {
            let a16: u16 = bit_operations::join_words(cpu.registers.r_b as u16, cpu.registers.r_c as u16, 8);
            let d8: u8 = cpu.fetch_data(memory, a16);
            cpu.registers.r_a = d8;
            Ok(2)
        },
        /* DEC BC */
        0x0B => {
            let d16: u16 = bit_operations::join_words(
                cpu.registers.r_b as u16,
                cpu.registers.r_c as u16,
                8,
            ).wrapping_sub(1);
            cpu.registers.r_b = bit_operations::msb(d16, 8);
            cpu.registers.r_c = bit_operations::lsb(d16, 8);
            Ok(2)
        },
        /* INC C */
        0x0C => {
            let d8: u8 = cpu.registers.r_c;
            cpu.registers.r_c = crate::hardware::arithmetic::increment(cpu, d8);
            Ok(1)
        },
        /* DEC C */
        0x0D => {
            let d8: u8 = cpu.registers.r_c;
            cpu.registers.r_c = crate::hardware::arithmetic::decrement(cpu, d8);
            Ok(1)
        },
        /* LD C,d8 */
        0x0E => {
            let d8: u8 = cpu.fetch_operand(memory);
            cpu.registers.r_c = d8;
            Ok(2)
        },
        /* RRCA */
        0x0F => {
            let action_pair = bit_operations::rotate_right_carry(cpu.registers.r_a, cpu.registers.r_f);
            // Z is cleared even when the result is zero
            cpu.registers.r_f = flags::compose(false, false, false, flags::carry_set(action_pair.1));
            cpu.registers.r_a = action_pair.0;
            Ok(1)
        },
        // whatever is not listed is no instruction
        _ => Err(Fault::IllegalOpcode { pc: cpu.registers.program_counter.wrapping_sub(1), opcode }),
    }
}

/// Executes the instructions 0x10 to 0x17.
fn execute_row_10(cpu: &mut CPU, memory: &mut Memory, opcode: u8) -> (r: Result<usize, Fault>)
    requires
        0x10 <= opcode <= 0x17,
    ensures
        machine(*final(cpu), *final(memory)) == execute_spec(machine(*old(cpu), *old(memory)), opcode).machine,
        r == execute_spec(machine(*old(cpu), *old(memory)), opcode).result,
        r is Err <==> is_illegal(opcode),
        is_illegal(opcode) ==> execute_spec(machine(*old(cpu), *old(memory)), opcode) == illegal(
            machine(*old(cpu), *old(memory)),
            opcode,
        ),
        r matches Ok(cycles) ==> 1 <= cycles <= 6,
        flags::canonical(old(cpu).registers.r_f) ==> flags::canonical(final(cpu).registers.r_f),
        old(cpu).halted ==> final(cpu).halted,
        old(cpu).stopped ==> final(cpu).stopped,
{
    proof {
        reveal(first_quarter);
    }
    assert(opcode / 8 == 2 && opcode % 8 == opcode - 0x10);
    match opcode {
        /* STOP */
        0x10 => {
            cpu.fetch_operand(memory);
            cpu.stopped = true;
            Ok(1)
        },
        /* LD DE,d16 */
        0x11 => {
            let d16: u16 = fetch_word(cpu, memory);
            cpu.registers.r_d = bit_operations::msb(d16, 8);
            cpu.registers.r_e = bit_operations::lsb(d16, 8);
            Ok(3)
        },
        /* LD (DE),A */
        0x12 => {
            let a16: u16 = bit_operations::join_words(cpu.registers.r_d as u16, cpu.registers.r_e as u16, 8);
            let d8: u8 = cpu.registers.r_a;
            cpu.write_data(memory, a16, d8);
            Ok(2)
        },
        /* INC DE */
        0x13 => {
            let d16: u16 = bit_operations::join_words(
                cpu.registers.r_d as u16,
                cpu.registers.r_e as u16,
                8,
            ).wrapping_add(1);
            cpu.registers.r_d = bit_operations::msb(d16, 8);
            cpu.registers.r_e = bit_operations::lsb(d16, 8);
            Ok(2)
        },
        /* INC D */
        0x14 => {
            let d8: u8 = cpu.registers.r_d;
            cpu.registers.r_d = crate::hardware::arithmetic::increment(cpu, d8);
            Ok(1)
        },
        /* DEC D */
        0x15 => {
            let d8: u8 = cpu.registers.r_d;
            cpu.registers.r_d = crate::hardware::arithmetic::decrement(cpu, d8);
            Ok(1)
        },
        /* LD D,d8 */
        0x16 => {
            let d8: u8 = cpu.fetch_operand(memory);
            cpu.registers.r_d = d8;
            Ok(2)
        },
        /* RLA */
        0x17 => {
            let action_pair = bit_operations::rotate_left(cpu.registers.r_a, cpu.registers.r_f);
            // Z is cleared even when the result is zero
            cpu.registers.r_f = flags::compose(false, false, false, flags::carry_set(action_pair.1));
            cpu.registers.r_a = action_pair.0;
            Ok(1)
        },
        // whatever is not listed is no instruction
        _ => Err(Fault::IllegalOpcode { pc: cpu.registers.program_counter.wrapping_sub(1), opcode }),
    }
}

/// Executes the instructions 0x18 to 0x1F.
fn execute_row_18(cpu: &mut CPU, memory: &mut Memory, opcode: u8) -> (r: Result<usize, Fault>)
    requires
        0x18 <= opcode <= 0x1F,
    ensures
        machine(*final(cpu), *final(memory)) == execute_spec(machine(*old(cpu), *old(memory)), opcode).machine,
        r == execute_spec(machine(*old(cpu), *old(memory)), opcode).result,
        r is Err <==> is_illegal(opcode),
        is_illegal(opcode) ==> execute_spec(machine(*old(cpu), *old(memory)), opcode) == illegal(
            machine(*old(cpu), *old(memory)),
            opcode,
        ),
        r matches Ok(cycles) ==> 1 <= cycles <= 6,
        flags::canonical(old(cpu).registers.r_f) ==> flags::canonical(final(cpu).registers.r_f),
        old(cpu).halted ==> final(cpu).halted,
        old(cpu).stopped ==> final(cpu).stopped,
{
    proof {
        reveal(first_quarter);
    }
    assert(opcode / 8 == 3 && opcode % 8 == opcode - 0x18);
    match opcode {
        /* JR r8 */
        0x18 => {
            let r8: u8 = cpu.fetch_operand(memory);
            jump_relative(cpu, r8);
            Ok(3)
        },
        /* ADD HL,DE */
        0x19 => {
            let d16: u16 = bit_operations::join_words(cpu.registers.r_d as u16, cpu.registers.r_e as u16, 8);
            add_to_hl(cpu, d16);
            Ok(2)
        },
        /* LD A,(DE) */
        0x1A => {
            let a16: u16 = bit_operations::join_words(cpu.registers.r_d as u16, cpu.registers.r_e as u16, 8);
            let d8: u8 = cpu.fetch_data(memory, a16);
            cpu.registers.r_a = d8;
            Ok(2)
        },
        /* DEC DE */
        0x1B => {
            let d16: u16 = bit_operations::join_words(
                cpu.registers.r_d as u16,
                cpu.registers.r_e as u16,
                8,
            ).wrapping_sub(1);
            cpu.registers.r_d = bit_operations::msb(d16, 8);
            cpu.registers.r_e = bit_operations::lsb(d16, 8);
            Ok(2)
        },
        /* INC E */
        0x1C => {
            let d8: u8 = cpu.registers.r_e;
            cpu.registers.r_e = crate::hardware::arithmetic::increment(cpu, d8);
            Ok(1)
        },
        /* DEC E */
        0x1D => {
            let d8: u8 = cpu.registers.r_e;
            cpu.registers.r_e = crate::hardware::arithmetic::decrement(cpu, d8);
            Ok(1)
        },
        /* LD E,d8 */
        0x1E => {
            let d8: u8 = cpu.fetch_operand(memory);
            cpu.registers.r_e = d8;
            Ok(2)
        },
        /* RRA */
        0x1F => {
            let action_pair = bit_operations::rotate_right(cpu.registers.r_a, cpu.registers.r_f);
            // Z is cleared even when the result is zero
            cpu.registers.r_f = flags::compose(false, false, false, flags::carry_set(action_pair.1));
            cpu.registers.r_a = action_pair.0;
            Ok(1)
        },
        // whatever is not listed is no instruction
        _ => Err(Fault::IllegalOpcode { pc: cpu.registers.program_counter.wrapping_sub(1), opcode }),
    }
}

/// Executes the instructions 0x20 to 0x27.
fn execute_row_20(cpu: &mut CPU, memory: &mut Memory, opcode: u8) -> (r: Result<usize, Fault>)
    requires
        0x20 <= opcode <= 0x27,
    ensures
        machine(*final(cpu), *final(memory)) == execute_spec(machine(*old(cpu), *old(memory)), opcode).machine,
        r == execute_spec(machine(*old(cpu), *old(memory)), opcode).result,
        r is Err <==> is_illegal(opcode),
        is_illegal(opcode) ==> execute_spec(machine(*old(cpu), *old(memory)), opcode) == illegal(
            machine(*old(cpu), *old(memory)),
            opcode,
        ),
        r matches Ok(cycles) ==> 1 <= cycles <= 6,
        flags::canonical(old(cpu).registers.r_f) ==> flags::canonical(final(cpu).registers.r_f),
        old(cpu).halted ==> final(cpu).halted,
        old(cpu).stopped ==> final(cpu).stopped,
{
    proof {
        reveal(first_quarter);
    }
    assert(opcode / 8 == 4 && opcode % 8 == opcode - 0x20);
    match opcode {
        /* JR NZ,r8 */
        0x20 => {
            let r8: u8 = cpu.fetch_operand(memory);
            if !flags::zero_set(cpu.registers.r_f) {
                jump_relative(cpu, r8);
                Ok(3)
            } else {
                Ok(2)
            }
        },
        /* LD HL,d16 */
        0x21 => {
            let d16: u16 = fetch_word(cpu, memory);
            cpu.registers.r_h = bit_operations::msb(d16, 8);
            cpu.registers.r_l = bit_operations::lsb(d16, 8);
            Ok(3)
        },
        /* LD (HL+),A */
        0x22 => {
            let a16: u16 = bit_operations::join_words(cpu.registers.r_h as u16, cpu.registers.r_l as u16, 8);
            let d8: u8 = cpu.registers.r_a;
            cpu.write_data(memory, a16, d8);
            let d16: u16 = a16.wrapping_add(1);
            cpu.registers.r_h = bit_operations::msb(d16, 8);
            cpu.registers.r_l = bit_operations::lsb(d16, 8);
            Ok(2)
        },
        /* INC HL */
        0x23 => {
            let d16: u16 = bit_operations::join_words(
                cpu.registers.r_h as u16,
                cpu.registers.r_l as u16,
                8,
            ).wrapping_add(1);
            cpu.registers.r_h = bit_operations::msb(d16, 8);
            cpu.registers.r_l = bit_operations::lsb(d16, 8);
            Ok(2)
        },
        /* INC H */
        0x24 => {
            let d8: u8 = cpu.registers.r_h;
            cpu.registers.r_h = crate::hardware::arithmetic::increment(cpu, d8);
            Ok(1)
        },
        /* DEC H */
        0x25 => {
            let d8: u8 = cpu.registers.r_h;
            cpu.registers.r_h = crate::hardware::arithmetic::decrement(cpu, d8);
            Ok(1)
        },
        /* LD H,d8 */
        0x26 => {
            let d8: u8 = cpu.fetch_operand(memory);
            cpu.registers.r_h = d8;
            Ok(2)
        },
        /* DAA */
        0x27 => {
            decimal_adjust(cpu);
            Ok(1)
        },
        // whatever is not listed is no instruction
        _ => Err(Fault::IllegalOpcode { pc: cpu.registers.program_counter.wrapping_sub(1), opcode }),
    }
}

/// Executes the instructions 0x28 to 0x2F.
fn execute_row_28(cpu: &mut CPU, memory: &mut Memory, opcode: u8) -> (r: Result<usize, Fault>)
    requires
        0x28 <= opcode <= 0x2F,
    ensures
        machine(*final(cpu), *final(memory)) == execute_spec(machine(*old(cpu), *old(memory)), opcode).machine,
        r == execute_spec(machine(*old(cpu), *old(memory)), opcode).result,
        r is Err <==> is_illegal(opcode),
        is_illegal(opcode) ==> execute_spec(machine(*old(cpu), *old(memory)), opcode) == illegal(
            machine(*old(cpu), *old(memory)),
            opcode,
        ),
        r matches Ok(cycles) ==> 1 <= cycles <= 6,
        flags::canonical(old(cpu).registers.r_f) ==> flags::canonical(final(cpu).registers.r_f),
        old(cpu).halted ==> final(cpu).halted,
        old(cpu).stopped ==> final(cpu).stopped,
{
    proof {
        reveal(first_quarter);
    }
    assert(opcode / 8 == 5 && opcode % 8 == opcode - 0x28);
    match opcode {
        /* JR Z,r8 */
        0x28 => {
            let r8: u8 = cpu.fetch_operand(memory);
            if flags::zero_set(cpu.registers.r_f) {
                jump_relative(cpu, r8);
                Ok(3)
            } else {
                Ok(2)
            }
        },
        /* ADD HL,HL */
        0x29 => {
            let d16: u16 = bit_operations::join_words(cpu.registers.r_h as u16, cpu.registers.r_l as u16, 8);
            add_to_hl(cpu, d16);
            Ok(2)
        },
        /* LD A,(HL+) */
        0x2A => {
            let a16: u16 = bit_operations::join_words(cpu.registers.r_h as u16, cpu.registers.r_l as u16, 8);
            let d8: u8 = cpu.fetch_data(memory, a16);
            cpu.registers.r_a = d8;
            let d16: u16 = a16.wrapping_add(1);
            cpu.registers.r_h = bit_operations::msb(d16, 8);
            cpu.registers.r_l = bit_operations::lsb(d16, 8);
            Ok(2)
        },
        /* DEC HL */
        0x2B => {
            let d16: u16 = bit_operations::join_words(
                cpu.registers.r_h as u16,
                cpu.registers.r_l as u16,
                8,
            ).wrapping_sub(1);
            cpu.registers.r_h = bit_operations::msb(d16, 8);
            cpu.registers.r_l = bit_operations::lsb(d16, 8);
            Ok(2)
        },
        /* INC L */
        0x2C => {
            let d8: u8 = cpu.registers.r_l;
            cpu.registers.r_l = crate::hardware::arithmetic::increment(cpu, d8);
            Ok(1)
        },
        /* DEC L */
        0x2D => {
            let d8: u8 = cpu.registers.r_l;
            cpu.registers.r_l = crate::hardware::arithmetic::decrement(cpu, d8);
            Ok(1)
        },
        /* LD L,d8 */
        0x2E => {
            let d8: u8 = cpu.fetch_operand(memory);
            cpu.registers.r_l = d8;
            Ok(2)
        },
        /* CPL */
        0x2F => {
            let zero: bool = flags::zero_set(cpu.registers.r_f);
            let carry: bool = flags::carry_set(cpu.registers.r_f);
            cpu.registers.r_a = complement(cpu.registers.r_a);
            cpu.registers.r_f = flags::compose(zero, true, true, carry);
            Ok(1)
        },
        // whatever is not listed is no instruction
        _ => Err(Fault::IllegalOpcode { pc: cpu.registers.program_counter.wrapping_sub(1), opcode }),
    }
}

/// Executes the instructions 0x30 to 0x37.
fn execute_row_30(cpu: &mut CPU, memory: &mut Memory, opcode: u8) -> (r: Result<usize, Fault>)
    requires
        0x30 <= opcode <= 0x37,
    ensures
        machine(*final(cpu), *final(memory)) == execute_spec(machine(*old(cpu), *old(memory)), opcode).machine,
        r == execute_spec(machine(*old(cpu), *old(memory)), opcode).result,
        r is Err <==> is_illegal(opcode),
        is_illegal(opcode) ==> execute_spec(machine(*old(cpu), *old(memory)), opcode) == illegal(
            machine(*old(cpu), *old(memory)),
            opcode,
        ),
        r matches Ok(cycles) ==> 1 <= cycles <= 6,
        flags::canonical(old(cpu).registers.r_f) ==> flags::canonical(final(cpu).registers.r_f),
        old(cpu).halted ==> final(cpu).halted,
        old(cpu).stopped ==> final(cpu).stopped,
{
    proof {
        reveal(first_quarter);
    }
    assert(opcode / 8 == 6 && opcode % 8 == opcode - 0x30);
    match opcode {
        /* JR NC,r8 */
        0x30 => {
            let r8: u8 = cpu.fetch_operand(memory);
            if !flags::carry_set(cpu.registers.r_f) {
                jump_relative(cpu, r8);
                Ok(3)
            } else {
                Ok(2)
            }
        },
        /* LD SP,d16 */
        0x31 => {
            let d16: u16 = fetch_word(cpu, memory);
            cpu.registers.stack_pointer = d16;
            Ok(3)
        },
        /* LD (HL-),A */
        0x32 => {
            let a16: u16 = bit_operations::join_words(cpu.registers.r_h as u16, cpu.registers.r_l as u16, 8);
            let d8: u8 = cpu.registers.r_a;
            cpu.write_data(memory, a16, d8);
            let d16: u16 = a16.wrapping_sub(1);
            cpu.registers.r_h = bit_operations::msb(d16, 8);
            cpu.registers.r_l = bit_operations::lsb(d16, 8);
            Ok(2)
        },
        /* INC SP */
        0x33 => {
            cpu.registers.stack_pointer = cpu.registers.stack_pointer.wrapping_add(1);
            Ok(2)
        },
        /* INC (HL) */
        0x34 => {
            let a16_hl: u16 = bit_operations::join_words(cpu.registers.r_h as u16, cpu.registers.r_l as u16, 8);
            let d8: u8 = cpu.fetch_data(memory, a16_hl);
            let result_d8: u8 = crate::hardware::arithmetic::increment(cpu, d8);
            cpu.write_data(memory, a16_hl, result_d8);
            Ok(3)
        },
        /* DEC (HL) */
        0x35 => {
            let a16_hl: u16 = bit_operations::join_words(cpu.registers.r_h as u16, cpu.registers.r_l as u16, 8);
            let d8: u8 = cpu.fetch_data(memory, a16_hl);
            let result_d8: u8 = crate::hardware::arithmetic::decrement(cpu, d8);
            cpu.write_data(memory, a16_hl, result_d8);
            Ok(3)
        },
        /* LD (HL),d8 */
        0x36 => {
            let d8: u8 = cpu.fetch_operand(memory);
            let a16_hl: u16 = bit_operations::join_words(cpu.registers.r_h as u16, cpu.registers.r_l as u16, 8);
            cpu.write_data(memory, a16_hl, d8);
            Ok(3)
        },
        /* SCF */
        0x37 => {
            let zero: bool = flags::zero_set(cpu.registers.r_f);
            cpu.registers.r_f = flags::compose(zero, false, false, true);
            Ok(1)
        },
        // whatever is not listed is no instruction
        _ => Err(Fault::IllegalOpcode { pc: cpu.registers.program_counter.wrapping_sub(1), opcode }),
    }
}

/// Executes the instructions 0x38 to 0x3F.
fn execute_row_38(cpu: &mut CPU, memory: &mut Memory, opcode: u8) -> (r: Result<usize, Fault>)
    requires
        0x38 <= opcode <= 0x3F,
    ensures
        machine(*final(cpu), *final(memory)) == execute_spec(machine(*old(cpu), *old(memory)), opcode).machine,
        r == execute_spec(machine(*old(cpu), *old(memory)), opcode).result,
        r is Err <==> is_illegal(opcode),
        is_illegal(opcode) ==> execute_spec(machine(*old(cpu), *old(memory)), opcode) == illegal(
            machine(*old(cpu), *old(memory)),
            opcode,
        ),
        r matches Ok(cycles) ==> 1 <= cycles <= 6,
        flags::canonical(old(cpu).registers.r_f) ==> flags::canonical(final(cpu).registers.r_f),
        old(cpu).halted ==> final(cpu).halted,
        old(cpu).stopped ==> final(cpu).stopped,
{
    proof {
        reveal(first_quarter);
    }
    assert(opcode / 8 == 7 && opcode % 8 == opcode - 0x38);
    match opcode {
        /* JR C,r8 */
        0x38 => {
            let r8: u8 = cpu.fetch_operand(memory);
            if flags::carry_set(cpu.registers.r_f) {
                jump_relative(cpu, r8);
                Ok(3)
            } else {
                Ok(2)
            }
        },
        /* ADD HL,SP */
        0x39 => {
            let d16: u16 = cpu.registers.stack_pointer;
            add_to_hl(cpu, d16);
            Ok(2)
        },
        /* LD A,(HL-) */
        0x3A => {
            let a16: u16 = bit_operations::join_words(cpu.registers.r_h as u16, cpu.registers.r_l as u16, 8);
            let d8: u8 = cpu.fetch_data(memory, a16);
            cpu.registers.r_a = d8;
            let d16: u16 = a16.wrapping_sub(1);
            cpu.registers.r_h = bit_operations::msb(d16, 8);
            cpu.registers.r_l = bit_operations::lsb(d16, 8);
            Ok(2)
        },
        /* DEC SP */
        0x3B => {
            cpu.registers.stack_pointer = cpu.registers.stack_pointer.wrapping_sub(1);
            Ok(2)
        },
        /* INC A */
        0x3C => {
            let d8: u8 = cpu.registers.r_a;
            cpu.registers.r_a = crate::hardware::arithmetic::increment(cpu, d8);
            Ok(1)
        },
        /* DEC A */
        0x3D => {
            let d8: u8 = cpu.registers.r_a;
            cpu.registers.r_a = crate::hardware::arithmetic::decrement(cpu, d8);
            Ok(1)
        },
        /* LD A,d8 */
        0x3E => {
            let d8: u8 = cpu.fetch_operand(memory);
            cpu.registers.r_a = d8;
            Ok(2)
        },
        /* CCF */
        0x3F => {
            let zero: bool = flags::zero_set(cpu.registers.r_f);
            let carry: bool = flags::carry_set(cpu.registers.r_f);
            cpu.registers.r_f = flags::compose(zero, false, false, !carry);
            Ok(1)
        },
        // whatever is not listed is no instruction
        _ => Err(Fault::IllegalOpcode { pc: cpu.registers.program_counter.wrapping_sub(1), opcode }),
    }
}

/// Executes a load between two operands, or HALT.
fn execute_load_quarter(cpu: &mut CPU, memory: &mut Memory, opcode: u8) -> (r: Result<usize, Fault>)
    requires
        0x40 <= opcode < 0x80,
    ensures
        machine(*final(cpu), *final(memory)) == execute_spec(machine(*old(cpu), *old(memory)), opcode).machine,
        r == execute_spec(machine(*old(cpu), *old(memory)), opcode).result,
        r is Err <==> is_illegal(opcode),
        is_illegal(opcode) ==> execute_spec(machine(*old(cpu), *old(memory)), opcode) == illegal(
            machine(*old(cpu), *old(memory)),
            opcode,
        ),
        r matches Ok(cycles) ==> 1 <= cycles <= 6,
        flags::canonical(old(cpu).registers.r_f) ==> flags::canonical(final(cpu).registers.r_f),
        old(cpu).halted ==> final(cpu).halted,
        old(cpu).stopped ==> final(cpu).stopped,
{
    proof {
        reveal(load_quarter);
    }
    if opcode == 0x76 {
        /* HALT */
        cpu.halted = true;
        return Ok(1);
    }
    let source: u8 = opcode % 8;
    let target: u8 = (opcode - 0x40) / 8;
    let d8: u8 = cpu.read_operand(memory, source);
    cpu.write_operand(memory, target, d8);
    if source == 0x06 || target == 0x06 {
        Ok(2)
    } else {
        Ok(1)
    }
}

/// Executes an accumulator operation on a register or on the byte at HL.
fn execute_accumulator_quarter(cpu: &mut CPU, memory: &mut Memory, opcode: u8) -> (r: Result<usize, Fault>)
    requires
        0x80 <= opcode < 0xC0,
    ensures
        machine(*final(cpu), *final(memory)) == execute_spec(machine(*old(cpu), *old(memory)), opcode).machine,
        r == execute_spec(machine(*old(cpu), *old(memory)), opcode).result,
        r is Err <==> is_illegal(opcode),
        is_illegal(opcode) ==> execute_spec(machine(*old(cpu), *old(memory)), opcode) == illegal(
            machine(*old(cpu), *old(memory)),
            opcode,
        ),
        r matches Ok(cycles) ==> 1 <= cycles <= 6,
        flags::canonical(old(cpu).registers.r_f) ==> flags::canonical(final(cpu).registers.r_f),
        old(cpu).halted ==> final(cpu).halted,
        old(cpu).stopped ==> final(cpu).stopped,
{
    proof {
        reveal(accumulator_quarter);
    }
    let d8: u8 = cpu.read_operand(memory, opcode % 8);
    match opcode {
        /* ADD A,r/(HL) */
        0x80..=0x87 => {
            crate::hardware::arithmetic::add(cpu, d8);
        },
        /* ADC A,r/(HL) */
        0x88..=0x8F => {
            crate::hardware::arithmetic::add_carry(cpu, d8);
        },
        /* SUB r/(HL) */
        0x90..=0x97 => {
            crate::hardware::arithmetic::sub(cpu, d8);
        },
        /* SBC A,r/(HL) */
        0x98..=0x9F => {
            crate::hardware::arithmetic::sub_carry(cpu, d8);
        },
        /* AND r/(HL) */
        0xA0..=0xA7 => {
            crate::hardware::arithmetic::and(cpu, d8);
        },
        /* XOR r/(HL) */
        0xA8..=0xAF => {
            crate::hardware::arithmetic::xor(cpu, d8);
        },
        /* OR r/(HL) */
        0xB0..=0xB7 => {
            crate::hardware::arithmetic::or(cpu, d8);
        },
        /* CP r/(HL) */
        0xB8..=0xBF => {
            crate::hardware::arithmetic::compare(cpu, d8);
        },
        _ => {},
    }
    Ok(2)
}

/// Executes the instructions 0xC0 to 0xC7.
fn execute_row_c0(cpu: &mut CPU, memory: &mut Memory, opcode: u8) -> (r: Result<usize, Fault>)
    requires
        0xC0 <= opcode <= 0xC7,
    ensures
        machine(*final(cpu), *final(memory)) == execute_spec(machine(*old(cpu), *old(memory)), opcode).machine,
        r == execute_spec(machine(*old(cpu), *old(memory)), opcode).result,
        r is Err <==> is_illegal(opcode),
        is_illegal(opcode) ==> execute_spec(machine(*old(cpu), *old(memory)), opcode) == illegal(
            machine(*old(cpu), *old(memory)),
            opcode,
        ),
        r matches Ok(cycles) ==> 1 <= cycles <= 6,
        flags::canonical(old(cpu).registers.r_f) ==> flags::canonical(final(cpu).registers.r_f),
        old(cpu).halted ==> final(cpu).halted,
        old(cpu).stopped ==> final(cpu).stopped,
{
    proof {
        reveal(last_quarter);
    }
    assert((opcode - 0xC0) / 8 == 0 && opcode % 8 == opcode - 0xC0);
    match opcode {
        /* RET NZ */
        0xC0 => {
            if !flags::zero_set(cpu.registers.r_f) {
                let a16: u16 = pop_word(cpu, memory);
                cpu.registers.program_counter = a16;
                Ok(5)
            } else {
                Ok(2)
            }
        },
        /* POP BC */
        0xC1 => {
            let d16: u16 = pop_word(cpu, memory);
            cpu.registers.r_b = bit_operations::msb(d16, 8);
            cpu.registers.r_c = bit_operations::lsb(d16, 8);
            Ok(3)
        },
        /* JP NZ,a16 */
        0xC2 => {
            let a16: u16 = fetch_word(cpu, memory);
            if !flags::zero_set(cpu.registers.r_f) {
                cpu.registers.program_counter = a16;
                Ok(4)
            } else {
                Ok(3)
            }
        },
        /* JP a16 */
        0xC3 => {
            let a16: u16 = fetch_word(cpu, memory);
            cpu.registers.program_counter = a16;
            Ok(4)
        },
        /* CALL NZ,a16 */
        0xC4 => {
            let a16: u16 = fetch_word(cpu, memory);
            if !flags::zero_set(cpu.registers.r_f) {
                let return_address: u16 = cpu.registers.program_counter;
                push_word(cpu, memory, return_address);
                cpu.registers.program_counter = a16;
                Ok(6)
            } else {
                Ok(3)
            }
        },
        /* PUSH BC */
        0xC5 => {
            let d16: u16 = bit_operations::join_words(cpu.registers.r_b as u16, cpu.registers.r_c as u16, 8);
            push_word(cpu, memory, d16);
            Ok(4)
        },
        /* ADD A,d8 */
        0xC6 => {
            let d8: u8 = cpu.fetch_operand(memory);
            crate::hardware::arithmetic::add(cpu, d8);
            Ok(2)
        },
        /* RST 00H */
        0xC7 => {
            let a16: u16 = 0x0000;
            let return_address: u16 = cpu.registers.program_counter;
            push_word(cpu, memory, return_address);
            cpu.registers.program_counter = a16;
            Ok(4)
        },
        // whatever is not listed is no instruction
        _ => Err(Fault::IllegalOpcode { pc: cpu.registers.program_counter.wrapping_sub(1), opcode }),
    }
}

/// Executes the instructions 0xC8 to 0xCF.
fn execute_row_c8(cpu: &mut CPU, memory: &mut Memory, opcode: u8) -> (r: Result<usize, Fault>)
    requires
        0xC8 <= opcode <= 0xCF,
    ensures
        machine(*final(cpu), *final(memory)) == execute_spec(machine(*old(cpu), *old(memory)), opcode).machine,
        r == execute_spec(machine(*old(cpu), *old(memory)), opcode).result,
        r is Err <==> is_illegal(opcode),
        is_illegal(opcode) ==> execute_spec(machine(*old(cpu), *old(memory)), opcode) == illegal(
            machine(*old(cpu), *old(memory)),
            opcode,
        ),
        r matches Ok(cycles) ==> 1 <= cycles <= 6,
        flags::canonical(old(cpu).registers.r_f) ==> flags::canonical(final(cpu).registers.r_f),
        old(cpu).halted ==> final(cpu).halted,
        old(cpu).stopped ==> final(cpu).stopped,
{
    proof {
        reveal(last_quarter);
    }
    assert((opcode - 0xC0) / 8 == 1 && opcode % 8 == opcode - 0xC8);
    match opcode {
        /* RET Z */
        0xC8 => {
            if flags::zero_set(cpu.registers.r_f) {
                let a16: u16 = pop_word(cpu, memory);
                cpu.registers.program_counter = a16;
                Ok(5)
            } else {
                Ok(2)
            }
        },
        /* RET */
        0xC9 => {
            let a16: u16 = pop_word(cpu, memory);
            cpu.registers.program_counter = a16;
            Ok(4)
        },
        /* JP Z,a16 */
        0xCA => {
            let a16: u16 = fetch_word(cpu, memory);
            if flags::zero_set(cpu.registers.r_f) {
                cpu.registers.program_counter = a16;
                Ok(4)
            } else {
                Ok(3)
            }
        },
        /* PREFIX CB */
        0xCB => {
            let prefixed: u8 = cpu.fetch_operand(memory);
            Ok(instruction_subset::execute(cpu, memory, prefixed))
        },
        /* CALL Z,a16 */
        0xCC => {
            let a16: u16 = fetch_word(cpu, memory);
            if flags::zero_set(cpu.registers.r_f) {
                let return_address: u16 = cpu.registers.program_counter;
                push_word(cpu, memory, return_address);
                cpu.registers.program_counter = a16;
                Ok(6)
            } else {
                Ok(3)
            }
        },
        /* CALL a16 */
        0xCD => {
            let a16: u16 = fetch_word(cpu, memory);
            let return_address: u16 = cpu.registers.program_counter;
            push_word(cpu, memory, return_address);
            cpu.registers.program_counter = a16;
            Ok(6)
        },
        /* ADC A,d8 */
        0xCE => {
            let d8: u8 = cpu.fetch_operand(memory);
            crate::hardware::arithmetic::add_carry(cpu, d8);
            Ok(2)
        },
        /* RST 08H */
        0xCF => {
            let a16: u16 = 0x0008;
            let return_address: u16 = cpu.registers.program_counter;
            push_word(cpu, memory, return_address);
            cpu.registers.program_counter = a16;
            Ok(4)
        },
        // whatever is not listed is no instruction
        _ => Err(Fault::IllegalOpcode { pc: cpu.registers.program_counter.wrapping_sub(1), opcode }),
    }
}

/// Executes the instructions 0xD0 to 0xD7.
fn execute_row_d0(cpu: &mut CPU, memory: &mut Memory, opcode: u8) -> (r: Result<usize, Fault>)
    requires
        0xD0 <= opcode <= 0xD7,
    ensures
        machine(*final(cpu), *final(memory)) == execute_spec(machine(*old(cpu), *old(memory)), opcode).machine,
        r == execute_spec(machine(*old(cpu), *old(memory)), opcode).result,
        r is Err <==> is_illegal(opcode),
        is_illegal(opcode) ==> execute_spec(machine(*old(cpu), *old(memory)), opcode) == illegal(
            machine(*old(cpu), *old(memory)),
            opcode,
        ),
        r matches Ok(cycles) ==> 1 <= cycles <= 6,
        flags::canonical(old(cpu).registers.r_f) ==> flags::canonical(final(cpu).registers.r_f),
        old(cpu).halted ==> final(cpu).halted,
        old(cpu).stopped ==> final(cpu).stopped,
{
    proof {
        reveal(last_quarter);
    }
    assert((opcode - 0xC0) / 8 == 2 && opcode % 8 == opcode - 0xD0);
    match opcode {
        /* RET NC */
        0xD0 => {
            if !flags::carry_set(cpu.registers.r_f) {
                let a16: u16 = pop_word(cpu, memory);
                cpu.registers.program_counter = a16;
                Ok(5)
            } else {
                Ok(2)
            }
        },
        /* POP DE */
        0xD1 => {
            let d16: u16 = pop_word(cpu, memory);
            cpu.registers.r_d = bit_operations::msb(d16, 8);
            cpu.registers.r_e = bit_operations::lsb(d16, 8);
            Ok(3)
        },
        /* JP NC,a16 */
        0xD2 => {
            let a16: u16 = fetch_word(cpu, memory);
            if !flags::carry_set(cpu.registers.r_f) {
                cpu.registers.program_counter = a16;
                Ok(4)
            } else {
                Ok(3)
            }
        },
        /* CALL NC,a16 */
        0xD4 => {
            let a16: u16 = fetch_word(cpu, memory);
            if !flags::carry_set(cpu.registers.r_f) {
                let return_address: u16 = cpu.registers.program_counter;
                push_word(cpu, memory, return_address);
                cpu.registers.program_counter = a16;
                Ok(6)
            } else {
                Ok(3)
            }
        },
        /* PUSH DE */
        0xD5 => {
            let d16: u16 = bit_operations::join_words(cpu.registers.r_d as u16, cpu.registers.r_e as u16, 8);
            push_word(cpu, memory, d16);
            Ok(4)
        },
        /* SUB d8 */
        0xD6 => {
            let d8: u8 = cpu.fetch_operand(memory);
            crate::hardware::arithmetic::sub(cpu, d8);
            Ok(2)
        },
        /* RST 10H */
        0xD7 => {
            let a16: u16 = 0x0010;
            let return_address: u16 = cpu.registers.program_counter;
            push_word(cpu, memory, return_address);
            cpu.registers.program_counter = a16;
            Ok(4)
        },
        // whatever is not listed is no instruction
        _ => Err(Fault::IllegalOpcode { pc: cpu.registers.program_counter.wrapping_sub(1), opcode }),
    }
}

/// Executes the instructions 0xD8 to 0xDF.
fn execute_row_d8(cpu: &mut CPU, memory: &mut Memory, opcode: u8) -> (r: Result<usize, Fault>)
    requires
        0xD8 <= opcode <= 0xDF,
    ensures
        machine(*final(cpu), *final(memory)) == execute_spec(machine(*old(cpu), *old(memory)), opcode).machine,
        r == execute_spec(machine(*old(cpu), *old(memory)), opcode).result,
        r is Err <==> is_illegal(opcode),
        is_illegal(opcode) ==> execute_spec(machine(*old(cpu), *old(memory)), opcode) == illegal(
            machine(*old(cpu), *old(memory)),
            opcode,
        ),
        r matches Ok(cycles) ==> 1 <= cycles <= 6,
        flags::canonical(old(cpu).registers.r_f) ==> flags::canonical(final(cpu).registers.r_f),
        old(cpu).halted ==> final(cpu).halted,
        old(cpu).stopped ==> final(cpu).stopped,
{
    proof {
        reveal(last_quarter);
    }
    assert((opcode - 0xC0) / 8 == 3 && opcode % 8 == opcode - 0xD8);
    match opcode {
        /* RET C */
        0xD8 => {
            if flags::carry_set(cpu.registers.r_f) {
                let a16: u16 = pop_word(cpu, memory);
                cpu.registers.program_counter = a16;
                Ok(5)
            } else {
                Ok(2)
            }
        },
        /* RETI */
        0xD9 => {
            cpu.interruption_enabled = true;
            let a16: u16 = pop_word(cpu, memory);
            cpu.registers.program_counter = a16;
            Ok(4)
        },
        /* JP C,a16 */
        0xDA => {
            let a16: u16 = fetch_word(cpu, memory);
            if flags::carry_set(cpu.registers.r_f) {
                cpu.registers.program_counter = a16;
                Ok(4)
            } else {
                Ok(3)
            }
        },
        /* CALL C,a16 */
        0xDC => {
            let a16: u16 = fetch_word(cpu, memory);
            if flags::carry_set(cpu.registers.r_f) {
                let return_address: u16 = cpu.registers.program_counter;
                push_word(cpu, memory, return_address);
                cpu.registers.program_counter = a16;
                Ok(6)
            } else {
                Ok(3)
            }
        },
        /* SBC A,d8 */
        0xDE => {
            let d8: u8 = cpu.fetch_operand(memory);
            crate::hardware::arithmetic::sub_carry(cpu, d8);
            Ok(2)
        },
        /* RST 18H */
        0xDF => {
            let a16: u16 = 0x0018;
            let return_address: u16 = cpu.registers.program_counter;
            push_word(cpu, memory, return_address);
            cpu.registers.program_counter = a16;
            Ok(4)
        },
        // whatever is not listed is no instruction
        _ => Err(Fault::IllegalOpcode { pc: cpu.registers.program_counter.wrapping_sub(1), opcode }),
    }
}

/// Executes the instructions 0xE0 to 0xE7.
fn execute_row_e0(cpu: &mut CPU, memory: &mut Memory, opcode: u8) -> (r: Result<usize, Fault>)
    requires
        0xE0 <= opcode <= 0xE7,
    ensures
        machine(*final(cpu), *final(memory)) == execute_spec(machine(*old(cpu), *old(memory)), opcode).machine,
        r == execute_spec(machine(*old(cpu), *old(memory)), opcode).result,
        r is Err <==> is_illegal(opcode),
        is_illegal(opcode) ==> execute_spec(machine(*old(cpu), *old(memory)), opcode) == illegal(
            machine(*old(cpu), *old(memory)),
            opcode,
        ),
        r matches Ok(cycles) ==> 1 <= cycles <= 6,
        flags::canonical(old(cpu).registers.r_f) ==> flags::canonical(final(cpu).registers.r_f),
        old(cpu).halted ==> final(cpu).halted,
        old(cpu).stopped ==> final(cpu).stopped,
{
    proof {
        reveal(last_quarter);
    }
    assert((opcode - 0xC0) / 8 == 4 && opcode % 8 == opcode - 0xE0);
    match opcode {
        /* LD (a8),A */
        0xE0 => {
            let a8: u8 = cpu.fetch_operand(memory);
            let a16: u16 = 0xFF00 + (a8 as u16);
            let d8: u8 = cpu.registers.r_a;
            cpu.write_data(memory, a16, d8);
            Ok(3)
        },
        /* POP HL */
        0xE1 => {
            let d16: u16 = pop_word(cpu, memory);
            cpu.registers.r_h = bit_operations::msb(d16, 8);
            cpu.registers.r_l = bit_operations::lsb(d16, 8);
            Ok(3)
        },
        /* LD (C),A */
        0xE2 => {
            let a16: u16 = 0xFF00 + (cpu.registers.r_c as u16);
            let d8: u8 = cpu.registers.r_a;
            cpu.write_data(memory, a16, d8);
            Ok(2)
        },
        /* PUSH HL */
        0xE5 => {
            let d16: u16 = bit_operations::join_words(cpu.registers.r_h as u16, cpu.registers.r_l as u16, 8);
            push_word(cpu, memory, d16);
            Ok(4)
        },
        /* AND d8 */
        0xE6 => {
            let d8: u8 = cpu.fetch_operand(memory);
            crate::hardware::arithmetic::and(cpu, d8);
            Ok(2)
        },
        /* RST 20H */
        0xE7 => {
            let a16: u16 = 0x0020;
            let return_address: u16 = cpu.registers.program_counter;
            push_word(cpu, memory, return_address);
            cpu.registers.program_counter = a16;
            Ok(4)
        },
        // whatever is not listed is no instruction
        _ => Err(Fault::IllegalOpcode { pc: cpu.registers.program_counter.wrapping_sub(1), opcode }),
    }
}

/// Executes the instructions 0xE8 to 0xEF.
fn execute_row_e8(cpu: &mut CPU, memory: &mut Memory, opcode: u8) -> (r: Result<usize, Fault>)
    requires
        0xE8 <= opcode <= 0xEF,
    ensures
        machine(*final(cpu), *final(memory)) == execute_spec(machine(*old(cpu), *old(memory)), opcode).machine,
        r == execute_spec(machine(*old(cpu), *old(memory)), opcode).result,
        r is Err <==> is_illegal(opcode),
        is_illegal(opcode) ==> execute_spec(machine(*old(cpu), *old(memory)), opcode) == illegal(
            machine(*old(cpu), *old(memory)),
            opcode,
        ),
        r matches Ok(cycles) ==> 1 <= cycles <= 6,
        flags::canonical(old(cpu).registers.r_f) ==> flags::canonical(final(cpu).registers.r_f),
        old(cpu).halted ==> final(cpu).halted,
        old(cpu).stopped ==> final(cpu).stopped,
{
    proof {
        reveal(last_quarter);
    }
    assert((opcode - 0xC0) / 8 == 5 && opcode % 8 == opcode - 0xE8);
    match opcode {
        /* ADD SP,r8 */
        0xE8 => {
            let r8: u8 = cpu.fetch_operand(memory);
            let action_pair = displace(cpu.registers.stack_pointer, r8);
            cpu.registers.stack_pointer = action_pair.0;
            cpu.registers.r_f = action_pair.1;
            Ok(4)
        },
        /* JP (HL) */
        0xE9 => {
            let a16: u16 = bit_operations::join_words(cpu.registers.r_h as u16, cpu.registers.r_l as u16, 8);
            cpu.registers.program_counter = a16;
            Ok(1)
        },
        /* LD (a16),A */
        0xEA => {
            let a16: u16 = fetch_word(cpu, memory);
            let d8: u8 = cpu.registers.r_a;
            cpu.write_data(memory, a16, d8);
            Ok(4)
        },
        /* XOR d8 */
        0xEE => {
            let d8: u8 = cpu.fetch_operand(memory);
            crate::hardware::arithmetic::xor(cpu, d8);
            Ok(2)
        },
        /* RST 28H */
        0xEF => {
            let a16: u16 = 0x0028;
            let return_address: u16 = cpu.registers.program_counter;
            push_word(cpu, memory, return_address);
            cpu.registers.program_counter = a16;
            Ok(4)
        },
        // whatever is not listed is no instruction
        _ => Err(Fault::IllegalOpcode { pc: cpu.registers.program_counter.wrapping_sub(1), opcode }),
    }
}

/// Executes the instructions 0xF0 to 0xF7.
fn execute_row_f0(cpu: &mut CPU, memory: &mut Memory, opcode: u8) -> (r: Result<usize, Fault>)
    requires
        0xF0 <= opcode <= 0xF7,
    ensures
        machine(*final(cpu), *final(memory)) == execute_spec(machine(*old(cpu), *old(memory)), opcode).machine,
        r == execute_spec(machine(*old(cpu), *old(memory)), opcode).result,
        r is Err <==> is_illegal(opcode),
        is_illegal(opcode) ==> execute_spec(machine(*old(cpu), *old(memory)), opcode) == illegal(
            machine(*old(cpu), *old(memory)),
            opcode,
        ),
        r matches Ok(cycles) ==> 1 <= cycles <= 6,
        flags::canonical(old(cpu).registers.r_f) ==> flags::canonical(final(cpu).registers.r_f),
        old(cpu).halted ==> final(cpu).halted,
        old(cpu).stopped ==> final(cpu).stopped,
{
    proof {
        reveal(last_quarter);
    }
    assert((opcode - 0xC0) / 8 == 6 && opcode % 8 == opcode - 0xF0);
    match opcode {
        /* LD A,(a8) */
        0xF0 => {
            let a8: u8 = cpu.fetch_operand(memory);
            let a16: u16 = 0xFF00 + (a8 as u16);
            cpu.registers.r_a = cpu.fetch_data(memory, a16);
            Ok(3)
        },
        /* POP AF */
        0xF1 => {
            let d16: u16 = pop_word(cpu, memory);
            cpu.registers.r_a = bit_operations::msb(d16, 8);
            // the low nibble of F is always zero
            cpu.registers.r_f = upper_nibble(bit_operations::lsb(d16, 8));
            Ok(3)
        },
        /* LD A,(C) */
        0xF2 => {
            let a16: u16 = 0xFF00 + (cpu.registers.r_c as u16);
            cpu.registers.r_a = cpu.fetch_data(memory, a16);
            Ok(2)
        },
        /* DI */
        0xF3 => {
            cpu.interruption_enabled = false;
            Ok(1)
        },
        /* PUSH AF */
        0xF5 => {
            let d16: u16 = bit_operations::join_words(cpu.registers.r_a as u16, cpu.registers.r_f as u16, 8);
            push_word(cpu, memory, d16);
            Ok(4)
        },
        /* OR d8 */
        0xF6 => {
            let d8: u8 = cpu.fetch_operand(memory);
            crate::hardware::arithmetic::or(cpu, d8);
            Ok(2)
        },
        /* RST 30H */
        0xF7 => {
            let a16: u16 = 0x0030;
            let return_address: u16 = cpu.registers.program_counter;
            push_word(cpu, memory, return_address);
            cpu.registers.program_counter = a16;
            Ok(4)
        },
        // whatever is not listed is no instruction
        _ => Err(Fault::IllegalOpcode { pc: cpu.registers.program_counter.wrapping_sub(1), opcode }),
    }
}

/// Executes the instructions 0xF8 to 0xFF.
fn execute_row_f8(cpu: &mut CPU, memory: &mut Memory, opcode: u8) -> (r: Result<usize, Fault>)
    requires
        0xF8 <= opcode <= 0xFF,
    ensures
        machine(*final(cpu), *final(memory)) == execute_spec(machine(*old(cpu), *old(memory)), opcode).machine,
        r == execute_spec(machine(*old(cpu), *old(memory)), opcode).result,
        r is Err <==> is_illegal(opcode),
        is_illegal(opcode) ==> execute_spec(machine(*old(cpu), *old(memory)), opcode) == illegal(
            machine(*old(cpu), *old(memory)),
            opcode,
        ),
        r matches Ok(cycles) ==> 1 <= cycles <= 6,
        flags::canonical(old(cpu).registers.r_f) ==> flags::canonical(final(cpu).registers.r_f),
        old(cpu).halted ==> final(cpu).halted,
        old(cpu).stopped ==> final(cpu).stopped,
{
    proof {
        reveal(last_quarter);
    }
    assert((opcode - 0xC0) / 8 == 7 && opcode % 8 == opcode - 0xF8);
    match opcode {
        /* LD HL,SP+r8 */
        0xF8 => {
            let r8: u8 = cpu.fetch_operand(memory);
            let action_pair = displace(cpu.registers.stack_pointer, r8);
            cpu.registers.r_h = bit_operations::msb(action_pair.0, 8);
            cpu.registers.r_l = bit_operations::lsb(action_pair.0, 8);
            cpu.registers.r_f = action_pair.1;
            Ok(3)
        },
        /* LD SP,HL */
        0xF9 => {
            cpu.registers.stack_pointer = bit_operations::join_words(
                cpu.registers.r_h as u16,
                cpu.registers.r_l as u16,
                8,
            );
            Ok(2)
        },
        /* LD A,(a16) */
        0xFA => {
            let a16: u16 = fetch_word(cpu, memory);
            cpu.registers.r_a = cpu.fetch_data(memory, a16);
            Ok(4)
        },
        /* EI */
        0xFB => {
            cpu.interruption_enabled = true;
            Ok(1)
        },
        /* CP d8 */
        0xFE => {
            let d8: u8 = cpu.fetch_operand(memory);
            crate::hardware::arithmetic::compare(cpu, d8);
            Ok(2)
        },
        /* RST 38H */
        0xFF => {
            let a16: u16 = 0x0038;
            let return_address: u16 = cpu.registers.program_counter;
            push_word(cpu, memory, return_address);
            cpu.registers.program_counter = a16;
            Ok(4)
        },
        // whatever is not listed is no instruction
        _ => Err(Fault::IllegalOpcode { pc: cpu.registers.program_counter.wrapping_sub(1), opcode }),
    }
}

/// Executes the instruction `opcode`, whose operands the program counter
/// points to, and returns its cost in machine cycles. An opcode that is no
/// instruction leaves the machine as it is and is reported as a fault.
pub fn execute(cpu: &mut CPU, memory: &mut Memory, opcode: u8) -> (r: Result<usize, Fault>)
    ensures
        machine(*final(cpu), *final(memory)) == execute_spec(machine(*old(cpu), *old(memory)), opcode).machine,
        r == execute_spec(machine(*old(cpu), *old(memory)), opcode).result,
        r is Err <==> is_illegal(opcode),
        is_illegal(opcode) ==> execute_spec(machine(*old(cpu), *old(memory)), opcode) == illegal(
            machine(*old(cpu), *old(memory)),
            opcode,
        ),
        r matches Ok(cycles) ==> 1 <= cycles <= 6,
        flags::canonical(old(cpu).registers.r_f) ==> flags::canonical(final(cpu).registers.r_f),
        old(cpu).halted ==> final(cpu).halted,
        old(cpu).stopped ==> final(cpu).stopped,
{
    match opcode {
        0x00..=0x07 => execute_row_00(cpu, memory, opcode),
        0x08..=0x0F => execute_row_08(cpu, memory, opcode),
        0x10..=0x17 => execute_row_10(cpu, memory, opcode),
        0x18..=0x1F => execute_row_18(cpu, memory, opcode),
        0x20..=0x27 => execute_row_20(cpu, memory, opcode),
        0x28..=0x2F => execute_row_28(cpu, memory, opcode),
        0x30..=0x37 => execute_row_30(cpu, memory, opcode),
        0x38..=0x3F => execute_row_38(cpu, memory, opcode),
        0x40..=0x7F => execute_load_quarter(cpu, memory, opcode),
        0x80..=0xBF => execute_accumulator_quarter(cpu, memory, opcode),
        0xC0..=0xC7 => execute_row_c0(cpu, memory, opcode),
        0xC8..=0xCF => execute_row_c8(cpu, memory, opcode),
        0xD0..=0xD7 => execute_row_d0(cpu, memory, opcode),
        0xD8..=0xDF => execute_row_d8(cpu, memory, opcode),
        0xE0..=0xE7 => execute_row_e0(cpu, memory, opcode),
        0xE8..=0xEF => execute_row_e8(cpu, memory, opcode),
        0xF0..=0xF7 => execute_row_f0(cpu, memory, opcode),
        0xF8..=0xFF => execute_row_f8(cpu, memory, opcode),
    }
}

} // verus!
