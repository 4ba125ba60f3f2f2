//! The processor: its register file, and the bus accesses that every
//! instruction is built from.
//!
//! ```text
//! |-----|-----|
//! |  A  |  F  |   accumulator and flags
//! |  B  |  C  |
//! |  D  |  E  |
//! |  H  |  L  |
//! |    S P    |   stack pointer
//! |    P C    |   program counter
//! |-----------|
//! ```
//!
//! Contracts speak of a [`Machine`]: the processor together with what the bus
//! holds. One machine cycle is four clock cycles; every cost in this crate is
//! counted in machine cycles.

use vstd::prelude::*;
use crate::hardware::bit_operations;
use crate::hardware::flags;
use crate::hardware::instruction_set;
use crate::hardware::memory::Memory;
use crate::hardware::memory::MemoryView;

verus! {

#[derive(Clone, Copy, Debug)]
pub struct CPURegisters {
    pub r_a: u8,
    /// Flag register
    pub r_f: u8,
    pub r_b: u8,
    pub r_c: u8,
    pub r_d: u8,
    pub r_e: u8,
    pub r_h: u8,
    pub r_l: u8,
    /// Stack pointer register
    pub stack_pointer: u16,
    /// Program counter register
    pub program_counter: u16,
    /// Memory address register: the address of the last bus access
    pub address_register: u16,
    /// Memory data register: the byte of the last bus access
    pub data_register: u8,
    /// Current instruction register: the opcode fetched last
    pub instruction_register: u8,
}

#[derive(Clone, Copy, Debug)]
pub struct CPU {
    pub registers: CPURegisters,
    /// Interrupt master enable flag (IME)
    pub interruption_enabled: bool,
    pub stopped: bool,
    pub halted: bool,
    /// Set by a driver that traces instructions; the processor never reads it.
    pub debug_mode: bool,
}

/// An instruction that the processor cannot execute.
#[derive(Clone, Copy, Debug, PartialEq, Eq, Structural)]
pub enum Fault {
    /// `opcode`, read at address `pc`, is not in the instruction table.
    IllegalOpcode { pc: u16, opcode: u8 },
}

/// The word with `high` as its high byte and `low` as its low byte.
pub open spec fn word(high: u8, low: u8) -> u16 {
    (high * 256 + low) as u16
}

/// The high byte of `value`.
pub open spec fn high_byte(value: u16) -> u8 {
    (value / 256) as u8
}

/// The low byte of `value`.
pub open spec fn low_byte(value: u16) -> u8 {
    (value % 256) as u8
}

impl CPURegisters {
    /// All registers zero but the stack pointer.
    pub open spec fn cleared(stack_pointer: u16) -> CPURegisters {
        CPURegisters {
            r_a: 0,
            r_f: 0,
            r_b: 0,
            r_c: 0,
            r_d: 0,
            r_e: 0,
            r_h: 0,
            r_l: 0,
            stack_pointer,
            program_counter: 0,
            address_register: 0,
            data_register: 0,
            instruction_register: 0,
        }
    }

    /// The register file that the boot ROM leaves behind, with the program
    /// counter back at zero.
    pub open spec fn after_boot_rom() -> CPURegisters {
        CPURegisters {
            r_a: 0x01,
            r_f: 0xB0,
            r_b: 0x00,
            r_c: 0x13,
            r_d: 0x00,
            r_e: 0xD8,
            r_h: 0x01,
            r_l: 0x4D,
            stack_pointer: 0xFFFE,
            program_counter: 0,
            address_register: 0,
            data_register: 0,
            instruction_register: 0,
        }
    }
}

impl CPU {
    pub open spec fn af(self) -> u16 {
        word(self.registers.r_a, self.registers.r_f)
    }

    pub open spec fn bc(self) -> u16 {
        word(self.registers.r_b, self.registers.r_c)
    }

    pub open spec fn de(self) -> u16 {
        word(self.registers.r_d, self.registers.r_e)
    }

    pub open spec fn hl(self) -> u16 {
        word(self.registers.r_h, self.registers.r_l)
    }

    pub open spec fn with_a(self, value: u8) -> CPU {
        CPU { registers: CPURegisters { r_a: value, ..self.registers }, ..self }
    }

    pub open spec fn with_f(self, value: u8) -> CPU {
        CPU { registers: CPURegisters { r_f: value, ..self.registers }, ..self }
    }

    pub open spec fn with_bc(self, value: u16) -> CPU {
        CPU {
            registers: CPURegisters { r_b: high_byte(value), r_c: low_byte(value), ..self.registers },
            ..self
        }
    }

    pub open spec fn with_de(self, value: u16) -> CPU {
        CPU {
            registers: CPURegisters { r_d: high_byte(value), r_e: low_byte(value), ..self.registers },
            ..self
        }
    }

    pub open spec fn with_hl(self, value: u16) -> CPU {
        CPU {
            registers: CPURegisters { r_h: high_byte(value), r_l: low_byte(value), ..self.registers },
            ..self
        }
    }

    pub open spec fn with_sp(self, value: u16) -> CPU {
        CPU { registers: CPURegisters { stack_pointer: value, ..self.registers }, ..self }
    }

    pub open spec fn with_pc(self, value: u16) -> CPU {
        CPU { registers: CPURegisters { program_counter: value, ..self.registers }, ..self }
    }

    /// The register that a 3-bit operand field selects: 0 B, 1 C, 2 D, 3 E,
    /// 4 H, 5 L, and A for 7. Field 6 selects the byte at HL, which is no
    /// register; whatever is no field at all is taken for A.
    pub open spec fn register(self, index: int) -> u8 {
        if index == 0 {
            self.registers.r_b
        } else if index == 1 {
            self.registers.r_c
        } else if index == 2 {
            self.registers.r_d
        } else if index == 3 {
            self.registers.r_e
        } else if index == 4 {
            self.registers.r_h
        } else if index == 5 {
            self.registers.r_l
        } else {
            self.registers.r_a
        }
    }

    /// The processor with `value` in the register that `index` selects.
    pub open spec fn with_register(self, index: int, value: u8) -> CPU {
        let r = self.registers;
        let registers = if index == 0 {
            CPURegisters { r_b: value, ..r }
        } else if index == 1 {
            CPURegisters { r_c: value, ..r }
        } else if index == 2 {
            CPURegisters { r_d: value, ..r }
        } else if index == 3 {
            CPURegisters { r_e: value, ..r }
        } else if index == 4 {
            CPURegisters { r_h: value, ..r }
        } else if index == 5 {
            CPURegisters { r_l: value, ..r }
        } else {
            CPURegisters { r_a: value, ..r }
        };
        CPU { registers, ..self }
    }

    /// The processor after a bus access at `address` that carried `data`.
    pub open spec fn latched(self, address: u16, data: u8) -> CPU {
        CPU {
            registers: CPURegisters { address_register: address, data_register: data, ..self.registers },
            ..self
        }
    }

    /// The processor as it is built: everything cleared, interrupts enabled.
    pub open spec fn initial() -> CPU {
        CPU {
            registers: CPURegisters::cleared(0x0000),
            interruption_enabled: true,
            stopped: false,
            halted: false,
            debug_mode: false,
        }
    }
}

/// The processor and what the bus holds.
pub struct Machine {
    pub cpu: CPU,
    pub memory: MemoryView,
}

/// The machine made of `cpu` and the contents of `memory`.
pub open spec fn machine(cpu: CPU, memory: Memory) -> Machine {
    Machine { cpu, memory: memory@ }
}

impl Machine {
    pub open spec fn with_cpu(self, cpu: CPU) -> Machine {
        Machine { cpu, ..self }
    }

    /// Reads the byte at the program counter and moves the program counter
    /// past it.
    pub open spec fn fetch_operand(self) -> (Machine, u8) {
        let address = self.cpu.registers.program_counter;
        let data = self.memory.read(address);
        (self.with_cpu(self.cpu.latched(address, data).with_pc(address.wrapping_add(1))), data)
    }

    /// Reads the byte at `address`.
    pub open spec fn fetch_data(self, address: u16) -> (Machine, u8) {
        let data = self.memory.read(address);
        (self.with_cpu(self.cpu.latched(address, data)), data)
    }

    /// Writes `data` to `address`.
    pub open spec fn write_data(self, address: u16, data: u8) -> Machine {
        Machine { cpu: self.cpu.latched(address, data), memory: self.memory.write(address, data) }
    }

    /// Reads the operand that a 3-bit field selects: a register, or for field
    /// 6 the byte at HL.
    pub open spec fn read_operand(self, index: int) -> (Machine, u8) {
        if index == 6 {
            self.fetch_data(self.cpu.hl())
        } else {
            (self, self.cpu.register(index))
        }
    }

    /// Writes the operand that a 3-bit field selects: a register, or for field
    /// 6 the byte at HL.
    pub open spec fn write_operand(self, index: int, value: u8) -> Machine {
        if index == 6 {
            self.write_data(self.cpu.hl(), value)
        } else {
            self.with_cpu(self.cpu.with_register(index, value))
        }
    }

    /// Reads a word at the program counter, low byte first.
    pub open spec fn fetch_word(self) -> (Machine, u16) {
        let (m1, low) = self.fetch_operand();
        let (m2, high) = m1.fetch_operand();
        (m2, word(high, low))
    }

    /// Pushes `value`: the high byte goes to SP-1, the low byte to SP-2, and
    /// SP ends two below where it was.
    pub open spec fn push(self, value: u16) -> Machine {
        let sp1 = self.cpu.registers.stack_pointer.wrapping_sub(1);
        let m1 = self.with_cpu(self.cpu.with_sp(sp1)).write_data(sp1, high_byte(value));
        let sp2 = sp1.wrapping_sub(1);
        m1.with_cpu(m1.cpu.with_sp(sp2)).write_data(sp2, low_byte(value))
    }

    /// Pops a word: the low byte comes from SP, the high byte from SP+1, and
    /// SP ends two above where it was.
    pub open spec fn pop(self) -> (Machine, u16) {
        let sp = self.cpu.registers.stack_pointer;
        let (m1, low) = self.fetch_data(sp);
        let sp1 = sp.wrapping_add(1);
        let (m2, high) = m1.with_cpu(m1.cpu.with_sp(sp1)).fetch_data(sp1);
        (m2.with_cpu(m2.cpu.with_sp(sp1.wrapping_add(1))), word(high, low))
    }
}

impl CPU {
    pub fn new() -> (cpu: CPU)
        ensures
            cpu == CPU::initial(),
    {
        let registers = CPURegisters {
            r_a: 0x00,
            r_f: 0x00,
            r_b: 0x00,
            r_c: 0x00,
            r_d: 0x00,
            r_e: 0x00,
            r_h: 0x00,
            r_l: 0x00,
            stack_pointer: 0x0000,
            program_counter: 0x0000,
            address_register: 0x0000,
            data_register: 0x00,
            instruction_register: 0x00,
        };
        CPU { registers, interruption_enabled: true, stopped: false, halted: false, debug_mode: false }
    }

    /// Resets the register file for a run of the boot ROM.
    pub fn boot(&mut self)
        ensures
            *final(self) == (CPU { registers: CPURegisters::cleared(0xFFFF), ..*old(self) }),
    {
        self.registers.r_a = 0x00;
        self.registers.r_f = 0x00;
        self.registers.r_b = 0x00;
        self.registers.r_c = 0x00;
        self.registers.r_d = 0x00;
        self.registers.r_e = 0x00;
        self.registers.r_h = 0x00;
        self.registers.r_l = 0x00;
        self.registers.stack_pointer = 0xFFFF;
        self.registers.program_counter = 0x0000;
        self.registers.address_register = 0x0000;
        self.registers.data_register = 0x00;
        self.registers.instruction_register = 0x00;
    }

    /// Sets the register file to what a run of the boot ROM leaves in it.
    pub fn boot_expected(&mut self)
        ensures
            *final(self) == (CPU { registers: CPURegisters::after_boot_rom(), ..*old(self) }),
    {
        self.registers.r_a = 0x01;
        self.registers.r_f = 0xB0;
        self.registers.r_b = 0x00;
        self.registers.r_c = 0x13;
        self.registers.r_d = 0x00;
        self.registers.r_e = 0xD8;
        self.registers.r_h = 0x01;
        self.registers.r_l = 0x4D;
        self.registers.stack_pointer = 0xFFFE;
        self.registers.program_counter = 0x0000;
        self.registers.address_register = 0x0000;
        self.registers.data_register = 0x00;
        self.registers.instruction_register = 0x00;
    }

    /// The fetch-decode-execute cycle: fetches the opcode at the program
    /// counter, moves the program counter past it, executes the instruction
    /// and returns its cost in machine cycles. An opcode that is no
    /// instruction is reported with the address it was read from; the program
    /// counter then stands one past it.
    pub fn cycle(&mut self, memory: &mut Memory) -> (r: Result<usize, Fault>)
        ensures
            machine(*final(self), *final(memory)) == instruction_set::cycle_spec(
                machine(*old(self), *old(memory)),
            ).machine,
            r == instruction_set::cycle_spec(machine(*old(self), *old(memory))).result,
            r matches Ok(cycles) ==> 1 <= cycles <= 6,
            flags::canonical(old(self).registers.r_f) ==> flags::canonical(final(self).registers.r_f),
            old(self).halted ==> final(self).halted,
            old(self).stopped ==> final(self).stopped,
            r matches Err(Fault::IllegalOpcode { pc, opcode }) ==> pc == old(self).registers.program_counter
                && opcode == old(memory)@.read(pc),
    {
        self.registers.address_register = self.registers.program_counter;
        self.registers.data_register = memory.fetch(self.registers.address_register);
        self.registers.instruction_register = self.registers.data_register;
        // The PC points to the next instruction or operand from here on, as
        // jumps and calls expect
        self.registers.program_counter = self.registers.program_counter.wrapping_add(1);
        let opcode: u8 = self.registers.instruction_register;
        instruction_set::execute(self, memory, opcode)
    }

    /// Fetches the operand that the program counter points to, and moves the
    /// program counter to the byte after it.
    pub fn fetch_operand(&mut self, memory: &mut Memory) -> (data: u8)
        ensures
            machine(*final(self), *final(memory)) == machine(*old(self), *old(memory)).fetch_operand().0,
            data == machine(*old(self), *old(memory)).fetch_operand().1,
    {
        self.registers.address_register = self.registers.program_counter;
        self.registers.data_register = memory.fetch(self.registers.address_register);
        self.registers.program_counter = self.registers.program_counter.wrapping_add(1);
        self.registers.data_register
    }

    pub fn fetch_data(&mut self, memory: &mut Memory, address: u16) -> (data: u8)
        ensures
            machine(*final(self), *final(memory)) == machine(*old(self), *old(memory)).fetch_data(address).0,
            data == machine(*old(self), *old(memory)).fetch_data(address).1,
    {
        self.registers.address_register = address;
        self.registers.data_register = memory.fetch(self.registers.address_register);
        self.registers.data_register
    }

    pub fn write_data(&mut self, memory: &mut Memory, address: u16, word: u8)
        ensures
            machine(*final(self), *final(memory)) == machine(*old(self), *old(memory)).write_data(address, word),
    {
        self.registers.address_register = address;
        self.registers.data_register = word;
        memory.write(address, word);
    }

    /// The address in HL.
    pub fn address_hl(&self) -> (a16: u16)
        ensures
            a16 == self.hl(),
    {
        bit_operations::join_words(self.registers.r_h as u16, self.registers.r_l as u16, 8)
    }

    /// Reads the operand that the low three bits of an opcode select.
    pub fn read_operand(&mut self, memory: &mut Memory, index: u8) -> (data: u8)
        ensures
            machine(*final(self), *final(memory)) == machine(*old(self), *old(memory)).read_operand(
                index as int,
            ).0,
            data == machine(*old(self), *old(memory)).read_operand(index as int).1,
    {
        match index {
            0x00 => self.registers.r_b,
            0x01 => self.registers.r_c,
            0x02 => self.registers.r_d,
            0x03 => self.registers.r_e,
            0x04 => self.registers.r_h,
            0x05 => self.registers.r_l,
            0x06 => {
                let a16_hl: u16 = self.address_hl();
                self.fetch_data(memory, a16_hl)
            },
            _ => self.registers.r_a,
        }
    }

    /// Writes the operand that the low three bits of an opcode select.
    pub fn write_operand(&mut self, memory: &mut Memory, index: u8, data: u8)
        ensures
            machine(*final(self), *final(memory)) == machine(*old(self), *old(memory)).write_operand(
                index as int,
                data,
            ),
    {
        match index {
            0x00 => {
                self.registers.r_b = data;
            },
            0x01 => {
                self.registers.r_c = data;
            },
            0x02 => {
                self.registers.r_d = data;
            },
            0x03 => {
                self.registers.r_e = data;
            },
            0x04 => {
                self.registers.r_h = data;
            },
            0x05 => {
                self.registers.r_l = data;
            },
            0x06 => {
                let a16_hl: u16 = self.address_hl();
                self.write_data(memory, a16_hl, data);
            },
            _ => {
                self.registers.r_a = data;
            },
        }
    }
}

} // verus!
