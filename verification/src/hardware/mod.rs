//! The hardware, leaves first: constants, the helpers of the arithmetic logic
//! unit, the bus, the processor with its two instruction tables, and the
//! units that are paced by the cost of the instructions.

pub mod flags;
pub mod cartridge_types;
pub mod video_mode;
pub mod memory_map;
pub mod bit_operations;
pub mod arithmetic;
pub mod memory;
pub mod cpu;
pub mod instruction_subset;
pub mod instruction_set;
pub mod interrupt;
pub mod timer;
pub mod video;
pub mod ppu;
pub mod system;
pub mod disassembler;
