//! A cycle-counting emulator core for an 8-bit handheld console: processor,
//! memory bus, interrupt controller, timer and pixel processing unit.
//!
//! The core neither reads files nor draws: a driver hands it the boot ROM and
//! cartridge images, ticks it, and shows the frame buffer.

pub mod hardware;
