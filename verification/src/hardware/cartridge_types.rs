//! Cartridge types, as encoded in the cartridge header.

use vstd::prelude::*;

verus! {

pub const ROM_ONLY: u8 = 0x00;

pub const ROM_MBC1: u8 = 0x01;

pub const ROM_MBC1_RAM0: u8 = 0x02;

pub const ROM_MBC1_RAM1: u8 = 0x03;

} // verus!
