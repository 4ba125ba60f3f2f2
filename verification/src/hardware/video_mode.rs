//! LCD modes, as stored in the low two bits of STAT.

use vstd::prelude::*;

verus! {

pub const HBLANK: u8 = 0x00;

pub const VBLANK: u8 = 0x01;

pub const SEARCH_OAM: u8 = 0x02;

pub const SCANLINE: u8 = 0x03;

} // verus!
