//! The flag register F.
//!
//! ```text
//! bit   7   6   5   4   3   2   1   0
//!       Z   N   H   CY  0   0   0   0
//! ```
//!
//! Z is set when an operation yields zero, N after a subtraction, H on a
//! carry or borrow across bit 3, CY on a carry or borrow across bit 7. The low
//! nibble holds no flag and stays zero.

use vstd::prelude::*;

verus! {

pub const CARRY: u8 = 0x10;

pub const HALF_CARRY: u8 = 0x20;

pub const SUBTRACT: u8 = 0x40;

pub const ZERO: u8 = 0x80;

pub const RESET: u8 = 0x00;

/// Whether Z (bit 7) is set in `f`.
pub open spec fn zero(f: u8) -> bool {
    f >= 128
}

/// Whether N (bit 6) is set in `f`.
pub open spec fn subtract(f: u8) -> bool {
    (f / 64) % 2 == 1
}

/// Whether H (bit 5) is set in `f`.
pub open spec fn half_carry(f: u8) -> bool {
    (f / 32) % 2 == 1
}

/// Whether CY (bit 4) is set in `f`.
pub open spec fn carry(f: u8) -> bool {
    (f / 16) % 2 == 1
}

/// The flag byte with exactly the given flags set and a zero low nibble.
pub open spec fn pack(z: bool, n: bool, h: bool, c: bool) -> u8 {
    ((if z { 128int } else { 0 }) + (if n { 64int } else { 0 }) + (if h { 32int } else { 0 }) + (if c {
        16int
    } else {
        0
    })) as u8
}

/// A flag byte is canonical when its low nibble is zero.
pub open spec fn canonical(f: u8) -> bool {
    f % 16 == 0
}

/// Reading a flag by its mask agrees with its place value in the byte.
pub proof fn lemma_masks(f: u8)
    by (bit_vector)
    ensures
        (f & 0x80 != 0) == (f >= 128),
        (f & 0x40 != 0) == ((f / 64) % 2 == 1),
        (f & 0x20 != 0) == ((f / 32) % 2 == 1),
        (f & 0x10 != 0) == ((f / 16) % 2 == 1),
        (f & 0xF0) % 16 == 0,
        (f & 0xF0) / 16 == f / 16,
{
}

/// `pack` and the four readers are inverse to each other on canonical bytes.
pub proof fn lemma_pack(z: bool, n: bool, h: bool, c: bool)
    ensures
        zero(pack(z, n, h, c)) == z,
        subtract(pack(z, n, h, c)) == n,
        half_carry(pack(z, n, h, c)) == h,
        carry(pack(z, n, h, c)) == c,
        canonical(pack(z, n, h, c)),
{
}

/// A canonical byte is the packing of its own four flags.
pub proof fn lemma_unpack(f: u8)
    requires
        canonical(f),
    ensures
        f == pack(zero(f), subtract(f), half_carry(f), carry(f)),
{
}

pub fn zero_set(f: u8) -> (r: bool)
    ensures
        r == zero(f),
{
    proof {
        lemma_masks(f);
    }
    (f & ZERO) != 0
}

pub fn subtract_set(f: u8) -> (r: bool)
    ensures
        r == subtract(f),
{
    proof {
        lemma_masks(f);
    }
    (f & SUBTRACT) != 0
}

pub fn half_carry_set(f: u8) -> (r: bool)
    ensures
        r == half_carry(f),
{
    proof {
        lemma_masks(f);
    }
    (f & HALF_CARRY) != 0
}

pub fn carry_set(f: u8) -> (r: bool)
    ensures
        r == carry(f),
{
    proof {
        lemma_masks(f);
    }
    (f & CARRY) != 0
}

/// Builds the flag byte from the four flags.
pub fn compose(z: bool, n: bool, h: bool, c: bool) -> (f: u8)
    ensures
        f == pack(z, n, h, c),
        canonical(f),
{
    let mut f: u8 = RESET;
    if z {
        f = f + ZERO;
    }
    if n {
        f = f + SUBTRACT;
    }
    if h {
        f = f + HALF_CARRY;
    }
    if c {
        f = f + CARRY;
    }
    f
}

} // verus!
