//! Bit manipulation helpers of the arithmetic logic unit: byte and nibble
//! swaps, 16-bit joins, rotates and shifts with their flags, and single-bit
//! test, set and reset.
//!
//! Every contract is stated over the numeric value of the operands, so that a
//! rotate reads as a doubling or halving with the outgoing bit carried over.

use vstd::prelude::*;
use crate::hardware::flags;

verus! {

/// The place value of bit `bit` in a byte: 1, 2, 4, ..., 128.
pub open spec fn bit_weight(bit: int) -> int {
    if bit == 0 {
        1
    } else if bit == 1 {
        2
    } else if bit == 2 {
        4
    } else if bit == 3 {
        8
    } else if bit == 4 {
        16
    } else if bit == 5 {
        32
    } else if bit == 6 {
        64
    } else {
        128
    }
}

/// Whether bit `bit` of `op` is 1. No bit beyond the seventh is ever set.
pub open spec fn bit_is_set(op: u8, bit: int) -> bool {
    0 <= bit < 8 && (op as int / bit_weight(bit)) % 2 == 1
}

/// `op` with its two halves exchanged: the two bytes of a word for a half of
/// 8 bits, the two nibbles of the low byte for a half of 4 bits.
pub open spec fn swapped(op: u16, nibble_size: u8) -> int {
    if nibble_size == 8 {
        (op % 256) * 256 + op / 256
    } else if nibble_size == 4 {
        (op % 16) * 16 + (op / 16) % 16
    } else {
        op as int
    }
}

/// Flags after a rotate or shift: Z from the result, CY from the bit that
/// left the byte, N and H cleared.
pub open spec fn shift_flags(result: u8, carry_out: bool) -> u8 {
    flags::pack(result == 0, false, false, carry_out)
}

/// Rotate left, bit 7 re-entering at bit 0 and copied to CY.
pub open spec fn rlc(op: u8) -> (u8, u8) {
    let d8 = ((op * 2) % 256 + op / 128) as u8;
    (d8, shift_flags(d8, op >= 128))
}

/// Rotate left through CY: the old CY enters at bit 0, bit 7 leaves to CY.
pub open spec fn rl(op: u8, register_flags: u8) -> (u8, u8) {
    let d8 = ((op * 2) % 256 + if flags::carry(register_flags) {
        1int
    } else {
        0
    }) as u8;
    (d8, shift_flags(d8, op >= 128))
}

/// Rotate right, bit 0 re-entering at bit 7 and copied to CY.
pub open spec fn rrc(op: u8) -> (u8, u8) {
    let d8 = (op / 2 + (op % 2) * 128) as u8;
    (d8, shift_flags(d8, op % 2 == 1))
}

/// Rotate right through CY: the old CY enters at bit 7, bit 0 leaves to CY.
pub open spec fn rr(op: u8, register_flags: u8) -> (u8, u8) {
    let d8 = (op / 2 + if flags::carry(register_flags) {
        128int
    } else {
        0
    }) as u8;
    (d8, shift_flags(d8, op % 2 == 1))
}

/// Shift left: bit 0 becomes 0, bit 7 leaves to CY.
pub open spec fn sla(op: u8) -> (u8, u8) {
    let d8 = ((op * 2) % 256) as u8;
    (d8, shift_flags(d8, op >= 128))
}

/// Logical shift right: bit 7 becomes 0, bit 0 leaves to CY.
pub open spec fn srl(op: u8) -> (u8, u8) {
    let d8 = (op / 2) as u8;
    (d8, shift_flags(d8, op % 2 == 1))
}

/// Arithmetic shift right: bit 7 keeps its value, bit 0 leaves to CY.
pub open spec fn sra(op: u8) -> (u8, u8) {
    let d8 = (op / 2 + if op >= 128 {
        128int
    } else {
        0
    }) as u8;
    (d8, shift_flags(d8, op % 2 == 1))
}

/// Flags of a bit test: Z is the complement of the tested bit, H is set.
pub open spec fn bit_flags(op: u8, bit: int) -> u8 {
    flags::pack(!bit_is_set(op, bit), false, true, false)
}

/// `op` with bit `bit` set; unchanged for a bit beyond the seventh.
pub open spec fn with_bit(op: u8, bit: int) -> int {
    if 0 <= bit < 8 && !bit_is_set(op, bit) {
        op + bit_weight(bit)
    } else {
        op as int
    }
}

/// `op` with bit `bit` cleared; unchanged for a bit beyond the seventh.
pub open spec fn without_bit(op: u8, bit: int) -> int {
    if bit_is_set(op, bit) {
        op - bit_weight(bit)
    } else {
        op as int
    }
}

proof fn lemma_swap_bits(op: u16)
    by (bit_vector)
    ensures
        ((op & 0x00FF) << 8u16 | (op & 0xFF00) >> 8u16) & 0xFFFF == (op % 256) * 256 + op / 256,
        ((op & 0x0F) << 4u16 | (op & 0xF0) >> 4u16) & 0x00FF == (op % 16) * 16 + (op / 16) % 16,
        op & 0x00FF == op % 256,
        (op >> 8u16) & 0x00FF == op / 256,
{
}

proof fn lemma_join_bits(op_a: u16, op_b: u16)
    by (bit_vector)
    requires
        op_a < 256,
        op_b < 256,
    ensures
        (op_a << 8u16) | op_b == op_a * 256 + op_b,
{
}

proof fn lemma_narrow_bits(op: u16, nibble_size: u8)
    by (bit_vector)
    requires
        nibble_size < 16,
    ensures
        (op >> (nibble_size as u16)) & 0x00FF < 256,
{
}

proof fn lemma_rotate_bits(op: u8, register_flags: u8)
    by (bit_vector)
    ensures
        ({
            &&& (op >> 7u8) & 0xFF == op / 128
            &&& ((op << 1u8) | ((op >> 7u8) & 0xFF)) & 0xFF == (op * 2) % 256 + op / 128
            &&& ((op << 1u8) | ((register_flags & 0x10) >> 4u8)) & 0xFF == (op * 2) % 256 + (register_flags
                / 16) % 2
            &&& op & 0x01 == op % 2
            &&& ((op >> 1u8) | ((op & 0x01) << 7u8)) & 0xFF == op / 2 + (op % 2) * 128
            &&& ((op >> 1u8) | ((register_flags & 0x10) << 3u8)) & 0xFF == op / 2 + ((register_flags / 16)
                % 2) * 128
            &&& (op << 1u8) & 0xFF == (op * 2) % 256
            &&& (op >> 1u8) & 0xFF == op / 2
            &&& ((op >> 1u8) | (op & 0x80)) & 0xFF == op / 2 + (op / 128) * 128
        }),
{
}

proof fn lemma_test_bits(op: u8)
    by (bit_vector)
    ensures
        (0x01 & op > 0) == ((op / 1) % 2 == 1),
        (0x02 & op > 0) == ((op / 2) % 2 == 1),
        (0x04 & op > 0) == ((op / 4) % 2 == 1),
        (0x08 & op > 0) == ((op / 8) % 2 == 1),
        (0x10 & op > 0) == ((op / 16) % 2 == 1),
        (0x20 & op > 0) == ((op / 32) % 2 == 1),
        (0x40 & op > 0) == ((op / 64) % 2 == 1),
        (0x80 & op > 0) == ((op / 128) % 2 == 1),
{
}

proof fn lemma_set_bits(op: u8)
    by (bit_vector)
    ensures
        (0x01 | op) & 0xFF == if (op / 1) % 2 == 1 { op } else { (op + 1) as u8 },
        (0x02 | op) & 0xFF == if (op / 2) % 2 == 1 { op } else { (op + 2) as u8 },
        (0x04 | op) & 0xFF == if (op / 4) % 2 == 1 { op } else { (op + 4) as u8 },
        (0x08 | op) & 0xFF == if (op / 8) % 2 == 1 { op } else { (op + 8) as u8 },
        (0x10 | op) & 0xFF == if (op / 16) % 2 == 1 { op } else { (op + 16) as u8 },
        (0x20 | op) & 0xFF == if (op / 32) % 2 == 1 { op } else { (op + 32) as u8 },
        (0x40 | op) & 0xFF == if (op / 64) % 2 == 1 { op } else { (op + 64) as u8 },
        (0x80 | op) & 0xFF == if (op / 128) % 2 == 1 { op } else { (op + 128) as u8 },
{
}

proof fn lemma_reset_bits(op: u8)
    by (bit_vector)
    ensures
        (!0x01u8 & op) & 0xFF == if (op / 1) % 2 == 1 { (op - 1) as u8 } else { op },
        (!0x02u8 & op) & 0xFF == if (op / 2) % 2 == 1 { (op - 2) as u8 } else { op },
        (!0x04u8 & op) & 0xFF == if (op / 4) % 2 == 1 { (op - 4) as u8 } else { op },
        (!0x08u8 & op) & 0xFF == if (op / 8) % 2 == 1 { (op - 8) as u8 } else { op },
        (!0x10u8 & op) & 0xFF == if (op / 16) % 2 == 1 { (op - 16) as u8 } else { op },
        (!0x20u8 & op) & 0xFF == if (op / 32) % 2 == 1 { (op - 32) as u8 } else { op },
        (!0x40u8 & op) & 0xFF == if (op / 64) % 2 == 1 { (op - 64) as u8 } else { op },
        (!0x80u8 & op) & 0xFF == if (op / 128) % 2 == 1 { (op - 128) as u8 } else { op },
{
}

/// Swaps the two halves of `op`: its bytes when `nibble_size` is 8, the
/// nibbles of its low byte (dropping the high byte) when it is 4. Any other
/// size leaves `op` as it is.
pub fn swap_nibbles(op: u16, nibble_size: u8) -> (r: u16)
    ensures
        r == swapped(op, nibble_size),
{
    proof {
        lemma_swap_bits(op);
    }
    match nibble_size {
        8 => ((op & 0x00FF) << 8u16 | (op & 0xFF00) >> 8u16) & 0xFFFF,
        4 => ((op & 0x0F) << 4u16 | (op & 0xF0) >> 4u16) & 0x00FF,
        _ => op,
    }
}

/// Places `op_a` above `op_b`: on two bytes and a size of 8, the word with
/// `op_a` as its high byte and `op_b` as its low byte.
pub fn join_words(op_a: u16, op_b: u16, nibble_size: u8) -> (r: u16)
    requires
        nibble_size < 16,
    ensures
        r == (op_a << nibble_size) | op_b,
        nibble_size == 8 && op_a < 256 && op_b < 256 ==> r == op_a * 256 + op_b,
{
    proof {
        if op_a < 256 && op_b < 256 {
            lemma_join_bits(op_a, op_b);
        }
    }
    op_a << nibble_size | op_b
}

/// Joins a word given low byte first, as it lies in memory.
pub fn endianess(lsb: u16, msb: u16, nibble_size: u8) -> (r: u16)
    requires
        nibble_size < 16,
    ensures
        r == (msb << nibble_size) | lsb,
        nibble_size == 8 && lsb < 256 && msb < 256 ==> r == msb * 256 + lsb,
{
    join_words(msb, lsb, nibble_size)
}

/// The byte of `op` that starts at bit `nibble_size`: its high byte for 8.
pub fn msb(op: u16, nibble_size: u8) -> (r: u8)
    requires
        nibble_size < 16,
    ensures
        r == (op >> nibble_size) & 0x00FF,
        nibble_size == 8 ==> r == op / 256,
{
    proof {
        lemma_narrow_bits(op, nibble_size);
        lemma_swap_bits(op);
    }
    ((op >> nibble_size) & 0x00FF) as u8
}

/// The low byte of `op`.
pub fn lsb(op: u16, _nibble_size: u8) -> (r: u8)
    ensures
        r == op % 256,
{
    proof {
        lemma_swap_bits(op);
    }
    (op & 0x00FF) as u8
}

/// Rotates the byte to the left; CY receives a copy of bit 7.
///
/// ```text
///           --------------------------
///           |                        |
///   CY  <- b7 b6 b5 b4 b3 b2 b1 b0  <-
/// ```
pub fn rotate_left_carry(op: u8, _register_flags: u8) -> (r: (u8, u8))
    ensures
        r == rlc(op),
        flags::canonical(r.1),
{
    proof {
        lemma_rotate_bits(op, _register_flags);
    }
    let b7: u8 = (op >> 7u8) & 0xFF;
    let d8: u8 = ((op << 1u8) | b7) & 0xFF;
    (d8, flags::compose(d8 == 0x00, false, false, b7 == 1))
}

/// Rotates the byte and CY together to the left.
///
/// ```text
///   --------------------------------------
///   |                                    |
///   <-  CY  <- b7 b6 b5 b4 b3 b2 b1 b0  <-
/// ```
pub fn rotate_left(op: u8, register_flags: u8) -> (r: (u8, u8))
    ensures
        r == rl(op, register_flags),
        flags::canonical(r.1),
{
    proof {
        lemma_rotate_bits(op, register_flags);
    }
    let b7: u8 = (op >> 7u8) & 0xFF;
    let d8: u8 = ((op << 1u8) | ((register_flags & flags::CARRY) >> 4u8)) & 0xFF;
    (d8, flags::compose(d8 == 0x00, false, false, b7 == 1))
}

/// Rotates the byte to the right; CY receives a copy of bit 0.
///
/// ```text
///   --------------------------
///   |                        |
///   ->  b7 b6 b5 b4 b3 b2 b1 b0  -> CY
/// ```
pub fn rotate_right_carry(op: u8, _register_flags: u8) -> (r: (u8, u8))
    ensures
        r == rrc(op),
        flags::canonical(r.1),
{
    proof {
        lemma_rotate_bits(op, _register_flags);
    }
    let b0: u8 = op & 0x01;
    let d8: u8 = ((op >> 1u8) | (b0 << 7u8)) & 0xFF;
    (d8, flags::compose(d8 == 0x00, false, false, b0 == 1))
}

/// Rotates the byte and CY together to the right.
///
/// ```text
///   --------------------------------------
///   |                                    |
///   ->  b7 b6 b5 b4 b3 b2 b1 b0  -> CY  ->
/// ```
pub fn rotate_right(op: u8, register_flags: u8) -> (r: (u8, u8))
    ensures
        r == rr(op, register_flags),
        flags::canonical(r.1),
{
    proof {
        lemma_rotate_bits(op, register_flags);
    }
    let b0: u8 = op & 0x01;
    let d8: u8 = ((op >> 1u8) | ((register_flags & flags::CARRY) << 3u8)) & 0xFF;
    (d8, flags::compose(d8 == 0x00, false, false, b0 == 1))
}

/// Shifts the byte to the left; bit 7 leaves to CY.
pub fn shift_left(op: u8) -> (r: (u8, u8))
    ensures
        r == sla(op),
        flags::canonical(r.1),
{
    proof {
        lemma_rotate_bits(op, 0);
    }
    let b7: u8 = (op >> 7u8) & 0xFF;
    let d8: u8 = (op << 1u8) & 0xFF;
    (d8, flags::compose(d8 == 0x00, false, false, b7 == 1))
}

/// Shifts the byte to the right and resets bit 7; bit 0 leaves to CY.
pub fn shift_right_reset(op: u8) -> (r: (u8, u8))
    ensures
        r == srl(op),
        flags::canonical(r.1),
{
    proof {
        lemma_rotate_bits(op, 0);
    }
    let d8: u8 = (op >> 1u8) & 0xFF;
    (d8, flags::compose(d8 == 0x00, false, false, (op & 0x01) == 1))
}

/// Shifts the byte to the right and keeps bit 7; bit 0 leaves to CY.
pub fn shift_right(op: u8) -> (r: (u8, u8))
    ensures
        r == sra(op),
        flags::canonical(r.1),
{
    proof {
        lemma_rotate_bits(op, 0);
    }
    let d8: u8 = ((op >> 1u8) | (op & 0x80)) & 0xFF;
    (d8, flags::compose(d8 == 0x00, false, false, (op & 0x01) == 1))
}

/// Whether bit `bit` of `op` is set.
pub fn simple_bit(op: u8, bit: usize) -> (r: bool)
    ensures
        r == bit_is_set(op, bit as int),
{
    proof {
        lemma_test_bits(op);
    }
    match bit {
        0 => 0x01 & op > 0,
        1 => 0x02 & op > 0,
        2 => 0x04 & op > 0,
        3 => 0x08 & op > 0,
        4 => 0x10 & op > 0,
        5 => 0x20 & op > 0,
        6 => 0x40 & op > 0,
        7 => 0x80 & op > 0,
        _ => false,
    }
}

/// The flags of a bit test: the complement of the bit goes to Z, and H is
/// set.
pub fn bit(op: u8, index: usize) -> (r: u8)
    ensures
        r == bit_flags(op, index as int),
        flags::canonical(r),
{
    match simple_bit(op, index) {
        true => flags::compose(false, false, true, false),
        false => flags::compose(true, false, true, false),
    }
}

/// Sets bit `bit` of `op`.
pub fn set(op: u8, bit: usize) -> (r: u8)
    ensures
        r == with_bit(op, bit as int),
{
    proof {
        lemma_set_bits(op);
    }
    match bit {
        0 => (0x01 | op) & 0xFF,
        1 => (0x02 | op) & 0xFF,
        2 => (0x04 | op) & 0xFF,
        3 => (0x08 | op) & 0xFF,
        4 => (0x10 | op) & 0xFF,
        5 => (0x20 | op) & 0xFF,
        6 => (0x40 | op) & 0xFF,
        7 => (0x80 | op) & 0xFF,
        _ => op,
    }
}

/// Clears bit `bit` of `op`.
pub fn reset(op: u8, bit: usize) -> (r: u8)
    ensures
        r == without_bit(op, bit as int),
{
    proof {
        lemma_reset_bits(op);
    }
    match bit {
        0 => (!0x01u8 & op) & 0xFF,
        1 => (!0x02u8 & op) & 0xFF,
        2 => (!0x04u8 & op) & 0xFF,
        3 => (!0x08u8 & op) & 0xFF,
        4 => (!0x10u8 & op) & 0xFF,
        5 => (!0x20u8 & op) & 0xFF,
        6 => (!0x40u8 & op) & 0xFF,
        7 => (!0x80u8 & op) & 0xFF,
        _ => op,
    }
}

} // verus!
