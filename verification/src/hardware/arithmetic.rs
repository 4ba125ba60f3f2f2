//! 8-bit arithmetic on the accumulator, with the flags that each operation
//! leaves in F.
//!
//! ```text
//! bit   7   6   5   4   3   2   1   0
//!       Z   N   H   CY  0   0   0   0
//! ```

use vstd::prelude::*;
use crate::hardware::cpu::CPU;
use crate::hardware::flags;

verus! {

/// 1 when CY is set in `f`, else 0.
pub open spec fn carry_in(f: u8) -> int {
    if flags::carry(f) {
        1
    } else {
        0
    }
}

/// `value` modulo 256, for a value that is less than 256 away from a byte.
pub open spec fn wrapped(value: int) -> u8 {
    if value < 0 {
        (value + 256) as u8
    } else if value > 255 {
        (value - 256) as u8
    } else {
        value as u8
    }
}

/// `value + 1` modulo 256. Z and H follow the sum, N is cleared, CY stays.
pub open spec fn incremented(cpu: CPU, value: u8) -> (CPU, u8) {
    let d8 = wrapped(value + 1);
    (cpu.with_f(flags::pack(d8 == 0, false, value % 16 + 1 > 15, flags::carry(cpu.registers.r_f))), d8)
}

/// `value - 1` modulo 256. Z and H follow the difference, N is set, CY stays.
pub open spec fn decremented(cpu: CPU, value: u8) -> (CPU, u8) {
    let d8 = wrapped(value - 1);
    (cpu.with_f(flags::pack(d8 == 0, true, value % 16 - 1 < 0, flags::carry(cpu.registers.r_f))), d8)
}

/// A + data + carry modulo 256 in A, for a carry of 0 or 1. H is the carry
/// out of bit 3, CY the carry out of bit 7.
pub open spec fn sum(cpu: CPU, data: u8, carry: int) -> CPU {
    let a = cpu.registers.r_a;
    let d8 = wrapped(a + data + carry);
    cpu.with_a(d8).with_f(flags::pack(d8 == 0, false, a % 16 + data % 16 + carry > 15, a + data + carry > 255))
}

/// The flags of A - data - borrow, for a borrow of 0 or 1. H is the borrow
/// into bit 3, CY the borrow into bit 7.
pub open spec fn difference_flags(a: u8, data: u8, borrow: int) -> u8 {
    flags::pack(wrapped(a - data - borrow) == 0, true, a % 16 - data % 16 - borrow < 0, a - data - borrow < 0)
}

/// A - data - borrow modulo 256 in A, for a borrow of 0 or 1.
pub open spec fn difference(cpu: CPU, data: u8, borrow: int) -> CPU {
    let a = cpu.registers.r_a;
    cpu.with_a(wrapped(a - data - borrow)).with_f(difference_flags(a, data, borrow))
}

pub open spec fn added(cpu: CPU, data: u8) -> CPU {
    sum(cpu, data, 0)
}

pub open spec fn added_with_carry(cpu: CPU, data: u8) -> CPU {
    sum(cpu, data, carry_in(cpu.registers.r_f))
}

pub open spec fn subtracted(cpu: CPU, data: u8) -> CPU {
    difference(cpu, data, 0)
}

pub open spec fn subtracted_with_carry(cpu: CPU, data: u8) -> CPU {
    difference(cpu, data, carry_in(cpu.registers.r_f))
}

/// A & data in A. Z follows the result, H is set, N and CY are cleared.
pub open spec fn conjoined(cpu: CPU, data: u8) -> CPU {
    let d8 = cpu.registers.r_a & data;
    cpu.with_a(d8).with_f(flags::pack(d8 == 0, false, true, false))
}

/// A | data in A. Z follows the result, the other flags are cleared.
pub open spec fn disjoined(cpu: CPU, data: u8) -> CPU {
    let d8 = cpu.registers.r_a | data;
    cpu.with_a(d8).with_f(flags::pack(d8 == 0, false, false, false))
}

/// A ^ data in A. Z follows the result, the other flags are cleared.
pub open spec fn exclusive(cpu: CPU, data: u8) -> CPU {
    let d8 = cpu.registers.r_a ^ data;
    cpu.with_a(d8).with_f(flags::pack(d8 == 0, false, false, false))
}

/// The flags of A - data, with A left as it is.
pub open spec fn compared(cpu: CPU, data: u8) -> CPU {
    cpu.with_f(difference_flags(cpu.registers.r_a, data, 0))
}

/// INC: adds one to `register_data` and returns the sum. The carry flag is
/// left as it was.
pub fn increment(cpu: &mut CPU, register_data: u8) -> (d8: u8)
    ensures
        (*final(cpu), d8) == incremented(*old(cpu), register_data),
        flags::carry(final(cpu).registers.r_f) == flags::carry(old(cpu).registers.r_f),
        flags::canonical(final(cpu).registers.r_f),
{
    let d8: u8 = register_data.wrapping_add(1);
    let half_carry: bool = (register_data % 16) + 1 > 0xF;
    let carry: bool = flags::carry_set(cpu.registers.r_f);
    cpu.registers.r_f = flags::compose(d8 == 0, false, half_carry, carry);
    d8
}

/// DEC: takes one from `register_data` and returns the difference. The carry
/// flag is left as it was.
pub fn decrement(cpu: &mut CPU, register_data: u8) -> (d8: u8)
    ensures
        (*final(cpu), d8) == decremented(*old(cpu), register_data),
        flags::carry(final(cpu).registers.r_f) == flags::carry(old(cpu).registers.r_f),
        flags::canonical(final(cpu).registers.r_f),
{
    let d8: u8 = register_data.wrapping_sub(1);
    let half_carry: bool = register_data % 16 == 0;
    let carry: bool = flags::carry_set(cpu.registers.r_f);
    cpu.registers.r_f = flags::compose(d8 == 0, true, half_carry, carry);
    d8
}

/// ADD A,data.
pub fn add(cpu: &mut CPU, data: u8)
    ensures
        *final(cpu) == added(*old(cpu), data),
        flags::zero(final(cpu).registers.r_f) <==> (old(cpu).registers.r_a + data) % 256 == 0,
        flags::half_carry(final(cpu).registers.r_f) <==> (old(cpu).registers.r_a % 16) + (data % 16) > 0xF,
        flags::carry(final(cpu).registers.r_f) <==> old(cpu).registers.r_a + data > 0xFF,
        !flags::subtract(final(cpu).registers.r_f),
        flags::canonical(final(cpu).registers.r_f),
{
    let register_data: u8 = cpu.registers.r_a;
    let d8: u8 = register_data.wrapping_add(data);
    let half_carry: bool = (register_data % 16) + (data % 16) > 0xF;
    let carry: bool = (register_data as u16) + (data as u16) > 0xFF;
    cpu.registers.r_f = flags::compose(d8 == 0, false, half_carry, carry);
    cpu.registers.r_a = d8;
}

/// ADC A,data: adds `data` and the carry flag to A.
pub fn add_carry(cpu: &mut CPU, data: u8)
    ensures
        *final(cpu) == added_with_carry(*old(cpu), data),
        flags::zero(final(cpu).registers.r_f) <==> (old(cpu).registers.r_a + data + carry_in(
            old(cpu).registers.r_f,
        )) % 256 == 0,
        flags::half_carry(final(cpu).registers.r_f) <==> (old(cpu).registers.r_a % 16) + (data % 16)
            + carry_in(old(cpu).registers.r_f) > 0xF,
        flags::carry(final(cpu).registers.r_f) <==> old(cpu).registers.r_a + data + carry_in(
            old(cpu).registers.r_f,
        ) > 0xFF,
        !flags::subtract(final(cpu).registers.r_f),
        flags::canonical(final(cpu).registers.r_f),
{
    let carry_bit: u16 = if flags::carry_set(cpu.registers.r_f) {
        1
    } else {
        0
    };
    let register_data: u8 = cpu.registers.r_a;
    let total: u16 = (register_data as u16) + (data as u16) + carry_bit;
    let d8: u8 = if total > 0xFF {
        (total - 0x100) as u8
    } else {
        total as u8
    };
    let half_carry: bool = ((register_data % 16) as u16) + ((data % 16) as u16) + carry_bit > 0xF;
    let carry: bool = total > 0xFF;
    cpu.registers.r_f = flags::compose(d8 == 0, false, half_carry, carry);
    cpu.registers.r_a = d8;
}

/// SUB data.
pub fn sub(cpu: &mut CPU, data: u8)
    ensures
        *final(cpu) == subtracted(*old(cpu), data),
        flags::zero(final(cpu).registers.r_f) <==> old(cpu).registers.r_a == data,
        flags::half_carry(final(cpu).registers.r_f) <==> old(cpu).registers.r_a % 16 < data % 16,
        flags::carry(final(cpu).registers.r_f) <==> old(cpu).registers.r_a < data,
        flags::subtract(final(cpu).registers.r_f),
        flags::canonical(final(cpu).registers.r_f),
{
    let register_data: u8 = cpu.registers.r_a;
    let d8: u8 = register_data.wrapping_sub(data);
    let half_carry: bool = register_data % 16 < data % 16;
    let carry: bool = register_data < data;
    cpu.registers.r_f = flags::compose(d8 == 0, true, half_carry, carry);
    cpu.registers.r_a = d8;
}

/// SBC A,data: takes `data` and the carry flag from A.
pub fn sub_carry(cpu: &mut CPU, data: u8)
    ensures
        *final(cpu) == subtracted_with_carry(*old(cpu), data),
        flags::zero(final(cpu).registers.r_f) <==> wrapped(
            old(cpu).registers.r_a - data - carry_in(old(cpu).registers.r_f),
        ) == 0,
        flags::half_carry(final(cpu).registers.r_f) <==> old(cpu).registers.r_a % 16 < data % 16
            + carry_in(old(cpu).registers.r_f),
        flags::carry(final(cpu).registers.r_f) <==> old(cpu).registers.r_a < data + carry_in(
            old(cpu).registers.r_f,
        ),
        flags::subtract(final(cpu).registers.r_f),
        flags::canonical(final(cpu).registers.r_f),
{
    let carry_bit: u16 = if flags::carry_set(cpu.registers.r_f) {
        1
    } else {
        0
    };
    let register_data: u8 = cpu.registers.r_a;
    let taken: u16 = (data as u16) + carry_bit;
    let d8: u8 = if (register_data as u16) < taken {
        (0x100 + (register_data as u16) - taken) as u8
    } else {
        ((register_data as u16) - taken) as u8
    };
    let half_carry: bool = ((register_data % 16) as u16) < ((data % 16) as u16) + carry_bit;
    let carry: bool = (register_data as u16) < taken;
    cpu.registers.r_f = flags::compose(d8 == 0, true, half_carry, carry);
    cpu.registers.r_a = d8;
}

/// AND data.
pub fn and(cpu: &mut CPU, data: u8)
    ensures
        *final(cpu) == conjoined(*old(cpu), data),
        flags::half_carry(final(cpu).registers.r_f),
        !flags::carry(final(cpu).registers.r_f),
        !flags::subtract(final(cpu).registers.r_f),
        flags::zero(final(cpu).registers.r_f) <==> old(cpu).registers.r_a & data == 0,
        flags::canonical(final(cpu).registers.r_f),
{
    let register_data: u8 = cpu.registers.r_a;
    let d8: u8 = register_data & data;
    cpu.registers.r_f = flags::compose(d8 == 0, false, true, false);
    cpu.registers.r_a = d8;
}

/// OR data.
pub fn or(cpu: &mut CPU, data: u8)
    ensures
        *final(cpu) == disjoined(*old(cpu), data),
        !flags::half_carry(final(cpu).registers.r_f),
        !flags::carry(final(cpu).registers.r_f),
        !flags::subtract(final(cpu).registers.r_f),
        flags::zero(final(cpu).registers.r_f) <==> old(cpu).registers.r_a | data == 0,
        flags::canonical(final(cpu).registers.r_f),
{
    let register_data: u8 = cpu.registers.r_a;
    let d8: u8 = register_data | data;
    cpu.registers.r_f = flags::compose(d8 == 0, false, false, false);
    cpu.registers.r_a = d8;
}

/// XOR data.
pub fn xor(cpu: &mut CPU, data: u8)
    ensures
        *final(cpu) == exclusive(*old(cpu), data),
        !flags::half_carry(final(cpu).registers.r_f),
        !flags::carry(final(cpu).registers.r_f),
        !flags::subtract(final(cpu).registers.r_f),
        flags::zero(final(cpu).registers.r_f) <==> old(cpu).registers.r_a ^ data == 0,
        flags::canonical(final(cpu).registers.r_f),
{
    let register_data: u8 = cpu.registers.r_a;
    let d8: u8 = register_data ^ data;
    cpu.registers.r_f = flags::compose(d8 == 0, false, false, false);
    cpu.registers.r_a = d8;
}

/// CP data: the flags of SUB data, with A left as it is.
pub fn compare(cpu: &mut CPU, data: u8)
    ensures
        *final(cpu) == compared(*old(cpu), data),
        flags::zero(final(cpu).registers.r_f) <==> old(cpu).registers.r_a == data,
        flags::half_carry(final(cpu).registers.r_f) <==> old(cpu).registers.r_a % 16 < data % 16,
        flags::carry(final(cpu).registers.r_f) <==> old(cpu).registers.r_a < data,
        flags::subtract(final(cpu).registers.r_f),
        flags::canonical(final(cpu).registers.r_f),
{
    let register_data: u8 = cpu.registers.r_a;
    let half_carry: bool = register_data % 16 < data % 16;
    let carry: bool = register_data < data;
    cpu.registers.r_f = flags::compose(register_data == data, true, half_carry, carry);
}

} // verus!
