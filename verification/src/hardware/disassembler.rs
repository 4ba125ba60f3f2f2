//! Mnemonics of the instructions behind the 0xCB prefix, for traces.

use vstd::prelude::*;

verus! {

/// The name of the operand that the low three bits of an opcode select.
pub open spec fn operand_name(index: int) -> Seq<char> {
    if index == 0 {
        "B"@
    } else if index == 1 {
        "C"@
    } else if index == 2 {
        "D"@
    } else if index == 3 {
        "E"@
    } else if index == 4 {
        "H"@
    } else if index == 5 {
        "L"@
    } else if index == 6 {
        "(HL)"@
    } else {
        "A"@
    }
}

/// The name of the operation that the high five bits of an opcode select.
pub open spec fn operation_name(kind: int) -> Seq<char> {
    if kind == 0 {
        "RLC"@
    } else if kind == 1 {
        "RRC"@
    } else if kind == 2 {
        "RL"@
    } else if kind == 3 {
        "RR"@
    } else if kind == 4 {
        "SLA"@
    } else if kind == 5 {
        "SRA"@
    } else if kind == 6 {
        "SWAP"@
    } else if kind == 7 {
        "SRL"@
    } else if kind < 16 {
        "BIT"@
    } else if kind < 24 {
        "RES"@
    } else {
        "SET"@
    }
}

/// The digit of a bit number.
pub open spec fn bit_name(index: int) -> Seq<char> {
    if index == 0 {
        "0"@
    } else if index == 1 {
        "1"@
    } else if index == 2 {
        "2"@
    } else if index == 3 {
        "3"@
    } else if index == 4 {
        "4"@
    } else if index == 5 {
        "5"@
    } else if index == 6 {
        "6"@
    } else {
        "7"@
    }
}

/// The mnemonic of a prefixed opcode: the operation and the operand, and
/// between them the bit number for BIT, RES and SET.
pub open spec fn mnemonic(opcode: u8) -> Seq<char> {
    let kind = opcode / 8;
    if kind < 8 {
        operation_name(kind as int) + " "@ + operand_name((opcode % 8) as int)
    } else {
        operation_name(kind as int) + " "@ + bit_name((kind % 8) as int) + ","@ + operand_name(
            (opcode % 8) as int,
        )
    }
}

fn operand(index: u8) -> (name: &'static str)
    ensures
        name@ == operand_name(index as int),
{
    match index {
        0x00 => "B",
        0x01 => "C",
        0x02 => "D",
        0x03 => "E",
        0x04 => "H",
        0x05 => "L",
        0x06 => "(HL)",
        _ => "A",
    }
}

fn operation(kind: u8) -> (name: &'static str)
    ensures
        name@ == operation_name(kind as int),
{
    match kind {
        0x00 => "RLC",
        0x01 => "RRC",
        0x02 => "RL",
        0x03 => "RR",
        0x04 => "SLA",
        0x05 => "SRA",
        0x06 => "SWAP",
        0x07 => "SRL",
        0x08..=0x0F => "BIT",
        0x10..=0x17 => "RES",
        _ => "SET",
    }
}

fn bit(index: u8) -> (name: &'static str)
    ensures
        name@ == bit_name(index as int),
{
    match index {
        0 => "0",
        1 => "1",
        2 => "2",
        3 => "3",
        4 => "4",
        5 => "5",
        6 => "6",
        _ => "7",
    }
}

/// `format!` of an operation and its operand: the two names with a blank
/// between them, as the format string lays them out.
#[verifier::external_body]
fn format_operand(operation: &str, operand: &str) -> (text: String)
    ensures
        text@ == operation@ + " "@ + operand@,
{
    format!("{} {}", operation, operand)
}

/// `format!` of a bit operation, its bit number and its operand: the operation,
/// a blank, the bit number, a comma and the operand, as the format string
/// lays them out.
#[verifier::external_body]
fn format_bit_operand(operation: &str, bit: &str, operand: &str) -> (text: String)
    ensures
        text@ == operation@ + " "@ + bit@ + ","@ + operand@,
{
    format!("{} {},{}", operation, bit, operand)
}

/// The mnemonic of the instruction `opcode` of the 0xCB table.
pub fn subdecode(opcode: u8) -> (text: String)
    ensures
        text@ == mnemonic(opcode),
{
    let kind: u8 = opcode / 8;
    if kind < 8 {
        format_operand(operation(kind), operand(opcode % 8))
    } else {
        format_bit_operand(operation(kind), bit(kind % 8), operand(opcode % 8))
    }
}

} // verus!
