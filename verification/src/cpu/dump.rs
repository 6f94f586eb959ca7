//! The diagnostic dump: the processor's state as text, for the message that
//! goes with a fault and for stepping through a program by hand.

use super::CPU;
use vstd::prelude::*;

verus! {

/// The text of a full dump. It is laid out by the standard formatter from
/// the memory, the stack, the I register, the registers, the pointer and the
/// text of the opcode, and from nothing else.
pub uninterp spec fn dump_text(
    memory: Seq<u8>,
    stack: Seq<usize>,
    index: u16,
    registers: Seq<u8>,
    pointer: usize,
    opcode: Option<Seq<char>>,
) -> Seq<char>;

/// The text of a dump that leaves the memory out.
pub uninterp spec fn brief_dump_text(
    stack: Seq<usize>,
    index: u16,
    registers: Seq<u8>,
    pointer: usize,
    opcode: Option<Seq<char>>,
) -> Seq<char>;

/// The upper-case hexadecimal digit for a value below sixteen.
pub open spec fn hex_digit(value: int) -> char {
    if value == 0 {
        '0'
    } else if value == 1 {
        '1'
    } else if value == 2 {
        '2'
    } else if value == 3 {
        '3'
    } else if value == 4 {
        '4'
    } else if value == 5 {
        '5'
    } else if value == 6 {
        '6'
    } else if value == 7 {
        '7'
    } else if value == 8 {
        '8'
    } else if value == 9 {
        '9'
    } else if value == 10 {
        'A'
    } else if value == 11 {
        'B'
    } else if value == 12 {
        'C'
    } else if value == 13 {
        'D'
    } else if value == 14 {
        'E'
    } else {
        'F'
    }
}

/// An opcode as it is written: four upper-case hexadecimal digits.
pub open spec fn opcode_text(opcode: u16) -> Seq<char> {
    seq![
        hex_digit(opcode as int / 0x1000),
        hex_digit(opcode as int / 0x100 % 0x10),
        hex_digit(opcode as int / 0x10 % 0x10),
        hex_digit(opcode as int % 0x10),
    ]
}

/// The text of the opcode that a dump shows, where there is one.
pub open spec fn shown_opcode(opcode: Option<u16>) -> Option<Seq<char>> {
    match opcode {
        Some(code) => Some(opcode_text(code)),
        None => None,
    }
}

/// Formats an opcode with `format!` and the pattern `{:04X}`: upper-case
/// hexadecimal, filled with zeros to four digits, which is as many as
/// sixteen bits can take.
#[verifier::external_body]
fn format_opcode(opcode: u16) -> (text: String)
    ensures
        text@ == opcode_text(opcode),
{
    format!("{:04X}", opcode)
}

/// Lays out the full dump with `format!`. The text depends on the values
/// named in the contract alone; what it looks like is left to the standard
/// formatter.
#[verifier::external_body]
fn format_dump(cpu: &CPU, opcode: Option<String>) -> (text: String)
    ensures
        text@ == dump_text(
            cpu@.memory,
            cpu@.stack,
            cpu@.index,
            cpu@.registers,
            cpu@.pointer,
            match opcode {
                Some(code) => Some(code@),
                None => None,
            },
        ),
{
    format!(
        "CPU Dump:\n            Memory: {:?}\n            Stack: {:?}\n            {:?}\n            Registry Memory: {:?}\n            Current Opcode pointer: 0x{:04X}\n            Opcode: {:?}\n            ",
        cpu.memory,
        cpu.stack,
        cpu.i_register.data,
        cpu.register_memory,
        cpu.instruction_ptr,
        opcode
    )
}

/// Lays out the dump without the memory with `format!`. The text depends on
/// the values named in the contract alone.
#[verifier::external_body]
fn format_brief_dump(cpu: &CPU, opcode: Option<String>) -> (text: String)
    ensures
        text@ == brief_dump_text(
            cpu@.stack,
            cpu@.index,
            cpu@.registers,
            cpu@.pointer,
            match opcode {
                Some(code) => Some(code@),
                None => None,
            },
        ),
{
    format!(
        "CPU Dump:\n            Stack: {:?}\n            {:?}\n            Registry Memory: {:?}\n            Current Opcode pointer: 0x{:04X}\n            Opcode: {:?}\n            ",
        cpu.stack,
        cpu.i_register.data,
        cpu.register_memory,
        cpu.instruction_ptr,
        opcode
    )
}

impl CPU {
    /// The whole state as text: memory, stack, I register, registers,
    /// pointer, and the opcode at hand if there is one.
    pub fn dump(&self, opcode: Option<u16>) -> (text: String)
        ensures
            text@ == dump_text(
                self@.memory,
                self@.stack,
                self@.index,
                self@.registers,
                self@.pointer,
                shown_opcode(opcode),
            ),
    {
        let code = match opcode {
            Some(code) => Some(format_opcode(code)),
            None => None,
        };
        format_dump(self, code)
    }

    /// The state as text without the memory: stack, I register, registers,
    /// pointer, and the opcode at hand if there is one.
    pub fn dump_without_memory(&self, opcode: Option<u16>) -> (text: String)
        ensures
            text@ == brief_dump_text(
                self@.stack,
                self@.index,
                self@.registers,
                self@.pointer,
                shown_opcode(opcode),
            ),
    {
        let code = match opcode {
            Some(code) => Some(format_opcode(code)),
            None => None,
        };
        format_brief_dump(self, code)
    }
}

} // verus!
