//! The instruction metadata table: opcode byte to addressing mode and
//! encoded length.
//!
//! The table is a pure function of the opcode byte, so it is its own
//! specification: the engine and the machine model both read it through
//! [`spec_opcode`], and [`opcode_lookup`] is the executable form.

use vstd::prelude::*;

verus! {

/// The strategy by which an instruction's operand location is computed.
///
/// `NoneAddressing` is the sentinel for implicit and accumulator-only
/// instructions; resolving an effective address under it is a
/// table-configuration error, and the resolver's precondition rules it
/// out.
#[derive(Clone, Copy, Debug)]
#[allow(non_camel_case_types)]
pub enum AddressingMode {
    Immediate,
    ZeroPage,
    ZeroPage_X,
    ZeroPage_Y,
    Absolute,
    Absolute_X,
    Absolute_Y,
    Indirect_X,
    Indirect_Y,
    NoneAddressing,
}

/// One instruction descriptor: the addressing mode used to decode the
/// operand, and the total encoded length in bytes (1 to 3), used to
/// advance the program counter past instructions that do not redirect
/// control flow themselves.
#[derive(Clone, Copy, Debug)]
pub struct OpCode {
    pub mode: AddressingMode,
    pub len: u8,
}

/// The descriptor for each opcode byte the engine understands, `None`
/// for the rest. Fixed data, never mutated: both the dispatcher and the
/// machine model decode through this one mapping.
pub open spec fn spec_opcode(code: u8) -> Option<OpCode> {
    match code {
        // LDA, LDX, LDY, ADC, SBC, AND, CMP, CPX with an immediate operand
        0xA9 | 0xA2 | 0xA0 | 0x69 | 0xE9 | 0x29 | 0xC9 | 0xE0 => Some(
            OpCode { mode: AddressingMode::Immediate, len: 2 },
        ),
        // zero-page forms
        0xA5 | 0xA6 | 0xA4 | 0x85 | 0x86 | 0xE4 | 0x65 | 0xE5 | 0x25 | 0xC6 | 0x24 | 0xC5 | 0x46
        | 0xE6 => Some(OpCode { mode: AddressingMode::ZeroPage, len: 2 }),
        // zero-page,X forms
        0xB5 | 0xB4 | 0x95 | 0x75 | 0xF5 | 0x35 | 0xD6 | 0xD5 | 0x56 | 0xF6 => Some(
            OpCode { mode: AddressingMode::ZeroPage_X, len: 2 },
        ),
        // zero-page,Y forms (LDX and STX)
        0xB6 | 0x96 => Some(OpCode { mode: AddressingMode::ZeroPage_Y, len: 2 }),
        // absolute forms, including JMP and JSR
        0xAD | 0xAE | 0xAC | 0x8D | 0x8E | 0xEC | 0x6D | 0xED | 0x2D | 0xCE | 0x2C | 0xCD | 0x4E
        | 0xEE | 0x4C | 0x20 => Some(OpCode { mode: AddressingMode::Absolute, len: 3 }),
        // absolute,X forms
        0xBD | 0xBC | 0x9D | 0x7D | 0xFD | 0x3D | 0xDE | 0xDD | 0x5E | 0xFE => Some(
            OpCode { mode: AddressingMode::Absolute_X, len: 3 },
        ),
        // absolute,Y forms
        0xB9 | 0xBE | 0x99 | 0x79 | 0xF9 | 0x39 | 0xD9 => Some(
            OpCode { mode: AddressingMode::Absolute_Y, len: 3 },
        ),
        // (indirect,X) forms
        0xA1 | 0x81 | 0x61 | 0xE1 | 0x21 | 0xC1 => Some(
            OpCode { mode: AddressingMode::Indirect_X, len: 2 },
        ),
        // (indirect),Y forms
        0xB1 | 0x91 | 0x71 | 0xF1 | 0x31 | 0xD1 => Some(
            OpCode { mode: AddressingMode::Indirect_Y, len: 2 },
        ),
        // relative branches: BNE, BEQ, BVS, BVC, BPL, BMI, BCS, BCC
        0xD0 | 0xF0 | 0x70 | 0x50 | 0x10 | 0x30 | 0xB0 | 0x90 => Some(
            OpCode { mode: AddressingMode::NoneAddressing, len: 2 },
        ),
        // single-byte instructions: register transfers, stack return,
        // flag set/clear, LSR on the accumulator, NOP, BRK
        0xCA | 0xAA | 0x8A | 0xE8 | 0x00 | 0x60 | 0xD8 | 0x58 | 0xB8 | 0x18 | 0x38 | 0x78 | 0xF8
        | 0xEA | 0x4A => Some(OpCode { mode: AddressingMode::NoneAddressing, len: 1 }),
        _ => None,
    }
}

/// Looks up the descriptor for an opcode byte.
pub fn opcode_lookup(code: u8) -> (r: Option<OpCode>)
    ensures
        r == spec_opcode(code),
{
    match code {
        0xA9 | 0xA2 | 0xA0 | 0x69 | 0xE9 | 0x29 | 0xC9 | 0xE0 => Some(
            OpCode { mode: AddressingMode::Immediate, len: 2 },
        ),
        0xA5 | 0xA6 | 0xA4 | 0x85 | 0x86 | 0xE4 | 0x65 | 0xE5 | 0x25 | 0xC6 | 0x24 | 0xC5 | 0x46
        | 0xE6 => Some(OpCode { mode: AddressingMode::ZeroPage, len: 2 }),
        0xB5 | 0xB4 | 0x95 | 0x75 | 0xF5 | 0x35 | 0xD6 | 0xD5 | 0x56 | 0xF6 => Some(
            OpCode { mode: AddressingMode::ZeroPage_X, len: 2 },
        ),
        0xB6 | 0x96 => Some(OpCode { mode: AddressingMode::ZeroPage_Y, len: 2 }),
        0xAD | 0xAE | 0xAC | 0x8D | 0x8E | 0xEC | 0x6D | 0xED | 0x2D | 0xCE | 0x2C | 0xCD | 0x4E
        | 0xEE | 0x4C | 0x20 => Some(OpCode { mode: AddressingMode::Absolute, len: 3 }),
        0xBD | 0xBC | 0x9D | 0x7D | 0xFD | 0x3D | 0xDE | 0xDD | 0x5E | 0xFE => Some(
            OpCode { mode: AddressingMode::Absolute_X, len: 3 },
        ),
        0xB9 | 0xBE | 0x99 | 0x79 | 0xF9 | 0x39 | 0xD9 => Some(
            OpCode { mode: AddressingMode::Absolute_Y, len: 3 },
        ),
        0xA1 | 0x81 | 0x61 | 0xE1 | 0x21 | 0xC1 => Some(
            OpCode { mode: AddressingMode::Indirect_X, len: 2 },
        ),
        0xB1 | 0x91 | 0x71 | 0xF1 | 0x31 | 0xD1 => Some(
            OpCode { mode: AddressingMode::Indirect_Y, len: 2 },
        ),
        0xD0 | 0xF0 | 0x70 | 0x50 | 0x10 | 0x30 | 0xB0 | 0x90 => Some(
            OpCode { mode: AddressingMode::NoneAddressing, len: 2 },
        ),
        0xCA | 0xAA | 0x8A | 0xE8 | 0x00 | 0x60 | 0xD8 | 0x58 | 0xB8 | 0x18 | 0x38 | 0x78 | 0xF8
        | 0xEA | 0x4A => Some(OpCode { mode: AddressingMode::NoneAddressing, len: 1 }),
        _ => None,
    }
}

} // verus!
