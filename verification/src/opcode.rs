//! The instruction set: one-byte opcodes with their encoding.

use vstd::prelude::*;

verus! {

/// Every opcode of the virtual machine. `INVALID` carries the byte that
/// decoded to no opcode.
#[derive(Debug, PartialEq, Eq, Clone, Copy, Structural)]
pub enum Op {
    // Literals
    TRUE,
    FALSE,
    CONSTANT,
    SetGlobal,
    GetGlobal,
    SetLocal,
    GetLocal,
    SetUpvalue,
    GetUpvalue,
    // Boolean
    NOT,
    // Comparison
    GREATER,
    LESS,
    EQUAL,
    // Arithmetic
    NEGATE,
    ADD,
    SUB,
    MUL,
    DIV,
    // Control
    Loop,
    Jump,
    JumpIfFalse,
    Closure,
    Call,
    RETURN,
    POP,
    // IO
    PRINT,
    // Error handling
    INVALID(u8),
}

impl Op {
    /// The encoding of each opcode, as a spec-level function.
    pub open spec fn spec_byte(self) -> u8 {
        match self {
            Op::RETURN => 0,
            Op::CONSTANT => 1,
            Op::NEGATE => 2,
            Op::ADD => 3,
            Op::SUB => 4,
            Op::MUL => 5,
            Op::DIV => 6,
            Op::TRUE => 7,
            Op::FALSE => 8,
            Op::NOT => 9,
            Op::GREATER => 10,
            Op::LESS => 11,
            Op::EQUAL => 12,
            Op::PRINT => 13,
            Op::POP => 14,
            Op::SetGlobal => 15,
            Op::GetGlobal => 16,
            Op::SetLocal => 17,
            Op::GetLocal => 18,
            Op::Closure => 19,
            Op::JumpIfFalse => 20,
            Op::Jump => 21,
            Op::Loop => 22,
            Op::Call => 23,
            Op::SetUpvalue => 24,
            Op::GetUpvalue => 25,
            Op::INVALID(_) => 255,
        }
    }

    /// Decoding, as a spec-level function: bytes 0 through 25 name
    /// opcodes, anything else is INVALID.
    pub open spec fn spec_at(byte: u8) -> Op {
        if byte == 0 {
            Op::RETURN
        } else if byte == 1 {
            Op::CONSTANT
        } else if byte == 2 {
            Op::NEGATE
        } else if byte == 3 {
            Op::ADD
        } else if byte == 4 {
            Op::SUB
        } else if byte == 5 {
            Op::MUL
        } else if byte == 6 {
            Op::DIV
        } else if byte == 7 {
            Op::TRUE
        } else if byte == 8 {
            Op::FALSE
        } else if byte == 9 {
            Op::NOT
        } else if byte == 10 {
            Op::GREATER
        } else if byte == 11 {
            Op::LESS
        } else if byte == 12 {
            Op::EQUAL
        } else if byte == 13 {
            Op::PRINT
        } else if byte == 14 {
            Op::POP
        } else if byte == 15 {
            Op::SetGlobal
        } else if byte == 16 {
            Op::GetGlobal
        } else if byte == 17 {
            Op::SetLocal
        } else if byte == 18 {
            Op::GetLocal
        } else if byte == 19 {
            Op::Closure
        } else if byte == 20 {
            Op::JumpIfFalse
        } else if byte == 21 {
            Op::Jump
        } else if byte == 22 {
            Op::Loop
        } else if byte == 23 {
            Op::Call
        } else if byte == 24 {
            Op::SetUpvalue
        } else if byte == 25 {
            Op::GetUpvalue
        } else {
            Op::INVALID(byte)
        }
    }

    /// The bytecode of this opcode: one byte.
    pub fn bytecode(&self) -> (r: Vec<u8>)
        ensures
            r@.len() == 1,
            r@[0] == self.spec_byte(),
    {
        let b: u8 = match self {
            Op::RETURN => 0,
            Op::CONSTANT => 1,
            Op::NEGATE => 2,
            Op::ADD => 3,
            Op::SUB => 4,
            Op::MUL => 5,
            Op::DIV => 6,
            Op::TRUE => 7,
            Op::FALSE => 8,
            Op::NOT => 9,
            Op::GREATER => 10,
            Op::LESS => 11,
            Op::EQUAL => 12,
            Op::PRINT => 13,
            Op::POP => 14,
            Op::SetGlobal => 15,
            Op::GetGlobal => 16,
            Op::SetLocal => 17,
            Op::GetLocal => 18,
            Op::Closure => 19,
            Op::JumpIfFalse => 20,
            Op::Jump => 21,
            Op::Loop => 22,
            Op::Call => 23,
            Op::SetUpvalue => 24,
            Op::GetUpvalue => 25,
            Op::INVALID(_) => 255,
        };
        let mut v: Vec<u8> = Vec::new();
        v.push(b);
        v
    }

    /// Decodes one byte to its opcode.
    pub fn at(byte: u8) -> (r: Op)
        ensures
            r == Op::spec_at(byte),
    {
        if byte == 0 {
            Op::RETURN
        } else if byte == 1 {
            Op::CONSTANT
        } else if byte == 2 {
            Op::NEGATE
        } else if byte == 3 {
            Op::ADD
        } else if byte == 4 {
            Op::SUB
        } else if byte == 5 {
            Op::MUL
        } else if byte == 6 {
            Op::DIV
        } else if byte == 7 {
            Op::TRUE
        } else if byte == 8 {
            Op::FALSE
        } else if byte == 9 {
            Op::NOT
        } else if byte == 10 {
            Op::GREATER
        } else if byte == 11 {
            Op::LESS
        } else if byte == 12 {
            Op::EQUAL
        } else if byte == 13 {
            Op::PRINT
        } else if byte == 14 {
            Op::POP
        } else if byte == 15 {
            Op::SetGlobal
        } else if byte == 16 {
            Op::GetGlobal
        } else if byte == 17 {
            Op::SetLocal
        } else if byte == 18 {
            Op::GetLocal
        } else if byte == 19 {
            Op::Closure
        } else if byte == 20 {
            Op::JumpIfFalse
        } else if byte == 21 {
            Op::Jump
        } else if byte == 22 {
            Op::Loop
        } else if byte == 23 {
            Op::Call
        } else if byte == 24 {
            Op::SetUpvalue
        } else if byte == 25 {
            Op::GetUpvalue
        } else {
            Op::INVALID(byte)
        }
    }
}

/// Encoding and decoding agree: decoding the byte of any opcode that is
/// not INVALID gives the opcode back, and re-encoding a decoded byte
/// gives the byte back.
pub proof fn lemma_opcode_round_trip(op: Op, byte: u8)
    ensures
        !(op is INVALID) ==> Op::spec_at(op.spec_byte()) == op,
        Op::spec_at(byte).spec_byte() == byte || Op::spec_at(byte) is INVALID,
        Op::spec_at(byte) is INVALID ==> byte > 25,
{
}

} // verus!
