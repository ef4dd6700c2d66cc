//! Rendering bytecode as text, for logs.

use vstd::prelude::*;
use crate::chunk::Chunk;
use crate::opcode::Op;
use crate::bytes::push_decimal;

verus! {

/// A bytecode element that can render itself at a chunk offset, writing
/// its text to `out` and returning the offset of the next element.
pub trait Disassemble {
    fn disassemble(&self, offset: usize, chunk: &Chunk, out: &mut Vec<u8>) -> (r: usize)
        requires
            offset < chunk.code@.len(),
        ensures
            r > offset,
    ;
}

fn push_mnemonic(out: &mut Vec<u8>, op: &Op) {
    let name: &str = match op {
        Op::RETURN => "RETURN",
        Op::CONSTANT => "CONSTANT",
        Op::NEGATE => "NEGATE",
        Op::ADD => "ADD",
        Op::SUB => "SUB",
        Op::MUL => "MUL",
        Op::DIV => "DIV",
        Op::TRUE => "TRUE",
        Op::FALSE => "FALSE",
        Op::NOT => "NOT",
        Op::GREATER => "GREATER",
        Op::LESS => "LESS",
        Op::EQUAL => "EQUAL",
        Op::PRINT => "PRINT",
        Op::POP => "POP",
        Op::SetGlobal => "SET_GLOBAL",
        Op::GetGlobal => "GET_GLOBAL",
        Op::SetLocal => "SET_LOCAL",
        Op::GetLocal => "GET_LOCAL",
        Op::Closure => "CLOSURE",
        Op::JumpIfFalse => "JUMP_IF_FALSE",
        Op::Jump => "JUMP",
        Op::Loop => "LOOP",
        Op::Call => "CALL",
        Op::SetUpvalue => "SET_UPVALUE",
        Op::GetUpvalue => "GET_UPVALUE",
        Op::INVALID(_) => "INVALID",
    };
    let bs = vstd::string::StrSliceExecFns::as_bytes_vec(name);
    crate::bytes::append_bytes(out, &bs);
}

impl Disassemble for Op {
    /// One listing row: offset, line column, mnemonic, and the decoded
    /// operands; the result is the offset of the next instruction.
    fn disassemble(&self, offset: usize, chunk: &Chunk, out: &mut Vec<u8>) -> (r: usize) {
        push_decimal(out, offset as u64);
        out.push(0x20);
        let line_col = chunk.line_str(offset);
        crate::bytes::append_bytes(out, &line_col);
        out.push(0x20);
        push_mnemonic(out, self);
        let mut next = offset + 1;
        match self {
            Op::CONSTANT | Op::Closure | Op::Jump | Op::JumpIfFalse | Op::Loop => {
                // A 16-bit big-endian operand; for CLOSURE the upvalue
                // pairs that follow are listed by the pair count of the
                // referenced function, which the chunk alone cannot name.
                if chunk.code.len() - offset > 2 {
                    let hi = chunk.code[offset + 1] as u64;
                    let lo = chunk.code[offset + 2] as u64;
                    out.push(0x20);
                    push_decimal(out, hi * 256 + lo);
                    next = next + 2;
                }
            },
            Op::SetLocal | Op::GetLocal | Op::SetUpvalue | Op::GetUpvalue | Op::Call => {
                if chunk.code.len() - offset > 1 {
                    out.push(0x20);
                    push_decimal(out, chunk.code[offset + 1] as u64);
                    next = next + 1;
                }
            },
            _ => {},
        }
        out.push(0x0A);
        next
    }
}

} // verus!
