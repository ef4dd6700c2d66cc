//! Compiled functions, closures, and the compile-time upvalue
//! descriptors that CLOSURE instructions carry.

use vstd::prelude::*;
use crate::chunk::Chunk;
use crate::arena::Handle;

verus! {

/// A compiled function: name, parameter count, how many upvalues its
/// closures bind, and the bytecode. Immutable after compilation.
#[derive(Debug, Clone)]
pub struct WeaveFn {
    pub chunk: Chunk,
    pub name: Vec<u8>,
    pub arity: usize,
    pub upvalue_count: u8,
}

impl WeaveFn {
    pub fn new(name: Vec<u8>) -> (r: WeaveFn)
        ensures
            r.name == name,
            r.arity == 0,
            r.upvalue_count == 0,
            r.chunk.code@.len() == 0,
            r.chunk.constants@.len() == 0,
    {
        WeaveFn { chunk: Chunk::new(), name, arity: 0, upvalue_count: 0 }
    }
}

/// A compile-time upvalue descriptor: `idx` is the operand the CLOSURE
/// instruction carries, `is_local` says whether it captures a local of
/// the enclosing function or reuses one of its upvalues, and
/// `original_idx` remembers the captured local's slot for deduplication.
#[derive(Debug, Clone, Copy, PartialEq, Eq, Structural)]
pub struct Upvalue {
    pub idx: u8,
    pub is_local: bool,
    pub original_idx: u8,
}

impl Upvalue {
    /// A capture of slot `idx` in the enclosing function.
    pub fn local(idx: u8) -> (r: Upvalue)
        ensures
            r.idx == idx,
            r.is_local,
            r.original_idx == idx,
    {
        Upvalue { idx, is_local: true, original_idx: idx }
    }

    /// A reuse of upvalue `idx` of the enclosing function.
    pub fn remote(idx: u8) -> (r: Upvalue)
        ensures
            r.idx == idx,
            !r.is_local,
            r.original_idx == idx,
    {
        Upvalue { idx, is_local: false, original_idx: idx }
    }

    /// The two descriptor bytes after a CLOSURE instruction: a local
    /// flag, then the captured slot (for locals) or the parent upvalue
    /// index (for the rest).
    pub fn to_bytes(&self) -> (r: Vec<u8>)
        ensures
            r@.len() == 2,
            r@[0] == if self.is_local {
                1u8
            } else {
                0u8
            },
            r@[1] == if self.is_local {
                self.original_idx
            } else {
                self.idx
            },
    {
        let stored_idx = if self.is_local {
            self.original_idx
        } else {
            self.idx
        };
        let mut v: Vec<u8> = Vec::new();
        v.push(if self.is_local {
            1
        } else {
            0
        });
        v.push(stored_idx);
        v
    }

    /// Decodes a descriptor pair back from code bytes.
    pub fn from_bytes(code: &[u8], offset: usize) -> (r: Upvalue)
        requires
            offset + 1 < code@.len(),
        ensures
            r.is_local == (code@[offset as int] == 1u8),
            r.idx == code@[offset as int + 1],
            r.original_idx == r.idx,
    {
        let is_local = code[offset] == 0x01;
        let idx = code[offset + 1];
        Upvalue { idx, is_local, original_idx: idx }
    }
}

/// A closure: a function (by its index in the program's function table)
/// together with the handles of its captured upvalues.
#[derive(Debug, Clone)]
pub struct FnClosure {
    pub func: usize,
    pub upvalues: Vec<Handle>,
}

impl FnClosure {
    pub fn new(func: usize) -> (r: FnClosure)
        ensures
            r.func == func,
            r.upvalues@.len() == 0,
    {
        FnClosure { func, upvalues: Vec::new() }
    }
}

} // verus!
