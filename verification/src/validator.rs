//! Structural validation of compiled bytecode.
//!
//! `program_wf` pins down what a well-formed compiled program is: every
//! chunk decodes cleanly into instructions, the last instruction of every
//! chunk is RETURN, every jump's target lies within the chunk's bytes,
//! every CLOSURE names a function constant and is followed by exactly
//! that function's number of upvalue-descriptor pairs, and every constant
//! is a number, boolean, null, or an in-range string or function
//! reference. The compiler's output is held to this predicate before the
//! machine ever runs it.

use vstd::prelude::*;
use crate::function::WeaveFn;
use crate::opcode::Op;
use crate::value::NanBoxedValue;
use crate::value::is_number_bits;
use crate::value::is_boolean_bits;
use crate::value::is_null_bits;

verus! {

/// The 16-bit big-endian operand at `pos`.
pub open spec fn be16_at(code: Seq<u8>, pos: int) -> int {
    code[pos] * 256 + code[pos + 1]
}

/// A constant pool entry is a plain value or an in-range reference.
pub open spec fn const_ok(v: NanBoxedValue, n_strings: int, n_functions: int) -> bool {
    ||| is_number_bits(v.bits)
    ||| is_boolean_bits(v.bits)
    ||| is_null_bits(v.bits)
    ||| (v.is_string_spec() && (v.payload() as int) < n_strings)
    ||| (v.is_function_spec() && (v.payload() as int) < n_functions)
}

pub open spec fn constants_ok(consts: Seq<NanBoxedValue>, n_strings: int, n_functions: int) -> bool {
    forall|i: int| 0 <= i < consts.len() ==> const_ok(#[trigger] consts[i], n_strings, n_functions)
}

/// The code from `pos` on decodes into instructions: operands complete,
/// constant indexes in range, jump targets within the code, CLOSURE
/// followed by its function's pair count, and nothing but RETURN as the
/// final instruction.
pub open spec fn code_decodes(code: Seq<u8>, consts: Seq<NanBoxedValue>, up_counts: Seq<u8>, pos: int) -> bool
    decreases code.len() - pos,
    when 0 <= pos <= code.len()
{
    if pos == code.len() {
        true
    } else {
        match Op::spec_at(code[pos]) {
            Op::RETURN => code_decodes(code, consts, up_counts, pos + 1),
            Op::INVALID(_) => false,
            Op::CONSTANT => {
                &&& pos + 3 <= code.len()
                &&& be16_at(code, pos + 1) < consts.len()
                &&& pos + 3 < code.len()
                &&& code_decodes(code, consts, up_counts, pos + 3)
            },
            Op::Jump | Op::JumpIfFalse => {
                &&& pos + 3 <= code.len()
                &&& pos + 3 + be16_at(code, pos + 1) <= code.len()
                &&& pos + 3 < code.len()
                &&& code_decodes(code, consts, up_counts, pos + 3)
            },
            Op::Loop => {
                &&& pos + 3 <= code.len()
                &&& be16_at(code, pos + 1) <= pos + 3
                &&& pos + 3 < code.len()
                &&& code_decodes(code, consts, up_counts, pos + 3)
            },
            Op::SetLocal | Op::GetLocal | Op::SetUpvalue | Op::GetUpvalue | Op::Call => {
                &&& pos + 2 <= code.len()
                &&& pos + 2 < code.len()
                &&& code_decodes(code, consts, up_counts, pos + 2)
            },
            Op::Closure => {
                &&& pos + 3 <= code.len()
                &&& be16_at(code, pos + 1) < consts.len()
                &&& consts[be16_at(code, pos + 1)].is_function_spec()
                &&& (consts[be16_at(code, pos + 1)].payload() as int) < up_counts.len()
                &&& {
                    let pairs = up_counts[consts[be16_at(code, pos + 1)].payload() as int] as int;
                    &&& pos + 3 + 2 * pairs <= code.len()
                    &&& (forall|k: int|
                        0 <= k < pairs ==> code[pos + 3 + 2 * k] == 0 || #[trigger] code[pos + 3 + 2
                            * k] == 1)
                    &&& pos + 3 + 2 * pairs < code.len()
                    &&& code_decodes(code, consts, up_counts, pos + 3 + 2 * pairs)
                }
            },
            _ => {
                // The remaining operand-free instructions.
                &&& pos + 1 < code.len()
                &&& code_decodes(code, consts, up_counts, pos + 1)
            },
        }
    }
}

/// One function's chunk is well formed against the program's tables.
pub open spec fn function_wf(f: WeaveFn, up_counts: Seq<u8>, n_strings: int, n_functions: int) -> bool {
    &&& f.chunk.code@.len() > 0
    &&& code_decodes(f.chunk.code@, f.chunk.constants@, up_counts, 0)
    &&& constants_ok(f.chunk.constants@, n_strings, n_functions)
}

/// A compiled program: its functions, its string table, and which
/// function is the script body.
pub struct Program {
    pub functions: Vec<WeaveFn>,
    pub strings: Vec<Vec<u8>>,
    pub script: usize,
}

/// The pair counts CLOSURE instructions are checked against: each
/// function's upvalue count.
pub open spec fn spec_up_counts(functions: Seq<WeaveFn>) -> Seq<u8> {
    functions.map(|i: int, f: WeaveFn| f.upvalue_count)
}

/// The whole program is well formed.
pub open spec fn program_wf(p: Program) -> bool {
    &&& p.script < p.functions@.len()
    &&& forall|f: int|
        0 <= f < p.functions@.len() ==> function_wf(
            #[trigger] p.functions@[f],
            spec_up_counts(p.functions@),
            p.strings@.len() as int,
            p.functions@.len() as int,
        )
}

/// Checks one constant.
fn check_const(v: NanBoxedValue, n_strings: usize, n_functions: usize) -> (r: bool)
    ensures
        r == const_ok(v, n_strings as int, n_functions as int),
{
    if v.is_number() || v.is_boolean() || v.is_null() {
        return true;
    }
    if v.is_string() {
        let idx = v.bits & 0x0000FFFFFFFFFFFF;
        return idx < (n_strings as u64);
    }
    if v.is_function() {
        let idx = v.bits & 0x0000FFFFFFFFFFFF;
        return idx < (n_functions as u64);
    }
    false
}

/// Checks a constant pool.
fn check_constants(consts: &Vec<NanBoxedValue>, n_strings: usize, n_functions: usize) -> (r: bool)
    ensures
        r == constants_ok(consts@, n_strings as int, n_functions as int),
{
    let n = consts.len();
    let mut i: usize = 0;
    while i < n
        invariant
            i <= n,
            n == consts@.len(),
            forall|j: int|
                0 <= j < i ==> const_ok(#[trigger] consts@[j], n_strings as int, n_functions as int),
        decreases n - i,
    {
        if !check_const(consts[i], n_strings, n_functions) {
            return false;
        }
        i = i + 1;
    }
    true
}

/// Checks that code decodes from start to end; see `code_decodes`.
fn check_code(code: &Vec<u8>, consts: &Vec<NanBoxedValue>, up_counts: &Vec<u8>) -> (r: bool)
    ensures
        r == code_decodes(code@, consts@, up_counts@, 0),
{
    let n = code.len();
    let mut pos: usize = 0;
    while pos < n
        invariant
            pos <= n,
            n == code@.len(),
            code_decodes(code@, consts@, up_counts@, 0) == code_decodes(
                code@,
                consts@,
                up_counts@,
                pos as int,
            ),
        decreases n - pos,
    {
        let op = Op::at(code[pos]);
        match op {
            Op::RETURN => {
                pos = pos + 1;
            },
            Op::INVALID(_) => {
                return false;
            },
            Op::CONSTANT => {
                if n - pos < 3 {
                    return false;
                }
                let idx = (code[pos + 1] as usize) * 256 + (code[pos + 2] as usize);
                if idx >= consts.len() {
                    return false;
                }
                if n - pos == 3 {
                    return false;
                }
                pos = pos + 3;
            },
            Op::Jump | Op::JumpIfFalse => {
                if n - pos < 3 {
                    return false;
                }
                let off = (code[pos + 1] as usize) * 256 + (code[pos + 2] as usize);
                if off > n - (pos + 3) {
                    return false;
                }
                if n - pos == 3 {
                    return false;
                }
                pos = pos + 3;
            },
            Op::Loop => {
                if n - pos < 3 {
                    return false;
                }
                let off = (code[pos + 1] as usize) * 256 + (code[pos + 2] as usize);
                if off > pos + 3 {
                    return false;
                }
                if n - pos == 3 {
                    return false;
                }
                pos = pos + 3;
            },
            Op::SetLocal | Op::GetLocal | Op::SetUpvalue | Op::GetUpvalue | Op::Call => {
                if n - pos < 2 {
                    return false;
                }
                if n - pos == 2 {
                    return false;
                }
                pos = pos + 2;
            },
            Op::Closure => {
                if n - pos < 3 {
                    return false;
                }
                let idx = (code[pos + 1] as usize) * 256 + (code[pos + 2] as usize);
                if idx >= consts.len() {
                    return false;
                }
                let cval = consts[idx];
                if !cval.is_function() {
                    return false;
                }
                let fidx = cval.bits & 0x0000FFFFFFFFFFFF;
                if fidx >= (up_counts.len() as u64) {
                    return false;
                }
                let pairs = up_counts[fidx as usize] as usize;
                if 2 * pairs > n - (pos + 3) {
                    return false;
                }
                let mut k: usize = 0;
                let mut pairs_ok = true;
                while k < pairs
                    invariant
                        k <= pairs,
                        pos + 3 + 2 * pairs <= n,
                        n == code@.len(),
                        pairs_ok == (forall|m: int|
                            0 <= m < k ==> code@[pos + 3 + 2 * m] == 0 || #[trigger] code@[pos + 3
                                + 2 * m] == 1),
                    decreases pairs - k,
                {
                    let b = code[pos + 3 + 2 * k];
                    if b != 0 && b != 1 {
                        pairs_ok = false;
                    }
                    k = k + 1;
                }
                if !pairs_ok {
                    return false;
                }
                if n - pos == 3 + 2 * pairs {
                    return false;
                }
                pos = pos + 3 + 2 * pairs;
            },
            _ => {
                if n - pos == 1 {
                    return false;
                }
                pos = pos + 1;
            },
        }
    }
    true
}

/// Checks a whole program against `program_wf`.
pub fn program_wf_check(p: &Program) -> (r: bool)
    ensures
        r == program_wf(*p),
{
    if p.script >= p.functions.len() {
        return false;
    }
    let nf = p.functions.len();
    let mut up_counts: Vec<u8> = Vec::new();
    let mut i: usize = 0;
    while i < nf
        invariant
            i <= nf,
            nf == p.functions@.len(),
            up_counts@ == spec_up_counts(p.functions@).subrange(0, i as int),
        decreases nf - i,
    {
        up_counts.push(p.functions[i].upvalue_count);
        proof {
            assert(up_counts@ =~= spec_up_counts(p.functions@).subrange(0, i + 1));
        }
        i = i + 1;
    }
    proof {
        assert(up_counts@ =~= spec_up_counts(p.functions@));
    }
    let mut f: usize = 0;
    while f < nf
        invariant
            f <= nf,
            nf == p.functions@.len(),
            up_counts@ == spec_up_counts(p.functions@),
            p.script < p.functions@.len(),
            forall|g: int|
                0 <= g < f ==> function_wf(
                    #[trigger] p.functions@[g],
                    spec_up_counts(p.functions@),
                    p.strings@.len() as int,
                    p.functions@.len() as int,
                ),
        decreases nf - f,
    {
        let func = &p.functions[f];
        if func.chunk.code.len() == 0 {
            return false;
        }
        if !check_constants(&func.chunk.constants, p.strings.len(), p.functions.len()) {
            return false;
        }
        if !check_code(&func.chunk.code, &func.chunk.constants, &up_counts) {
            return false;
        }
        f = f + 1;
    }
    true
}

} // verus!
