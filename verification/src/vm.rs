//! The virtual machine: a value stack, a bounded call-frame stack,
//! globals, and two arenas (closures and upvalues).
//!
//! Three machine invariants are part of the VM's well-formedness and are
//! maintained across every instruction: the stack never shrinks below the
//! current frame's base slot (RETURN's own finalisation truncates to that
//! base and no further), the call stack never exceeds 100 frames, and
//! every open upvalue's captured slot lies inside the live stack — any
//! slot about to disappear is closed first, as the upvalue-closing
//! protocol demands.

use vstd::prelude::*;
use vstd::string::StringExecFns;
use crate::arena::Arena;
use crate::arena::Handle;
use crate::compiler::Compiler;
use crate::function::FnClosure;
use crate::function::WeaveFn;
use crate::native::NativeFn;
use crate::native::NativeFnType;
use crate::opcode::Op;
use crate::upvalue::InnerUpvalue;
use crate::upvalue::WeaveUpvalue;
use crate::validator::Program;
use crate::value::NanBoxedValue;
use crate::value::is_nan_bits;
use crate::weave_string::WeaveString;
use vstd::string::StringSliceAdditionalSpecFns;

verus! {

/// How a run can fail: a chunk the dispatcher cannot run, a compile
/// error, or a runtime error with the source line it arose on.
#[derive(Debug)]
pub enum VMError {
    InvalidChunk,
    CompilationError(String),
    RuntimeError { line: usize, msg: String },
}

impl VMError {
    /// The process exit code the embedder maps each failure to.
    pub fn exit_code(&self) -> (r: i32)
        ensures
            self is InvalidChunk ==> r == 60,
            self is CompilationError ==> r == 70,
            self is RuntimeError ==> r == 80,
    {
        match self {
            VMError::InvalidChunk => 60,
            VMError::CompilationError(_) => 70,
            VMError::RuntimeError { .. } => 80,
        }
    }
}

pub type VMResult = Result<NanBoxedValue, VMError>;

/// An instruction pointer bound to its own copy of the code it walks.
pub struct IP {
    pub ip: usize,
    pub bytecode: Vec<u8>,
}

impl IP {
    pub fn new(bytecode: &Vec<u8>) -> (r: IP)
        ensures
            r.ip == 0,
            r.bytecode@ == bytecode@,
    {
        IP { ip: 0, bytecode: crate::bytes::copy_bytes(bytecode) }
    }

    /// True once the pointer has run off the end of the code.
    pub fn is_at_end(&self) -> (r: bool)
        ensures
            r == (self.ip >= self.bytecode@.len()),
    {
        self.ip >= self.bytecode.len()
    }

    /// Reads one byte and moves on; at the end it yields 0 and stays.
    pub fn next(&mut self) -> (r: u8)
        ensures
            final(self).bytecode == old(self).bytecode,
            old(self).ip < old(self).bytecode@.len() ==> final(self).ip == old(self).ip + 1 && r
                == old(self).bytecode@[old(self).ip as int],
            old(self).ip >= old(self).bytecode@.len() ==> final(self).ip == old(self).ip && r == 0,
    {
        if self.ip < self.bytecode.len() {
            let b = self.bytecode[self.ip];
            self.ip = self.ip + 1;
            b
        } else {
            0
        }
    }

    /// Reads a 16-bit big-endian operand: the high byte first.
    pub fn next_u16(&mut self) -> (r: u16)
        ensures
            final(self).bytecode == old(self).bytecode,
            old(self).ip <= final(self).ip,
            old(self).ip + 2 <= old(self).bytecode@.len() ==> final(self).ip == old(self).ip + 2
                && r == old(self).bytecode@[old(self).ip as int] * 256 + old(self).bytecode@[old(self).ip + 1],
    {
        let hi = self.next() as u16;
        let lo = self.next() as u16;
        hi * 256 + lo
    }

    /// A forward jump: the pointer moves `jmp_offset` bytes on.
    pub fn jump(&mut self, jmp_offset: u16)
        ensures
            final(self).bytecode == old(self).bytecode,
            old(self).ip + jmp_offset <= usize::MAX ==> final(self).ip == old(self).ip
                + jmp_offset,
    {
        let off = jmp_offset as usize;
        if self.ip <= usize::MAX - off {
            self.ip = self.ip + off;
        } else {
            self.ip = usize::MAX;
        }
    }

    /// A backward jump: the pointer moves `jmp_offset` bytes back,
    /// stopping at the start.
    pub fn jump_back(&mut self, jmp_offset: u16)
        ensures
            final(self).bytecode == old(self).bytecode,
            jmp_offset <= old(self).ip ==> final(self).ip == old(self).ip - jmp_offset,
            jmp_offset > old(self).ip ==> final(self).ip == 0,
    {
        let off = jmp_offset as usize;
        if off <= self.ip {
            self.ip = self.ip - off;
        } else {
            self.ip = 0;
        }
    }

    /// The position `offset` bytes around the pointer, clamped at both
    /// ends of the address range.
    pub fn idx(&self, offset: isize) -> (r: usize)
        ensures
            offset >= 0 && self.ip + offset <= usize::MAX ==> r == self.ip + offset,
            offset >= 0 && self.ip + offset > usize::MAX ==> r == usize::MAX,
            isize::MIN < offset < 0 && self.ip + offset >= 0 ==> r == self.ip + offset,
            isize::MIN < offset < 0 && self.ip + offset < 0 ==> r == 0,
            offset == isize::MIN ==> r == 0,
    {
        if offset >= 0 {
            let fwd = offset as usize;
            if self.ip <= usize::MAX - fwd {
                self.ip + fwd
            } else {
                usize::MAX
            }
        } else if offset == isize::MIN {
            0
        } else {
            let back = (-offset) as usize;
            if back <= self.ip {
                self.ip - back
            } else {
                0
            }
        }
    }
}

/// One call in flight: which closure runs, where on the stack its frame
/// starts (slot 0 of the frame holds the callee), and how far its
/// instruction pointer has come.
pub struct CallFrame {
    pub closure: Handle,
    pub func: usize,
    pub slot: usize,
    pub ip: IP,
}

impl CallFrame {
    /// The absolute stack index of the frame's local `idx`.
    pub fn i(&self, idx: usize) -> (r: usize)
        requires
            self.slot + idx <= usize::MAX,
        ensures
            r == self.slot + idx,
    {
        self.slot + idx
    }
}

/// The call frames, innermost last.
pub struct CallStack {
    pub frames: Vec<CallFrame>,
}

/// The native each global slot of a fresh machine holds, in installation
/// order.
pub open spec fn spec_native_of_index(k: int) -> NativeFnType {
    if k == 0 {
        NativeFnType::Input
    } else if k == 1 {
        NativeFnType::Print
    } else if k == 2 {
        NativeFnType::Clock
    } else if k == 3 {
        NativeFnType::ReadFile
    } else {
        NativeFnType::WriteFile
    }
}

/// The name a native is installed under.
pub open spec fn native_name_spec(kind: NativeFnType) -> Seq<u8> {
    match kind {
        NativeFnType::Input => "input".spec_bytes(),
        NativeFnType::Print => "print".spec_bytes(),
        NativeFnType::Clock => "clock".spec_bytes(),
        NativeFnType::ReadFile => "read".spec_bytes(),
        NativeFnType::WriteFile => "write".spec_bytes(),
    }
}

/// What RETURN hands back: the value atop the current frame, or null
/// when nothing sits above the frame's base.
pub open spec fn spec_return_value(vm: VM) -> NanBoxedValue
    recommends
        vm.frames().len() > 0,
{
    if vm.stack@.len() > vm.frames().last().slot {
        vm.stack@.last()
    } else {
        null_value()
    }
}

/// The boxed `null` word, for speaking of defaulted results.
pub open spec fn null_value() -> NanBoxedValue {
    NanBoxedValue { bits: crate::value::NULL_BITS }
}

/// Every open upvalue in the arena points below `bound`.
pub open spec fn open_upvalues_below(a: Arena<WeaveUpvalue>, bound: int) -> bool {
    forall|i: int|
        0 <= i < a.objects@.len() && (#[trigger] a.objects@[i]) is Some && a.objects@[i]->0.value
            is Open ==> a.objects@[i]->0.value->Open_0.idx < bound
}

pub struct VM {
    pub call_stack: CallStack,
    pub stack: Vec<NanBoxedValue>,
    pub globals: Vec<Option<NanBoxedValue>>,
    pub strings: Vec<WeaveString>,
    pub functions: Vec<WeaveFn>,
    pub last_value: NanBoxedValue,
    pub closure_arena: Arena<FnClosure>,
    pub upvalue_arena: Arena<WeaveUpvalue>,
    pub output: Vec<Vec<u8>>,
    pub file_writes: Vec<(Vec<u8>, Vec<u8>)>,
}

impl VM {
    pub open spec fn frames(self) -> Seq<CallFrame> {
        self.call_stack.frames@
    }

    /// The machine invariant: at most 100 frames; every frame's base slot
    /// within the stack and its function in the table, frame bases
    /// non-decreasing inward; globals paired one-to-one with interned
    /// strings; both arenas well formed, the closure arena small enough
    /// that handles pack into a boxed payload; and every open upvalue's
    /// slot inside the live stack.
    pub open spec fn wf(self) -> bool {
        &&& self.frames().len() <= 100
        &&& forall|i: int|
            0 <= i < self.frames().len() ==> (#[trigger] self.frames()[i]).slot
                <= self.stack@.len() && self.frames()[i].func < self.functions@.len()
        &&& forall|i: int, j: int|
            0 <= i <= j < self.frames().len() ==> (#[trigger] self.frames()[i]).slot <= (
            #[trigger] self.frames()[j]).slot
        &&& self.globals@.len() == self.strings@.len()
        &&& self.strings@.len() <= 0xFFFFFFFFFFFF
        &&& forall|i: int| 0 <= i < self.strings@.len() ==> (#[trigger] self.strings@[i]).wf()
        &&& self.closure_arena.wf()
        &&& self.upvalue_arena.wf()
        &&& self.closure_arena.objects@.len() <= 0xFFFFFFFF
        &&& open_upvalues_below(self.upvalue_arena, self.stack@.len() as int)
    }

    /// Appends one native's global cell: its name joins the string table
    /// and the matching global holds the boxed native.
    fn install_native(&mut self, kind: NativeFnType)
        requires
            old(self).wf(),
            old(self).strings@.len() < 0xFFFFFFFFFFFF,
        ensures
            final(self).wf(),
            final(self).frames() == old(self).frames(),
            final(self).stack == old(self).stack,
            final(self).strings@.len() == old(self).strings@.len() + 1,
            final(self).strings@.subrange(0, old(self).strings@.len() as int) == old(self).strings@,
            final(self).globals@.subrange(0, old(self).globals@.len() as int) == old(self).globals@,
            final(self).strings@.last().value@ == native_name_spec(kind),
            final(self).globals@.last() == Some(
                NanBoxedValue {
                    bits: crate::value::pointer_value_bits(
                        crate::value::PointerTag::NativeFn,
                        kind.spec_kind_index(),
                    ),
                },
            ),
    {
        let name = kind.name_bytes();
        self.strings.push(WeaveString::new(name));
        let v = NanBoxedValue::pointer(kind.kind_index(), crate::value::PointerTag::NativeFn);
        proof {
            let k = kind.spec_kind_index();
            assert(k <= 5 ==> k & 0x0000FFFFFFFFFFFFu64 == k) by (bit_vector);
            assert(self.strings@.subrange(0, old(self).strings@.len() as int) =~= old(self).strings@);
        }
        self.globals.push(Some(v));
        proof {
            assert(self.globals@.subrange(0, old(self).globals@.len() as int) =~= old(self).globals@);
        }
    }

    /// A fresh machine: empty stacks and tables but for the five native
    /// functions, installed as globals under their names.
    pub fn new() -> (r: VM)
        ensures
            r.wf(),
            r.frames().len() == 0,
            r.stack@.len() == 0,
            r.strings@.len() == 5,
            r.globals@.len() == 5,
            forall|k: int|
                0 <= k < 5 ==> (#[trigger] r.strings@[k]).value@ == native_name_spec(
                    spec_native_of_index(k),
                ),
            forall|k: int|
                0 <= k < 5 ==> (#[trigger] r.globals@[k]) == Some(
                    NanBoxedValue {
                        bits: crate::value::pointer_value_bits(
                            crate::value::PointerTag::NativeFn,
                            k as u64,
                        ),
                    },
                ),
    {
        let mut vm = VM {
            call_stack: CallStack { frames: Vec::new() },
            stack: Vec::new(),
            globals: Vec::new(),
            strings: Vec::new(),
            functions: Vec::new(),
            last_value: NanBoxedValue::null(),
            closure_arena: Arena::with_capacity(64),
            upvalue_arena: Arena::with_capacity(128),
            output: Vec::new(),
            file_writes: Vec::new(),
        };
        vm.install_native(NativeFnType::Input);
        vm.install_native(NativeFnType::Print);
        vm.install_native(NativeFnType::Clock);
        vm.install_native(NativeFnType::ReadFile);
        vm.install_native(NativeFnType::WriteFile);
        vm
    }

    /// Interns a string in the machine's table, keeping one global cell
    /// per name: the returned index's table entry holds exactly the given
    /// bytes, existing entries and globals keep their places, and at most
    /// one fresh (unbound) cell is added. `None` only if the table is
    /// ever full.
    fn intern_string(&mut self, name: &Vec<u8>) -> (r: Option<u64>)
        requires
            old(self).wf(),
        ensures
            final(self).wf(),
            final(self).call_stack.frames@ == old(self).call_stack.frames@,
            final(self).stack == old(self).stack,
            final(self).functions == old(self).functions,
            final(self).closure_arena == old(self).closure_arena,
            final(self).upvalue_arena == old(self).upvalue_arena,
            r is Some ==> (r->0 as int) < final(self).strings@.len() && r->0 <= 0xFFFFFFFFFFFF,
            r is Some ==> final(self).strings@[r->0 as int].value@ == name@,
            old(self).strings@.len() <= final(self).strings@.len() <= old(self).strings@.len() + 1,
            final(self).globals@.len() >= old(self).globals@.len(),
            final(self).strings@.subrange(0, old(self).strings@.len() as int) == old(self).strings@,
            final(self).globals@.subrange(0, old(self).globals@.len() as int) == old(self).globals@,
    {
        let n = self.strings.len();
        let mut i: usize = 0;
        while i < n
            invariant
                i <= n,
                n == self.strings@.len(),
                n <= 0xFFFFFFFFFFFF,
                self == old(self),
                self.wf(),
            decreases n - i,
        {
            if self.strings[i].matches_bytes(name) {
                proof {
                    assert(self.strings@.subrange(0, self.strings@.len() as int) =~= self.strings@);
                    assert(self.globals@.subrange(0, self.globals@.len() as int) =~= self.globals@);
                }
                return Some(i as u64);
            }
            i = i + 1;
        }
        if (n as u64) >= 0xFFFFFFFFFFFFu64 {
            proof {
                assert(self.strings@.subrange(0, self.strings@.len() as int) =~= self.strings@);
                assert(self.globals@.subrange(0, self.globals@.len() as int) =~= self.globals@);
            }
            return None;
        }
        self.strings.push(WeaveString::new(crate::bytes::copy_bytes(name)));
        self.globals.push(None);
        proof {
            assert(self.strings@.subrange(0, old(self).strings@.len() as int) =~= old(self).strings@);
            assert(self.globals@.subrange(0, old(self).globals@.len() as int) =~= old(self).globals@);
        }
        Some(n as u64)
    }

    /// Reads a stack slot.
    pub fn get_stack_value(&self, slot: usize) -> (r: NanBoxedValue)
        requires
            slot < self.stack@.len(),
        ensures
            r == self.stack@[slot as int],
    {
        self.stack[slot]
    }

    /// Writes a stack slot.
    pub fn set_stack_value(&mut self, slot: usize, value: NanBoxedValue)
        requires
            old(self).wf(),
            slot < old(self).stack@.len(),
        ensures
            final(self).wf(),
            final(self).stack@ == old(self).stack@.update(slot as int, value),
            final(self).call_stack.frames@ == old(self).call_stack.frames@,
            final(self).upvalue_arena == old(self).upvalue_arena,
            final(self).closure_arena == old(self).closure_arena,
            final(self).strings == old(self).strings,
            final(self).globals == old(self).globals,
            final(self).functions == old(self).functions,
    {
        self.stack.set(slot, value);
    }

    /// The innermost frame.
    pub fn current_frame(&self) -> (r: &CallFrame)
        requires
            self.frames().len() > 0,
        ensures
            r == self.frames().last(),
    {
        &self.call_stack.frames[self.call_stack.frames.len() - 1]
    }

    /// Pushes a value; every frame base and open upvalue stays inside the
    /// grown stack.
    fn push_val(&mut self, v: NanBoxedValue)
        requires
            old(self).wf(),
        ensures
            final(self).wf(),
            final(self).stack@ == old(self).stack@.push(v),
            final(self).call_stack.frames@ == old(self).call_stack.frames@,
            final(self).upvalue_arena == old(self).upvalue_arena,
            final(self).closure_arena == old(self).closure_arena,
            final(self).strings == old(self).strings,
            final(self).globals == old(self).globals,
            final(self).functions == old(self).functions,
    {
        self.stack.push(v);
    }

    /// Closes every open upvalue whose captured slot is at or above
    /// `last_slot`, copying the captured stack value into the upvalue's
    /// cell; open upvalues below `last_slot` and closed cells are left
    /// exactly as they were. Afterwards every open upvalue points
    /// strictly below `last_slot`, so slots from there on may disappear
    /// safely.
    pub fn close_upvalues(&mut self, last_slot: usize)
        requires
            old(self).wf(),
        ensures
            final(self).wf(),
            open_upvalues_below(final(self).upvalue_arena, last_slot as int),
            final(self).stack == old(self).stack,
            final(self).call_stack.frames@ == old(self).call_stack.frames@,
            final(self).closure_arena == old(self).closure_arena,
            final(self).strings == old(self).strings,
            final(self).globals == old(self).globals,
            final(self).functions == old(self).functions,
            final(self).upvalue_arena.objects@.len() == old(self).upvalue_arena.objects@.len(),
            forall|j: int|
                0 <= j < old(self).upvalue_arena.objects@.len() ==> ((
                #[trigger] final(self).upvalue_arena.objects@[j]) is Some == old(self).upvalue_arena.objects@[j] is Some),
            forall|j: int|
                0 <= j < old(self).upvalue_arena.objects@.len() && (
                #[trigger] old(self).upvalue_arena.objects@[j]) is Some && !(old(self).upvalue_arena.objects@[j]->0.value is Open && old(self).upvalue_arena.objects@[j]->0.value->Open_0.idx >= last_slot) ==> final(self).upvalue_arena.objects@[j] == old(self).upvalue_arena.objects@[j],
            forall|j: int|
                0 <= j < old(self).upvalue_arena.objects@.len() && (
                #[trigger] old(self).upvalue_arena.objects@[j]) is Some && old(self).upvalue_arena.objects@[j]->0.value is Open && old(self).upvalue_arena.objects@[j]->0.value->Open_0.idx >= last_slot ==> final(self).upvalue_arena.objects@[j] is Some && final(self).upvalue_arena.objects@[j]->0.value is Closed && final(self).upvalue_arena.objects@[j]->0.value->Closed_0.value == (if old(self).upvalue_arena.objects@[j]->0.value->Open_0.idx < old(self).stack@.len() {
                    old(self).stack@[old(self).upvalue_arena.objects@[j]->0.value->Open_0.idx as int]
                } else {
                    null_value()
                }),
    {
        let n = self.upvalue_arena.capacity();
        let mut i: usize = 0;
        while i < n
            invariant
                i <= n,
                self.wf(),
                n == self.upvalue_arena.objects@.len(),
                n == old(self).upvalue_arena.objects@.len(),
                self.stack == old(self).stack,
                self.call_stack.frames@ == old(self).call_stack.frames@,
                self.closure_arena == old(self).closure_arena,
                self.strings == old(self).strings,
                self.globals == old(self).globals,
                self.functions == old(self).functions,
                forall|j: int|
                    i <= j < n ==> (#[trigger] self.upvalue_arena.objects@[j]) == old(self).upvalue_arena.objects@[j],
                forall|j: int|
                    0 <= j < i ==> ((#[trigger] self.upvalue_arena.objects@[j]) is Some == old(self).upvalue_arena.objects@[j] is Some),
                forall|j: int|
                    0 <= j < i && (#[trigger] old(self).upvalue_arena.objects@[j]) is Some && !(old(self).upvalue_arena.objects@[j]->0.value is Open && old(self).upvalue_arena.objects@[j]->0.value->Open_0.idx >= last_slot)
                        ==> self.upvalue_arena.objects@[j] == old(self).upvalue_arena.objects@[j],
                forall|j: int|
                    0 <= j < i && (#[trigger] old(self).upvalue_arena.objects@[j]) is Some && old(self).upvalue_arena.objects@[j]->0.value is Open && old(self).upvalue_arena.objects@[j]->0.value->Open_0.idx >= last_slot
                        ==> self.upvalue_arena.objects@[j] is Some
                        && self.upvalue_arena.objects@[j]->0.value is Closed
                        && self.upvalue_arena.objects@[j]->0.value->Closed_0.value == (if old(self).upvalue_arena.objects@[j]->0.value->Open_0.idx < old(self).stack@.len() {
                        old(self).stack@[old(self).upvalue_arena.objects@[j]->0.value->Open_0.idx as int]
                    } else {
                        null_value()
                    }),
            decreases n - i,
        {
            let entry = self.upvalue_arena.entry_at(i);
            match entry {
                Some((h, u)) => {
                    if u.is_open() {
                        let slot = u.get_stack_index();
                        if slot >= last_slot {
                            let v = if slot < self.stack.len() {
                                self.stack[slot]
                            } else {
                                NanBoxedValue::null()
                            };
                            let mut closed = u;
                            closed.close_with_value(v);
                            let _ = self.upvalue_arena.set_entry(h, closed);
                        }
                    }
                },
                None => {},
            }
            i = i + 1;
        }
    }

    /// The innermost frame's base slot.
    fn top_slot(&self) -> (r: usize)
        requires
            self.wf(),
            self.frames().len() > 0,
        ensures
            r == self.frames().last().slot,
            r <= self.stack@.len(),
    {
        self.call_stack.frames[self.call_stack.frames.len() - 1].slot
    }

    /// Pops the top value, closing any upvalue that still watches the
    /// vanishing slot. The stack never dips below the current frame's
    /// base: with nothing above it, `null` comes back and nothing moves.
    fn pop_val(&mut self) -> (r: NanBoxedValue)
        requires
            old(self).wf(),
            old(self).frames().len() > 0,
        ensures
            final(self).wf(),
            final(self).call_stack.frames@ == old(self).call_stack.frames@,
            final(self).closure_arena == old(self).closure_arena,
            final(self).strings == old(self).strings,
            final(self).globals == old(self).globals,
            final(self).functions == old(self).functions,
            final(self).stack@.len() <= old(self).stack@.len(),
            final(self).frames().last().slot <= final(self).stack@.len(),
            old(self).stack@.len() > old(self).frames().last().slot ==> r == old(self).stack@.last() && final(self).stack@ == old(self).stack@.drop_last(),
            old(self).stack@.len() <= old(self).frames().last().slot ==> r == null_value()
                && final(self).stack@ == old(self).stack@,
    {
        let limit = self.top_slot();
        if self.stack.len() > limit {
            let keep = self.stack.len() - 1;
            self.close_upvalues(keep);
            let popped = self.stack.pop();
            match popped {
                Some(v) => v,
                None => NanBoxedValue::null(),
            }
        } else {
            NanBoxedValue::null()
        }
    }

    /// The top value without removing it; `null` on an empty stack.
    fn peek_val(&self) -> (r: NanBoxedValue)
        requires
            self.wf(),
        ensures
            r == if self.stack@.len() > 0 {
                self.stack@.last()
            } else {
                null_value()
            },
    {
        if self.stack.len() > 0 {
            self.stack[self.stack.len() - 1]
        } else {
            NanBoxedValue::null()
        }
    }

    /// Grows the stack with nulls so that `slot` is a live index.
    fn ensure_slot(&mut self, slot: usize)
        requires
            old(self).wf(),
        ensures
            final(self).wf(),
            final(self).stack@.len() > slot,
            old(self).stack@.len() <= final(self).stack@.len(),
            old(self).stack@.len() > slot ==> final(self).stack@ == old(self).stack@,
            final(self).stack@.subrange(0, old(self).stack@.len() as int) == old(self).stack@,
            final(self).call_stack.frames@ == old(self).call_stack.frames@,
            final(self).upvalue_arena == old(self).upvalue_arena,
            final(self).closure_arena == old(self).closure_arena,
            final(self).strings == old(self).strings,
            final(self).globals == old(self).globals,
            final(self).functions == old(self).functions,
    {
        while self.stack.len() <= slot
            invariant
                self.wf(),
                old(self).stack@.len() <= self.stack@.len(),
                old(self).stack@.len() > slot ==> self.stack@ == old(self).stack@,
                self.stack@.subrange(0, old(self).stack@.len() as int) == old(self).stack@,
                self.call_stack.frames@ == old(self).call_stack.frames@,
                self.upvalue_arena == old(self).upvalue_arena,
                self.closure_arena == old(self).closure_arena,
                self.strings == old(self).strings,
                self.globals == old(self).globals,
                self.functions == old(self).functions,
            decreases slot + 1 - self.stack@.len(),
        {
            self.stack.push(NanBoxedValue::null());
            proof {
                assert(self.stack@.subrange(0, old(self).stack@.len() as int) =~= old(self).stack@);
            }
        }
    }

    /// A runtime error at the line of the instruction just read.
    fn rt_err(&self, msg: &str) -> (r: VMError)
        requires
            self.wf(),
            self.frames().len() > 0,
        ensures
            r is RuntimeError,
    {
        let last = self.call_stack.frames.len() - 1;
        let frame = &self.call_stack.frames[last];
        let point = frame.ip.idx(-1);
        let line = self.functions[frame.func].chunk.line_number_at(point);
        VMError::RuntimeError { line, msg: String::from_str(msg) }
    }

    /// The printed form of a value: numbers in decimal, booleans and null
    /// by their names, strings as their interned text, and the remaining
    /// kinds by their sort.
    pub fn display_value(&self, v: NanBoxedValue) -> (r: Vec<u8>)
        ensures
            v.is_number() ==> r@.len() > 0,
            v.is_number() && is_nan_bits(v.bits) ==> r@ == "NaN".spec_bytes(),
            v.is_boolean() && v.as_boolean_spec() ==> r@ == "true".spec_bytes(),
            v.is_boolean() && !v.as_boolean_spec() ==> r@ == "false".spec_bytes(),
            v.is_null() ==> r@ == "null".spec_bytes(),
            v.is_string() && (v.payload() as int) < self.strings@.len() ==> r@ == self.strings@[v.payload() as int].value@,
    {
        proof {
            let b = v.bits;
            assert(crate::value::is_number_bits(b) ==> !crate::value::is_boolean_bits(b)
                && !crate::value::is_null_bits(b)) by (bit_vector);
        }
        if v.is_number() {
            return crate::numtext::format_number_bits(v.as_number_bits());
        }
        if v.is_boolean() {
            let name: &str = if v.as_boolean() {
                "true"
            } else {
                "false"
            };
            return vstd::string::StrSliceExecFns::as_bytes_vec(name);
        }
        if v.is_null() {
            return vstd::string::StrSliceExecFns::as_bytes_vec("null");
        }
        if v.is_string() {
            let idx = v.bits & 0x0000FFFFFFFFFFFF;
            if (idx as u64) < (self.strings.len() as u64) {
                return crate::bytes::copy_bytes(&self.strings[idx as usize].value);
            }
            return vstd::string::StrSliceExecFns::as_bytes_vec("<string>");
        }
        if v.is_closure_handle() {
            return vstd::string::StrSliceExecFns::as_bytes_vec("<closure>");
        }
        if v.is_native_fn() {
            return vstd::string::StrSliceExecFns::as_bytes_vec("<native fn>");
        }
        if v.is_function() {
            return vstd::string::StrSliceExecFns::as_bytes_vec("<fn>");
        }
        vstd::string::StrSliceExecFns::as_bytes_vec("<invalid>")
    }

    /// Loads a compiled program: interns its strings into the machine's
    /// table, rebases string and function constants onto the machine's
    /// tables, and returns the script function's index.
    fn load_program(&mut self, program: Program) -> (r: Result<usize, VMError>)
        requires
            old(self).wf(),
        ensures
            final(self).wf(),
            final(self).call_stack.frames@ == old(self).call_stack.frames@,
            final(self).stack == old(self).stack,
            final(self).closure_arena == old(self).closure_arena,
            final(self).upvalue_arena == old(self).upvalue_arena,
            old(self).functions@.len() <= final(self).functions@.len(),
            final(self).globals@.len() >= old(self).globals@.len(),
            r is Ok ==> (r->Ok_0 as int) < final(self).functions@.len(),
            r is Err ==> r->Err_0 is InvalidChunk,
    {
        let Program { functions, strings, script } = program;
        let base_f = self.functions.len();
        if script >= functions.len() {
            return Err(VMError::InvalidChunk);
        }
        // Map the program's string indexes onto the machine's table.
        let mut smap: Vec<u64> = Vec::new();
        let ns = strings.len();
        let mut i: usize = 0;
        while i < ns
            invariant
                i <= ns,
                ns == strings@.len(),
                self.wf(),
                smap@.len() == i,
                forall|j: int| 0 <= j < i ==> (#[trigger] smap@[j]) <= 0xFFFFFFFFFFFF,
                self.call_stack.frames@ == old(self).call_stack.frames@,
                self.stack == old(self).stack,
                self.closure_arena == old(self).closure_arena,
                self.upvalue_arena == old(self).upvalue_arena,
                self.functions == old(self).functions,
                self.globals@.len() >= old(self).globals@.len(),
            decreases ns - i,
        {
            let mapped = self.intern_string(&strings[i]);
            match mapped {
                Some(idx) => {
                    smap.push(idx);
                },
                None => {
                    return Err(VMError::InvalidChunk);
                },
            }
            i = i + 1;
        }
        // Rebase every constant and append the functions.
        let mut funcs_in = functions;
        let total = funcs_in.len();
        if total > 0xFFFFFFFF || base_f > 0xFFFFFFFF {
            return Err(VMError::InvalidChunk);
        }
        let mut k: usize = 0;
        while k < total
            invariant
                k <= total,
                total <= 0xFFFFFFFF,
                base_f <= 0xFFFFFFFF,
                funcs_in@.len() == total - k,
                self.wf(),
                smap@.len() == ns,
                forall|j: int| 0 <= j < ns ==> (#[trigger] smap@[j]) <= 0xFFFFFFFFFFFF,
                self.call_stack.frames@ == old(self).call_stack.frames@,
                self.stack == old(self).stack,
                self.closure_arena == old(self).closure_arena,
                self.upvalue_arena == old(self).upvalue_arena,
                self.functions@.len() == old(self).functions@.len() + k,
                self.globals@.len() >= old(self).globals@.len(),
            decreases total - k,
        {
            let mut f = funcs_in.remove(0);
            let nc = f.chunk.constants.len();
            let mut c: usize = 0;
            while c < nc
                invariant
                    c <= nc,
                    nc == f.chunk.constants@.len(),
                    smap@.len() == ns,
                    base_f <= 0xFFFFFFFF,
                    total <= 0xFFFFFFFF,
                    forall|j: int| 0 <= j < ns ==> (#[trigger] smap@[j]) <= 0xFFFFFFFFFFFF,
                    self.wf(),
                    self.call_stack.frames@ == old(self).call_stack.frames@,
                    self.stack == old(self).stack,
                    self.closure_arena == old(self).closure_arena,
                    self.upvalue_arena == old(self).upvalue_arena,
                    self.functions@.len() == old(self).functions@.len() + k,
                    self.globals@.len() >= old(self).globals@.len(),
                decreases nc - c,
            {
                let v = f.chunk.constants[c];
                if v.is_string() {
                    let sidx = v.bits & 0x0000FFFFFFFFFFFF;
                    if (sidx as u64) >= (smap.len() as u64) {
                        return Err(VMError::InvalidChunk);
                    }
                    let mapped = smap[sidx as usize];
                    f.chunk.constants.set(c, NanBoxedValue::string(mapped));
                } else if v.is_function() {
                    let fidx = v.bits & 0x0000FFFFFFFFFFFF;
                    if (fidx as u64) >= (total as u64) {
                        return Err(VMError::InvalidChunk);
                    }
                    let abs = base_f as u64 + fidx;
                    f.chunk.constants.set(
                        c,
                        NanBoxedValue::pointer(abs, crate::value::PointerTag::Function),
                    );
                }
                c = c + 1;
            }
            self.functions.push(f);
            k = k + 1;
        }
        let script_abs_u = base_f as u64 + script as u64;
        if script_abs_u >= (self.functions.len() as u64) {
            return Err(VMError::InvalidChunk);
        }
        Ok(script_abs_u as usize)
    }

    /// Compiles and runs a source text. Compilation failures come back as
    /// `CompilationError`; a runtime failure clears the value and call
    /// stacks but keeps the global table, so an interactive session can
    /// carry on.
    pub fn interpret(&mut self, source: &str) -> (r: VMResult)
        requires
            old(self).wf(),
        ensures
            final(self).wf(),
            final(self).globals@.len() >= old(self).globals@.len(),
            r is Err && r->Err_0 is RuntimeError ==> final(self).frames().len() == 0 && final(self).stack@.len() == 0,
            r is Ok ==> final(self).frames().len() == 0 || final(self).frames().last().ip.ip
                >= final(self).frames().last().ip.bytecode@.len(),
            r is Ok && final(self).frames().len() > 0 ==> r->Ok_0 == (if final(self).stack@.len()
                > 0 {
                final(self).stack@.last()
            } else {
                null_value()
            }),
    {
        let mut compiler = Compiler::new(source, false);
        let compiled = compiler.compile();
        let program = match compiled {
            Ok(p) => p,
            Err(msg) => {
                return Err(VMError::CompilationError(msg));
            },
        };
        let loaded = self.load_program(program);
        let script_idx = match loaded {
            Ok(i) => i,
            Err(e) => {
                return Err(e);
            },
        };
        // Install the top-level closure and its frame.
        if self.closure_arena.capacity() >= 0xFFFFFFFF {
            return Err(VMError::InvalidChunk);
        }
        let handle = self.closure_arena.insert(FnClosure::new(script_idx));
        let packed = handle.to_u64();
        self.push_val(NanBoxedValue::closure_handle(packed));
        if self.call_stack.frames.len() >= 100 {
            return Err(VMError::InvalidChunk);
        }
        let base = self.stack.len() - 1;
        let prev_ok = self.call_stack.frames.len() == 0 || {
            let lastf = self.call_stack.frames.len() - 1;
            self.call_stack.frames[lastf].slot <= base
        };
        if !prev_ok {
            return Err(VMError::InvalidChunk);
        }
        let ip = IP::new(&self.functions[script_idx].chunk.code);
        self.call_stack.frames.push(
            CallFrame { closure: handle, func: script_idx, slot: base, ip },
        );
        let outcome = self.run();
        match outcome {
            Ok(v) => Ok(v),
            Err(e) => {
                match &e {
                    VMError::RuntimeError { .. } => {
                        self.reset_stack();
                    },
                    _ => {},
                }
                Err(e)
            },
        }
    }

    /// Clears the value and call stacks after a runtime error; globals
    /// survive.
    fn reset_stack(&mut self)
        requires
            old(self).wf(),
        ensures
            final(self).wf(),
            final(self).frames().len() == 0,
            final(self).stack@.len() == 0,
            final(self).globals == old(self).globals,
            final(self).strings == old(self).strings,
    {
        self.close_upvalues(0);
        self.stack.clear();
        self.call_stack.frames.clear();
    }

    /// The dispatch loop. Execution ends when the innermost frame's
    /// pointer reaches its chunk's end or a RETURN pops the last frame;
    /// the result is the last value. Every step keeps the machine
    /// invariants: frames at most 100, the stack never below the current
    /// frame's base, every open upvalue inside the stack; the global
    /// table only ever grows. Failures are runtime errors or an invalid
    /// chunk, never a compile error; one runtime error is the machine's
    /// own instruction budget, a termination bound of about 4.5e15 steps
    /// that no realistic program reaches.
    pub fn run(&mut self) -> (r: VMResult)
        requires
            old(self).wf(),
        ensures
            final(self).wf(),
            final(self).globals@.len() >= old(self).globals@.len(),
            r is Err ==> !(r->Err_0 is CompilationError),
            r is Ok ==> final(self).frames().len() == 0 || final(self).frames().last().ip.ip
                >= final(self).frames().last().ip.bytecode@.len(),
            r is Ok && final(self).frames().len() > 0 ==> r->Ok_0 == (if final(self).stack@.len()
                > 0 {
                final(self).stack@.last()
            } else {
                null_value()
            }),
    {
        if self.call_stack.frames.len() == 0 {
            return Err(VMError::InvalidChunk);
        }
        let mut budget: u64 = 0xFFFFFFFFFFFFF;
        loop
            invariant
                self.wf(),
                self.frames().len() > 0,
                self.globals@.len() >= old(self).globals@.len(),
            decreases budget,
        {
            if budget == 0 {
                return Err(self.rt_err("Instruction budget exhausted"));
            }
            budget = budget - 1;
            let lastf = self.call_stack.frames.len() - 1;
            if self.call_stack.frames[lastf].ip.is_at_end() {
                let v = self.peek_val();
                return Ok(v);
            }
            let b = {
                let frame = &mut self.call_stack.frames[lastf];
                frame.ip.next()
            };
            let op = Op::at(b);
            match op {
                Op::INVALID(_) => {
                    return Err(VMError::InvalidChunk);
                },
                Op::RETURN => {
                    let fin = self.op_return();
                    match fin {
                        Some(result) => {
                            return Ok(result);
                        },
                        None => {},
                    }
                },
                Op::POP => {
                    let v = self.pop_val();
                    self.last_value = v;
                },
                Op::CONSTANT => {
                    let e = self.op_constant();
                    match e {
                        Some(err) => {
                            return Err(err);
                        },
                        None => {},
                    }
                },
                Op::Closure => {
                    let e = self.op_closure();
                    match e {
                        Some(err) => {
                            return Err(err);
                        },
                        None => {},
                    }
                },
                Op::Call => {
                    let e = self.op_call();
                    match e {
                        Some(err) => {
                            return Err(err);
                        },
                        None => {},
                    }
                },
                Op::SetLocal => {
                    let e = self.op_set_local();
                    match e {
                        Some(err) => {
                            return Err(err);
                        },
                        None => {},
                    }
                },
                Op::GetLocal => {
                    let e = self.op_get_local();
                    match e {
                        Some(err) => {
                            return Err(err);
                        },
                        None => {},
                    }
                },
                Op::GetUpvalue => {
                    let e = self.op_get_upvalue();
                    match e {
                        Some(err) => {
                            return Err(err);
                        },
                        None => {},
                    }
                },
                Op::SetUpvalue => {
                    let e = self.op_set_upvalue();
                    match e {
                        Some(err) => {
                            return Err(err);
                        },
                        None => {},
                    }
                },
                Op::SetGlobal => {
                    let e = self.op_set_global();
                    match e {
                        Some(err) => {
                            return Err(err);
                        },
                        None => {},
                    }
                },
                Op::GetGlobal => {
                    let e = self.op_get_global();
                    match e {
                        Some(err) => {
                            return Err(err);
                        },
                        None => {},
                    }
                },
                Op::NEGATE => {
                    let v = self.pop_val();
                    if v.is_number() {
                        let neg = v.negate();
                        self.push_val(neg);
                    } else {
                        return Err(self.rt_err("Can only negate numbers"));
                    }
                },
                Op::ADD => {
                    let e = self.op_add();
                    match e {
                        Some(err) => {
                            return Err(err);
                        },
                        None => {},
                    }
                },
                Op::SUB => {
                    let b2 = self.pop_val();
                    let a = self.pop_val();
                    let res = a.fast_sub(b2);
                    match res {
                        Some(v) => {
                            self.push_val(v);
                        },
                        None => {
                            return Err(self.rt_err("Cannot subtract these values"));
                        },
                    }
                },
                Op::MUL => {
                    let b2 = self.pop_val();
                    let a = self.pop_val();
                    let res = a.fast_mul(b2);
                    match res {
                        Some(v) => {
                            self.push_val(v);
                        },
                        None => {
                            return Err(self.rt_err("Cannot multiply these values"));
                        },
                    }
                },
                Op::DIV => {
                    let b2 = self.pop_val();
                    let a = self.pop_val();
                    let res = a.fast_div(b2);
                    match res {
                        Some(v) => {
                            self.push_val(v);
                        },
                        None => {
                            return Err(self.rt_err("Cannot divide these values"));
                        },
                    }
                },
                Op::TRUE => {
                    self.push_val(NanBoxedValue::boolean(true));
                },
                Op::FALSE => {
                    self.push_val(NanBoxedValue::boolean(false));
                },
                Op::NOT => {
                    let v = self.pop_val();
                    let t = v.is_truthy();
                    self.push_val(NanBoxedValue::boolean(!t));
                },
                Op::GREATER => {
                    let b2 = self.pop_val();
                    let a = self.pop_val();
                    let res = a.fast_greater(b2);
                    match res {
                        Some(v) => {
                            self.push_val(v);
                        },
                        None => {
                            self.push_val(NanBoxedValue::boolean(false));
                        },
                    }
                },
                Op::LESS => {
                    let b2 = self.pop_val();
                    let a = self.pop_val();
                    let res = a.fast_less(b2);
                    match res {
                        Some(v) => {
                            self.push_val(v);
                        },
                        None => {
                            self.push_val(NanBoxedValue::boolean(false));
                        },
                    }
                },
                Op::EQUAL => {
                    let b2 = self.pop_val();
                    let a = self.pop_val();
                    let res = a.fast_equal(b2);
                    self.push_val(res);
                },
                Op::PRINT => {
                    let v = self.peek_val();
                    let txt = self.display_value(v);
                    self.output.push(txt);
                },
                Op::Jump => {
                    let off = {
                        let frame = &mut self.call_stack.frames[lastf];
                        frame.ip.next_u16()
                    };
                    let frame = &mut self.call_stack.frames[lastf];
                    frame.ip.jump(off);
                },
                Op::JumpIfFalse => {
                    let off = {
                        let frame = &mut self.call_stack.frames[lastf];
                        frame.ip.next_u16()
                    };
                    let v = self.pop_val();
                    if !v.is_truthy() {
                        let lastf2 = self.call_stack.frames.len() - 1;
                        let frame = &mut self.call_stack.frames[lastf2];
                        frame.ip.jump(off);
                    }
                },
                Op::Loop => {
                    let off = {
                        let frame = &mut self.call_stack.frames[lastf];
                        frame.ip.next_u16()
                    };
                    let frame = &mut self.call_stack.frames[lastf];
                    frame.ip.jump_back(off);
                },
            }
            if self.call_stack.frames.len() == 0 {
                return Err(VMError::InvalidChunk);
            }
        }
    }

    /// Reads the innermost frame's next byte.
    fn read_byte(&mut self) -> (r: u8)
        requires
            old(self).wf(),
            old(self).frames().len() > 0,
        ensures
            final(self).wf(),
            final(self).frames().len() == old(self).frames().len(),
            final(self).stack == old(self).stack,
            final(self).upvalue_arena == old(self).upvalue_arena,
            final(self).closure_arena == old(self).closure_arena,
            final(self).strings == old(self).strings,
            final(self).globals == old(self).globals,
            final(self).functions == old(self).functions,
            final(self).frames().drop_last() == old(self).frames().drop_last(),
            final(self).frames().last().ip.bytecode == old(self).frames().last().ip.bytecode,
            old(self).frames().last().ip.ip + 1 <= old(self).frames().last().ip.bytecode@.len()
                ==> r == old(self).frames().last().ip.bytecode@[old(self).frames().last().ip.ip as int],
            forall|i: int|
                0 <= i < final(self).frames().len() ==> (#[trigger] final(self).frames()[i]).slot
                    == old(self).frames()[i].slot && final(self).frames()[i].func == old(self).frames()[i].func && final(self).frames()[i].closure == old(self).frames()[i].closure,
    {
        let lastf = self.call_stack.frames.len() - 1;
        let frame = &mut self.call_stack.frames[lastf];
        let r = frame.ip.next();
        proof {
            assert(self.frames().drop_last() =~= old(self).frames().drop_last());
        }
        r
    }

    /// Reads the innermost frame's next 16-bit big-endian operand.
    fn read_u16(&mut self) -> (r: u16)
        requires
            old(self).wf(),
            old(self).frames().len() > 0,
        ensures
            final(self).wf(),
            final(self).frames().len() == old(self).frames().len(),
            final(self).stack == old(self).stack,
            final(self).upvalue_arena == old(self).upvalue_arena,
            final(self).closure_arena == old(self).closure_arena,
            final(self).strings == old(self).strings,
            final(self).globals == old(self).globals,
            final(self).functions == old(self).functions,
            final(self).frames().drop_last() == old(self).frames().drop_last(),
            final(self).frames().last().ip.bytecode == old(self).frames().last().ip.bytecode,
            old(self).frames().last().ip.ip + 2 <= old(self).frames().last().ip.bytecode@.len()
                ==> r == old(self).frames().last().ip.bytecode@[old(self).frames().last().ip.ip as int] * 256 + old(self).frames().last().ip.bytecode@[old(self).frames().last().ip.ip + 1],
            forall|i: int|
                0 <= i < final(self).frames().len() ==> (#[trigger] final(self).frames()[i]).slot
                    == old(self).frames()[i].slot && final(self).frames()[i].func == old(self).frames()[i].func && final(self).frames()[i].closure == old(self).frames()[i].closure,
    {
        let lastf = self.call_stack.frames.len() - 1;
        let frame = &mut self.call_stack.frames[lastf];
        let r = frame.ip.next_u16();
        proof {
            assert(self.frames().drop_last() =~= old(self).frames().drop_last());
        }
        r
    }

    /// RETURN: pop the result (null when nothing sits above the frame
    /// base), close the frame's upvalues, truncate the stack to the frame
    /// base, drop the frame, and push the result for the caller — or hand
    /// it out of the machine when the last frame ends.
    fn op_return(&mut self) -> (r: Option<NanBoxedValue>)
        requires
            old(self).wf(),
            old(self).frames().len() > 0,
        ensures
            final(self).wf(),
            r is None ==> final(self).frames().len() > 0,
            r is Some ==> old(self).frames().len() == 1 && final(self).frames().len() == 0 && r->0
                == spec_return_value(*old(self)) && final(self).stack@ == old(self).stack@.subrange(0, old(self).frames().last().slot as int),
            r is None ==> final(self).frames() == old(self).frames().drop_last() && final(self).stack@ == old(self).stack@.subrange(0, old(self).frames().last().slot as int).push(
                spec_return_value(*old(self)),
            ),
            final(self).globals == old(self).globals,
            final(self).strings == old(self).strings,
            final(self).functions == old(self).functions,
    {
        let result = self.pop_val();
        let slot = self.top_slot();
        self.close_upvalues(slot);
        self.stack.truncate(slot);
        proof {
            assert(self.stack@ =~= old(self).stack@.subrange(
                0,
                old(self).frames().last().slot as int,
            ));
        }
        let _ = self.call_stack.frames.pop();
        if self.call_stack.frames.len() == 0 {
            return Some(result);
        }
        self.push_val(result);
        None
    }

    /// CONSTANT: push the pool entry the 16-bit operand names; a chunk
    /// whose operand runs past its pool cannot run.
    fn op_constant(&mut self) -> (r: Option<VMError>)
        requires
            old(self).wf(),
            old(self).frames().len() > 0,
        ensures
            final(self).wf(),
            final(self).frames().len() > 0,
            final(self).globals == old(self).globals,
            final(self).globals@.len() >= old(self).globals@.len(),
            r is Some ==> !(r->Some_0 is CompilationError),
            old(self).frames().last().ip.ip + 2 <= old(self).frames().last().ip.bytecode@.len()
                ==> {
                let idx = old(self).frames().last().ip.bytecode@[old(self).frames().last().ip.ip as int] * 256 + old(self).frames().last().ip.bytecode@[old(self).frames().last().ip.ip + 1];
                let pool = old(self).functions@[old(self).frames().last().func as int].chunk.constants@;
                &&& ((r is None) <==> idx < pool.len())
                &&& (r is None ==> final(self).stack@ == old(self).stack@.push(pool[idx]))
            },
    {
        let idx = self.read_u16() as usize;
        let lastf = self.call_stack.frames.len() - 1;
        let func = self.call_stack.frames[lastf].func;
        if idx >= self.functions[func].chunk.constants.len() {
            return Some(VMError::InvalidChunk);
        }
        let v = self.functions[func].chunk.get_constant(idx);
        self.push_val(v);
        None
    }

    /// ADD: numbers add in IEEE 754; with a string on either side the
    /// printed forms concatenate into a fresh interned string — two
    /// strings concatenate their very texts.
    fn op_add(&mut self) -> (r: Option<VMError>)
        requires
            old(self).wf(),
            old(self).frames().len() > 0,
        ensures
            final(self).wf(),
            final(self).frames().len() > 0,
            final(self).globals@.len() >= old(self).globals@.len(),
            r is Some ==> !(r->Some_0 is CompilationError),
            ({
                let bv = old(self).stack@.last();
                let av = old(self).stack@[old(self).stack@.len() - 2];
                (old(self).stack@.len() >= old(self).frames().last().slot + 2
                    && av.is_string_spec() && bv.is_string_spec() && (av.payload() as int) < old(self).strings@.len() && (bv.payload() as int) < old(self).strings@.len()) ==> (r
                    is None ==> final(self).stack@.len() == old(self).stack@.len() - 1 && final(self).stack@.last().is_string_spec() && (final(self).stack@.last().payload() as int)
                    < final(self).strings@.len() && final(self).strings@[final(self).stack@.last().payload() as int].value@ == old(self).strings@[av.payload() as int].value@
                    + old(self).strings@[bv.payload() as int].value@)
            }),
    {
        let b = self.pop_val();
        let a = self.pop_val();
        let fast = a.fast_add(b);
        match fast {
            Some(v) => {
                self.push_val(v);
                None
            },
            None => {
                if a.is_string() || b.is_string() {
                    let mut text = self.display_value(a);
                    let tb = self.display_value(b);
                    crate::bytes::append_bytes(&mut text, &tb);
                    let interned = self.intern_string(&text);
                    match interned {
                        Some(idx) => {
                            self.push_val(NanBoxedValue::string(idx));
                            None
                        },
                        None => Some(self.rt_err("String table full")),
                    }
                } else {
                    Some(self.rt_err("Cannot add these values"))
                }
            },
        }
    }

    /// SET_LOCAL: write the top of the stack into the frame-relative
    /// slot (growing the stack with nulls when the slot lies beyond it);
    /// the value stays on the stack, since assignment is an expression.
    fn op_set_local(&mut self) -> (r: Option<VMError>)
        requires
            old(self).wf(),
            old(self).frames().len() > 0,
        ensures
            final(self).wf(),
            final(self).frames().len() > 0,
            final(self).globals@.len() >= old(self).globals@.len(),
            r is Some ==> !(r->Some_0 is CompilationError),
            old(self).frames().last().ip.ip + 1 <= old(self).frames().last().ip.bytecode@.len()
                && old(self).frames().last().slot + old(self).frames().last().ip.bytecode@[old(self).frames().last().ip.ip as int] < old(self).stack@.len() ==> r is None && final(self).stack@ == old(self).stack@.update(
                old(self).frames().last().slot + old(self).frames().last().ip.bytecode@[old(self).frames().last().ip.ip as int],
                old(self).stack@.last(),
            ),
    {
        let rel = self.read_byte() as usize;
        proof {
            assert(self.frames().last() == self.frames()[self.frames().len() - 1]);
            assert(old(self).frames().last() == old(self).frames()[old(self).frames().len() - 1]);
        }
        let base = self.top_slot();
        let stack_len = self.stack.len();
        if rel > usize::MAX - base {
            proof {
                assert(base + rel > stack_len);
            }
            return Some(self.rt_err("Local slot out of range"));
        }
        let slot = base + rel;
        self.ensure_slot(slot);
        let v = self.peek_val();
        self.set_stack_value(slot, v);
        None
    }

    /// GET_LOCAL: push the frame-relative slot's value (growing the stack
    /// with nulls when the slot lies beyond it).
    fn op_get_local(&mut self) -> (r: Option<VMError>)
        requires
            old(self).wf(),
            old(self).frames().len() > 0,
        ensures
            final(self).wf(),
            final(self).frames().len() > 0,
            final(self).globals@.len() >= old(self).globals@.len(),
            r is Some ==> !(r->Some_0 is CompilationError),
            old(self).frames().last().ip.ip + 1 <= old(self).frames().last().ip.bytecode@.len()
                && old(self).frames().last().slot + old(self).frames().last().ip.bytecode@[old(self).frames().last().ip.ip as int] < old(self).stack@.len() ==> r is None && final(self).stack@ == old(self).stack@.push(
                old(self).stack@[old(self).frames().last().slot + old(self).frames().last().ip.bytecode@[old(self).frames().last().ip.ip as int]],
            ),
    {
        let rel = self.read_byte() as usize;
        proof {
            assert(self.frames().last() == self.frames()[self.frames().len() - 1]);
            assert(old(self).frames().last() == old(self).frames()[old(self).frames().len() - 1]);
        }
        let base = self.top_slot();
        let stack_len = self.stack.len();
        if rel > usize::MAX - base {
            proof {
                assert(base + rel > stack_len);
            }
            return Some(self.rt_err("Local slot out of range"));
        }
        let slot = base + rel;
        self.ensure_slot(slot);
        let v = self.get_stack_value(slot);
        self.push_val(v);
        None
    }

    /// GET_UPVALUE: read through the current closure's upvalue — the
    /// captured stack slot while open, the closed cell's value afterwards
    /// — and push what it holds.
    fn op_get_upvalue(&mut self) -> (r: Option<VMError>)
        requires
            old(self).wf(),
            old(self).frames().len() > 0,
        ensures
            final(self).wf(),
            final(self).frames().len() > 0,
            final(self).globals@.len() >= old(self).globals@.len(),
            r is Some ==> !(r->Some_0 is CompilationError),
            ({
                let fr = old(self).frames().last();
                fr.ip.ip + 1 <= fr.ip.bytecode@.len() && old(self).closure_arena.valid(fr.closure)
                    ==> {
                    let clo = old(self).closure_arena.value_of(fr.closure);
                    let uv_slot = fr.ip.bytecode@[fr.ip.ip as int] as int;
                    (uv_slot < clo.upvalues@.len() && old(self).upvalue_arena.valid(
                        clo.upvalues@[uv_slot],
                    )) ==> {
                        let uv = old(self).upvalue_arena.value_of(clo.upvalues@[uv_slot]);
                        &&& (uv.value is Open && uv.value->Open_0.idx < old(self).stack@.len()
                            ==> r is None && final(self).stack@ == old(self).stack@.push(
                            old(self).stack@[uv.value->Open_0.idx as int],
                        ))
                        &&& (uv.value is Closed ==> r is None && final(self).stack@ == old(self).stack@.push(uv.value->Closed_0.value))
                    }
                }
            }),
    {
        let uv_slot = self.read_byte() as usize;
        proof {
            assert(self.frames().last() == self.frames()[self.frames().len() - 1]);
            assert(old(self).frames().last() == old(self).frames()[old(self).frames().len() - 1]);
        }
        let lastf = self.call_stack.frames.len() - 1;
        let ch = self.call_stack.frames[lastf].closure;
        let got = self.closure_arena.get(ch);
        let handle = match got {
            Some(closure) => {
                if uv_slot >= closure.upvalues.len() {
                    return Some(self.rt_err("Upvalue index out of range"));
                }
                closure.upvalues[uv_slot]
            },
            None => {
                return Some(self.rt_err("Stale closure handle"));
            },
        };
        let got_uv = self.upvalue_arena.get(handle);
        let uv = match got_uv {
            Some(u) => *u,
            None => {
                return Some(self.rt_err("Stale upvalue handle"));
            },
        };
        match uv.value {
            InnerUpvalue::Open(o) => {
                if o.idx < self.stack.len() {
                    let v = self.get_stack_value(o.idx);
                    self.push_val(v);
                    None
                } else {
                    Some(self.rt_err("Open upvalue out of range"))
                }
            },
            InnerUpvalue::Closed(c) => {
                self.push_val(c.value);
                None
            },
        }
    }

    /// SET_UPVALUE: write the stack's top through the upvalue — into the
    /// captured stack slot while open, into the shared cell afterwards,
    /// where every closure holding the cell sees it; the value stays on
    /// the stack.
    fn op_set_upvalue(&mut self) -> (r: Option<VMError>)
        requires
            old(self).wf(),
            old(self).frames().len() > 0,
        ensures
            final(self).wf(),
            final(self).frames().len() > 0,
            final(self).globals@.len() >= old(self).globals@.len(),
            r is Some ==> !(r->Some_0 is CompilationError),
            ({
                let fr = old(self).frames().last();
                let v = if old(self).stack@.len() > 0 {
                    old(self).stack@.last()
                } else {
                    null_value()
                };
                fr.ip.ip + 1 <= fr.ip.bytecode@.len() && old(self).closure_arena.valid(fr.closure)
                    ==> {
                    let clo = old(self).closure_arena.value_of(fr.closure);
                    let uv_slot = fr.ip.bytecode@[fr.ip.ip as int] as int;
                    (uv_slot < clo.upvalues@.len() && old(self).upvalue_arena.valid(
                        clo.upvalues@[uv_slot],
                    )) ==> {
                        let uv = old(self).upvalue_arena.value_of(clo.upvalues@[uv_slot]);
                        &&& (uv.value is Open && uv.value->Open_0.idx < old(self).stack@.len()
                            ==> r is None && final(self).stack@ == old(self).stack@.update(
                            uv.value->Open_0.idx as int,
                            v,
                        ))
                        &&& (uv.value is Closed ==> r is None && final(self).upvalue_arena.objects@ == old(self).upvalue_arena.objects@.update(
                            clo.upvalues@[uv_slot].index as int,
                            Some(
                                WeaveUpvalue {
                                    value: crate::upvalue::InnerUpvalue::Closed(
                                        crate::upvalue::ClosedUpvalue { value: v },
                                    ),
                                },
                            ),
                        ) && final(self).stack@ == old(self).stack@)
                    }
                }
            }),
    {
        let uv_slot = self.read_byte() as usize;
        proof {
            assert(self.frames().last() == self.frames()[self.frames().len() - 1]);
            assert(old(self).frames().last() == old(self).frames()[old(self).frames().len() - 1]);
        }
        let v = self.peek_val();
        let lastf = self.call_stack.frames.len() - 1;
        let ch = self.call_stack.frames[lastf].closure;
        let got = self.closure_arena.get(ch);
        let handle = match got {
            Some(closure) => {
                if uv_slot >= closure.upvalues.len() {
                    return Some(self.rt_err("Upvalue index out of range"));
                }
                closure.upvalues[uv_slot]
            },
            None => {
                return Some(self.rt_err("Stale closure handle"));
            },
        };
        let got_uv = self.upvalue_arena.get(handle);
        let uv = match got_uv {
            Some(u) => *u,
            None => {
                return Some(self.rt_err("Stale upvalue handle"));
            },
        };
        match uv.value {
            InnerUpvalue::Open(o) => {
                if o.idx < self.stack.len() {
                    self.set_stack_value(o.idx, v);
                    None
                } else {
                    Some(self.rt_err("Open upvalue out of range"))
                }
            },
            InnerUpvalue::Closed(_) => {
                let mut closed = uv;
                closed.close_with_value(v);
                let ghost before = self.upvalue_arena;
                let _ = self.upvalue_arena.set_entry(handle, closed);
                proof {
                    assert forall|i: int|
                        0 <= i < self.upvalue_arena.objects@.len() && (
                        #[trigger] self.upvalue_arena.objects@[i]) is Some
                            && self.upvalue_arena.objects@[i]->0.value is Open implies
                        self.upvalue_arena.objects@[i]->0.value->Open_0.idx < self.stack@.len() by {
                        if i != handle.index {
                            assert(self.upvalue_arena.objects@[i] == before.objects@[i]);
                        }
                    }
                }
                None
            },
        }
    }

    /// SET_GLOBAL: the stack holds the value then the interned name on
    /// top; the value is stored under the name's table index and pushed
    /// back, since assignment is an expression.
    fn op_set_global(&mut self) -> (r: Option<VMError>)
        requires
            old(self).wf(),
            old(self).frames().len() > 0,
        ensures
            final(self).wf(),
            final(self).frames().len() > 0,
            final(self).globals@.len() >= old(self).globals@.len(),
            r is Some ==> !(r->Some_0 is CompilationError),
            old(self).stack@.len() >= old(self).frames().last().slot + 2 ==> {
                let name = old(self).stack@.last();
                let val = old(self).stack@[old(self).stack@.len() - 2];
                &&& ((r is None) <==> (name.is_string_spec() && (name.payload() as int) < old(self).globals@.len()))
                &&& (r is None ==> final(self).globals@ == old(self).globals@.update(
                    name.payload() as int,
                    Some(val),
                ) && final(self).stack@ == old(self).stack@.drop_last().drop_last().push(val))
            },
    {
        let name = self.pop_val();
        let val = self.pop_val();
        if !name.is_string() {
            return Some(self.rt_err("Only strings can name globals"));
        }
        let idx = name.bits & 0x0000FFFFFFFFFFFF;
        if (idx as u64) >= (self.globals.len() as u64) {
            return Some(self.rt_err("Only strings can name globals"));
        }
        self.globals.set(idx as usize, Some(val));
        self.push_val(val);
        None
    }

    /// GET_GLOBAL: pop the interned name on top and push the named
    /// global's value; an unbound or out-of-table name is a runtime
    /// error.
    fn op_get_global(&mut self) -> (r: Option<VMError>)
        requires
            old(self).wf(),
            old(self).frames().len() > 0,
        ensures
            final(self).wf(),
            final(self).frames().len() > 0,
            final(self).globals@.len() >= old(self).globals@.len(),
            final(self).globals == old(self).globals,
            r is Some ==> !(r->Some_0 is CompilationError),
            old(self).stack@.len() >= old(self).frames().last().slot + 1 ==> {
                let name = old(self).stack@.last();
                &&& ((r is None) <==> (name.is_string_spec() && (name.payload() as int) < old(self).globals@.len() && old(self).globals@[name.payload() as int] is Some))
                &&& (r is None ==> final(self).stack@ == old(self).stack@.drop_last().push(
                    old(self).globals@[name.payload() as int]->0,
                ))
            },
    {
        let name = self.pop_val();
        if !name.is_string() {
            return Some(self.rt_err("Expected an identifier"));
        }
        let idx = name.bits & 0x0000FFFFFFFFFFFF;
        if (idx as u64) >= (self.globals.len() as u64) {
            return Some(self.rt_err("Undefined global"));
        }
        let slot = &self.globals[idx as usize];
        match slot {
            Some(v) => {
                let copied = *v;
                self.push_val(copied);
                None
            },
            None => Some(self.rt_err("Undefined global")),
        }
    }

    /// Captures a local of the running frame as an upvalue, reusing an
    /// existing open upvalue over the same slot.
    pub fn add_local_upvalue(&mut self, closure: &mut FnClosure, uv_idx: u8) -> (r: Option<VMError>)
        requires
            old(self).wf(),
            old(self).frames().len() > 0,
        ensures
            final(self).wf(),
            final(self).frames().len() == old(self).frames().len(),
            r is Some ==> !(r->Some_0 is CompilationError),
            final(self).stack@.len() >= old(self).stack@.len(),
            final(self).call_stack.frames@ == old(self).call_stack.frames@,
            final(self).closure_arena == old(self).closure_arena,
            final(self).functions == old(self).functions,
            final(self).strings == old(self).strings,
            final(self).globals == old(self).globals,
    {
        let base = self.top_slot();
        if (uv_idx as usize) > usize::MAX - base {
            return Some(self.rt_err("Upvalue slot out of range"));
        }
        let abs = base + (uv_idx as usize);
        self.ensure_slot(abs);
        // Reuse any open upvalue already watching this slot.
        let ghost mid = *self;
        let n = self.upvalue_arena.capacity();
        let mut i: usize = 0;
        let mut found: Option<Handle> = None;
        while i < n
            invariant
                i <= n,
                *self == mid,
                self.wf(),
                n == self.upvalue_arena.objects@.len(),
                found is Some ==> self.upvalue_arena.valid(found->0),
            decreases n - i,
        {
            let entry = self.upvalue_arena.entry_at(i);
            match entry {
                Some((h, u)) => {
                    if u.is_open() && u.get_stack_index() == abs && found.is_none() {
                        found = Some(h);
                    }
                },
                None => {},
            }
            i = i + 1;
        }
        let handle = match found {
            Some(h) => h,
            None => {
                let fresh = WeaveUpvalue::open(abs);
                proof {
                    assert(abs < self.stack@.len());
                }
                let ghost before = self.upvalue_arena;
                let fresh_handle = self.upvalue_arena.insert(fresh);
                proof {
                    assert forall|q: int|
                        0 <= q < self.upvalue_arena.objects@.len() && (
                        #[trigger] self.upvalue_arena.objects@[q]) is Some
                            && self.upvalue_arena.objects@[q]->0.value is Open implies
                        self.upvalue_arena.objects@[q]->0.value->Open_0.idx < self.stack@.len() by {
                        if q != fresh_handle.index {
                            assert(self.upvalue_arena.objects@[q] == before.objects@[q]);
                        }
                    }
                }
                fresh_handle
            },
        };
        closure.upvalues.push(handle);
        None
    }

    /// Binds an upvalue of the running closure into a new closure.
    pub fn add_remote_upvalue(&mut self, closure: &mut FnClosure, uv_idx: u8) -> (r: Option<
        VMError,
    >)
        requires
            old(self).wf(),
            old(self).frames().len() > 0,
        ensures
            final(self).wf(),
            final(self).frames().len() == old(self).frames().len(),
            r is Some ==> !(r->Some_0 is CompilationError),
            final(self).call_stack.frames@ == old(self).call_stack.frames@,
            final(self).stack == old(self).stack,
            final(self).closure_arena == old(self).closure_arena,
            final(self).upvalue_arena == old(self).upvalue_arena,
            final(self).functions == old(self).functions,
            final(self).strings == old(self).strings,
            final(self).globals == old(self).globals,
    {
        let lastf = self.call_stack.frames.len() - 1;
        let ch = self.call_stack.frames[lastf].closure;
        let got = self.closure_arena.get(ch);
        match got {
            Some(cur) => {
                if (uv_idx as usize) >= cur.upvalues.len() {
                    return Some(self.rt_err("Upvalue index out of range"));
                }
                let h = cur.upvalues[uv_idx as usize];
                closure.upvalues.push(h);
                None
            },
            None => Some(self.rt_err("Stale closure handle")),
        }
    }

    /// CLOSURE: materialise a closure over the function constant, binding
    /// each descriptor pair to a shared upvalue, and push its handle.
    fn op_closure(&mut self) -> (r: Option<VMError>)
        requires
            old(self).wf(),
            old(self).frames().len() > 0,
        ensures
            final(self).wf(),
            final(self).frames().len() > 0,
            final(self).globals@.len() >= old(self).globals@.len(),
            r is Some ==> !(r->Some_0 is CompilationError),
            r is None ==> final(self).stack@.len() >= old(self).stack@.len() + 1 && final(self).stack@.last().is_closure_handle_spec(),
    {
        let idx = self.read_u16() as usize;
        let lastf = self.call_stack.frames.len() - 1;
        let func = self.call_stack.frames[lastf].func;
        if idx >= self.functions[func].chunk.constants.len() {
            return Some(VMError::InvalidChunk);
        }
        let cval = self.functions[func].chunk.get_constant(idx);
        if !cval.is_function() {
            return Some(VMError::InvalidChunk);
        }
        let fidx_u = cval.bits & 0x0000FFFFFFFFFFFF;
        if (fidx_u as u64) >= (self.functions.len() as u64) {
            return Some(VMError::InvalidChunk);
        }
        let fidx = fidx_u as usize;
        let upc = self.functions[fidx].upvalue_count as usize;
        let mut closure = FnClosure::new(fidx);
        let mut i: usize = 0;
        while i < upc
            invariant
                i <= upc,
                self.wf(),
                self.frames().len() > 0,
                fidx < self.functions@.len(),
                self.globals@.len() >= old(self).globals@.len(),
                self.stack@.len() >= old(self).stack@.len(),
            decreases upc - i,
        {
            let is_local = self.read_byte();
            let uv_idx = self.read_byte();
            if is_local == 1 {
                let e = self.add_local_upvalue(&mut closure, uv_idx);
                match e {
                    Some(err) => {
                        return Some(err);
                    },
                    None => {},
                }
            } else {
                let e = self.add_remote_upvalue(&mut closure, uv_idx);
                match e {
                    Some(err) => {
                        return Some(err);
                    },
                    None => {},
                }
            }
            i = i + 1;
        }
        if self.closure_arena.capacity() >= 0xFFFFFFFF {
            return Some(self.rt_err("Closure arena exhausted"));
        }
        let handle = self.closure_arena.insert(closure);
        let packed = handle.to_u64();
        self.push_val(NanBoxedValue::closure_handle(packed));
        None
    }

    /// CALL: an arity-checked closure call pushes one frame whose base
    /// holds the callee, with exactly `arity` arguments above it at the
    /// stack's top and the stack otherwise untouched; a native call runs
    /// the host function over the top `argc` values and replaces them,
    /// callee included, with the result.
    fn op_call(&mut self) -> (r: Option<VMError>)
        requires
            old(self).wf(),
            old(self).frames().len() > 0,
        ensures
            final(self).wf(),
            final(self).frames().len() > 0,
            final(self).globals@.len() >= old(self).globals@.len(),
            r is Some ==> !(r->Some_0 is CompilationError),
            r is None ==> {
                ||| (final(self).frames().len() == old(self).frames().len() + 1 && final(self).stack@ == old(self).stack@ && final(self).frames().last().func < final(self).functions@.len() && final(self).frames().last().slot + final(self).functions@[
                    final(self).frames().last().func as int
                ].arity + 1 == final(self).stack@.len())
                ||| (final(self).frames().len() == old(self).frames().len() && final(self).stack@.len() <= old(self).stack@.len())
            },
            r is Some ==> final(self).frames().len() == old(self).frames().len(),
            ({
                let fr = old(self).frames().last();
                (fr.ip.ip + 1 <= fr.ip.bytecode@.len() && old(self).stack@.len() >= fr.slot + (
                fr.ip.bytecode@[fr.ip.ip as int] as int) + 1) ==> {
                    let callee = old(self).stack@[old(self).stack@.len() - 1 - (
                    fr.ip.bytecode@[fr.ip.ip as int] as int)];
                    !callee.is_closure_handle_spec() && !callee.is_native_fn_spec() ==> r is Some
                        && r->Some_0 is RuntimeError
                }
            }),
    {
        let argc = self.read_byte() as usize;
        proof {
            assert(self.frames().last() == self.frames()[self.frames().len() - 1]);
            assert(old(self).frames().last() == old(self).frames()[old(self).frames().len() - 1]);
        }
        let base = self.top_slot();
        if self.stack.len() < argc + 1 || self.stack.len() - (argc + 1) < base {
            return Some(self.rt_err("Only functions can be called"));
        }
        let fn_slot = self.stack.len() - 1 - argc;
        let callee = self.get_stack_value(fn_slot);
        if callee.is_closure_handle() {
            let packed = callee.as_closure_handle();
            let handle = Handle::from_u64(packed);
            let got = self.closure_arena.get(handle);
            let (cfunc, arity) = match got {
                Some(closure) => {
                    if closure.func >= self.functions.len() {
                        return Some(VMError::InvalidChunk);
                    }
                    (closure.func, self.functions[closure.func].arity)
                },
                None => {
                    return Some(self.rt_err("Stale closure handle"));
                },
            };
            if arity != argc {
                return Some(self.rt_err("Wrong number of arguments"));
            }
            if self.call_stack.frames.len() >= 100 {
                return Some(self.rt_err("Stack overflow"));
            }
            let ip = IP::new(&self.functions[cfunc].chunk.code);
            self.call_stack.frames.push(
                CallFrame { closure: handle, func: cfunc, slot: fn_slot, ip },
            );
            return None;
        }
        if callee.is_native_fn() {
            let kind_idx = callee.bits & 0x0000FFFFFFFFFFFF;
            let kind = match NativeFnType::from_index(kind_idx) {
                Some(k) => k,
                None => {
                    return Some(self.rt_err("Only functions can be called"));
                },
            };
            let native = NativeFn::get(kind);
            if native.arity != argc {
                return Some(self.rt_err("Wrong number of arguments"));
            }
            let result = match kind {
                NativeFnType::Print => {
                    let v = self.peek_val();
                    let txt = self.display_value(v);
                    self.output.push(txt);
                    NanBoxedValue::null()
                },
                NativeFnType::Input => {
                    let line = crate::native::input_line();
                    let interned = self.intern_string(&line);
                    match interned {
                        Some(idx) => NanBoxedValue::string(idx),
                        None => NanBoxedValue::null(),
                    }
                },
                NativeFnType::Clock => {
                    let millis = crate::native::clock_millis();
                    let bits = crate::numtext::u128_to_bits(millis as u128);
                    NanBoxedValue::number(bits)
                },
                NativeFnType::ReadFile => NanBoxedValue::null(),
                NativeFnType::WriteFile => {
                    if self.stack.len() >= 2 {
                        let path = self.get_stack_value(self.stack.len() - 2);
                        let text = self.get_stack_value(self.stack.len() - 1);
                        let path_b = self.display_value(path);
                        let text_b = self.display_value(text);
                        self.file_writes.push((path_b, text_b));
                    }
                    NanBoxedValue::null()
                },
            };
            // Drop the callee and the arguments, then push the result:
            // every pop stays above the frame base, since the callee and
            // its arguments were checked to sit there.
            let mut dropped: usize = 0;
            while dropped < argc + 1
                invariant
                    argc <= 255,
                    dropped <= argc + 1,
                    self.wf(),
                    self.frames().len() > 0,
                    self.globals@.len() >= old(self).globals@.len(),
                    self.frames().len() == old(self).frames().len(),
                    self.frames().last().slot == old(self).frames().last().slot,
                    old(self).stack@.len() >= argc + 1,
                    old(self).stack@.len() - (argc + 1) >= old(self).frames().last().slot,
                    self.stack@.len() == old(self).stack@.len() - dropped,
                decreases argc + 1 - dropped,
            {
                let _ = self.pop_val();
                dropped = dropped + 1;
            }
            self.push_val(result);
            return None;
        }
        Some(self.rt_err("Only functions can be called"))
    }
}

/// The machine's standing invariants, spelled out: at most 100 call
/// frames; the stack never below any frame's base, the current frame's
/// included; and every open upvalue's captured slot inside the live
/// stack. `run` keeps `wf`, so these hold after every instruction.
pub proof fn lemma_machine_invariants(vm: VM)
    requires
        vm.wf(),
    ensures
        vm.frames().len() <= 100,
        forall|i: int|
            0 <= i < vm.frames().len() ==> (#[trigger] vm.frames()[i]).slot <= vm.stack@.len(),
        open_upvalues_below(vm.upvalue_arena, vm.stack@.len() as int),
{
}

} // verus!
