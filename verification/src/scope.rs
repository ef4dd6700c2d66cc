//! Compile-time scopes: the stack of inner scopes, their local slots,
//! and upvalue resolution across enclosing functions.

use vstd::prelude::*;
use crate::function::Upvalue;

verus! {

/// A named local and the depth of the scope that declared it.
#[derive(Debug, Clone)]
pub struct Local {
    pub name: Vec<u8>,
    pub depth: u8,
}

impl Local {
    pub fn new(name: Vec<u8>, depth: u8) -> (r: Local)
        ensures
            r.name == name,
            r.depth == depth,
    {
        Local { name, depth }
    }

    /// The reserved slot-zero local: unnamed, so no identifier resolves
    /// to the callee's own stack slot.
    pub fn empty() -> (r: Local)
        ensures
            r.name@.len() == 0,
            r.depth == 0,
    {
        Local { name: Vec::new(), depth: 0 }
    }
}

/// One function's scope: its locals in slot order and the upvalues its
/// closures will capture.
pub struct InnerScope {
    pub locals: Vec<Local>,
    pub upvalues: Vec<Upvalue>,
}

impl InnerScope {
    /// A fresh scope; slot 0 is reserved for the callee closure, as the
    /// VM's calling protocol reserves it, and carries no name, so no
    /// identifier ever resolves to it.
    pub fn new() -> (r: InnerScope)
        ensures
            r.locals@.len() == 1,
            r.locals@[0].name@.len() == 0,
            r.upvalues@.len() == 0,
    {
        let mut locals: Vec<Local> = Vec::new();
        locals.push(Local::empty());
        InnerScope { locals, upvalues: Vec::new() }
    }

    /// The first local with this name, if any.
    pub fn resolve_local(&self, identifier: &Vec<u8>) -> (r: Option<usize>)
        ensures
            r is Some ==> r->0 < self.locals@.len() && self.locals@[r->0 as int].name@
                == identifier@,
            r is None ==> forall|i: int|
                0 <= i < self.locals@.len() ==> (#[trigger] self.locals@[i]).name@ != identifier@,
    {
        let n = self.locals.len();
        let mut i: usize = 0;
        while i < n
            invariant
                i <= n,
                n == self.locals@.len(),
                forall|j: int| 0 <= j < i ==> (#[trigger] self.locals@[j]).name@ != identifier@,
            decreases n - i,
        {
            if crate::bytes::bytes_eq(&self.locals[i].name, identifier) {
                return Some(i);
            }
            i = i + 1;
        }
        None
    }
}

/// The scope stack: one inner scope per function being compiled, the
/// innermost on top; `depth` names the innermost level, with depth 0 the
/// script itself.
pub struct Scope {
    pub depth: u8,
    pub stack: Vec<InnerScope>,
    pub overflowed: bool,
}

impl Scope {
    /// The innermost scope's locals.
    pub open spec fn cur_locals(self) -> Seq<Local>
        recommends
            self.wf(),
    {
        self.stack@[self.depth as int].locals@
    }

    pub open spec fn wf(self) -> bool {
        &&& self.stack@.len() == self.depth + 1
        &&& forall|d: int|
            0 <= d < self.stack@.len() ==> (#[trigger] self.stack@[d]).upvalues@.len() <= 255
    }

    pub fn new() -> (r: Scope)
        ensures
            r.wf(),
            r.depth == 0,
            !r.overflowed,
    {
        let mut stack: Vec<InnerScope> = Vec::new();
        stack.push(InnerScope::new());
        Scope { depth: 0, stack, overflowed: false }
    }

    /// How many local slots level `depth` holds.
    pub fn locals_at(&self, depth: u8) -> (r: usize)
        ensures
            (depth as int) < self.stack@.len() ==> r == self.stack@[depth as int].locals@.len(),
            (depth as int) >= self.stack@.len() ==> r == 0,
    {
        if (depth as usize) < self.stack.len() {
            self.stack[depth as usize].locals.len()
        } else {
            0
        }
    }

    /// The upvalues recorded at level `depth`, in capture order.
    pub fn upvals_at(&self, depth: usize) -> (r: Vec<Upvalue>)
        ensures
            depth < self.stack@.len() ==> r@ == self.stack@[depth as int].upvalues@,
            depth >= self.stack@.len() ==> r@.len() == 0,
    {
        if depth < self.stack.len() {
            let src = &self.stack[depth].upvalues;
            let n = src.len();
            let mut out: Vec<Upvalue> = Vec::new();
            let mut i: usize = 0;
            while i < n
                invariant
                    i <= n,
                    n == src@.len(),
                    out@ == src@.subrange(0, i as int),
                decreases n - i,
            {
                out.push(src[i]);
                i = i + 1;
            }
            proof {
                assert(out@ =~= src@);
            }
            out
        } else {
            Vec::new()
        }
    }

    /// Drops the innermost scope (keeping the outermost one).
    pub fn pop_scope(&mut self)
        requires
            old(self).wf(),
        ensures
            final(self).wf(),
            old(self).depth > 0 ==> final(self).depth == old(self).depth - 1,
            old(self).depth == 0 ==> final(self).depth == 0,
    {
        if self.depth > 0 {
            let _ = self.stack.pop();
            self.depth = self.depth - 1;
        }
    }

    /// Declares a new local in the innermost scope: `Local { identifier,
    /// depth }` is appended to that scope's slot list and its index comes
    /// back; every other scope is untouched.
    pub fn declare_local(&mut self, identifier: Vec<u8>) -> (r: usize)
        requires
            old(self).wf(),
        ensures
            final(self).wf(),
            final(self).depth == old(self).depth,
            final(self).stack@.len() == old(self).stack@.len(),
            r == old(self).cur_locals().len(),
            final(self).cur_locals().len() == old(self).cur_locals().len() + 1,
            final(self).cur_locals()[r as int].name@ == identifier@,
            final(self).cur_locals()[r as int].depth == old(self).depth,
            final(self).cur_locals().subrange(0, r as int) == old(self).cur_locals(),
            forall|d: int|
                0 <= d < old(self).stack@.len() && d != old(self).depth ==> (
                #[trigger] final(self).stack@[d]).locals@ == old(self).stack@[d].locals@ && final(
                    self).stack@[d].upvalues@ == old(self).stack@[d].upvalues@,
            final(self).overflowed == old(self).overflowed,
    {
        let d = self.depth as usize;
        let local = Local::new(identifier, self.depth);
        let n = self.stack[d].locals.len();
        let inner = &mut self.stack[d];
        inner.locals.push(local);
        proof {
            assert(final(self).cur_locals().subrange(0, n as int) =~= old(self).cur_locals());
        }
        n
    }

    /// The innermost scope's latest local with this name, or -1: of equal
    /// names the highest slot wins, so a redeclared name shadows. Only
    /// the innermost scope is searched, so slot indexes stay stable
    /// while one function compiles.
    pub fn resolve_local(&self, identifier: &Vec<u8>) -> (r: isize)
        requires
            self.wf(),
        ensures
            r >= 0 ==> (r as int) < self.cur_locals().len() && self.cur_locals()[r as int].name@
                == identifier@,
            r >= 0 ==> forall|i: int|
                r < i < self.cur_locals().len() ==> (#[trigger] self.cur_locals()[i]).name@
                    != identifier@,
            r < 0 ==> (forall|i: int|
                0 <= i < self.cur_locals().len() ==> (#[trigger] self.cur_locals()[i]).name@
                    != identifier@) || self.cur_locals().len() > 0x7FFFFFFF,
    {
        let d = self.depth as usize;
        let locals = &self.stack[d].locals;
        let n = locals.len();
        if n == 0 {
            return -1;
        }
        let mut i: usize = n;
        while i > 0
            invariant
                i <= n,
                n == locals@.len(),
                self.wf(),
                locals@ == self.cur_locals(),
                forall|j: int| i <= j < n ==> (#[trigger] locals@[j]).name@ != identifier@,
            decreases i,
        {
            i = i - 1;
            if crate::bytes::bytes_eq(&locals[i].name, identifier) {
                if i < 0x7FFFFFFF {
                    return i as isize;
                } else {
                    return -1;
                }
            }
        }
        -1
    }

    /// Records an upvalue for level `depth`, reusing an equal one; the
    /// returned descriptor's `idx` is its position in that level's
    /// upvalue list. `None` only when the level already holds 255
    /// upvalues, which raises the overflow flag. Locals are never
    /// touched.
    fn add_upvalue(&mut self, upvalue: Upvalue, depth: usize) -> (r: Option<Upvalue>)
        requires
            old(self).wf(),
            depth < old(self).stack@.len(),
        ensures
            final(self).wf(),
            final(self).depth == old(self).depth,
            final(self).stack@.len() == old(self).stack@.len(),
            r is Some ==> r->0.is_local == upvalue.is_local,
            r is Some ==> (r->0.idx as int) < final(self).stack@[depth as int].upvalues@.len(),
            r is None ==> final(self).overflowed,
            old(self).overflowed ==> final(self).overflowed,
            forall|d: int|
                0 <= d < old(self).stack@.len() ==> (#[trigger] final(self).stack@[d]).locals@
                    == old(self).stack@[d].locals@,
    {
        let ups = &self.stack[depth].upvalues;
        let n = ups.len();
        let mut i: usize = 0;
        while i < n
            invariant
                i <= n,
                n == ups@.len(),
                n <= 255,
                self.wf(),
                self == old(self),
                depth < self.stack@.len(),
                n == self.stack@[depth as int].upvalues@.len(),
            decreases n - i,
        {
            let u = ups[i];
            if u.original_idx == upvalue.original_idx && u.is_local == upvalue.is_local {
                return Some(
                    Upvalue {
                        idx: i as u8,
                        is_local: upvalue.is_local,
                        original_idx: upvalue.original_idx,
                    },
                );
            }
            i = i + 1;
        }
        if n >= 255 {
            self.overflowed = true;
            return None;
        }
        let inner = &mut self.stack[depth];
        inner.upvalues.push(upvalue);
        Some(Upvalue { idx: n as u8, is_local: upvalue.is_local, original_idx: upvalue.original_idx })
    }

    /// Resolves a name as an upvalue of the innermost function: a local
    /// of an enclosing function, or an upvalue threaded through the
    /// levels between. `Some` only when some enclosing level declares the
    /// name, and the descriptor indexes the innermost level's upvalue
    /// list; `None` only when no enclosing level declares the name or a
    /// level's upvalue list overflowed, which raises the flag.
    pub fn resolve_upvalue(&mut self, identifier: &Vec<u8>) -> (r: Option<Upvalue>)
        requires
            old(self).wf(),
        ensures
            final(self).wf(),
            final(self).depth == old(self).depth,
            final(self).stack@.len() == old(self).stack@.len(),
            forall|d: int|
                0 <= d < old(self).stack@.len() ==> (#[trigger] final(self).stack@[d]).locals@
                    == old(self).stack@[d].locals@,
            r is Some ==> (r->0.idx as int) < final(self).stack@[final(self).depth as int].upvalues@.len(),
            r is Some ==> exists|d: int, k: int|
                0 <= d < old(self).depth && 0 <= k < old(self).stack@[d].locals@.len() && (
                #[trigger] old(self).stack@[d].locals@[k]).name@ == identifier@,
            r is None ==> final(self).overflowed || (forall|d: int, k: int|
                0 <= d < old(self).depth && 0 <= k < old(self).stack@[d].locals@.len() ==> (
                #[trigger] old(self).stack@[d].locals@[k]).name@ != identifier@),
            r is Some && old(self).depth >= 1 ==> r->0.is_local == (exists|k: int|
                0 <= k < old(self).stack@[old(self).depth - 1].locals@.len() && (
                #[trigger] old(self).stack@[old(self).depth - 1].locals@[k]).name@ == identifier@),
    {
        let d = self.depth as usize;
        self.recursive_resolve_upvalue(identifier, d)
    }

    /// The recursion behind `resolve_upvalue`, walking outward from
    /// level `depth`.
    fn recursive_resolve_upvalue(&mut self, identifier: &Vec<u8>, depth: usize) -> (r: Option<
        Upvalue,
    >)
        requires
            old(self).wf(),
            depth < old(self).stack@.len(),
        ensures
            final(self).wf(),
            final(self).depth == old(self).depth,
            final(self).stack@.len() == old(self).stack@.len(),
            forall|d: int|
                0 <= d < old(self).stack@.len() ==> (#[trigger] final(self).stack@[d]).locals@
                    == old(self).stack@[d].locals@,
            r is Some ==> (r->0.idx as int) < final(self).stack@[depth as int].upvalues@.len(),
            r is Some ==> exists|d: int, k: int|
                0 <= d < depth && 0 <= k < old(self).stack@[d].locals@.len() && (
                #[trigger] old(self).stack@[d].locals@[k]).name@ == identifier@,
            r is None ==> final(self).overflowed || (forall|d: int, k: int|
                0 <= d < depth && 0 <= k < old(self).stack@[d].locals@.len() ==> (
                #[trigger] old(self).stack@[d].locals@[k]).name@ != identifier@),
            r is Some && depth >= 1 ==> r->0.is_local == (exists|k: int|
                0 <= k < old(self).stack@[depth - 1].locals@.len() && (
                #[trigger] old(self).stack@[depth - 1].locals@[k]).name@ == identifier@),
            old(self).overflowed ==> final(self).overflowed,
        decreases depth,
    {
        if depth == 0 {
            return None;
        }
        let parent_depth = depth - 1;
        let found = self.stack[parent_depth].resolve_local(identifier);
        match found {
            Some(slot) => {
                if slot > 255 {
                    self.overflowed = true;
                    return None;
                }
                self.add_upvalue(Upvalue::local(slot as u8), depth)
            },
            None => {
                let inner = self.recursive_resolve_upvalue(identifier, parent_depth);
                match inner {
                    Some(parent_resolved) => {
                        self.add_upvalue(Upvalue::remote(parent_resolved.idx), depth)
                    },
                    None => None,
                }
            },
        }
    }

    /// Opens a new innermost scope for a nested function; its locals are
    /// isolated, while upvalue resolution still reaches the enclosing
    /// levels.
    pub fn enter_function_scope(&mut self)
        requires
            old(self).wf(),
            old(self).depth < 255,
        ensures
            final(self).wf(),
            final(self).depth == old(self).depth + 1,
    {
        self.depth = self.depth + 1;
        self.stack.push(InnerScope::new());
    }

    /// Opens a new innermost scope.
    pub fn enter_scope(&mut self)
        requires
            old(self).wf(),
            old(self).depth < 255,
        ensures
            final(self).wf(),
            final(self).depth == old(self).depth + 1,
    {
        self.enter_function_scope();
    }

    /// Closes the innermost scope.
    pub fn exit_scope(&mut self)
        requires
            old(self).wf(),
        ensures
            final(self).wf(),
            old(self).depth > 0 ==> final(self).depth == old(self).depth - 1,
            old(self).depth == 0 ==> final(self).depth == 0,
    {
        self.pop_scope();
    }
}

} // verus!
