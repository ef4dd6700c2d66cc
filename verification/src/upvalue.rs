//! Runtime upvalues. An upvalue lives in the VM's upvalue arena; the
//! closures that capture one share its handle, so a write through any of
//! them is seen by all: the arena slot is the shared cell.

use vstd::prelude::*;
use crate::value::NanBoxedValue;

verus! {

/// An open upvalue: it still reads and writes a live stack slot, named
/// by its absolute index.
#[derive(Debug, Clone, Copy)]
pub struct OpenUpvalue {
    pub idx: usize,
}

impl OpenUpvalue {
    pub fn new(idx: usize) -> (r: OpenUpvalue)
        ensures
            r.idx == idx,
    {
        OpenUpvalue { idx }
    }
}

/// A closed upvalue: the captured variable's value, owned outright after
/// its stack slot disappeared.
#[derive(Debug, Clone, Copy)]
pub struct ClosedUpvalue {
    pub value: NanBoxedValue,
}

impl ClosedUpvalue {
    pub fn new(v: NanBoxedValue) -> (r: ClosedUpvalue)
        ensures
            r.value == v,
    {
        ClosedUpvalue { value: v }
    }

    /// The stored value.
    pub fn get_fast(&self) -> (r: NanBoxedValue)
        ensures
            r == self.value,
    {
        self.value
    }

    /// Replaces the stored value.
    pub fn set_fast(&mut self, v: NanBoxedValue)
        ensures
            final(self).value == v,
    {
        self.value = v;
    }
}

/// Either state of an upvalue.
#[derive(Debug, Clone, Copy)]
pub enum InnerUpvalue {
    Open(OpenUpvalue),
    Closed(ClosedUpvalue),
}

impl InnerUpvalue {
    /// A fresh open upvalue over stack slot `slot`.
    pub fn open(slot: usize) -> (r: InnerUpvalue)
        ensures
            r is Open,
            r->Open_0.idx == slot,
    {
        InnerUpvalue::Open(OpenUpvalue::new(slot))
    }
}

/// The record an upvalue-arena slot holds.
#[derive(Debug, Clone, Copy)]
pub struct WeaveUpvalue {
    pub value: InnerUpvalue,
}

impl WeaveUpvalue {
    /// A fresh open upvalue over stack slot `idx`.
    pub fn open(idx: usize) -> (r: WeaveUpvalue)
        ensures
            r.value is Open,
            r.value->Open_0.idx == idx,
    {
        WeaveUpvalue { value: InnerUpvalue::open(idx) }
    }

    /// True while the upvalue still points into the stack.
    pub fn is_open(&self) -> (r: bool)
        ensures
            r == (self.value is Open),
    {
        match self.value {
            InnerUpvalue::Open(_) => true,
            InnerUpvalue::Closed(_) => false,
        }
    }

    /// The captured stack slot of an open upvalue; closed upvalues have
    /// no slot and answer 0.
    pub fn get_stack_index(&self) -> (r: usize)
        ensures
            self.value is Open ==> r == self.value->Open_0.idx,
            self.value is Closed ==> r == 0,
    {
        match self.value {
            InnerUpvalue::Open(o) => o.idx,
            InnerUpvalue::Closed(_) => 0,
        }
    }

    /// Closes the upvalue over `v` (or rewrites an already closed one).
    pub fn close_with_value(&mut self, v: NanBoxedValue)
        ensures
            final(self).value is Closed,
            final(self).value->Closed_0.value == v,
    {
        self.value = InnerUpvalue::Closed(ClosedUpvalue::new(v));
    }

    /// The value of a closed upvalue.
    pub fn closed_value(&self) -> (r: NanBoxedValue)
        requires
            self.value is Closed,
        ensures
            r == self.value->Closed_0.value,
    {
        match self.value {
            InnerUpvalue::Closed(c) => c.value,
            InnerUpvalue::Open(_) => NanBoxedValue::null(),
        }
    }
}

} // verus!
