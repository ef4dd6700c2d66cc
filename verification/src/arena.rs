//! A generational arena: slots with generation counters, so a stale
//! handle can never read another object's slot.

use vstd::prelude::*;

verus! {

/// A handle into an arena: the slot index and the generation the slot
/// had when the object was inserted.
#[derive(Debug, Clone, Copy, PartialEq, Eq, Structural)]
pub struct Handle {
    pub index: usize,
    pub generation: u32,
}

impl Handle {
    /// The slot index.
    pub fn index(self) -> (r: usize)
        ensures
            r == self.index,
    {
        self.index
    }

    /// The generation.
    pub fn generation(self) -> (r: u32)
        ensures
            r == self.generation,
    {
        self.generation
    }

    /// Packs the handle: generation in the high 32 bits, index in the
    /// low 32 (indexes fit 32 bits by the arena's bound on slots).
    pub fn to_u64(self) -> (r: u64)
        requires
            self.index < 0x100000000,
        ensures
            r == (self.generation as u64) * 0x100000000 + (self.index as u64),
    {
        proof {
            let g = self.generation as u64;
            let i = self.index as u64;
            assert((g <= 0xFFFFFFFF && i < 0x100000000) ==> ((g << 32) | i) == vstd::prelude::add(
                vstd::prelude::mul(g, 0x100000000),
                i,
            )) by (bit_vector);
        }
        ((self.generation as u64) << 32) | (self.index as u64)
    }

    /// Unpacks a handle packed by `to_u64`.
    pub fn from_u64(value: u64) -> (r: Handle)
        ensures
            r.index == value % 0x100000000,
            r.generation == value / 0x100000000,
    {
        let index = (value & 0xFFFFFFFF) as usize;
        let generation = (value >> 32) as u32;
        proof {
            let v = value;
            assert((v & 0xFFFFFFFF) == v % 0x100000000 && (v >> 32) == v / 0x100000000)
                by (bit_vector);
            assert(v % 0x100000000 < 0x100000000 && v / 0x100000000 < 0x100000000)
                by (bit_vector);
        }
        Handle { index, generation }
    }
}

/// Packing and unpacking a handle is lossless while the index fits 32
/// bits.
pub proof fn lemma_handle_pack_round_trip(h: Handle)
    requires
        h.index < 0x100000000,
    ensures
        ({
            let packed = (h.generation as u64) * 0x100000000 + (h.index as u64);
            packed % 0x100000000 == h.index && packed / 0x100000000 == h.generation
        }),
{
    let g = h.generation as u64;
    let i = h.index as u64;
    assert(g < 0x100000000 && i < 0x100000000 ==> (g * 0x100000000 + i) % 0x100000000 == i && (g
        * 0x100000000 + i) / 0x100000000 == g) by (nonlinear_arith);
}

/// How many slots hold a live object.
pub open spec fn live_count<T>(objects: Seq<Option<T>>) -> nat
    decreases objects.len(),
{
    if objects.len() == 0 {
        0
    } else {
        live_count(objects.drop_last()) + if objects.last() is Some {
            1nat
        } else {
            0nat
        }
    }
}

/// Emptying one live slot lowers the live count by exactly one.
proof fn lemma_live_count_clear_one<T>(objects: Seq<Option<T>>, i: int)
    requires
        0 <= i < objects.len(),
        objects[i] is Some,
    ensures
        live_count(objects.update(i, None)) + 1 == live_count(objects),
    decreases objects.len(),
{
    if objects.len() > 0 {
        if i == objects.len() - 1 {
            assert(objects.update(i, None).drop_last() =~= objects.drop_last());
        } else {
            lemma_live_count_clear_one(objects.drop_last(), i);
            assert(objects.update(i, None).drop_last() =~= objects.drop_last().update(i, None));
            assert(objects.update(i, None).last() == objects.last());
        }
    }
}

/// Objects in slots, a generation per slot, and a free list of empty
/// slots.
pub struct Arena<T> {
    pub objects: Vec<Option<T>>,
    pub generations: Vec<u32>,
    pub free_list: Vec<usize>,
    pub next_generation: u32,
}

impl<T> Arena<T> {
    /// One generation counter per slot, and every free-list entry names
    /// an empty slot.
    pub open spec fn wf(self) -> bool {
        &&& self.objects@.len() == self.generations@.len()
        &&& 1 <= self.next_generation <= 0xFFFF
        &&& forall|i: int|
            0 <= i < self.free_list@.len() ==> (#[trigger] self.free_list@[i]) < self.objects@.len()
                && self.objects@[self.free_list@[i] as int] is None
        &&& forall|i: int, j: int|
            0 <= i < j < self.free_list@.len() ==> (#[trigger] self.free_list@[i]) != (
            #[trigger] self.free_list@[j])
    }

    /// The handle is live: its slot exists, holds an object, and the
    /// generations match.
    pub open spec fn valid(self, h: Handle) -> bool {
        &&& h.index < self.objects@.len()
        &&& self.generations@[h.index as int] == h.generation
        &&& self.objects@[h.index as int] is Some
    }

    /// The object a live handle refers to.
    pub open spec fn value_of(self, h: Handle) -> T
        recommends
            self.valid(h),
    {
        self.objects@[h.index as int]->0
    }

    pub fn new() -> (r: Arena<T>)
        ensures
            r.wf(),
            r.objects@.len() == 0,
    {
        Arena { objects: Vec::new(), generations: Vec::new(), free_list: Vec::new(), next_generation: 1 }
    }

    pub fn with_capacity(_capacity: usize) -> (r: Arena<T>)
        ensures
            r.wf(),
            r.objects@.len() == 0,
    {
        Arena { objects: Vec::new(), generations: Vec::new(), free_list: Vec::new(), next_generation: 1 }
    }

    /// Inserts an object: the most recently freed slot is reused when one
    /// exists, otherwise a fresh slot is appended; either way the slot
    /// takes the arena's next generation (generations recycle after 2^16
    /// inserts, the window the boxed handle payload carries). Every
    /// handle that was live stays live with its object unchanged, and the
    /// returned handle is live for the new object.
    pub fn insert(&mut self, object: T) -> (h: Handle)
        requires
            old(self).wf(),
        ensures
            final(self).wf(),
            final(self).valid(h),
            h.generation == old(self).next_generation,
            h.generation <= 0xFFFF,
            final(self).objects@[h.index as int] == Some(object),
            old(self).objects@.len() <= final(self).objects@.len() <= old(self).objects@.len() + 1,
            h.index < final(self).objects@.len(),
            old(self).free_list@.len() > 0 ==> h.index == old(self).free_list@.last() && final(
                self).objects@ == old(self).objects@.update(h.index as int, Some(object)) && final(
                self).free_list@ == old(self).free_list@.drop_last(),
            old(self).free_list@.len() == 0 ==> h.index == old(self).objects@.len() && final(
                self).objects@ == old(self).objects@.push(Some(object)),
            final(self).objects@.len() == old(self).objects@.len() + 1 ==> h.index == old(
                self,
            ).objects@.len(),
            forall|j: int|
                0 <= j < old(self).objects@.len() && j != h.index ==> final(self).objects@[j]
                    == old(self).objects@[j],
            forall|h2: Handle|
                old(self).valid(h2) ==> #[trigger] final(self).valid(h2) && final(self).objects@[h2.index as int]
                    == old(self).objects@[h2.index as int],
    {
        let generation = self.next_generation;
        let reused = self.free_list.pop();
        match reused {
            Some(index) => {
                proof {
                    assert(old(self).free_list@[old(self).free_list@.len() - 1] == index);
                    assert(old(self).objects@[index as int] is None);
                }
                self.objects.set(index, Some(object));
                self.generations.set(index, generation);
                self.next_generation = if self.next_generation < 0xFFFF {
                    self.next_generation + 1
                } else {
                    1
                };
                Handle { index, generation }
            },
            None => {
                let index = self.objects.len();
                self.objects.push(Some(object));
                self.generations.push(generation);
                self.next_generation = if self.next_generation < 0xFFFF {
                    self.next_generation + 1
                } else {
                    1
                };
                Handle { index, generation }
            },
        }
    }

    /// Reads through a handle: the object while the handle is live,
    /// `None` once the slot was freed or reused.
    pub fn get(&self, handle: Handle) -> (r: Option<&T>)
        requires
            self.wf(),
        ensures
            self.valid(handle) ==> r is Some && self.objects@[handle.index as int] == Some(*r->0),
            !self.valid(handle) ==> r is None,
    {
        if handle.index >= self.objects.len() {
            return None;
        }
        if self.generations[handle.index] != handle.generation {
            return None;
        }
        match &self.objects[handle.index] {
            Some(obj) => Some(obj),
            None => None,
        }
    }

    /// Checks whether a handle is live.
    pub fn is_valid(&self, handle: Handle) -> (r: bool)
        requires
            self.wf(),
        ensures
            r == self.valid(handle),
    {
        handle.index < self.objects.len() && self.generations[handle.index] == handle.generation
            && self.objects[handle.index].is_some()
    }

    /// Removes the object behind a live handle: the slot empties and
    /// joins the free list, and its generation moves on, so the handle
    /// (and any copy of it) goes stale. Other live handles are untouched,
    /// and the live count drops by one.
    pub fn remove(&mut self, handle: Handle) -> (r: Option<T>)
        requires
            old(self).wf(),
        ensures
            final(self).wf(),
            !old(self).valid(handle) ==> r is None && final(self).objects@ == old(self).objects@
                && final(self).generations@ == old(self).generations@ && final(self).free_list@
                == old(self).free_list@,
            old(self).valid(handle) ==> r == Some(old(self).value_of(handle)) && !(final(
                self).valid(handle)),
            old(self).valid(handle) ==> final(self).objects@ == old(self).objects@.update(
                handle.index as int,
                None,
            ) && final(self).free_list@ == old(self).free_list@.push(handle.index) && final(
                self).generations@[handle.index as int] != handle.generation,
            old(self).valid(handle) ==> live_count(final(self).objects@) + 1 == live_count(
                old(self).objects@,
            ),
            forall|h2: Handle|
                old(self).valid(h2) && h2.index != handle.index ==> #[trigger] final(self).valid(h2)
                    && final(self).objects@[h2.index as int] == old(self).objects@[h2.index as int],
    {
        if handle.index >= self.objects.len() {
            return None;
        }
        if self.generations[handle.index] != handle.generation {
            return None;
        }
        if self.objects[handle.index].is_none() {
            return None;
        }
        proof {
            lemma_live_count_clear_one(self.objects@, handle.index as int);
        }
        let mut taken: Option<T> = None;
        self.objects.set_and_swap(handle.index, &mut taken);
        let g = self.generations[handle.index];
        self.generations.set(handle.index, if g < 0xFFFF {
            g + 1
        } else {
            0
        });
        self.free_list.push(handle.index);
        taken
    }

    /// Drops everything; every handle goes stale and the arena is empty.
    pub fn clear(&mut self)
        ensures
            final(self).wf(),
            final(self).objects@.len() == 0,
            live_count(final(self).objects@) == 0,
            forall|h: Handle| !final(self).valid(h),
    {
        self.objects.clear();
        self.generations.clear();
        self.free_list.clear();
        self.next_generation = 1;
    }

    /// The number of live objects.
    pub fn len(&self) -> (r: usize)
        ensures
            r == live_count(self.objects@),
            r <= self.objects@.len(),
    {
        let n = self.objects.len();
        let mut count: usize = 0;
        let mut i: usize = 0;
        proof {
            assert(self.objects@.subrange(0, 0) =~= Seq::<Option<T>>::empty());
        }
        while i < n
            invariant
                i <= n,
                n == self.objects.len(),
                count <= i,
                count == live_count(self.objects@.subrange(0, i as int)),
            decreases n - i,
        {
            proof {
                assert(self.objects@.subrange(0, i + 1).drop_last() =~= self.objects@.subrange(
                    0,
                    i as int,
                ));
                assert(self.objects@.subrange(0, i + 1).last() == self.objects@[i as int]);
            }
            if self.objects[i].is_some() {
                count = count + 1;
            }
            i = i + 1;
        }
        proof {
            assert(self.objects@.subrange(0, n as int) =~= self.objects@);
        }
        count
    }

    /// True when no live object remains.
    pub fn is_empty(&self) -> (r: bool)
        ensures
            r == (live_count(self.objects@) == 0),
    {
        self.len() == 0
    }

    /// The number of slots, freed ones included.
    pub fn capacity(&self) -> (r: usize)
        ensures
            r == self.objects@.len(),
    {
        self.objects.len()
    }

    /// Replaces the object behind a live handle, leaving every other
    /// slot as it was.
    pub fn set_entry(&mut self, handle: Handle, value: T) -> (r: bool)
        requires
            old(self).wf(),
        ensures
            final(self).wf(),
            r == old(self).valid(handle),
            final(self).objects@.len() == old(self).objects@.len(),
            final(self).generations@ == old(self).generations@,
            final(self).free_list@ == old(self).free_list@,
            r ==> final(self).objects@ == old(self).objects@.update(
                handle.index as int,
                Some(value),
            ),
            !r ==> final(self).objects@ == old(self).objects@,
    {
        if handle.index >= self.objects.len() {
            return false;
        }
        if self.generations[handle.index] != handle.generation {
            return false;
        }
        if self.objects[handle.index].is_none() {
            return false;
        }
        self.objects.set(handle.index, Some(value));
        true
    }

    /// A cursor over the live objects; drive it with `iter_next`.
    pub fn iter(&self) -> (r: ArenaIterator)
        ensures
            r.index == 0,
    {
        ArenaIterator { index: 0 }
    }

    /// The next live object at or after the cursor, with its handle, or
    /// `None` when the slots are exhausted.
    pub fn iter_next(&self, it: &mut ArenaIterator) -> (r: Option<(Handle, &T)>)
        requires
            self.wf(),
        ensures
            old(it).index <= final(it).index,
            r is Some ==> {
                &&& self.valid((r->0).0)
                &&& self.objects@[(r->0).0.index as int] == Some(*(r->0).1)
                &&& old(it).index <= (r->0).0.index < final(it).index
            },
    {
        let n = self.objects.len();
        while it.index < n
            invariant
                n == self.objects@.len(),
                old(it).index <= it.index,
                self.wf(),
            decreases n - it.index,
        {
            let i = it.index;
            it.index = i + 1;
            match &self.objects[i] {
                Some(obj) => {
                    let h = Handle { index: i, generation: self.generations[i] };
                    return Some((h, obj));
                },
                None => {},
            }
        }
        None
    }
}

impl<T: Copy> Arena<T> {
    /// The live object in slot `i`, copied out with its handle.
    pub fn entry_at(&self, i: usize) -> (r: Option<(Handle, T)>)
        requires
            self.wf(),
        ensures
            (r is Some) == (i < self.objects@.len() && self.objects@[i as int] is Some),
            r is Some ==> {
                &&& (r->0).0.index == i
                &&& self.valid((r->0).0)
                &&& self.objects@[i as int] == Some((r->0).1)
            },
    {
        if i >= self.objects.len() {
            return None;
        }
        match &self.objects[i] {
            Some(obj) => {
                let h = Handle { index: i, generation: self.generations[i] };
                Some((h, *obj))
            },
            None => None,
        }
    }
}

/// A cursor into an arena's slots.
pub struct ArenaIterator {
    pub index: usize,
}

} // verus!
