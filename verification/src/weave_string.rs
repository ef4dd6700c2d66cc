//! Interned strings: immutable bytes with a precomputed hash, so the
//! machine's string table can refuse most mismatches by one comparison.

use vstd::prelude::*;

verus! {

/// The FNV-1a hash of a byte sequence: a pure function of the bytes, so
/// equal strings always carry equal hashes.
pub open spec fn fnv1a_hash(s: Seq<u8>) -> u64
    decreases s.len(),
{
    if s.len() == 0 {
        0xcbf29ce484222325
    } else {
        vstd::wrapping::u64_specs::wrapping_mul(
            fnv1a_hash(s.drop_last()) ^ (s.last() as u64),
            0x100000001b3,
        )
    }
}

/// An immutable string with its hash computed once at construction.
#[derive(Debug, Clone)]
pub struct WeaveString {
    pub hashcode: u64,
    pub value: Vec<u8>,
}

impl WeaveString {
    pub open spec fn wf(self) -> bool {
        self.hashcode == fnv1a_hash(self.value@)
    }

    /// Takes ownership of the bytes and hashes them.
    #[verifier::rlimit(60)]
    pub fn new(value: Vec<u8>) -> (r: WeaveString)
        ensures
            r.value@ == value@,
            r.wf(),
    {
        let n = value.len();
        let mut h: u64 = 0xcbf29ce484222325;
        let mut i: usize = 0;
        while i < n
            invariant
                i <= n,
                n == value@.len(),
                h == fnv1a_hash(value@.subrange(0, i as int)),
            decreases n - i,
        {
            let ghost before = value@.subrange(0, i as int);
            h = (h ^ (value[i] as u64)).wrapping_mul(0x100000001b3);
            i = i + 1;
            proof {
                assert(value@.subrange(0, i as int).drop_last() =~= before);
                assert(value@.subrange(0, i as int).last() == value@[i - 1]);
            }
        }
        proof {
            assert(value@.subrange(0, n as int) =~= value@);
        }
        WeaveString { hashcode: h, value }
    }

    /// True when the string holds no bytes.
    pub fn is_empty(&self) -> (r: bool)
        ensures
            r == (self.value@.len() == 0),
    {
        self.value.len() == 0
    }

    /// The length in bytes.
    pub fn len(&self) -> (r: usize)
        ensures
            r == self.value@.len(),
    {
        self.value.len()
    }

    /// The string's bytes.
    pub fn as_str(&self) -> (r: &Vec<u8>)
        ensures
            r@ == self.value@,
    {
        &self.value
    }

    /// Content equality against plain bytes, refusing on the hash first:
    /// equal contents hash equally, so a hash mismatch settles it.
    pub fn matches_bytes(&self, other: &Vec<u8>) -> (r: bool)
        requires
            self.wf(),
        ensures
            r == (self.value@ == other@),
    {
        let other_hash = hash_bytes(other);
        if self.hashcode != other_hash {
            proof {
                assert(self.value@ == other@ ==> fnv1a_hash(self.value@) == fnv1a_hash(other@));
            }
            return false;
        }
        crate::bytes::bytes_eq(&self.value, other)
    }
}

/// The FNV-1a hash of loose bytes.
#[verifier::rlimit(60)]
pub fn hash_bytes(value: &Vec<u8>) -> (r: u64)
    ensures
        r == fnv1a_hash(value@),
{
    let n = value.len();
    let mut h: u64 = 0xcbf29ce484222325;
    let mut i: usize = 0;
    while i < n
        invariant
            i <= n,
            n == value@.len(),
            h == fnv1a_hash(value@.subrange(0, i as int)),
        decreases n - i,
    {
        let ghost before = value@.subrange(0, i as int);
        h = (h ^ (value[i] as u64)).wrapping_mul(0x100000001b3);
        i = i + 1;
        proof {
            assert(value@.subrange(0, i as int).drop_last() =~= before);
            assert(value@.subrange(0, i as int).last() == value@[i - 1]);
        }
    }
    proof {
        assert(value@.subrange(0, n as int) =~= value@);
    }
    h
}

} // verus!
