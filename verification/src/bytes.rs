//! Small verified helpers on byte vectors, shared across the crate.

use vstd::prelude::*;

verus! {

/// A fresh copy of the bytes.
pub fn copy_bytes(v: &Vec<u8>) -> (r: Vec<u8>)
    ensures
        r@ == v@,
{
    let mut out: Vec<u8> = Vec::new();
    let n = v.len();
    let mut i: usize = 0;
    while i < n
        invariant
            i <= n,
            n == v.len(),
            out@ == v@.subrange(0, i as int),
        decreases n - i,
    {
        out.push(v[i]);
        i = i + 1;
    }
    proof {
        assert(out@ =~= v@);
    }
    out
}

/// Byte-for-byte equality of two vectors.
pub fn bytes_eq(a: &Vec<u8>, b: &Vec<u8>) -> (r: bool)
    ensures
        r == (a@ == b@),
{
    if a.len() != b.len() {
        proof {
            assert(a@.len() != b@.len());
        }
        return false;
    }
    let n = a.len();
    let mut i: usize = 0;
    while i < n
        invariant
            i <= n,
            n == a.len() == b.len(),
            forall|j: int| 0 <= j < i ==> a@[j] == b@[j],
        decreases n - i,
    {
        if a[i] != b[i] {
            return false;
        }
        i = i + 1;
    }
    proof {
        assert(a@ =~= b@);
    }
    true
}

/// Appends all of `src` to `dst`.
pub fn append_bytes(dst: &mut Vec<u8>, src: &Vec<u8>)
    ensures
        final(dst)@ == old(dst)@ + src@,
{
    let n = src.len();
    let mut i: usize = 0;
    while i < n
        invariant
            i <= n,
            n == src.len(),
            dst@ == old(dst)@ + src@.subrange(0, i as int),
        decreases n - i,
    {
        dst.push(src[i]);
        i = i + 1;
    }
    proof {
        assert(dst@ =~= old(dst)@ + src@);
    }
}

/// Appends the decimal digits of `n0` (at least one byte).
pub fn push_decimal(out: &mut Vec<u8>, n0: u64)
    ensures
        final(out)@.len() > old(out)@.len(),
        final(out)@.subrange(0, old(out)@.len() as int) == old(out)@,
{
    let mut rev: Vec<u8> = Vec::new();
    let mut n = n0;
    let mut guard: u64 = 0;
    while n > 0 && guard < 20
        invariant
            guard <= 20,
            rev@.len() == guard,
        decreases 20 - guard,
    {
        rev.push(0x30 + ((n % 10) as u8));
        n = n / 10;
        guard = guard + 1;
    }
    if rev.len() == 0 {
        out.push(0x30);
        proof {
            assert(out@.subrange(0, old(out)@.len() as int) =~= old(out)@);
        }
        return ;
    }
    let m = rev.len();
    let mut k: usize = m;
    while k > 0
        invariant
            k <= m,
            m == rev.len(),
            out@.len() == old(out)@.len() + (m - k),
            out@.subrange(0, old(out)@.len() as int) == old(out)@,
        decreases k,
    {
        k = k - 1;
        out.push(rev[k]);
        proof {
            assert(out@.subrange(0, old(out)@.len() as int) =~= old(out)@);
        }
    }
}

} // verus!
