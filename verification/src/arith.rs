//! IEEE 754 double-precision arithmetic carried out on raw bit patterns.
//!
//! The interpreter stores numbers as 64-bit words (see `value`), and this
//! module adds, subtracts, multiplies, divides and converts them entirely
//! in integer arithmetic, rounding to nearest with ties to even. Keeping
//! the arithmetic on words lets the whole evaluator stay inside the
//! verified library; the test suite holds every operation against the
//! host's hardware arithmetic on a broad range of operands.
//!
//! Every operation returns a well-formed number word: a NaN result is
//! always the canonical quiet NaN, whose payload is zero, so arithmetic
//! can never forge a boxed null, boolean or pointer.

use vstd::prelude::*;
use crate::value::is_number_bits;
use crate::value::is_nan_bits;
use crate::value::is_zero_bits;

verus! {

/// The canonical quiet NaN: the one NaN word the arithmetic produces.
pub const CANONICAL_NAN: u64 = 0x7FF8000000000000;

pub const SIGN_BIT: u64 = 0x8000000000000000;

pub const EXP_MASK: u64 = 0x7FF0000000000000;

pub const FRAC_MASK: u64 = 0x000FFFFFFFFFFFFF;

/// 2^52: the implicit leading bit of a normal significand.
pub const IMPLICIT_BIT: u64 = 0x0010000000000000;

pub open spec fn is_inf_bits(b: u64) -> bool {
    (b & EXP_MASK) == EXP_MASK && (b & FRAC_MASK) == 0
}

pub open spec fn inf_bits(negative: bool) -> u64 {
    if negative {
        0xFFF0000000000000u64
    } else {
        0x7FF0000000000000u64
    }
}

pub open spec fn zero_bits_of(negative: bool) -> u64 {
    if negative {
        0x8000000000000000u64
    } else {
        0u64
    }
}

proof fn lemma_or1_keeps_56_bits(t: u64)
    ensures
        t < 0x100000000000000 ==> (t | 1u64) < 0x100000000000000,
        t <= (t | 1u64),
{
    assert((t < 0x100000000000000u64 ==> (t | 1u64) < 0x100000000000000u64) && t <= (t | 1u64))
        by (bit_vector);
}

pub(crate) proof fn lemma_fixed_words_are_numbers()
    ensures
        is_number_bits(0u64),
        is_number_bits(0x8000000000000000u64),
        is_number_bits(0x7FF0000000000000u64),
        is_number_bits(0xFFF0000000000000u64),
        is_number_bits(0x7FF8000000000000u64),
{
    assert(is_number_bits(0u64) && is_number_bits(0x8000000000000000u64) && is_number_bits(
        0x7FF0000000000000u64,
    ) && is_number_bits(0xFFF0000000000000u64) && is_number_bits(0x7FF8000000000000u64))
        by (bit_vector);
}

fn is_negative(b: u64) -> (r: bool)
    ensures
        r == ((b & SIGN_BIT) == SIGN_BIT),
{
    (b & SIGN_BIT) == SIGN_BIT
}

pub fn is_nan(b: u64) -> (r: bool)
    ensures
        r == is_nan_bits(b),
{
    (b & 0x7FF0000000000000) == 0x7FF0000000000000 && (b & 0x000FFFFFFFFFFFFF) != 0
}

pub fn is_inf(b: u64) -> (r: bool)
    ensures
        r == is_inf_bits(b),
{
    (b & EXP_MASK) == EXP_MASK && (b & FRAC_MASK) == 0
}

pub fn is_zero(b: u64) -> (r: bool)
    ensures
        r == is_zero_bits(b),
{
    (b & 0x7FFFFFFFFFFFFFFF) == 0
}

fn make_inf(negative: bool) -> (r: u64)
    ensures
        r == inf_bits(negative),
        is_number_bits(r),
{
    proof {
        lemma_fixed_words_are_numbers();
    }
    if negative {
        0xFFF0000000000000
    } else {
        0x7FF0000000000000
    }
}

fn make_zero(negative: bool) -> (r: u64)
    ensures
        r == zero_bits_of(negative),
        is_number_bits(r),
{
    proof {
        lemma_fixed_words_are_numbers();
    }
    if negative {
        0x8000000000000000
    } else {
        0
    }
}

fn make_nan() -> (r: u64)
    ensures
        r == CANONICAL_NAN,
        is_number_bits(r),
{
    proof {
        lemma_fixed_words_are_numbers();
    }
    CANONICAL_NAN
}

/// Negation: flipping the sign bit, except that a NaN stays the
/// canonical NaN, whose sign the box reserves.
pub fn neg_bits(b: u64) -> (r: u64)
    ensures
        !is_nan_bits(b) ==> r == (b ^ SIGN_BIT),
        is_nan_bits(b) ==> r == CANONICAL_NAN,
        is_number_bits(b) ==> is_number_bits(r),
{
    if is_nan(b) {
        return make_nan();
    }
    proof {
        let x = b;
        assert((is_number_bits(x) && !is_nan_bits(x)) ==> is_number_bits(
            x ^ 0x8000000000000000u64,
        )) by (bit_vector);
    }
    b ^ SIGN_BIT
}

/// Shifts right, folding every shifted-out bit into the lowest bit of the
/// result (the usual sticky-bit shift of a rounding pipeline).
fn shift_right_jam(x: u64, n: u64) -> (r: u64)
    ensures
        x == 0 ==> r == 0,
        n >= 1 ==> r <= ((x >> 1u64) | 1u64),
        1 <= n < 64 ==> r <= ((x >> n) | 1u64),
        n >= 64 ==> r <= 1,
        r <= x,
{
    proof {
        let xx = x;
        let nn = n;
        assert((1u64 <= ((xx >> 1u64) | 1u64)) && (((xx >> 1u64) | 1u64) <= xx || xx == 0) && (xx
            >> 1u64 <= xx)) by (bit_vector);
        assert((1 <= nn < 64) ==> {
            &&& ((xx >> nn) | 1u64) <= ((xx >> 1u64) | 1u64)
            &&& (xx >> nn) <= ((xx >> 1u64) | 1u64)
            &&& (xx >> nn) <= xx
            &&& (xx >> nn) <= ((xx >> nn) | 1u64)
            &&& ((xx >> nn) | 1u64) <= xx || xx == 0
            &&& 1u64 <= (1u64 << nn)
            &&& (xx == 0 ==> (xx >> nn) == 0 && xx & vstd::prelude::sub((1u64 << nn), 1u64) == 0)
        }) by (bit_vector);
    }
    if n == 0 {
        x
    } else if n >= 64 {
        if x != 0 {
            1
        } else {
            0
        }
    } else {
        let mask: u64 = (1u64 << n) - 1;
        let shifted = x >> n;
        if (x & mask) != 0 {
            shifted | 1
        } else {
            shifted
        }
    }
}

/// Unpacks a finite number word into its sign, effective biased exponent
/// and significand: `value = (-1)^sign * m * 2^(e - 1075)` with `m < 2^53`,
/// and `m >= 2^52` whenever the word is a normal number.
fn unpack(b: u64) -> (r: (bool, i64, u64))
    requires
        !is_nan_bits(b),
        !is_inf_bits(b),
    ensures
        r.2 < 0x20000000000000,
        1 <= r.1 <= 2046,
        r.1 != 1 ==> 0x10000000000000 <= r.2,
        !is_zero_bits(b) ==> r.2 > 0,
{
    let e = (b >> 52) & 0x7FF;
    let f = b & FRAC_MASK;
    proof {
        let bb = b;
        assert((bb >> 52) & 0x7FF <= 0x7FF) by (bit_vector);
        assert(bb & 0x000FFFFFFFFFFFFFu64 <= 0x000FFFFFFFFFFFFFu64) by (bit_vector);
        assert(((bb >> 52) & 0x7FF == 0x7FF) ==> ((bb & 0x7FF0000000000000u64)
            == 0x7FF0000000000000u64)) by (bit_vector);
        assert((0x0010000000000000u64 | (bb & 0x000FFFFFFFFFFFFFu64)) < 0x20000000000000u64 && (
        0x0010000000000000u64 | (bb & 0x000FFFFFFFFFFFFFu64)) >= 0x10000000000000u64)
            by (bit_vector);
        assert(((bb >> 52) & 0x7FF == 0 && bb & 0x000FFFFFFFFFFFFFu64 == 0) ==> is_zero_bits(bb))
            by (bit_vector);
    }
    if e == 0 {
        (is_negative(b), 1, f)
    } else {
        (is_negative(b), e as i64, IMPLICIT_BIT | f)
    }
}

/// Proves that the words for 1.0 and 10.0 read as numbers.
pub(crate) proof fn lemma_one_and_ten_are_numbers()
    ensures
        is_number_bits(0x3FF0000000000000u64),
        is_number_bits(0x4024000000000000u64),
{
    assert(is_number_bits(0x3FF0000000000000u64) && is_number_bits(0x4024000000000000u64))
        by (bit_vector);
}

/// Rounds and packs `(-1)^sign * (sig / 8) * 2^(e - 1075)` into a number
/// word, rounding the three low guard bits of `sig` to nearest-even, and
/// producing a subnormal, a zero or an infinity where the exponent runs
/// off either end of the normal range.
pub(crate) fn round_pack(negative: bool, e0: i64, sig0: u64) -> (r: u64)
    requires
        sig0 < 0x100000000000000,  // 2^56
        -5000 <= e0 <= 5000,
    ensures
        is_number_bits(r),
{
    let mut e: i64 = e0;
    let mut sig: u64 = sig0;
    // Pull a too-small exponent up to 1, shifting the significand right
    // into the subnormal range and keeping a sticky bit.
    if e < 1 {
        let shift_i = 1 - e;
        let shift: u64 = if shift_i >= 60 {
            60
        } else {
            shift_i as u64
        };
        sig = shift_right_jam(sig, shift);
        e = 1;
    }
    // Round to nearest, ties to even, on the three guard bits.
    let low = sig & 7;
    let keep = sig >> 3;
    proof {
        let s = sig;
        assert(s < 0x100000000000000u64 ==> (s >> 3) < 0x20000000000000u64) by (bit_vector);
        assert(s & 7 <= 7) by (bit_vector);
    }
    let mut m = if low > 4 || (low == 4 && (keep & 1) == 1) {
        keep + 1
    } else {
        keep
    };
    if m == 0x20000000000000 {
        // The carry out of rounding: 2^53 becomes 2^52 one binade up.
        m = 0x10000000000000;
        e = e + 1;
    }
    if m >= IMPLICIT_BIT {
        // Normal range.
        if e >= 2047 {
            return make_inf(negative);
        }
        let eu = e as u64;
        let body = (eu << 52) | (m - IMPLICIT_BIT);
        proof {
            let ee = eu;
            let mm = m;
            assert((1 <= ee <= 2046 && 0x10000000000000u64 <= mm < 0x20000000000000u64) ==> {
                &&& is_number_bits((ee << 52) | vstd::prelude::sub(mm, 0x10000000000000u64))
                &&& is_number_bits(
                    0x8000000000000000u64 | ((ee << 52) | vstd::prelude::sub(
                        mm,
                        0x10000000000000u64,
                    )),
                )
            }) by (bit_vector);
        }
        if negative {
            SIGN_BIT | body
        } else {
            body
        }
    } else {
        // Subnormal (or zero): exponent field 0, value m * 2^-1074.
        proof {
            let mm = m;
            assert(mm < 0x10000000000000u64 ==> {
                &&& is_number_bits(mm)
                &&& is_number_bits(0x8000000000000000u64 | mm)
            }) by (bit_vector);
        }
        if negative {
            SIGN_BIT | m
        } else {
            m
        }
    }
}

/// Adds two magnitudes of the same sign: `m * 2^(e - 1075)` each.
fn add_mags(negative: bool, ea: i64, ma: u64, eb: i64, mb: u64) -> (r: u64)
    requires
        1 <= ea <= 2046,
        1 <= eb <= 2046,
        ma < 0x20000000000000,
        mb < 0x20000000000000,
    ensures
        is_number_bits(r),
{
    let (eh, mh, el, ml) = if ea >= eb {
        (ea, ma, eb, mb)
    } else {
        (eb, mb, ea, ma)
    };
    let d: u64 = (eh - el) as u64;
    let aligned_low = shift_right_jam(ml * 8, d);
    let mut sig = mh * 8 + aligned_low;
    let mut e = eh;
    if sig >= 0x100000000000000 {
        let before = sig;
        sig = shift_right_jam(sig, 1);
        proof {
            let s = before;
            assert(s < 0x200000000000000u64 ==> ((s >> 1u64) | 1u64) < 0x100000000000000u64)
                by (bit_vector);
        }
        e = e + 1;
    }
    round_pack(negative, e, sig)
}

/// Subtracts the smaller magnitude from the larger; the result carries the
/// sign of the larger (an exact cancellation gives +0).
fn sub_mags(sa: bool, ea: i64, ma: u64, sb: bool, eb: i64, mb: u64) -> (r: u64)
    requires
        1 <= ea <= 2046,
        1 <= eb <= 2046,
        ma < 0x20000000000000,
        mb < 0x20000000000000,
        ea != 1 ==> 0x10000000000000 <= ma,
        eb != 1 ==> 0x10000000000000 <= mb,
    ensures
        is_number_bits(r),
{
    if ea == eb {
        if ma == mb {
            return make_zero(false);
        }
        let (negative, diff) = if ma > mb {
            (sa, ma - mb)
        } else {
            (sb, mb - ma)
        };
        let mut sig = diff * 8;
        let mut e = ea;
        while sig < 0x80000000000000 && e > 1
            invariant
                1 <= e <= 2046,
                0 < sig < 0x100000000000000,
            decreases e,
        {
            sig = sig * 2;
            e = e - 1;
        }
        round_pack(negative, e, sig)
    } else {
        let (negative, eh, mh, el, ml) = if ea > eb {
            (sa, ea, ma, eb, mb)
        } else {
            (sb, eb, mb, ea, ma)
        };
        let d: u64 = (eh - el) as u64;
        // Ten bits of headroom keep the subtraction exact enough for a
        // correctly rounded result even after the sticky-bit alignment.
        let big = mh * 1024;
        let small = shift_right_jam(ml * 1024, d);
        proof {
            let m = ml;
            assert(m < 0x20000000000000u64 ==> ((vstd::prelude::mul(m, 1024u64) >> 1u64) | 1u64)
                < 0x4000000000000000u64) by (bit_vector);
        }
        let mut sig = big - small;
        // `big` carries the significand scaled by 2^10 where round_pack
        // expects 2^3, so the exponent starts seven lower.
        let mut e = eh - 7;
        // The difference has at most 63 bits; at most seven sticky shifts
        // bring it back under 2^56.
        let mut sh: u64 = 0;
        if sig >= 0x4000000000000000 {
            sh = 7;
        } else if sig >= 0x2000000000000000 {
            sh = 6;
        } else if sig >= 0x1000000000000000 {
            sh = 5;
        } else if sig >= 0x800000000000000 {
            sh = 4;
        } else if sig >= 0x400000000000000 {
            sh = 3;
        } else if sig >= 0x200000000000000 {
            sh = 2;
        } else if sig >= 0x100000000000000 {
            sh = 1;
        }
        if sh > 0 {
            let before = sig;
            sig = shift_right_jam(sig, sh);
            proof {
                let s = before;
                assert((s < 0x8000000000000000u64 ==> ((s >> 7u64) | 1u64)
                    < 0x100000000000000u64) && (s < 0x4000000000000000u64 ==> ((s >> 6u64) | 1u64)
                    < 0x100000000000000u64) && (s < 0x2000000000000000u64 ==> ((s >> 5u64) | 1u64)
                    < 0x100000000000000u64) && (s < 0x1000000000000000u64 ==> ((s >> 4u64) | 1u64)
                    < 0x100000000000000u64) && (s < 0x800000000000000u64 ==> ((s >> 3u64) | 1u64)
                    < 0x100000000000000u64) && (s < 0x400000000000000u64 ==> ((s >> 2u64) | 1u64)
                    < 0x100000000000000u64) && (s < 0x200000000000000u64 ==> ((s >> 1u64) | 1u64)
                    < 0x100000000000000u64)) by (bit_vector);
            }
            e = e + (sh as i64);
        }
        let mut e2 = e;
        let mut sig2 = sig;
        while sig2 < 0x80000000000000 && e2 > 1 && sig2 > 0
            invariant
                sig2 < 0x100000000000000,
                -10 <= e2 <= 2070,
            decreases e2,
        {
            sig2 = sig2 * 2;
            e2 = e2 - 1;
        }
        if sig2 == 0 {
            return make_zero(false);
        }
        round_pack(negative, e2, sig2)
    }
}

/// IEEE 754 addition of two number words, round to nearest even.
pub fn add_bits(a: u64, b: u64) -> (r: u64)
    ensures
        is_number_bits(r),
{
    if is_nan(a) || is_nan(b) {
        return make_nan();
    }
    if is_inf(a) {
        if is_inf(b) && is_negative(a) != is_negative(b) {
            return make_nan();
        }
        return make_inf(is_negative(a));
    }
    if is_inf(b) {
        return make_inf(is_negative(b));
    }
    let (sa, ea, ma) = unpack(a);
    let (sb, eb, mb) = unpack(b);
    if ma == 0 && mb == 0 {
        return make_zero(sa && sb);
    }
    if sa == sb {
        add_mags(sa, ea, ma, eb, mb)
    } else {
        sub_mags(sa, ea, ma, sb, eb, mb)
    }
}

/// IEEE 754 subtraction: `a - b` is exactly `a + (-b)`.
pub fn sub_bits(a: u64, b: u64) -> (r: u64)
    ensures
        is_number_bits(r),
{
    if is_nan(b) {
        return make_nan();
    }
    add_bits(a, neg_bits(b))
}

/// IEEE 754 multiplication of two number words, round to nearest even.
pub fn mul_bits(a: u64, b: u64) -> (r: u64)
    ensures
        is_number_bits(r),
{
    if is_nan(a) || is_nan(b) {
        return make_nan();
    }
    let negative = is_negative(a) != is_negative(b);
    if is_inf(a) || is_inf(b) {
        if is_zero(a) || is_zero(b) {
            return make_nan();
        }
        return make_inf(negative);
    }
    if is_zero(a) || is_zero(b) {
        return make_zero(negative);
    }
    let (_, ea0, ma0) = unpack(a);
    let (_, eb0, mb0) = unpack(b);
    if ma0 == 0 || mb0 == 0 {
        return make_zero(negative);
    }
    let (ea, ma) = normalize_sig(ea0, ma0);
    let (eb, mb) = normalize_sig(eb0, mb0);
    proof {
        assert(((ma as u128) < 0x20000000000000 && (mb as u128) < 0x20000000000000) ==> (
        ma as u128) * (mb as u128) < 0x400000000000000000000000000) by (nonlinear_arith);
    }
    let p: u128 = (ma as u128) * (mb as u128);
    // p is below 2^106; bring it down to at most 56 bits with a sticky bit
    // and set the exponent so that the value is preserved.
    proof {
        let pp = p;
        assert(pp < 0x400000000000000000000000000 ==> ((pp >> 50) < 0x100000000000000u128))
            by (bit_vector);
        assert(pp < 0x200000000000000000000000000 ==> ((pp >> 49) < 0x100000000000000u128))
            by (bit_vector);
    }
    let (sig, e): (u64, i64) = if p >= 0x200000000000000000000000000 {
        // p in [2^105, 2^106): keep p / 2^50.
        let top = (p >> 50) as u64;
        let sticky = (p & 0x3FFFFFFFFFFFF) != 0;
        proof {
            lemma_or1_keeps_56_bits(top);
        }
        ((if sticky {
            top | 1
        } else {
            top
        }), ea + eb - 1022)
    } else {
        // p below 2^105: keep p / 2^49.
        let top = (p >> 49) as u64;
        let sticky = (p & 0x1FFFFFFFFFFFF) != 0;
        proof {
            lemma_or1_keeps_56_bits(top);
        }
        ((if sticky {
            top | 1
        } else {
            top
        }), ea + eb - 1023)
    };
    round_pack(negative, e, sig)
}

/// IEEE 754 division of two number words, round to nearest even.
/// Division by zero follows IEEE 754: it yields an infinity, or NaN for
/// zero over zero; it is never an error.
pub fn div_bits(a: u64, b: u64) -> (r: u64)
    ensures
        is_number_bits(r),
{
    if is_nan(a) || is_nan(b) {
        return make_nan();
    }
    let negative = is_negative(a) != is_negative(b);
    if is_inf(a) {
        if is_inf(b) {
            return make_nan();
        }
        return make_inf(negative);
    }
    if is_inf(b) {
        return make_zero(negative);
    }
    if is_zero(b) {
        if is_zero(a) {
            return make_nan();
        }
        return make_inf(negative);
    }
    if is_zero(a) {
        return make_zero(negative);
    }
    let (_, ea0, ma0) = unpack(a);
    let (_, eb0, mb0) = unpack(b);
    if ma0 == 0 {
        return make_zero(negative);
    }
    let (ea, ma) = normalize_sig(ea0, ma0);
    let (eb, mb) = normalize_sig(eb0, mb0);
    // The quotient of the significands, scaled so it lands in
    // [2^55, 2^56), with the remainder folded into a sticky bit.
    proof {
        let mau = ma as u128;
        let mbu = mb as u128;
        assert(mau < 0x20000000000000 ==> (mau << 55) == mau * 0x80000000000000) by (bit_vector);
        assert(mau < 0x20000000000000 ==> (mau << 56) == mau * 0x100000000000000) by (bit_vector);
        assert((mau < 0x20000000000000 && 0x10000000000000 <= mbu <= mau) ==> mau
            * 0x80000000000000 < mbu * 0x100000000000000) by (nonlinear_arith);
        assert((mau < mbu) ==> mau * 0x100000000000000 < mbu * 0x100000000000000)
            by (nonlinear_arith);
    }
    let (num, e): (u128, i64) = if ma >= mb {
        (((ma as u128) << 55), ea - eb + 1023)
    } else {
        (((ma as u128) << 56), ea - eb + 1022)
    };
    let q128 = num / (mb as u128);
    let rem = num % (mb as u128);
    proof {
        vstd::arithmetic::div_mod::lemma_multiply_divide_lt(
            num as int,
            mb as int,
            0x100000000000000,
        );
    }
    let q = q128 as u64;
    proof {
        lemma_or1_keeps_56_bits(q);
    }
    let sig = if rem != 0 {
        q | 1
    } else {
        q
    };
    round_pack(negative, e, sig)
}

/// Shifts a subnormal significand up into `[2^52, 2^53)`, lowering the
/// exponent in step, so products and quotients see a normal significand.
fn normalize_sig(e0: i64, m0: u64) -> (r: (i64, u64))
    requires
        1 <= e0 <= 2046,
        0 < m0 < 0x20000000000000,
    ensures
        0x10000000000000 <= r.1 < 0x20000000000000,
        -60 <= r.0 <= 2046,
{
    let mut e = e0;
    let mut m = m0;
    let mut fuel: u64 = 53;
    proof {
        let mm = m0;
        assert(mm >= 1 ==> ((mm as u128) << 53u128) >= 0x20000000000000) by (bit_vector);
    }
    while m < 0x10000000000000 && fuel > 0
        invariant
            1 <= e0 <= 2046,
            0 < m < 0x20000000000000,
            fuel <= 53,
            e0 - 53 <= e <= e0,
            e == e0 - (53 - fuel),
            ((m as u128) << (fuel as u128)) >= 0x20000000000000,
        decreases fuel,
    {
        proof {
            let mm = m as u128;
            let ff = fuel as u128;
            assert((1 <= ff <= 53 && mm < 0x10000000000000) ==> (vstd::prelude::mul(mm, 2u128)
                << vstd::prelude::sub(ff, 1u128)) == (mm << ff)) by (bit_vector);
        }
        m = m * 2;
        e = e - 1;
        fuel = fuel - 1;
    }
    proof {
        let mm = m as u128;
        assert((mm << 0u128) == mm) by (bit_vector);
    }
    (e, m)
}

} // verus!
