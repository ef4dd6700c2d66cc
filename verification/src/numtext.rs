//! Decimal text to and from IEEE 754 double bit patterns.
//!
//! The scanner hands number literals over as byte strings of the shape
//! `digits` or `digits.digits`; `parse_number_bits` turns them into the
//! word the value module boxes. `format_number_bits` renders a number for
//! `puts` and string concatenation. Both directions work purely on
//! integers; formatting looks for the shortest digit string that parses
//! back to the very same word, so printed output re-read by the
//! interpreter denotes the same number.

use vstd::prelude::*;
use vstd::pervasive::VecAdditionalExecFns;
use vstd::string::StrSliceExecFns;
use vstd::string::StringSliceAdditionalSpecFns;
use crate::value::is_number_bits;
use crate::value::is_nan_bits;
use crate::arith;

verus! {

pub open spec fn is_digit_byte(b: u8) -> bool {
    0x30 <= b <= 0x39
}

/// The shape of a numeric literal: one or more digits, optionally with a
/// single dot strictly between digits.
pub open spec fn is_number_lexeme(s: Seq<u8>) -> bool {
    &&& s.len() > 0
    &&& {
        ||| (forall|i: int| 0 <= i < s.len() ==> is_digit_byte(#[trigger] s[i]))
        ||| (exists|d: int|
            {
                &&& 0 < d < s.len() - 1
                &&& s[d] == 0x2Eu8
                &&& forall|i: int| 0 <= i < s.len() && i != d ==> is_digit_byte(#[trigger] s[i])
            })
    }
}

/// Converts an unsigned integer to the nearest double, exactly when the
/// integer has at most 53 significant bits.
pub fn u128_to_bits(n: u128) -> (r: u64)
    ensures
        is_number_bits(r),
        n == 0 ==> r == 0,
{
    if n == 0 {
        proof {
            arith::lemma_fixed_words_are_numbers();
        }
        return 0u64;
    }
    let mut sig: u128 = n;
    let mut e: i64 = 1078;
    // Shift a wide integer down to at most 56 bits, keeping a sticky bit.
    while sig >= 0x100000000000000
        invariant
            1078 <= e <= 1278,
            sig >= 1,
        decreases sig,
    {
        let lost = (sig & 1) != 0;
        let halved = sig >> 1;
        proof {
            let s = sig;
            assert(s >= 2 ==> ((s >> 1) < s && (s >> 1) >= 1 && ((s >> 1) | 1u128) < s && ((s >> 1)
                | 1u128) >= 1)) by (bit_vector);
        }
        sig = if lost {
            halved | 1
        } else {
            halved
        };
        e = if e < 1278 {
            e + 1
        } else {
            e
        };
    }
    let mut sig64: u64 = sig as u64;
    let mut e2: i64 = e;
    // Shift a small integer up so rounding happens at the right bit.
    while sig64 < 0x80000000000000 && e2 > 1000
        invariant
            1 <= sig64 < 0x100000000000000,
            1000 <= e2 <= 1278,
        decreases e2,
    {
        sig64 = sig64 * 2;
        e2 = e2 - 1;
    }
    round_pack_pub(false, e2, sig64)
}

/// The bit pattern of the double `10^k`, exact up to `10^22` and
/// correctly rounded step by step beyond; large `k` saturates to
/// infinity, as the scaling it feeds does.
pub fn pow10_bits(k: u64) -> (r: u64)
    ensures
        is_number_bits(r),
{
    // 1.0 and 10.0
    let mut acc: u64 = 0x3FF0000000000000;
    proof {
        crate::arith::lemma_one_and_ten_are_numbers();
    }
    let mut i: u64 = 0;
    let cap: u64 = if k > 400 {
        400
    } else {
        k
    };
    while i < cap
        invariant
            i <= cap,
            cap <= 400,
            is_number_bits(acc),
        decreases cap - i,
    {
        acc = arith::mul_bits(acc, 0x4024000000000000);
        i = i + 1;
    }
    acc
}

fn round_pack_pub(negative: bool, e: i64, sig: u64) -> (r: u64)
    requires
        sig < 0x100000000000000,
        -5000 <= e <= 5000,
    ensures
        is_number_bits(r),
{
    arith::round_pack(negative, e, sig)
}

/// Parses a numeric literal into a double bit pattern. The result is
/// `Some` exactly when the bytes are one or more digits with at most one
/// dot strictly between digits.
pub fn parse_number_bits(s: &[u8]) -> (r: Option<u64>)
    ensures
        r is Some <==> is_number_lexeme(s@),
        r is Some ==> is_number_bits(r->0),
{
    let n = s.len();
    if n == 0 {
        return None;
    }
    let mut mant: u128 = 0;
    let mut extra_exp: u64 = 0;
    let mut frac_digits: u64 = 0;
    let mut seen_dot = false;
    let ghost mut dot_at: int = -1;
    let mut i: usize = 0;
    while i < n
        invariant
            i <= n,
            n == s.len(),
            mant < 0x10000000000000000000000000000000,
            extra_exp <= i,
            frac_digits <= i,
            !seen_dot ==> forall|j: int| 0 <= j < i ==> is_digit_byte(#[trigger] s@[j]),
            seen_dot ==> {
                &&& 0 < dot_at < i
                &&& dot_at < n - 1
                &&& s@[dot_at] == 0x2Eu8
                &&& forall|j: int| 0 <= j < i && j != dot_at ==> is_digit_byte(#[trigger] s@[j])
            },
        decreases n - i,
    {
        let b = s[i];
        if b == 0x2E {
            if seen_dot {
                return None;
            }
            if i == 0 || i == n - 1 {
                return None;
            }
            seen_dot = true;
            proof {
                dot_at = i as int;
            }
        } else if b >= 0x30 && b <= 0x39 {
            let d = (b - 0x30) as u128;
            if mant < 0x100000000000000000000000000000 {
                // Below 10^34-ish: another digit cannot overflow.
                proof {
                    let m = mant;
                    assert(m < 0x100000000000000000000000000000u128 ==> m * 10 + 9
                        < 0x10000000000000000000000000000000u128) by (nonlinear_arith);
                }
                mant = mant * 10 + d;
                if seen_dot {
                    frac_digits = frac_digits + 1;
                }
            } else {
                // The mantissa is saturated; account for the digit's
                // weight instead of keeping it.
                if !seen_dot {
                    extra_exp = extra_exp + 1;
                }
            }
        } else {
            return None;
        }
        i = i + 1;
    }
    let base = u128_to_bits(mant);
    let scaled = if extra_exp >= frac_digits {
        let up = extra_exp - frac_digits;
        if up == 0 {
            base
        } else {
            arith::mul_bits(base, pow10_bits(up))
        }
    } else {
        let down = frac_digits - extra_exp;
        arith::div_bits(base, pow10_bits(down))
    };
    Some(scaled)
}

/// One decimal digit vector halving step: divides the number
/// `int_part . frac_part` by two, in place, exactly.
fn halve_digits(int_part: &mut Vec<u8>, frac_part: &mut Vec<u8>)
    requires
        forall|i: int| 0 <= i < old(int_part).len() ==> old(int_part)@[i] <= 9,
        forall|i: int| 0 <= i < old(frac_part).len() ==> old(frac_part)@[i] <= 9,
        old(frac_part).len() < 100000,
        old(int_part).len() < 100000,
    ensures
        forall|i: int| 0 <= i < final(int_part).len() ==> final(int_part)@[i] <= 9,
        forall|i: int| 0 <= i < final(frac_part).len() ==> final(frac_part)@[i] <= 9,
        final(int_part).len() <= old(int_part).len(),
        final(frac_part).len() <= old(frac_part).len() + 1,
{
    let mut carry: u8 = 0;
    let mut out_int: Vec<u8> = Vec::new();
    let mut i: usize = 0;
    let ni = int_part.len();
    while i < ni
        invariant
            i <= ni,
            ni == int_part.len(),
            carry <= 1,
            out_int.len() <= i,
            forall|j: int| 0 <= j < int_part.len() ==> int_part@[j] <= 9,
            forall|j: int| 0 <= j < out_int.len() ==> out_int@[j] <= 9,
        decreases ni - i,
    {
        let cur = carry * 10 + int_part[i];
        let q = cur / 2;
        carry = cur % 2;
        if out_int.len() > 0 || q > 0 {
            out_int.push(q);
        }
        i = i + 1;
    }
    let mut out_frac: Vec<u8> = Vec::new();
    let mut j: usize = 0;
    let nf = frac_part.len();
    while j < nf
        invariant
            j <= nf,
            nf == frac_part.len(),
            carry <= 1,
            out_frac.len() <= j,
            forall|k: int| 0 <= k < frac_part.len() ==> frac_part@[k] <= 9,
            forall|k: int| 0 <= k < out_frac.len() ==> out_frac@[k] <= 9,
        decreases nf - j,
    {
        let cur = carry * 10 + frac_part[j];
        let q = cur / 2;
        carry = cur % 2;
        out_frac.push(q);
        j = j + 1;
    }
    if carry == 1 {
        out_frac.push(5);
    }
    *int_part = out_int;
    *frac_part = out_frac;
}

/// One decimal digit vector doubling step: multiplies the integer digit
/// string by two, in place, exactly.
fn double_digits(int_part: &mut Vec<u8>)
    requires
        forall|i: int| 0 <= i < old(int_part).len() ==> old(int_part)@[i] <= 9,
        old(int_part).len() < 100000,
    ensures
        forall|i: int| 0 <= i < final(int_part).len() ==> final(int_part)@[i] <= 9,
        final(int_part).len() <= old(int_part).len() + 1,
{
    let mut carry: u8 = 0;
    let mut out_rev: Vec<u8> = Vec::new();
    let n = int_part.len();
    let mut i: usize = n;
    while i > 0
        invariant
            i <= n,
            n == int_part.len(),
            carry <= 1,
            out_rev.len() == n - i,
            forall|j: int| 0 <= j < int_part.len() ==> int_part@[j] <= 9,
            forall|j: int| 0 <= j < out_rev.len() ==> out_rev@[j] <= 9,
        decreases i,
    {
        i = i - 1;
        let cur = int_part[i] * 2 + carry;
        out_rev.push(cur % 10);
        carry = cur / 10;
    }
    let mut out: Vec<u8> = Vec::new();
    if carry > 0 {
        out.push(carry);
    }
    let m = out_rev.len();
    let mut k: usize = m;
    while k > 0
        invariant
            k <= m,
            m == out_rev.len(),
            forall|j: int| 0 <= j < out_rev.len() ==> out_rev@[j] <= 9,
            forall|j: int| 0 <= j < out.len() ==> out@[j] <= 9,
            out.len() <= (m - k) + 1,
        decreases k,
    {
        k = k - 1;
        out.push(out_rev[k]);
    }
    *int_part = out;
}

/// Renders the decimal digits of a 64-bit integer, most significant
/// first.
fn decimal_digits_of(n0: u64) -> (r: Vec<u8>)
    ensures
        forall|i: int| 0 <= i < r.len() ==> r@[i] <= 9,
        r.len() <= 20,
{
    let mut rev: Vec<u8> = Vec::new();
    let mut n = n0;
    let mut guard: u64 = 0;
    while n > 0 && guard < 20
        invariant
            guard <= 20,
            rev.len() == guard,
            forall|i: int| 0 <= i < rev.len() ==> rev@[i] <= 9,
        decreases 20 - guard,
    {
        rev.push((n % 10) as u8);
        n = n / 10;
        guard = guard + 1;
    }
    let mut out: Vec<u8> = Vec::new();
    let m = rev.len();
    let mut k: usize = m;
    while k > 0
        invariant
            k <= m,
            m == rev.len(),
            forall|i: int| 0 <= i < rev.len() ==> rev@[i] <= 9,
            forall|i: int| 0 <= i < out.len() ==> out@[i] <= 9,
            out.len() == m - k,
        decreases k,
    {
        k = k - 1;
        out.push(rev[k]);
    }
    out
}

/// Builds the plain decimal text for a digit string `digits` whose first
/// digit sits `point` places left of the decimal point (`point <= 0`
/// means leading zeros after `0.`).
fn render_digits(negative: bool, digits: &Vec<u8>, point: i64) -> (r: Vec<u8>)
    requires
        forall|i: int| 0 <= i < digits.len() ==> digits@[i] <= 9,
        digits.len() < 100000,
        -200000 <= point <= 200000,
{
    let mut out: Vec<u8> = Vec::new();
    if negative {
        out.push(0x2D);
    }
    let n = digits.len();
    if point <= 0 {
        out.push(0x30);
        out.push(0x2E);
        let mut z = point;
        while z < 0
            invariant
                -200000 <= z <= 0,
            decreases -z,
        {
            out.push(0x30);
            z = z + 1;
        }
        let mut i: usize = 0;
        while i < n
            invariant
                i <= n,
                n == digits.len(),
                forall|j: int| 0 <= j < digits.len() ==> digits@[j] <= 9,
            decreases n - i,
        {
            out.push(0x30 + digits[i]);
            i = i + 1;
        }
    } else if (point as u64) >= (n as u64) {
        let mut i: usize = 0;
        while i < n
            invariant
                i <= n,
                n == digits.len(),
                forall|j: int| 0 <= j < digits.len() ==> digits@[j] <= 9,
            decreases n - i,
        {
            out.push(0x30 + digits[i]);
            i = i + 1;
        }
        let mut z: u64 = (point as u64) - (n as u64);
        while z > 0
            invariant
                z <= 200000,
            decreases z,
        {
            out.push(0x30);
            z = z - 1;
        }
    } else {
        let split = point as usize;
        let mut i: usize = 0;
        while i < n
            invariant
                i <= n,
                n == digits.len(),
                split < n,
                forall|j: int| 0 <= j < digits.len() ==> digits@[j] <= 9,
            decreases n - i,
        {
            if i == split {
                out.push(0x2E);
            }
            out.push(0x30 + digits[i]);
            i = i + 1;
        }
    }
    out
}

/// Formats a number word as decimal text: `NaN`, `inf` and `-inf` for the
/// specials, `0` and `-0` for the zeros, the exact digits for integers,
/// and for everything else the shortest digit string that parses back to
/// the same word.
pub fn format_number_bits(bits: u64) -> (r: Vec<u8>)
    ensures
        r.len() > 0,
        is_nan_bits(bits) ==> r@ == "NaN".spec_bytes(),
        bits == 0x7FF0000000000000 ==> r@ == "inf".spec_bytes(),
        bits == 0xFFF0000000000000 ==> r@ == "-inf".spec_bytes(),
        bits == 0 ==> r@ == "0".spec_bytes(),
        bits == 0x8000000000000000 ==> r@ == "-0".spec_bytes(),
{
    proof {
        assert(!is_nan_bits(0x7FF0000000000000u64) && !is_nan_bits(0xFFF0000000000000u64)
            && !is_nan_bits(0u64) && !is_nan_bits(0x8000000000000000u64) && crate::value::is_zero_bits(
            0u64,
        ) && crate::value::is_zero_bits(0x8000000000000000u64) && crate::arith::is_inf_bits(
            0x7FF0000000000000u64,
        ) && crate::arith::is_inf_bits(0xFFF0000000000000u64)) by (bit_vector);
    }
    if arith::is_nan(bits) {
        let out = StrSliceExecFns::as_bytes_vec("NaN");
        if out.len() == 0 {
            proof {
                vstd::string::is_ascii_spec_bytes("NaN");
                reveal_strlit("NaN");
            }
        }
        return out;
    }
    let negative = (bits & 0x8000000000000000) == 0x8000000000000000;
    if arith::is_inf(bits) {
        proof {
            let b = bits;
            assert((b & 0x7FF0000000000000u64 == 0x7FF0000000000000u64 && b
                & 0x000FFFFFFFFFFFFFu64 == 0) ==> ((b & 0x8000000000000000u64
                == 0x8000000000000000u64) == (b == 0xFFF0000000000000u64)) && ((b
                & 0x8000000000000000u64 != 0x8000000000000000u64) == (b
                == 0x7FF0000000000000u64))) by (bit_vector);
        }
        let out = if negative {
            StrSliceExecFns::as_bytes_vec("-inf")
        } else {
            StrSliceExecFns::as_bytes_vec("inf")
        };
        if out.len() == 0 {
            proof {
                reveal_strlit("-inf");
                reveal_strlit("inf");
            }
        }
        return out;
    }
    if arith::is_zero(bits) {
        proof {
            let b = bits;
            assert((b & 0x7FFFFFFFFFFFFFFFu64 == 0) ==> ((b & 0x8000000000000000u64
                == 0x8000000000000000u64) == (b == 0x8000000000000000u64)) && ((b
                & 0x8000000000000000u64 != 0x8000000000000000u64) == (b == 0u64))) by (bit_vector);
        }
        let out = if negative {
            StrSliceExecFns::as_bytes_vec("-0")
        } else {
            StrSliceExecFns::as_bytes_vec("0")
        };
        if out.len() == 0 {
            proof {
                reveal_strlit("-0");
                reveal_strlit("0");
            }
        }
        return out;
    }
    // Finite and non-zero: value = m * 2^p (sign handled separately).
    let e_field = (bits >> 52) & 0x7FF;
    let f_field = bits & 0x000FFFFFFFFFFFFF;
    proof {
        let bb = bits;
        assert((bb >> 52) & 0x7FF <= 0x7FF) by (bit_vector);
        assert(bb & 0x000FFFFFFFFFFFFFu64 < 0x10000000000000u64) by (bit_vector);
        assert((!is_nan_bits(bb) && !crate::arith::is_inf_bits(bb)) ==> (bb >> 52) & 0x7FF <= 2046)
            by (bit_vector);
    }
    let (m, p): (u64, i64) = if e_field == 0 {
        (f_field, -1074)
    } else {
        (0x0010000000000000u64 | f_field, (e_field as i64) - 1075)
    };
    proof {
        let ff = f_field;
        assert(ff < 0x10000000000000u64 ==> (0x0010000000000000u64 | ff) < 0x20000000000000u64)
            by (bit_vector);
    }
    let mut int_part = decimal_digits_of(m);
    let mut frac_part: Vec<u8> = Vec::new();
    if p >= 0 {
        let mut steps = if p > 1000 {
            1000i64
        } else {
            p
        };
        while steps > 0
            invariant
                0 <= steps <= 1000,
                forall|i: int| 0 <= i < int_part.len() ==> int_part@[i] <= 9,
                int_part.len() + steps <= 1020,
            decreases steps,
        {
            double_digits(&mut int_part);
            steps = steps - 1;
        }
    } else {
        let mut steps = if p < -1080 {
            1080i64
        } else {
            -p
        };
        while steps > 0
            invariant
                0 <= steps <= 1080,
                forall|i: int| 0 <= i < int_part.len() ==> int_part@[i] <= 9,
                forall|i: int| 0 <= i < frac_part.len() ==> frac_part@[i] <= 9,
                int_part.len() <= 20,
                frac_part.len() + steps <= 1080,
            decreases steps,
        {
            halve_digits(&mut int_part, &mut frac_part);
            steps = steps - 1;
        }
    }
    // Significant digits with the position of the decimal point: the
    // value reads 0.D1 D2 ... x 10^point.
    let mut sig_digits: Vec<u8> = Vec::new();
    let mut point: i64 = int_part.len() as i64;
    let mut lead: usize = 0;
    let ni = int_part.len();
    let nf = frac_part.len();
    if ni == 0 {
        // Skip leading zeros of the fraction.
        let mut i: usize = 0;
        while i < nf && frac_part[i] == 0
            invariant
                i <= nf,
                nf == frac_part.len(),
                forall|j: int| 0 <= j < frac_part.len() ==> frac_part@[j] <= 9,
            decreases nf - i,
        {
            i = i + 1;
        }
        lead = i;
        point = -(lead as i64);
    }
    let mut i: usize = 0;
    while i < ni
        invariant
            i <= ni,
            ni == int_part.len(),
            ni <= 1020,
            sig_digits.len() <= i,
            forall|j: int| 0 <= j < int_part.len() ==> int_part@[j] <= 9,
            forall|j: int| 0 <= j < sig_digits.len() ==> sig_digits@[j] <= 9,
        decreases ni - i,
    {
        sig_digits.push(int_part[i]);
        i = i + 1;
    }
    let mut j: usize = if ni > 0 {
        0
    } else {
        lead
    };
    while j < nf
        invariant
            j <= nf,
            nf == frac_part.len(),
            nf <= 1080,
            ni <= 1020,
            sig_digits.len() <= ni + j,
            forall|k: int| 0 <= k < frac_part.len() ==> frac_part@[k] <= 9,
            forall|k: int| 0 <= k < sig_digits.len() ==> sig_digits@[k] <= 9,
        decreases nf - j,
    {
        sig_digits.push(frac_part[j]);
        j = j + 1;
    }
    if sig_digits.len() == 0 {
        let mut out: Vec<u8> = Vec::new();
        out.push(0x30);
        return out;
    }
    // Try candidates of 1 to 17 significant digits; keep the first whose
    // parse gives back exactly this word.
    let total = sig_digits.len();
    let mut k: usize = 1;
    while k <= 17 && k < total
        invariant
            1 <= k <= 18,
            total == sig_digits.len(),
            sig_digits.len() >= 1,
            forall|j2: int| 0 <= j2 < sig_digits.len() ==> sig_digits@[j2] <= 9,
            total < 100000,
            -1080 <= point <= 1020,
            !is_nan_bits(bits),
            bits != 0x7FF0000000000000,
            bits != 0xFFF0000000000000,
            bits != 0,
            bits != 0x8000000000000000,
        decreases 18 - k,
    {
        let keep = k;
        // Truncated candidate, and the candidate rounded up by one unit
        // in the last kept digit.
        let mut trunc: Vec<u8> = Vec::new();
        let mut t: usize = 0;
        while t < keep
            invariant
                t <= keep,
                keep < total,
                total == sig_digits.len(),
                trunc.len() == t,
                forall|j2: int| 0 <= j2 < sig_digits.len() ==> sig_digits@[j2] <= 9,
                forall|j2: int| 0 <= j2 < trunc.len() ==> trunc@[j2] <= 9,
            decreases keep - t,
        {
            trunc.push(sig_digits[t]);
            t = t + 1;
        }
        let next_digit = sig_digits[keep];
        let prefer_up = next_digit >= 5;
        let first = try_candidate(negative, &trunc, point, bits, prefer_up);
        match first {
            Some(out) => {
                return out;
            },
            None => {},
        }
        let second = try_candidate(negative, &trunc, point, bits, !prefer_up);
        match second {
            Some(out) => {
                return out;
            },
            None => {},
        }
        k = k + 1;
    }
    // Fall back to the exact expansion.
    let out = render_digits(negative, &sig_digits, point);
    if out.len() == 0 {
        let mut fallback: Vec<u8> = Vec::new();
        fallback.push(0x30);
        return fallback;
    }
    out
}

/// Tries one candidate digit string (optionally bumped up by one unit in
/// the last place) and accepts it when it parses back to `bits`.
fn try_candidate(negative: bool, trunc: &Vec<u8>, point: i64, bits: u64, round_up: bool) -> (r:
    Option<Vec<u8>>)
    requires
        forall|i: int| 0 <= i < trunc.len() ==> trunc@[i] <= 9,
        0 < trunc.len() < 50000,
        -200000 <= point <= 200000,
    ensures
        r is Some ==> r->0.len() > 0,
{
    let mut digits: Vec<u8> = Vec::new();
    let mut i: usize = 0;
    let n = trunc.len();
    while i < n
        invariant
            i <= n,
            n == trunc.len(),
            digits.len() == i,
            forall|j: int| 0 <= j < trunc.len() ==> trunc@[j] <= 9,
            forall|j: int| 0 <= j < digits.len() ==> digits@[j] <= 9,
        decreases n - i,
    {
        digits.push(trunc[i]);
        i = i + 1;
    }
    let mut point_adj = point;
    if round_up {
        // Increment the last digit with carry; a carry off the front
        // shifts the decimal point one place right.
        let mut pos: usize = digits.len();
        let mut carry = true;
        while pos > 0 && carry
            invariant
                pos <= digits.len(),
                digits.len() == n,
                forall|j: int| 0 <= j < digits.len() ==> digits@[j] <= 9,
            decreases pos,
        {
            pos = pos - 1;
            let d = digits[pos];
            if d == 9 {
                digits.set(pos, 0);
            } else {
                digits.set(pos, d + 1);
                carry = false;
            }
        }
        if carry {
            digits.insert(0, 1);
            if point_adj < 200000 {
                point_adj = point_adj + 1;
            }
        }
    }
    let text = render_digits(negative, &digits, point_adj);
    if text.len() == 0 {
        return None;
    }
    // Parse back, skipping a leading minus sign.
    let start: usize = if negative {
        1
    } else {
        0
    };
    if start >= text.len() {
        return None;
    }
    let unsigned_part = slice_from(&text, start);
    let parsed = parse_number_bits(unsigned_part.as_slice());
    match parsed {
        Some(p) => {
            let with_sign = if negative {
                p | 0x8000000000000000
            } else {
                p
            };
            if with_sign == bits {
                Some(text)
            } else {
                None
            }
        },
        None => None,
    }
}

/// Copies the bytes of `v` from `start` on into a fresh vector.
fn slice_from(v: &Vec<u8>, start: usize) -> (r: Vec<u8>)
    requires
        start <= v.len(),
    ensures
        r@ == v@.subrange(start as int, v.len() as int),
{
    let mut out: Vec<u8> = Vec::new();
    let mut i = start;
    let n = v.len();
    while i < n
        invariant
            start <= i <= n,
            n == v.len(),
            out@ == v@.subrange(start as int, i as int),
        decreases n - i,
    {
        out.push(v[i]);
        i = i + 1;
    }
    proof {
        assert(out@ =~= v@.subrange(start as int, v.len() as int));
    }
    out
}

} // verus!
