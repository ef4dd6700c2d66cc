//! NaN-boxed runtime values.
//!
//! A value is a single 64-bit word. A word whose bit pattern is a finite
//! IEEE 754 double (or any NaN outside the reserved quiet-NaN space) is a
//! number, stored as its raw bit pattern. Words inside the reserved
//! quiet-NaN space encode null, the two booleans, or a tagged 48-bit
//! payload (a handle into one of the interpreter's tables).

use vstd::prelude::*;

verus! {

/// Bits that are set on every boxed (non-number) value: the quiet-NaN
/// exponent plus the quiet bit. The one exception is the canonical NaN
/// itself, whose payload is zero and which counts as a number.
pub const QUIET_NAN_MASK: u64 = 0x7FF8000000000000;

/// Boxed encoding of `null`.
pub const NULL_BITS: u64 = 0x7FF8000000000004;

/// Boxed encoding of `true`.
pub const TRUE_BITS: u64 = 0x7FF8000000000003;

/// Boxed encoding of `false`.
pub const FALSE_BITS: u64 = 0x7FF8000000000002;

/// The three payload bits that carry a pointer tag.
pub const TAG_MASK: u64 = 0x0007000000000000;

/// The low 48 payload bits of a boxed pointer value.
pub const PAYLOAD_MASK: u64 = 0x0000FFFFFFFFFFFF;

pub const STRING_TAG: u64 = 0x0001000000000000;
pub const FUNCTION_TAG: u64 = 0x0002000000000000;
pub const CLOSURE_TAG: u64 = 0x0003000000000000;
pub const NATIVE_FN_TAG: u64 = 0x0004000000000000;
pub const UPVALUE_TAG: u64 = 0x0005000000000000;
pub const CLOSURE_HANDLE_TAG: u64 = 0x0006000000000000;

/// Type tags for pointer values stored in NaN-boxed values.
#[derive(Debug, Clone, Copy, PartialEq, Eq, Structural)]
pub enum PointerTag {
    String,
    Function,
    Closure,
    NativeFn,
    Upvalue,
    ClosureHandle,
}

pub open spec fn tag_bits_of(tag: PointerTag) -> u64 {
    match tag {
        PointerTag::String => STRING_TAG,
        PointerTag::Function => FUNCTION_TAG,
        PointerTag::Closure => CLOSURE_TAG,
        PointerTag::NativeFn => NATIVE_FN_TAG,
        PointerTag::Upvalue => UPVALUE_TAG,
        PointerTag::ClosureHandle => CLOSURE_HANDLE_TAG,
    }
}

/// A 64-bit NaN-boxed value.
#[derive(Debug, Clone, Copy, PartialEq, Eq, Structural)]
pub struct NanBoxedValue {
    pub bits: u64,
}

/// True of any word that reads as a number: everything outside the
/// reserved quiet-NaN space, plus the canonical NaN itself.
pub open spec fn is_number_bits(b: u64) -> bool {
    (b & QUIET_NAN_MASK) != QUIET_NAN_MASK || b == QUIET_NAN_MASK
}

pub open spec fn is_null_bits(b: u64) -> bool {
    b == NULL_BITS
}

pub open spec fn is_boolean_bits(b: u64) -> bool {
    b == TRUE_BITS || b == FALSE_BITS
}

/// True of boxed words that carry a tag and a 48-bit payload.
pub open spec fn is_pointer_bits(b: u64) -> bool {
    (b & QUIET_NAN_MASK) == QUIET_NAN_MASK && b != QUIET_NAN_MASK && !is_null_bits(b)
        && !is_boolean_bits(b)
}

pub open spec fn pointer_tag_bits(b: u64) -> u64 {
    b & TAG_MASK
}

pub open spec fn pointer_payload(b: u64) -> u64 {
    b & PAYLOAD_MASK
}

/// Every value the interpreter constructs satisfies this: it is a number,
/// a boolean, null, or a pointer whose tag field holds one of the six tags.
pub open spec fn value_wf_bits(b: u64) -> bool {
    ||| is_number_bits(b)
    ||| is_boolean_bits(b)
    ||| is_null_bits(b)
    ||| (is_pointer_bits(b) && 1 <= (pointer_tag_bits(b) >> 48) <= 6)
}

pub open spec fn pointer_value_bits(tag: PointerTag, payload: u64) -> u64 {
    QUIET_NAN_MASK | tag_bits_of(tag) | (payload & PAYLOAD_MASK)
}

/// The IEEE 754 exponent field is all ones and the fraction is non-zero:
/// the bit pattern is some NaN (quiet or signaling, either sign).
pub open spec fn is_nan_bits(b: u64) -> bool {
    (b & 0x7FF0000000000000) == 0x7FF0000000000000 && (b & 0x000FFFFFFFFFFFFF) != 0
}

/// The bit pattern is one of the two IEEE 754 zeros.
pub open spec fn is_zero_bits(b: u64) -> bool {
    (b & 0x7FFFFFFFFFFFFFFF) == 0
}

/// IEEE 754 `==` on two number bit patterns: NaN equals nothing, the two
/// zeros equal each other, and everything else is equality of bits.
pub open spec fn ieee_eq_bits(a: u64, b: u64) -> bool {
    if is_nan_bits(a) || is_nan_bits(b) {
        false
    } else if is_zero_bits(a) && is_zero_bits(b) {
        true
    } else {
        a == b
    }
}

/// Maps a non-NaN number bit pattern to a key whose unsigned order is the
/// IEEE 754 order of the numbers (with the two zeros one key apart).
pub open spec fn order_key_bits(b: u64) -> u64 {
    if b & 0x8000000000000000 == 0x8000000000000000 {
        !b
    } else {
        b | 0x8000000000000000
    }
}

/// IEEE 754 `<` on two number bit patterns.
pub open spec fn ieee_lt_bits(a: u64, b: u64) -> bool {
    if is_nan_bits(a) || is_nan_bits(b) {
        false
    } else if is_zero_bits(a) && is_zero_bits(b) {
        false
    } else {
        order_key_bits(a) < order_key_bits(b)
    }
}

/// Truthiness of a value: null, false, both zeros and every NaN number are
/// falsy; everything else is truthy.
pub open spec fn truthy_bits(b: u64) -> bool {
    if is_null_bits(b) {
        false
    } else if is_boolean_bits(b) {
        b == TRUE_BITS
    } else if is_number_bits(b) {
        !is_nan_bits(b) && !is_zero_bits(b) && b != QUIET_NAN_MASK
    } else {
        true
    }
}

impl NanBoxedValue {
    /// Boxes a number given as its IEEE 754 double bit pattern. The bits
    /// are stored unchanged, so the round trip through `as_number_bits` is
    /// exact for every pattern, including infinities and NaNs.
    pub fn number(bits: u64) -> (r: NanBoxedValue)
        ensures
            r.bits == bits,
    {
        NanBoxedValue { bits }
    }

    pub fn boolean(value: bool) -> (r: NanBoxedValue)
        ensures
            r.bits == if value {
                TRUE_BITS
            } else {
                FALSE_BITS
            },
            r.is_boolean(),
            !r.is_number(),
            !r.is_null(),
            !r.is_pointer(),
            r.as_boolean_spec() == value,
    {
        let r = NanBoxedValue { bits: if value { TRUE_BITS } else { FALSE_BITS } };
        proof {
            assert(!is_number_bits(TRUE_BITS) && !is_number_bits(FALSE_BITS)) by (bit_vector);
        }
        r
    }

    pub fn null() -> (r: NanBoxedValue)
        ensures
            r.bits == NULL_BITS,
            r.is_null(),
            !r.is_number(),
            !r.is_boolean(),
            !r.is_pointer(),
    {
        let r = NanBoxedValue { bits: NULL_BITS };
        proof {
            assert(!is_number_bits(NULL_BITS)) by (bit_vector);
        }
        r
    }

    /// Boxes a tagged 48-bit payload. Payloads at or above 2^48 are
    /// truncated to their low 48 bits, as in any NaN-boxing scheme.
    pub fn pointer(payload: u64, tag: PointerTag) -> (r: NanBoxedValue)
        ensures
            r.bits == pointer_value_bits(tag, payload),
            r.is_pointer(),
            !r.is_number(),
            !r.is_boolean(),
            !r.is_null(),
            r.tag_bits() == tag_bits_of(tag),
            r.payload() == (payload & PAYLOAD_MASK),
            value_wf_bits(r.bits),
    {
        let tag_bits: u64 = match tag {
            PointerTag::String => STRING_TAG,
            PointerTag::Function => FUNCTION_TAG,
            PointerTag::Closure => CLOSURE_TAG,
            PointerTag::NativeFn => NATIVE_FN_TAG,
            PointerTag::Upvalue => UPVALUE_TAG,
            PointerTag::ClosureHandle => CLOSURE_HANDLE_TAG,
        };
        let bits: u64 = QUIET_NAN_MASK | tag_bits | (payload & PAYLOAD_MASK);
        proof {
            let t = tag_bits;
            let p = payload;
            assert((t == 0x0001000000000000u64 || t == 0x0002000000000000u64 || t
                == 0x0003000000000000u64 || t == 0x0004000000000000u64 || t == 0x0005000000000000u64
                || t == 0x0006000000000000u64) ==> {
                let b = QUIET_NAN_MASK | t | (p & PAYLOAD_MASK);
                &&& b & QUIET_NAN_MASK == QUIET_NAN_MASK
                &&& b != QUIET_NAN_MASK
                &&& b != NULL_BITS
                &&& b != TRUE_BITS
                &&& b != FALSE_BITS
                &&& b & TAG_MASK == t
                &&& b & PAYLOAD_MASK == p & PAYLOAD_MASK
                &&& 1 <= (b & TAG_MASK) >> 48 <= 6
            }) by (bit_vector);
        }
        NanBoxedValue { bits }
    }

    /// Boxes a string-table index.
    pub fn string(index: u64) -> (r: NanBoxedValue)
        requires
            index <= PAYLOAD_MASK,
        ensures
            r.bits == pointer_value_bits(PointerTag::String, index),
            r.is_string(),
            r.payload() == index,
            value_wf_bits(r.bits),
    {
        let r = Self::pointer(index, PointerTag::String);
        proof {
            let i = index;
            assert(i <= PAYLOAD_MASK ==> i & PAYLOAD_MASK == i) by (bit_vector);
        }
        r
    }

    /// Boxes a closure-arena handle packed as `(generation << 32) | index`.
    /// Only the low 48 bits of the pack survive; the interpreter keeps
    /// generations small enough that nothing is lost.
    pub fn closure_handle(packed: u64) -> (r: NanBoxedValue)
        ensures
            r.bits == pointer_value_bits(PointerTag::ClosureHandle, packed),
            r.is_closure_handle(),
            r.payload() == (packed & PAYLOAD_MASK),
            value_wf_bits(r.bits),
    {
        Self::pointer(packed, PointerTag::ClosureHandle)
    }

    pub open spec fn is_number_spec(self) -> bool {
        is_number_bits(self.bits)
    }

    /// True if this value reads as a number.
    #[verifier::when_used_as_spec(is_number_spec)]
    pub fn is_number(self) -> (r: bool)
        ensures
            r == is_number_bits(self.bits),
    {
        (self.bits & QUIET_NAN_MASK) != QUIET_NAN_MASK || self.bits == QUIET_NAN_MASK
    }

    pub open spec fn is_null_spec(self) -> bool {
        is_null_bits(self.bits)
    }

    #[verifier::when_used_as_spec(is_null_spec)]
    pub fn is_null(self) -> (r: bool)
        ensures
            r == is_null_bits(self.bits),
    {
        self.bits == NULL_BITS
    }

    pub open spec fn is_boolean_spec(self) -> bool {
        is_boolean_bits(self.bits)
    }

    #[verifier::when_used_as_spec(is_boolean_spec)]
    pub fn is_boolean(self) -> (r: bool)
        ensures
            r == is_boolean_bits(self.bits),
    {
        self.bits == TRUE_BITS || self.bits == FALSE_BITS
    }

    pub open spec fn is_pointer_spec(self) -> bool {
        is_pointer_bits(self.bits)
    }

    #[verifier::when_used_as_spec(is_pointer_spec)]
    pub fn is_pointer(self) -> (r: bool)
        ensures
            r == is_pointer_bits(self.bits),
    {
        (self.bits & QUIET_NAN_MASK) == QUIET_NAN_MASK && self.bits != QUIET_NAN_MASK
            && !self.is_null() && !self.is_boolean()
    }

    pub open spec fn tag_bits(self) -> u64 {
        pointer_tag_bits(self.bits)
    }

    pub open spec fn payload(self) -> u64 {
        pointer_payload(self.bits)
    }

    pub open spec fn is_string_spec(self) -> bool {
        is_pointer_bits(self.bits) && pointer_tag_bits(self.bits) == STRING_TAG
    }

    #[verifier::when_used_as_spec(is_string_spec)]
    pub fn is_string(self) -> (r: bool)
        ensures
            r == self.is_string_spec(),
    {
        self.is_pointer() && (self.bits & TAG_MASK) == STRING_TAG
    }

    pub open spec fn is_closure_handle_spec(self) -> bool {
        is_pointer_bits(self.bits) && pointer_tag_bits(self.bits) == CLOSURE_HANDLE_TAG
    }

    #[verifier::when_used_as_spec(is_closure_handle_spec)]
    pub fn is_closure_handle(self) -> (r: bool)
        ensures
            r == self.is_closure_handle_spec(),
    {
        self.is_pointer() && (self.bits & TAG_MASK) == CLOSURE_HANDLE_TAG
    }

    pub open spec fn is_function_spec(self) -> bool {
        is_pointer_bits(self.bits) && pointer_tag_bits(self.bits) == FUNCTION_TAG
    }

    #[verifier::when_used_as_spec(is_function_spec)]
    pub fn is_function(self) -> (r: bool)
        ensures
            r == self.is_function_spec(),
    {
        self.is_pointer() && (self.bits & TAG_MASK) == FUNCTION_TAG
    }

    pub open spec fn is_native_fn_spec(self) -> bool {
        is_pointer_bits(self.bits) && pointer_tag_bits(self.bits) == NATIVE_FN_TAG
    }

    #[verifier::when_used_as_spec(is_native_fn_spec)]
    pub fn is_native_fn(self) -> (r: bool)
        ensures
            r == self.is_native_fn_spec(),
    {
        self.is_pointer() && (self.bits & TAG_MASK) == NATIVE_FN_TAG
    }

    pub open spec fn is_upvalue_spec(self) -> bool {
        is_pointer_bits(self.bits) && pointer_tag_bits(self.bits) == UPVALUE_TAG
    }

    #[verifier::when_used_as_spec(is_upvalue_spec)]
    pub fn is_upvalue(self) -> (r: bool)
        ensures
            r == self.is_upvalue_spec(),
    {
        self.is_pointer() && (self.bits & TAG_MASK) == UPVALUE_TAG
    }

    /// The number's IEEE 754 bit pattern, exactly as it was boxed.
    pub fn as_number_bits(self) -> (r: u64)
        requires
            self.is_number(),
        ensures
            r == self.bits,
    {
        self.bits
    }

    pub open spec fn as_boolean_spec(self) -> bool {
        self.bits == TRUE_BITS
    }

    #[verifier::when_used_as_spec(as_boolean_spec)]
    pub fn as_boolean(self) -> (r: bool)
        requires
            self.is_boolean(),
        ensures
            r == (self.bits == TRUE_BITS),
    {
        self.bits == TRUE_BITS
    }

    /// The packed `(generation << 32) | index` form of the handle, as far
    /// as it fits the 48-bit payload.
    pub fn as_closure_handle(self) -> (r: u64)
        requires
            self.is_closure_handle(),
        ensures
            r == self.payload(),
    {
        self.bits & PAYLOAD_MASK
    }

    /// The payload and tag of a boxed pointer value.
    pub fn as_pointer(self) -> (r: (u64, PointerTag))
        requires
            self.is_pointer(),
            value_wf_bits(self.bits),
        ensures
            r.0 == self.payload(),
            tag_bits_of(r.1) == self.tag_bits(),
    {
        let payload = self.bits & PAYLOAD_MASK;
        let tag_bits = self.bits & TAG_MASK;
        proof {
            let b = self.bits;
            assert(1 <= (b & TAG_MASK) >> 48 <= 6 ==> (b & TAG_MASK == STRING_TAG || b & TAG_MASK
                == FUNCTION_TAG || b & TAG_MASK == CLOSURE_TAG || b & TAG_MASK == NATIVE_FN_TAG || b
                & TAG_MASK == UPVALUE_TAG || b & TAG_MASK == CLOSURE_HANDLE_TAG)) by (bit_vector);
        }
        let tag = if tag_bits == STRING_TAG {
            PointerTag::String
        } else if tag_bits == FUNCTION_TAG {
            PointerTag::Function
        } else if tag_bits == CLOSURE_TAG {
            PointerTag::Closure
        } else if tag_bits == NATIVE_FN_TAG {
            PointerTag::NativeFn
        } else if tag_bits == UPVALUE_TAG {
            PointerTag::Upvalue
        } else {
            PointerTag::ClosureHandle
        };
        (payload, tag)
    }

    /// The raw 64-bit word.
    pub fn bits(self) -> (r: u64)
        ensures
            r == self.bits,
    {
        self.bits
    }

    pub open spec fn is_truthy_spec(self) -> bool {
        truthy_bits(self.bits)
    }

    /// Truthiness: null, false, the two zeros and every NaN are falsy;
    /// all other values are truthy.
    #[verifier::when_used_as_spec(is_truthy_spec)]
    pub fn is_truthy(self) -> (r: bool)
        ensures
            r == truthy_bits(self.bits),
    {
        if self.is_null() {
            false
        } else if self.is_boolean() {
            self.as_boolean()
        } else if self.is_number() {
            let nan = (self.bits & 0x7FF0000000000000) == 0x7FF0000000000000 && (self.bits
                & 0x000FFFFFFFFFFFFF) != 0;
            let zero = (self.bits & 0x7FFFFFFFFFFFFFFF) == 0;
            !nan && !zero && self.bits != QUIET_NAN_MASK
        } else {
            true
        }
    }

    /// IEEE 754 addition when both values are numbers; `None` otherwise.
    /// The sum's bit pattern is checked against hardware arithmetic by the
    /// test suite; here the contract pins down when the fast path applies
    /// and that it always yields a number again.
    pub fn fast_add(self, other: NanBoxedValue) -> (r: Option<NanBoxedValue>)
        ensures
            r is Some <==> self.is_number() && other.is_number(),
            r is Some ==> r->0.is_number(),
    {
        if self.is_number() && other.is_number() {
            Some(NanBoxedValue { bits: crate::arith::add_bits(self.bits, other.bits) })
        } else {
            None
        }
    }

    /// IEEE 754 subtraction when both values are numbers; `None` otherwise.
    pub fn fast_sub(self, other: NanBoxedValue) -> (r: Option<NanBoxedValue>)
        ensures
            r is Some <==> self.is_number() && other.is_number(),
            r is Some ==> r->0.is_number(),
    {
        if self.is_number() && other.is_number() {
            Some(NanBoxedValue { bits: crate::arith::sub_bits(self.bits, other.bits) })
        } else {
            None
        }
    }

    /// IEEE 754 multiplication when both values are numbers; `None` otherwise.
    pub fn fast_mul(self, other: NanBoxedValue) -> (r: Option<NanBoxedValue>)
        ensures
            r is Some <==> self.is_number() && other.is_number(),
            r is Some ==> r->0.is_number(),
    {
        if self.is_number() && other.is_number() {
            Some(NanBoxedValue { bits: crate::arith::mul_bits(self.bits, other.bits) })
        } else {
            None
        }
    }

    /// IEEE 754 division when both values are numbers; `None` otherwise.
    /// Division by zero yields an infinity or NaN, as IEEE 754 says, never
    /// an error.
    pub fn fast_div(self, other: NanBoxedValue) -> (r: Option<NanBoxedValue>)
        ensures
            r is Some <==> self.is_number() && other.is_number(),
            r is Some ==> r->0.is_number(),
    {
        if self.is_number() && other.is_number() {
            Some(NanBoxedValue { bits: crate::arith::div_bits(self.bits, other.bits) })
        } else {
            None
        }
    }

    /// IEEE 754 negation of a number value.
    pub fn negate(self) -> (r: NanBoxedValue)
        requires
            self.is_number(),
        ensures
            r.is_number(),
            !is_nan_bits(self.bits) ==> r.bits == (self.bits ^ 0x8000000000000000),
    {
        NanBoxedValue { bits: crate::arith::neg_bits(self.bits) }
    }

    /// IEEE 754 equality between two values: numbers compare as doubles
    /// (so NaN is unequal even to itself and the two zeros are equal),
    /// everything else compares by bit pattern.
    pub fn fast_equal(self, other: NanBoxedValue) -> (r: NanBoxedValue)
        ensures
            r.is_boolean(),
            self.is_number() && other.is_number() ==> r.as_boolean_spec() == ieee_eq_bits(
                self.bits,
                other.bits,
            ),
            !(self.is_number() && other.is_number()) ==> r.as_boolean_spec() == (self.bits
                == other.bits),
    {
        if self.is_number() && other.is_number() {
            let a_nan = (self.bits & 0x7FF0000000000000) == 0x7FF0000000000000 && (self.bits
                & 0x000FFFFFFFFFFFFF) != 0;
            let b_nan = (other.bits & 0x7FF0000000000000) == 0x7FF0000000000000 && (other.bits
                & 0x000FFFFFFFFFFFFF) != 0;
            if a_nan || b_nan {
                return NanBoxedValue::boolean(false);
            }
            let a_zero = (self.bits & 0x7FFFFFFFFFFFFFFF) == 0;
            let b_zero = (other.bits & 0x7FFFFFFFFFFFFFFF) == 0;
            if a_zero && b_zero {
                return NanBoxedValue::boolean(true);
            }
            NanBoxedValue::boolean(self.bits == other.bits)
        } else {
            NanBoxedValue::boolean(self.bits == other.bits)
        }
    }

    /// IEEE 754 `<` between two numbers; `None` when either side is not a
    /// number.
    pub fn fast_less(self, other: NanBoxedValue) -> (r: Option<NanBoxedValue>)
        ensures
            r is Some <==> self.is_number() && other.is_number(),
            r is Some ==> r->0.is_boolean() && r->0.as_boolean_spec() == ieee_lt_bits(
                self.bits,
                other.bits,
            ),
    {
        if self.is_number() && other.is_number() {
            Some(NanBoxedValue::boolean(lt_bits(self.bits, other.bits)))
        } else {
            None
        }
    }

    /// IEEE 754 `>` between two numbers; `None` when either side is not a
    /// number.
    pub fn fast_greater(self, other: NanBoxedValue) -> (r: Option<NanBoxedValue>)
        ensures
            r is Some <==> self.is_number() && other.is_number(),
            r is Some ==> r->0.is_boolean() && r->0.as_boolean_spec() == ieee_lt_bits(
                other.bits,
                self.bits,
            ),
    {
        if self.is_number() && other.is_number() {
            Some(NanBoxedValue::boolean(lt_bits(other.bits, self.bits)))
        } else {
            None
        }
    }
}

/// Boxing a number and reading it back is exact: for every bit pattern
/// outside the reserved quiet-NaN space (and for the canonical NaN
/// itself), the boxed value reads as a number and carries the very same
/// bits; and every boolean survives its round trip.
pub proof fn lemma_nan_box_round_trip(x: u64, b: bool)
    requires
        is_number_bits(x),
    ensures
        (NanBoxedValue { bits: x }).is_number_spec(),
        (NanBoxedValue { bits: x }).bits == x,
        ({
            let boxed = NanBoxedValue {
                bits: if b {
                    TRUE_BITS
                } else {
                    FALSE_BITS
                },
            };
            boxed.is_boolean_spec() && boxed.as_boolean_spec() == b
        }),
{
}

/// Value equality honours IEEE 754 and bit patterns: the canonical NaN
/// is unequal to itself, while null equals null and true equals true.
pub proof fn lemma_value_equality_laws()
    ensures
        !ieee_eq_bits(0x7FF8000000000000, 0x7FF8000000000000),
        !is_number_bits(NULL_BITS) && NULL_BITS == NULL_BITS,
        !is_number_bits(TRUE_BITS) && TRUE_BITS == TRUE_BITS,
{
    assert(is_nan_bits(0x7FF8000000000000u64) && !is_number_bits(NULL_BITS) && !is_number_bits(
        TRUE_BITS,
    )) by (bit_vector);
}

/// IEEE 754 `<` on raw number bit patterns.
pub fn lt_bits(a: u64, b: u64) -> (r: bool)
    ensures
        r == ieee_lt_bits(a, b),
{
    let a_nan = (a & 0x7FF0000000000000) == 0x7FF0000000000000 && (a & 0x000FFFFFFFFFFFFF) != 0;
    let b_nan = (b & 0x7FF0000000000000) == 0x7FF0000000000000 && (b & 0x000FFFFFFFFFFFFF) != 0;
    if a_nan || b_nan {
        return false;
    }
    let a_zero = (a & 0x7FFFFFFFFFFFFFFF) == 0;
    let b_zero = (b & 0x7FFFFFFFFFFFFFFF) == 0;
    if a_zero && b_zero {
        return false;
    }
    let ka = if a & 0x8000000000000000 == 0x8000000000000000 {
        !a
    } else {
        a | 0x8000000000000000
    };
    let kb = if b & 0x8000000000000000 == 0x8000000000000000 {
        !b
    } else {
        b | 0x8000000000000000
    };
    ka < kb
}

} // verus!
