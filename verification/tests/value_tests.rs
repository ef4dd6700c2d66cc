use weaver::value::NanBoxedValue;
use weaver::value::PointerTag;

#[test]
fn test_number_encoding() {
    let val = NanBoxedValue::number(42.0f64.to_bits());
    assert!(val.is_number());
    assert!(!val.is_boolean());
    assert!(!val.is_null());
    assert!(!val.is_pointer());
    assert_eq!(val.as_number_bits(), 42.0f64.to_bits());
}

#[test]
fn test_special_float_values() {
    let inf = NanBoxedValue::number(f64::INFINITY.to_bits());
    assert!(inf.is_number());
    assert!(f64::from_bits(inf.as_number_bits()).is_infinite());

    let neg_zero = NanBoxedValue::number((-0.0f64).to_bits());
    assert!(neg_zero.is_number());
    assert_eq!(neg_zero.as_number_bits(), (-0.0f64).to_bits());

    let signaling_nan_bits = 0x7FF0000000000001u64;
    let nan = NanBoxedValue::number(signaling_nan_bits);
    assert!(nan.is_number());
    assert!(f64::from_bits(nan.as_number_bits()).is_nan());
}

#[test]
fn test_boolean_encoding() {
    let true_val = NanBoxedValue::boolean(true);
    assert!(true_val.is_boolean());
    assert!(!true_val.is_number());
    assert!(!true_val.is_null());
    assert!(!true_val.is_pointer());
    assert_eq!(true_val.as_boolean(), true);
    assert_eq!(true_val.bits(), 0x7FF8000000000003);

    let false_val = NanBoxedValue::boolean(false);
    assert!(false_val.is_boolean());
    assert_eq!(false_val.as_boolean(), false);
    assert_eq!(false_val.bits(), 0x7FF8000000000002);
}

#[test]
fn test_null_encoding() {
    let null_val = NanBoxedValue::null();
    assert!(null_val.is_null());
    assert!(!null_val.is_number());
    assert!(!null_val.is_boolean());
    assert!(!null_val.is_pointer());
    assert_eq!(null_val.bits(), 0x7FF8000000000004);
}

#[test]
fn test_pointer_encoding() {
    let payload: u64 = 12345;
    let val = NanBoxedValue::pointer(payload, PointerTag::String);
    assert!(val.is_pointer());
    assert!(!val.is_number());
    assert!(!val.is_boolean());
    assert!(!val.is_null());

    let (extracted, tag) = val.as_pointer();
    assert_eq!(extracted, payload);
    assert_eq!(tag, PointerTag::String);
}

#[test]
fn test_from_traits() {
    let num_val = NanBoxedValue::number(3.14f64.to_bits());
    assert!(num_val.is_number());
    assert_eq!(num_val.as_number_bits(), 3.14f64.to_bits());

    let bool_val = NanBoxedValue::boolean(true);
    assert!(bool_val.is_boolean());
    assert_eq!(bool_val.as_boolean(), true);

    let null_val = NanBoxedValue::null();
    assert!(null_val.is_null());
}

#[test]
fn test_bit_patterns() {
    assert_eq!(NanBoxedValue::null().bits(), 0x7FF8000000000004);
    assert_eq!(NanBoxedValue::boolean(true).bits(), 0x7FF8000000000003);
    assert_eq!(NanBoxedValue::boolean(false).bits(), 0x7FF8000000000002);

    let zero = NanBoxedValue::number(0.0f64.to_bits());
    assert!(zero.is_number());
    assert!(!zero.is_null());

    let one = NanBoxedValue::number(1.0f64.to_bits());
    assert!(one.is_number());
    assert!(!one.is_boolean());
}

#[test]
fn test_fast_arithmetic() {
    let a = NanBoxedValue::number(5.0f64.to_bits());
    let b = NanBoxedValue::number(3.0f64.to_bits());

    let sum = a.fast_add(b).unwrap();
    assert!(sum.is_number());
    assert_eq!(sum.as_number_bits(), 8.0f64.to_bits());

    let diff = a.fast_sub(b).unwrap();
    assert!(diff.is_number());
    assert_eq!(diff.as_number_bits(), 2.0f64.to_bits());

    let prod = a.fast_mul(b).unwrap();
    assert!(prod.is_number());
    assert_eq!(prod.as_number_bits(), 15.0f64.to_bits());

    let quot = a.fast_div(b).unwrap();
    assert!(quot.is_number());
    assert_eq!(quot.as_number_bits(), (5.0f64 / 3.0f64).to_bits());

    let bool_val = NanBoxedValue::boolean(true);
    assert!(a.fast_add(bool_val).is_none());
    assert!(bool_val.fast_mul(a).is_none());
}

#[test]
fn test_fast_comparisons() {
    let a = NanBoxedValue::number(5.0f64.to_bits());
    let b = NanBoxedValue::number(3.0f64.to_bits());
    let c = NanBoxedValue::number(5.0f64.to_bits());

    let gt = a.fast_greater(b).unwrap();
    assert!(gt.is_boolean());
    assert_eq!(gt.as_boolean(), true);

    let gt2 = b.fast_greater(a).unwrap();
    assert_eq!(gt2.as_boolean(), false);

    let lt = b.fast_less(a).unwrap();
    assert_eq!(lt.as_boolean(), true);

    let eq = a.fast_equal(c);
    assert_eq!(eq.as_boolean(), true);

    let eq2 = a.fast_equal(b);
    assert_eq!(eq2.as_boolean(), false);

    let bool_val = NanBoxedValue::boolean(true);
    assert!(a.fast_greater(bool_val).is_none());
}

#[test]
fn test_fast_equal_edge_cases() {
    let a = NanBoxedValue::boolean(true);
    let b = NanBoxedValue::boolean(true);
    assert_eq!(a.fast_equal(b).as_boolean(), true);

    let num = NanBoxedValue::number(1.0f64.to_bits());
    let bool_val = NanBoxedValue::boolean(true);
    assert_eq!(num.fast_equal(bool_val).as_boolean(), false);

    let nan1 = NanBoxedValue::number(f64::NAN.to_bits());
    let nan2 = NanBoxedValue::number(f64::NAN.to_bits());
    assert_eq!(nan1.fast_equal(nan2).as_boolean(), false);
}

#[test]
fn test_is_truthy() {
    assert_eq!(NanBoxedValue::number(1.0f64.to_bits()).is_truthy(), true);
    assert_eq!(NanBoxedValue::number((-1.0f64).to_bits()).is_truthy(), true);
    assert_eq!(NanBoxedValue::number(0.0f64.to_bits()).is_truthy(), false);
    assert_eq!(NanBoxedValue::number(f64::NAN.to_bits()).is_truthy(), false);

    assert_eq!(NanBoxedValue::boolean(true).is_truthy(), true);
    assert_eq!(NanBoxedValue::boolean(false).is_truthy(), false);

    assert_eq!(NanBoxedValue::null().is_truthy(), false);

    let val = NanBoxedValue::pointer(7, PointerTag::String);
    assert_eq!(val.is_truthy(), true);
}

#[test]
fn test_round_trip_conversion() {
    let original_numbers = [0.0f64, 1.0, -1.0, 3.14159, f64::INFINITY, f64::NEG_INFINITY];
    for &num in &original_numbers {
        let boxed = NanBoxedValue::number(num.to_bits());
        assert_eq!(boxed.as_number_bits(), num.to_bits());
    }

    for &bool_val in &[true, false] {
        let boxed = NanBoxedValue::boolean(bool_val);
        assert_eq!(boxed.as_boolean(), bool_val);
    }

    let null_boxed = NanBoxedValue::null();
    assert!(null_boxed.is_null());
}

#[test]
fn test_negative_zero_equals_positive_zero() {
    let pz = NanBoxedValue::number(0.0f64.to_bits());
    let nz = NanBoxedValue::number((-0.0f64).to_bits());
    assert_eq!(pz.fast_equal(nz).as_boolean(), true);
    assert_eq!(pz.fast_less(nz).unwrap().as_boolean(), false);
    assert_eq!(nz.fast_less(pz).unwrap().as_boolean(), false);
}
