//! The software IEEE 754 arithmetic against the host's hardware, across
//! a grid of operand pairs that covers zeros, subnormals, infinities,
//! NaNs, rounding carries and cancellation.

use weaver::arith;

const CANONICAL_NAN: u64 = 0x7FF8000000000000;

fn grid() -> Vec<f64> {
    vec![
        0.0,
        -0.0,
        1.0,
        -1.0,
        2.0,
        0.5,
        -0.5,
        3.0,
        5.0,
        10.0,
        0.1,
        0.2,
        0.3,
        1.0 / 3.0,
        3.141592653589793,
        -2.718281828459045,
        1e10,
        -1e10,
        1e300,
        -1e300,
        1e-300,
        -1e-300,
        f64::MAX,
        f64::MIN,
        f64::MIN_POSITIVE,
        -f64::MIN_POSITIVE,
        f64::from_bits(1),
        f64::from_bits(0x000FFFFFFFFFFFFF),
        4503599627370496.0,
        9007199254740992.0,
        9007199254740994.0,
        f64::INFINITY,
        f64::NEG_INFINITY,
        f64::NAN,
        1.0000000000000002,
        0.9999999999999999,
        6.0,
        20.0,
        26.0,
        1048576.0,
        1.5,
        -1.5,
        7e-320,
    ]
}

fn same(host: f64, ours: u64) -> bool {
    if host.is_nan() {
        ours == CANONICAL_NAN
    } else {
        host.to_bits() == ours
    }
}

#[test]
fn add_matches_hardware() {
    for &a in &grid() {
        for &b in &grid() {
            let ours = arith::add_bits(a.to_bits(), b.to_bits());
            assert!(
                same(a + b, ours),
                "add {a:?} {b:?}: host {:#x} ours {ours:#x}",
                (a + b).to_bits()
            );
        }
    }
}

#[test]
fn sub_matches_hardware() {
    for &a in &grid() {
        for &b in &grid() {
            let ours = arith::sub_bits(a.to_bits(), b.to_bits());
            assert!(
                same(a - b, ours),
                "sub {a:?} {b:?}: host {:#x} ours {ours:#x}",
                (a - b).to_bits()
            );
        }
    }
}

#[test]
fn mul_matches_hardware() {
    for &a in &grid() {
        for &b in &grid() {
            let ours = arith::mul_bits(a.to_bits(), b.to_bits());
            assert!(
                same(a * b, ours),
                "mul {a:?} {b:?}: host {:#x} ours {ours:#x}",
                (a * b).to_bits()
            );
        }
    }
}

#[test]
fn div_matches_hardware() {
    for &a in &grid() {
        for &b in &grid() {
            let ours = arith::div_bits(a.to_bits(), b.to_bits());
            assert!(
                same(a / b, ours),
                "div {a:?} {b:?}: host {:#x} ours {ours:#x}",
                (a / b).to_bits()
            );
        }
    }
}

#[test]
fn comparisons_match_hardware() {
    for &a in &grid() {
        for &b in &grid() {
            let lt = weaver::value::lt_bits(a.to_bits(), b.to_bits());
            assert_eq!(lt, a < b, "lt {a:?} {b:?}");
        }
    }
}

#[test]
fn negate_flips_sign() {
    for &a in &grid() {
        let ours = arith::neg_bits(a.to_bits());
        if a.is_nan() {
            assert_eq!(ours, CANONICAL_NAN);
        } else {
            assert_eq!(ours, (-a).to_bits(), "neg {a:?}");
        }
    }
}

#[test]
fn division_by_zero_follows_ieee() {
    let one = 1.0f64.to_bits();
    let zero = 0.0f64.to_bits();
    let neg_zero = (-0.0f64).to_bits();
    assert_eq!(arith::div_bits(one, zero), f64::INFINITY.to_bits());
    assert_eq!(arith::div_bits(one, neg_zero), f64::NEG_INFINITY.to_bits());
    assert_eq!(arith::div_bits(zero, zero), CANONICAL_NAN);
}
