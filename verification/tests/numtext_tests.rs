//! Number literals and printed numbers, against the host's parsing.

use weaver::numtext;

#[test]
fn parse_small_integers() {
    assert_eq!(numtext::parse_number_bits(b"5"), Some(5.0f64.to_bits()));
    assert_eq!(numtext::parse_number_bits(b"0"), Some(0.0f64.to_bits()));
    assert_eq!(numtext::parse_number_bits(b"42"), Some(42.0f64.to_bits()));
    assert_eq!(numtext::parse_number_bits(b"123"), Some(123.0f64.to_bits()));
}

#[test]
fn parse_decimals_match_host() {
    // Literals of up to 15 significant digits: the digits fit 2^53
    // exactly, so the one rounding of the scaling division is the only
    // rounding, as on the host.
    for s in ["123.456", "0.1", "0.5", "3.14159", "2.5", "1000000.25", "99999999999999.9"] {
        let host: f64 = s.parse().unwrap();
        assert_eq!(
            numtext::parse_number_bits(s.as_bytes()),
            Some(host.to_bits()),
            "parsing {s}"
        );
    }
}

#[test]
fn parse_rejects_bad_shapes() {
    assert_eq!(numtext::parse_number_bits(b""), None);
    assert_eq!(numtext::parse_number_bits(b"."), None);
    assert_eq!(numtext::parse_number_bits(b".5"), None);
    assert_eq!(numtext::parse_number_bits(b"5."), None);
    assert_eq!(numtext::parse_number_bits(b"1.2.3"), None);
    assert_eq!(numtext::parse_number_bits(b"12a"), None);
}

#[test]
fn format_integers_exactly() {
    assert_eq!(numtext::format_number_bits(11.0f64.to_bits()), b"11".to_vec());
    assert_eq!(numtext::format_number_bits(0.0f64.to_bits()), b"0".to_vec());
    assert_eq!(numtext::format_number_bits((-0.0f64).to_bits()), b"-0".to_vec());
    assert_eq!(numtext::format_number_bits((-21.0f64).to_bits()), b"-21".to_vec());
    assert_eq!(numtext::format_number_bits(1000000.0f64.to_bits()), b"1000000".to_vec());
}

#[test]
fn format_specials() {
    assert_eq!(numtext::format_number_bits(f64::NAN.to_bits()), b"NaN".to_vec());
    assert_eq!(numtext::format_number_bits(f64::INFINITY.to_bits()), b"inf".to_vec());
    assert_eq!(numtext::format_number_bits(f64::NEG_INFINITY.to_bits()), b"-inf".to_vec());
}

#[test]
fn format_parse_round_trip() {
    for x in [0.5f64, 0.1, 0.25, 3.14159, 123.456, 2.5, 0.3333333333333333, 100.125] {
        let text = numtext::format_number_bits(x.to_bits());
        let back = numtext::parse_number_bits(&text);
        assert_eq!(back, Some(x.to_bits()), "round trip of {x} via {:?}", String::from_utf8_lossy(&text));
    }
}
