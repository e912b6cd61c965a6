use prefprobe::value::{decode, PlistDataType, RawPrefValue};

#[test]
fn decode_null_is_absent() {
    assert!(decode(RawPrefValue::Null).is_none());
}

#[test]
fn decode_text_round_trips() {
    let s = "https://repo.example.com/munki".to_string();
    match decode(RawPrefValue::Text(Some(s.clone()))) {
        Some(PlistDataType::Str(out)) => assert_eq!(out, s),
        _ => panic!("expected a string"),
    }
}

#[test]
fn decode_text_round_trips_non_ascii() {
    let s = "pr\u{e9}f\u{e9}rences \u{2014} caf\u{e9}".to_string();
    match decode(RawPrefValue::Text(Some(s.clone()))) {
        Some(PlistDataType::Str(out)) => assert_eq!(out, s),
        _ => panic!("expected a string"),
    }
}

#[test]
fn decode_failed_text_extraction_is_absent() {
    assert!(decode(RawPrefValue::Text(None)).is_none());
}

#[test]
fn decode_integer_is_exact() {
    for &i in &[0i64, 1, -1, 42, i64::MAX, i64::MIN] {
        match decode(RawPrefValue::Number(i)) {
            Some(PlistDataType::Int(out)) => assert_eq!(out, i),
            _ => panic!("expected an integer"),
        }
    }
}

#[test]
fn decode_boolean_keeps_tag() {
    match decode(RawPrefValue::Boolean(true)) {
        Some(PlistDataType::Bool(b)) => assert!(b),
        _ => panic!("expected a boolean"),
    }
    match decode(RawPrefValue::Boolean(false)) {
        Some(PlistDataType::Bool(b)) => assert!(!b),
        _ => panic!("expected a boolean"),
    }
}

#[test]
fn decode_unsupported_is_absent() {
    assert!(decode(RawPrefValue::Other).is_none());
}

#[test]
fn unwrap_int_returns_payload() {
    let v = PlistDataType::Int(-77);
    assert_eq!(v.unwrap_int(), -77);
}
