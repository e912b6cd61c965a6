use prefprobe::render::{display_value, format_line, render_i64, render_u64};
use prefprobe::value::PlistDataType;

#[test]
fn render_u64_exact() {
    assert_eq!(render_u64(0), "0");
    assert_eq!(render_u64(7), "7");
    assert_eq!(render_u64(10), "10");
    assert_eq!(render_u64(12345), "12345");
    assert_eq!(render_u64(u64::MAX), "18446744073709551615");
}

#[test]
fn render_i64_exact() {
    assert_eq!(render_i64(0), "0");
    assert_eq!(render_i64(-1), "-1");
    assert_eq!(render_i64(-120), "-120");
    assert_eq!(render_i64(i64::MAX), "9223372036854775807");
    assert_eq!(render_i64(i64::MIN), "-9223372036854775808");
}

#[test]
fn display_absent_is_empty() {
    assert_eq!(display_value(&None), "");
}

#[test]
fn display_string_is_itself() {
    let v = Some(PlistDataType::Str("hello".to_string()));
    assert_eq!(display_value(&v), "hello");
}

#[test]
fn display_integer_is_decimal() {
    let v = Some(PlistDataType::Int(-42));
    assert_eq!(display_value(&v), "-42");
}

#[test]
fn display_boolean_is_word() {
    assert_eq!(display_value(&Some(PlistDataType::Bool(true))), "true");
    assert_eq!(display_value(&Some(PlistDataType::Bool(false))), "false");
}

#[test]
fn format_line_exact() {
    let line = format_line("CopyValue", "ManagedInstalls", "SoftwareRepoURL", "https://x");
    assert_eq!(line, "CopyValue: Domain ManagedInstalls / SoftwareRepoURL = https://x");
}

#[test]
fn format_line_empty_value() {
    let line = format_line("CopyAppValue", "d", "k", "");
    assert_eq!(line, "CopyAppValue: Domain d / k = ");
}
