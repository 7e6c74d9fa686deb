use esp_syslog::decimal::{push_decimal, push_signed_decimal};
use esp_syslog::priority::push_priority;
use esp_syslog::{encode_priority, Facility, Severity};

fn decimal_of(n: u64) -> String {
    let mut out = Vec::new();
    push_decimal(&mut out, n);
    String::from_utf8(out).unwrap()
}

fn signed_decimal_of(n: i64) -> String {
    let mut out = Vec::new();
    push_signed_decimal(&mut out, n);
    String::from_utf8(out).unwrap()
}

#[test]
fn priority_is_eight_times_facility_plus_severity() {
    for f in 0u8..24 {
        for s in 0u8..8 {
            let facility = Facility::from_code(f).unwrap();
            let severity = Severity::from_code(s).unwrap();
            assert_eq!(facility.code(), f);
            assert_eq!(severity.code(), s);
            assert_eq!(encode_priority(severity, facility), f * 8 + s);
        }
    }
}

#[test]
fn priority_of_user_err_is_eleven() {
    assert_eq!(encode_priority(Severity::LOG_ERR, Facility::LOG_USER), 11);
}

#[test]
fn priority_spans_zero_to_191() {
    assert_eq!(encode_priority(Severity::LOG_EMERG, Facility::LOG_KERN), 0);
    assert_eq!(encode_priority(Severity::LOG_DEBUG, Facility::LOG_LOCAL7), 191);
}

#[test]
fn codes_outside_the_range_name_nothing() {
    assert_eq!(Facility::from_code(24), None);
    assert_eq!(Facility::from_code(255), None);
    assert_eq!(Severity::from_code(8), None);
    assert_eq!(Severity::from_code(255), None);
}

#[test]
fn named_facilities_have_their_conventional_codes() {
    assert_eq!(Facility::LOG_KERN.code(), 0);
    assert_eq!(Facility::LOG_USER.code(), 1);
    assert_eq!(Facility::LOG_DAEMON.code(), 3);
    assert_eq!(Facility::LOG_AUTHPRIV.code(), 10);
    assert_eq!(Facility::LOG_LOCAL0.code(), 16);
    assert_eq!(Facility::LOG_LOCAL7.code(), 23);
}

#[test]
fn named_severities_have_their_conventional_codes() {
    assert_eq!(Severity::LOG_EMERG.code(), 0);
    assert_eq!(Severity::LOG_ALERT.code(), 1);
    assert_eq!(Severity::LOG_CRIT.code(), 2);
    assert_eq!(Severity::LOG_ERR.code(), 3);
    assert_eq!(Severity::LOG_WARNING.code(), 4);
    assert_eq!(Severity::LOG_NOTICE.code(), 5);
    assert_eq!(Severity::LOG_INFO.code(), 6);
    assert_eq!(Severity::LOG_DEBUG.code(), 7);
}

#[test]
fn priority_field_is_decimal_without_padding() {
    let mut out = b"x".to_vec();
    push_priority(&mut out, Severity::LOG_EMERG, Facility::LOG_KERN);
    push_priority(&mut out, Severity::LOG_ERR, Facility::LOG_USER);
    push_priority(&mut out, Severity::LOG_DEBUG, Facility::LOG_LOCAL7);
    assert_eq!(String::from_utf8(out).unwrap(), "x<0><11><191>");
}

#[test]
fn decimal_has_no_padding_and_no_leading_zero() {
    assert_eq!(decimal_of(0), "0");
    assert_eq!(decimal_of(7), "7");
    assert_eq!(decimal_of(10), "10");
    assert_eq!(decimal_of(191), "191");
    assert_eq!(decimal_of(1000), "1000");
    assert_eq!(decimal_of(4294967295), "4294967295");
    assert_eq!(decimal_of(u64::MAX), "18446744073709551615");
}

#[test]
fn decimal_is_appended_to_what_is_there() {
    let mut out = b"pid=".to_vec();
    push_decimal(&mut out, 42);
    assert_eq!(out, b"pid=42".to_vec());
}

#[test]
fn signed_decimal_carries_a_minus_sign() {
    assert_eq!(signed_decimal_of(0), "0");
    assert_eq!(signed_decimal_of(5), "5");
    assert_eq!(signed_decimal_of(-1), "-1");
    assert_eq!(signed_decimal_of(-120), "-120");
    assert_eq!(signed_decimal_of(i64::MAX), "9223372036854775807");
    assert_eq!(signed_decimal_of(i64::MIN), "-9223372036854775808");
}
