use esp_syslog::timestamp::{now, now_utc};
use esp_syslog::Timestamp;

fn text(bytes: Vec<u8>) -> String {
    String::from_utf8(bytes).unwrap()
}

#[test]
fn new_keeps_the_calendar_fields() {
    let t = Timestamp::new(2024, 3, 7, 9, 5, 1, 3600).unwrap();
    assert_eq!(t.years_since_1900, 124);
    assert_eq!(t.months_since_january, 2);
    assert_eq!(t.day, 7);
    assert_eq!(t.hour, 9);
    assert_eq!(t.minute, 5);
    assert_eq!(t.second, 1);
    assert_eq!(t.utc_offset, 3600);
    assert!(t.is_valid());
}

#[test]
fn new_refuses_fields_out_of_range() {
    assert!(Timestamp::new(999, 1, 1, 0, 0, 0, 0).is_none());
    assert!(Timestamp::new(10000, 1, 1, 0, 0, 0, 0).is_none());
    assert!(Timestamp::new(2024, 0, 1, 0, 0, 0, 0).is_none());
    assert!(Timestamp::new(2024, 13, 1, 0, 0, 0, 0).is_none());
    assert!(Timestamp::new(2024, 1, 0, 0, 0, 0, 0).is_none());
    assert!(Timestamp::new(2024, 1, 32, 0, 0, 0, 0).is_none());
    assert!(Timestamp::new(2024, 1, 1, -1, 0, 0, 0).is_none());
    assert!(Timestamp::new(2024, 1, 1, 24, 0, 0, 0).is_none());
    assert!(Timestamp::new(2024, 1, 1, 0, 60, 0, 0).is_none());
    assert!(Timestamp::new(2024, 1, 1, 0, 0, 61, 0).is_none());
    assert!(Timestamp::new(2024, 1, 1, 0, 0, 0, 86400).is_none());
    assert!(Timestamp::new(2024, 1, 1, 0, 0, 0, -86400).is_none());
    assert!(Timestamp::new(i32::MAX, 1, 1, 0, 0, 0, 0).is_none());
    assert!(Timestamp::new(i32::MIN, 1, 1, 0, 0, 0, 0).is_none());
}

#[test]
fn new_accepts_the_edges_of_each_range() {
    assert!(Timestamp::new(1000, 1, 1, 0, 0, 0, -86399).is_some());
    assert!(Timestamp::new(9999, 12, 31, 23, 59, 60, 86399).is_some());
}

#[test]
fn checked_keeps_a_valid_reading_and_drops_another() {
    let good = Timestamp::new(2024, 3, 7, 9, 5, 1, 3600).unwrap();
    assert_eq!(good.checked(), Some(good));
    assert_eq!(good.checked_utc(), None);
    let utc = Timestamp::new(2024, 3, 7, 9, 5, 1, 0).unwrap();
    assert_eq!(utc.checked_utc(), Some(utc));
    let bad = Timestamp { months_since_january: 12, ..good };
    assert!(!bad.is_valid());
    assert_eq!(bad.checked(), None);
    assert_eq!(bad.checked_utc(), None);
}

#[test]
fn legacy_stamp_pads_the_day_with_a_space() {
    let t = Timestamp::new(2024, 1, 1, 0, 0, 0, 0).unwrap();
    assert_eq!(text(t.to_legacy_stamp()), "Jan  1 00:00:00");
    let t = Timestamp::new(2024, 3, 7, 9, 5, 1, 0).unwrap();
    assert_eq!(text(t.to_legacy_stamp()), "Mar  7 09:05:01");
}

#[test]
fn legacy_stamp_has_two_digits_for_a_late_day() {
    let t = Timestamp::new(2023, 12, 31, 23, 59, 60, 0).unwrap();
    assert_eq!(text(t.to_legacy_stamp()), "Dec 31 23:59:60");
    let t = Timestamp::new(2023, 10, 10, 10, 10, 10, 7200).unwrap();
    assert_eq!(text(t.to_legacy_stamp()), "Oct 10 10:10:10");
}

#[test]
fn legacy_stamp_names_every_month() {
    let names = [
        "Jan", "Feb", "Mar", "Apr", "May", "Jun", "Jul", "Aug", "Sep", "Oct", "Nov", "Dec",
    ];
    for (i, name) in names.iter().enumerate() {
        let t = Timestamp::new(2024, i as i32 + 1, 15, 12, 30, 45, 0).unwrap();
        let stamp = text(t.to_legacy_stamp());
        assert_eq!(stamp, format!("{} 15 12:30:45", name));
        assert_eq!(stamp.len(), 15);
    }
}

#[test]
fn structured_stamp_in_utc_ends_with_z() {
    let t = Timestamp::new(2024, 3, 7, 9, 5, 1, 0).unwrap();
    assert_eq!(text(t.to_structured_stamp()), "2024-03-07T09:05:01Z");
    let t = Timestamp::new(1000, 1, 1, 0, 0, 0, 0).unwrap();
    assert_eq!(text(t.to_structured_stamp()), "1000-01-01T00:00:00Z");
    let t = Timestamp::new(9999, 12, 31, 23, 59, 60, 0).unwrap();
    assert_eq!(text(t.to_structured_stamp()), "9999-12-31T23:59:60Z");
}

#[test]
fn structured_stamp_with_an_offset_carries_it() {
    let t = Timestamp::new(2012, 2, 22, 7, 53, 18, -25200).unwrap();
    assert_eq!(text(t.to_structured_stamp()), "2012-02-22T07:53:18-07:00");
    let t = Timestamp::new(2012, 2, 22, 7, 53, 18, 19800).unwrap();
    assert_eq!(text(t.to_structured_stamp()), "2012-02-22T07:53:18+05:30");
    let t = Timestamp::new(2012, 2, 22, 7, 53, 18, 59).unwrap();
    assert_eq!(text(t.to_structured_stamp()), "2012-02-22T07:53:18+00:00");
    let t = Timestamp::new(2012, 2, 22, 7, 53, 18, -86399).unwrap();
    assert_eq!(text(t.to_structured_stamp()), "2012-02-22T07:53:18-23:59");
}

#[test]
fn the_clock_reads_a_valid_time() {
    let local = now().unwrap();
    assert!(local.is_valid());
    assert_eq!(text(local.to_legacy_stamp()).len(), 15);
    let utc = now_utc().unwrap();
    assert!(utc.is_valid());
    assert_eq!(utc.utc_offset, 0);
    assert_eq!(text(utc.to_structured_stamp()).len(), 20);
    assert!(utc.years_since_1900 + 1900 >= 2024);
}
