use esp_syslog::{Facility, Formatter5424, Layout, Message, Severity, StructuredData, Timestamp};

fn stamp() -> Timestamp {
    Timestamp::new(2024, 3, 7, 9, 5, 1, 0).unwrap()
}

fn formatter() -> Formatter5424 {
    Formatter5424 {
        facility: Facility::LOG_USER,
        hostname: Some("host".to_string()),
        process: "myprogram".to_string(),
        pid: 0,
    }
}

fn plain<T: Message>(f: &Formatter5424, severity: Severity, message: T) -> String {
    String::from_utf8(f.render(severity, &stamp(), &message)).unwrap()
}

fn full<T: Message>(f: &Formatter5424, severity: Severity, id: i32, data: StructuredData, message: T) -> String {
    String::from_utf8(f.render(severity, &stamp(), &(id, data, message))).unwrap()
}

#[test]
fn structured_line_for_a_text_alone() {
    assert_eq!(
        plain(&formatter(), Severity::LOG_ERR, "hello world"),
        "<11>1 2024-03-07T09:05:01Z host myprogram 0 - - hello world"
    );
}

#[test]
fn structured_line_with_empty_data_has_a_dash() {
    assert_eq!(
        full(&formatter(), Severity::LOG_ERR, 1, StructuredData::new(), "hello world"),
        "<11>1 2024-03-07T09:05:01Z host myprogram 0 1 - hello world"
    );
}

#[test]
fn structured_line_without_a_hostname_has_a_dash() {
    let f = Formatter5424 { hostname: None, ..formatter() };
    assert_eq!(
        plain(&f, Severity::LOG_INFO, "m"),
        "<14>1 2024-03-07T09:05:01Z - myprogram 0 - - m"
    );
}

#[test]
fn structured_line_with_an_empty_process_name_has_a_dash() {
    let f = Formatter5424 { process: String::new(), pid: 77, ..formatter() };
    assert_eq!(plain(&f, Severity::LOG_INFO, "m"), "<14>1 2024-03-07T09:05:01Z host - 77 - - m");
}

#[test]
fn structured_line_with_elements() {
    let mut data = StructuredData::new();
    data.insert("exampleSDID@32473", "iut", "3");
    data.insert("exampleSDID@32473", "eventSource", "Application");
    data.insert("exampleSDID@32473", "eventID", "1011");
    data.insert("examplePriority@32473", "class", "high");
    assert_eq!(
        full(&formatter(), Severity::LOG_NOTICE, 42, data, "An application event log entry"),
        "<13>1 2024-03-07T09:05:01Z host myprogram 0 42 \
         [exampleSDID@32473 iut=\"3\" eventSource=\"Application\" eventID=\"1011\"]\
         [examplePriority@32473 class=\"high\"] An application event log entry"
    );
}

#[test]
fn structured_line_escapes_quote_bracket_and_backslash() {
    let mut data = StructuredData::new();
    data.insert("e", "k", "a\"b]c\\d[e");
    assert_eq!(
        full(&formatter(), Severity::LOG_DEBUG, 0, data, ""),
        "<15>1 2024-03-07T09:05:01Z host myprogram 0 0 [e k=\"a\\\"b\\]c\\\\d[e\"] "
    );
}

#[test]
fn structured_line_with_a_negative_message_id() {
    assert_eq!(
        full(&formatter(), Severity::LOG_ERR, -5, StructuredData::new(), 9u32),
        "<11>1 2024-03-07T09:05:01Z host myprogram 0 -5 - 9"
    );
    assert_eq!(
        full(&formatter(), Severity::LOG_ERR, i32::MIN, StructuredData::new(), "x".to_string()),
        "<11>1 2024-03-07T09:05:01Z host myprogram 0 -2147483648 - x"
    );
}

#[test]
fn structured_line_carries_every_priority_verbatim() {
    for code in 0u8..24 {
        for s in 0u8..8 {
            let f = Formatter5424 { facility: Facility::from_code(code).unwrap(), ..formatter() };
            let line = plain(&f, Severity::from_code(s).unwrap(), "m");
            assert_eq!(
                line,
                format!(
                    "<{}>1 2024-03-07T09:05:01Z host myprogram 0 - - m",
                    code as u32 * 8 + s as u32
                )
            );
        }
    }
}

#[test]
fn structured_rendering_is_repeatable() {
    let build = || {
        let mut data = StructuredData::new();
        data.insert("b", "y", "2");
        data.insert("a", "x", "1");
        data.insert("b", "x", "3");
        data
    };
    let one = full(&formatter(), Severity::LOG_ERR, 1, build(), "m");
    let two = full(&formatter(), Severity::LOG_ERR, 1, build(), "m");
    assert_eq!(one, two);
    assert_eq!(
        one,
        "<11>1 2024-03-07T09:05:01Z host myprogram 0 1 [b y=\"2\" x=\"3\"][a x=\"1\"] m"
    );
}
