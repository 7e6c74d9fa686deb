//! The older, compact layout: `<PRI>Mon dd hh:mm:ss host process[pid]: text`.

use vstd::prelude::*;
use vstd::utf8::encode_utf8;
use crate::ascii::{ascii_bytes, CLOSE, COLON, OPEN, SPACE};
use crate::bytes::{append, append_text};
use crate::decimal::{decimal, push_decimal};
use crate::facility::Facility;
use crate::format::{Layout, LogFormat};
use crate::message::Message;
use crate::priority::{priority_field, priority_value, push_priority};
use crate::severity::Severity;
use crate::timestamp::{now, Timestamp};

verus! {

/// The host name that a line carries where the formatter was given none.
pub const FALLBACK_HOSTNAME: &'static str = "localhost";

/// A line of the older layout: the priority in angle brackets, at once the
/// stamp, then host name, process name with the process id in square
/// brackets, a colon, and the text, parted by single spaces.
pub open spec fn legacy_line(
    priority: nat,
    stamp: Seq<u8>,
    hostname: Seq<u8>,
    process: Seq<u8>,
    pid: nat,
    text: Seq<u8>,
) -> Seq<u8> {
    priority_field(priority) + stamp + seq![SPACE] + hostname + seq![SPACE] + process + seq![OPEN]
        + decimal(pid) + seq![CLOSE, COLON, SPACE] + text
}

/// What the older layout needs to know of the sender.
#[derive(Clone, Debug)]
pub struct Formatter3164 {
    /// The facility that every message is sent under.
    pub facility: Facility,
    /// The sender's host name; without one, lines carry
    /// `FALLBACK_HOSTNAME`.
    pub hostname: Option<String>,
    /// The name of the sending process; it may be empty.
    pub process: String,
    /// The id of the sending process; zero is sent as `0`.
    pub pid: u32,
}

impl Formatter3164 {
    /// The host name field of every line.
    pub open spec fn hostname_field(&self) -> Seq<u8> {
        match self.hostname {
            Some(name) => encode_utf8(name@),
            None => encode_utf8(FALLBACK_HOSTNAME@),
        }
    }

    /// The line for `text` at `severity`, stamped with `stamp`.
    pub open spec fn rendered(&self, severity: Severity, stamp: Timestamp, text: Seq<u8>) -> Seq<
        u8,
    > {
        legacy_line(
            priority_value(self.facility, severity) as nat,
            stamp.legacy_stamp(),
            self.hostname_field(),
            encode_utf8(self.process@),
            self.pid as nat,
            text,
        )
    }
}

/// Every line opens with the priority field, and the stamp follows it at
/// once.
pub proof fn lemma_legacy_line_opens_with_priority(
    formatter: Formatter3164,
    severity: Severity,
    stamp: Timestamp,
    text: Seq<u8>,
)
    ensures
        ({
            let line = formatter.rendered(severity, stamp, text);
            let field = priority_field(priority_value(formatter.facility, severity) as nat);
            let width = field.len() as int;
            let stamped = width + stamp.legacy_stamp().len();
            &&& line.len() >= stamped
            &&& line.subrange(0, width) == field
            &&& line.subrange(width, stamped) == stamp.legacy_stamp()
        }),
{
}

/// With a host name, a line is the priority field, the stamp, a space, the
/// host name, a space, the process name, the process id in square
/// brackets, a colon, a space, and the text, whatever the text is.
pub proof fn lemma_legacy_line_with_hostname(
    formatter: Formatter3164,
    severity: Severity,
    stamp: Timestamp,
    text: Seq<u8>,
)
    requires
        formatter.hostname is Some,
    ensures
        formatter.rendered(severity, stamp, text) == priority_field(
            priority_value(formatter.facility, severity) as nat,
        ) + stamp.legacy_stamp() + seq![SPACE] + encode_utf8(formatter.hostname->0@) + seq![SPACE]
            + encode_utf8(formatter.process@) + seq![OPEN] + decimal(formatter.pid as nat) + seq![
            CLOSE,
            COLON,
            SPACE,
        ] + text,
{
}

/// A line ends with the text, and nothing follows it.
pub proof fn lemma_legacy_line_ends_with_text(
    formatter: Formatter3164,
    severity: Severity,
    stamp: Timestamp,
    text: Seq<u8>,
)
    ensures
        formatter.rendered(severity, stamp, text) == formatter.rendered(
            severity,
            stamp,
            Seq::empty(),
        ) + text,
{
}

/// Without a host name, the fallback stands in its place: the field is
/// `localhost`, and so is never empty.
pub proof fn lemma_legacy_line_without_hostname(
    formatter: Formatter3164,
    severity: Severity,
    stamp: Timestamp,
    text: Seq<u8>,
)
    requires
        formatter.hostname is None,
    ensures
        formatter.hostname_field() == ascii_bytes("localhost"@),
        formatter.hostname_field().len() == 9,
        formatter.rendered(severity, stamp, text) == priority_field(
            priority_value(formatter.facility, severity) as nat,
        ) + stamp.legacy_stamp() + seq![SPACE] + ascii_bytes("localhost"@) + seq![SPACE]
            + encode_utf8(formatter.process@) + seq![OPEN] + decimal(formatter.pid as nat) + seq![
            CLOSE,
            COLON,
            SPACE,
        ] + text,
{
    reveal_strlit("localhost");
    let name = "localhost"@;
    vstd::utf8::is_ascii_chars_encode_utf8(name);
}

impl<T: Message> Layout<T> for Formatter3164 {
    open spec fn line(&self, severity: Severity, stamp: Timestamp, message: T) -> Seq<u8> {
        self.rendered(severity, stamp, message.text())
    }

    open spec fn stamps_with(&self, stamp: Timestamp) -> bool {
        stamp.wf()
    }

    fn render(&self, severity: Severity, stamp: &Timestamp, message: &T) -> (line: Vec<u8>) {
        let mut line: Vec<u8> = Vec::new();
        push_priority(&mut line, severity, self.facility);
        let stamp_text = stamp.to_legacy_stamp();
        append(&mut line, stamp_text.as_slice());
        line.push(SPACE);
        match &self.hostname {
            Some(name) => append_text(&mut line, name.as_str()),
            None => append_text(&mut line, FALLBACK_HOSTNAME),
        }
        line.push(SPACE);
        append_text(&mut line, self.process.as_str());
        line.push(OPEN);
        push_decimal(&mut line, self.pid as u64);
        line.push(CLOSE);
        line.push(COLON);
        line.push(SPACE);
        message.write_text(&mut line);
        line
    }

    fn clock(&self) -> (reading: Option<Timestamp>) {
        now()
    }
}

impl<T: Message> LogFormat<T> for Formatter3164 {
}

} // verus!
