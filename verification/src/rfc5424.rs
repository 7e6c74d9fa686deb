//! The structured layout:
//! `<PRI>1 stamp host app-name proc-id msg-id structured-data text`.

use vstd::prelude::*;
use vstd::utf8::encode_utf8;
use crate::ascii::{DASH, ONE, SPACE};
use crate::bytes::{append, append_text, lemma_opening_stays, lemma_parts_of_line};
use crate::decimal::{decimal, push_decimal, push_signed_decimal, signed_decimal};
use crate::facility::Facility;
use crate::format::{Layout, LogFormat};
use crate::message::Message;
use crate::priority::{priority_field, priority_value, push_priority};
use crate::severity::Severity;
use crate::structured_data::{
    element_text, elements_text, lemma_every_element_is_written, structured_data_text, ElementView,
    StructuredData,
};
use crate::timestamp::{now_utc, Timestamp};

verus! {

/// A field as written where it may be missing: a single dash stands for a
/// field without a value.
pub open spec fn or_nil(field: Option<Seq<u8>>) -> Seq<u8> {
    match field {
        Some(value) => value,
        None => seq![DASH],
    }
}

/// A line of the structured layout: the priority in angle brackets, at
/// once the version `1`, then stamp, host name, application name, process
/// id, message id, structured data and text, parted by single spaces.
pub open spec fn structured_line(
    priority: nat,
    stamp: Seq<u8>,
    hostname: Seq<u8>,
    app_name: Seq<u8>,
    proc_id: Seq<u8>,
    msg_id: Seq<u8>,
    structured_data: Seq<u8>,
    text: Seq<u8>,
) -> Seq<u8> {
    structured_header(priority, stamp, hostname, app_name, proc_id) + msg_id + seq![SPACE]
        + structured_data + seq![SPACE] + text
}

/// What a line of the structured layout says of its sender and its time:
/// the line up to and with the space after the process id.
pub open spec fn structured_header(
    priority: nat,
    stamp: Seq<u8>,
    hostname: Seq<u8>,
    app_name: Seq<u8>,
    proc_id: Seq<u8>,
) -> Seq<u8> {
    priority_field(priority) + seq![ONE, SPACE] + stamp + seq![SPACE] + hostname + seq![SPACE]
        + app_name + seq![SPACE] + proc_id + seq![SPACE]
}

/// What the structured layout needs to know of the sender.
#[derive(Clone, Debug)]
pub struct Formatter5424 {
    /// The facility that every message is sent under.
    pub facility: Facility,
    /// The sender's host name; without one, lines carry a dash.
    pub hostname: Option<String>,
    /// The name of the sending process; where it is empty, lines carry a
    /// dash.
    pub process: String,
    /// The id of the sending process; zero is sent as `0`.
    pub pid: u32,
}

impl Formatter5424 {
    /// The host name field of every line.
    pub open spec fn hostname_field(&self) -> Seq<u8> {
        or_nil(
            match self.hostname {
                Some(name) => Some(encode_utf8(name@)),
                None => None,
            },
        )
    }

    /// The application name field of every line.
    pub open spec fn app_name_field(&self) -> Seq<u8> {
        or_nil(
            if encode_utf8(self.process@).len() == 0 {
                None
            } else {
                Some(encode_utf8(self.process@))
            },
        )
    }

    /// The line at `severity`, stamped with `stamp`, for a message with the
    /// given id (if it has one), structured data and text.
    pub open spec fn rendered(
        &self,
        severity: Severity,
        stamp: Timestamp,
        msg_id: Option<int>,
        data: Seq<ElementView>,
        text: Seq<u8>,
    ) -> Seq<u8> {
        structured_line(
            priority_value(self.facility, severity) as nat,
            stamp.structured_stamp(),
            self.hostname_field(),
            self.app_name_field(),
            decimal(self.pid as nat),
            or_nil(
                match msg_id {
                    Some(id) => Some(signed_decimal(id)),
                    None => None,
                },
            ),
            structured_data_text(data),
            text,
        )
    }

    /// The line up to and with the space after the process id.
    pub open spec fn header(&self, severity: Severity, stamp: Timestamp) -> Seq<u8> {
        structured_header(
            priority_value(self.facility, severity) as nat,
            stamp.structured_stamp(),
            self.hostname_field(),
            self.app_name_field(),
            decimal(self.pid as nat),
        )
    }

    /// Renders the line up to and with the space after the process id.
    fn render_header(&self, severity: Severity, stamp: &Timestamp) -> (line: Vec<u8>)
        requires
            stamp.wf(),
        ensures
            line@ == self.header(severity, *stamp),
    {
        let mut line: Vec<u8> = Vec::new();
        push_priority(&mut line, severity, self.facility);
        line.push(ONE);
        line.push(SPACE);
        let ghost opening = priority_field(priority_value(self.facility, severity) as nat) + seq![
            ONE,
            SPACE,
        ];
        let stamp_text = stamp.to_structured_stamp();
        append(&mut line, stamp_text.as_slice());
        line.push(SPACE);
        let ghost stamped = opening + stamp.structured_stamp() + seq![SPACE];
        assert(line@ =~= stamped);
        match &self.hostname {
            Some(name) => append_text(&mut line, name.as_str()),
            None => line.push(DASH),
        }
        line.push(SPACE);
        let ghost hosted = stamped + self.hostname_field() + seq![SPACE];
        assert(line@ =~= hosted);
        if self.process.as_str().as_bytes().len() == 0 {
            line.push(DASH);
        } else {
            append_text(&mut line, self.process.as_str());
        }
        line.push(SPACE);
        let ghost named = hosted + self.app_name_field() + seq![SPACE];
        assert(line@ =~= named);
        push_decimal(&mut line, self.pid as u64);
        line.push(SPACE);
        assert(line@ =~= named + decimal(self.pid as nat) + seq![SPACE]);
        line
    }
}

/// A line of the structured layout opens with the priority field; the
/// version and a space follow it, and the stamp follows them.
pub proof fn lemma_structured_line_opening(
    priority: nat,
    stamp: Seq<u8>,
    hostname: Seq<u8>,
    app_name: Seq<u8>,
    proc_id: Seq<u8>,
    msg_id: Seq<u8>,
    structured_data: Seq<u8>,
    text: Seq<u8>,
)
    ensures
        ({
            let line = structured_line(
                priority,
                stamp,
                hostname,
                app_name,
                proc_id,
                msg_id,
                structured_data,
                text,
            );
            let width = priority_field(priority).len() as int;
            let stamped = width + 2 + stamp.len();
            &&& line.len() >= stamped
            &&& line.subrange(0, width) == priority_field(priority)
            &&& line.subrange(width, width + 2) == seq![ONE, SPACE]
            &&& line.subrange(width + 2, stamped) == stamp
        }),
{
    let field = priority_field(priority);
    let opening = field + seq![ONE, SPACE] + stamp;
    let space = seq![SPACE];
    // the line grows from its opening, field by field
    let l1 = opening + space;
    let l2 = l1 + hostname;
    let l3 = l2 + space;
    let l4 = l3 + app_name;
    let l5 = l4 + space;
    let l6 = l5 + proc_id;
    let l7 = l6 + space;
    let l8 = l7 + msg_id;
    let l9 = l8 + space;
    let l10 = l9 + structured_data;
    let l11 = l10 + space;
    assert(opening.subrange(0, opening.len() as int) =~= opening);
    lemma_opening_stays(opening, opening, space);
    lemma_opening_stays(opening, l1, hostname);
    lemma_opening_stays(opening, l2, space);
    lemma_opening_stays(opening, l3, app_name);
    lemma_opening_stays(opening, l4, space);
    lemma_opening_stays(opening, l5, proc_id);
    lemma_opening_stays(opening, l6, space);
    lemma_opening_stays(opening, l7, msg_id);
    lemma_opening_stays(opening, l8, space);
    lemma_opening_stays(opening, l9, structured_data);
    lemma_opening_stays(opening, l10, space);
    lemma_opening_stays(opening, l11, text);
    // and the opening is the field, the version and the stamp
    lemma_parts_of_line(field, seq![ONE, SPACE], stamp, Seq::empty());
    let line = l11 + text;
    let width = field.len() as int;
    let stamped = width + 2 + stamp.len();
    assert(line.subrange(0, width) =~= opening.subrange(0, width));
    assert(line.subrange(width, width + 2) =~= opening.subrange(width, width + 2));
    assert(line.subrange(width + 2, stamped) =~= opening.subrange(width + 2, stamped));
}

/// Every line opens with the priority field; the version and a space
/// follow it, and the stamp follows them.
pub proof fn lemma_structured_line_opens_with_priority(
    formatter: Formatter5424,
    severity: Severity,
    stamp: Timestamp,
    msg_id: Option<int>,
    data: Seq<ElementView>,
    text: Seq<u8>,
)
    ensures
        ({
            let line = formatter.rendered(severity, stamp, msg_id, data, text);
            let field = priority_field(priority_value(formatter.facility, severity) as nat);
            let width = field.len() as int;
            let stamped = width + 2 + stamp.structured_stamp().len();
            &&& line.len() >= stamped
            &&& line.subrange(0, width) == field
            &&& line.subrange(width, width + 2) == seq![ONE, SPACE]
            &&& line.subrange(width + 2, stamped) == stamp.structured_stamp()
        }),
{
    lemma_structured_line_opening(
        priority_value(formatter.facility, severity) as nat,
        stamp.structured_stamp(),
        formatter.hostname_field(),
        formatter.app_name_field(),
        decimal(formatter.pid as nat),
        or_nil(
            match msg_id {
                Some(id) => Some(signed_decimal(id)),
                None => None,
            },
        ),
        structured_data_text(data),
        text,
    );
}

/// Without structured data, exactly a dash stands where it would: the line
/// is the header, the message id, and then a space, a dash, a space and the
/// text.
pub proof fn lemma_structured_line_without_data(
    formatter: Formatter5424,
    severity: Severity,
    stamp: Timestamp,
    msg_id: Option<int>,
    text: Seq<u8>,
)
    ensures
        structured_data_text(Seq::<ElementView>::empty()) == seq![DASH],
        formatter.rendered(severity, stamp, msg_id, Seq::empty(), text) == formatter.header(
            severity,
            stamp,
        ) + or_nil(
            match msg_id {
                Some(id) => Some(signed_decimal(id)),
                None => None,
            },
        ) + seq![SPACE, DASH, SPACE] + text,
{
}

/// A line ends with the text, and nothing follows it.
pub proof fn lemma_structured_line_ends_with_text(
    formatter: Formatter5424,
    severity: Severity,
    stamp: Timestamp,
    msg_id: Option<int>,
    data: Seq<ElementView>,
    text: Seq<u8>,
)
    ensures
        formatter.rendered(severity, stamp, msg_id, data, text) == formatter.rendered(
            severity,
            stamp,
            msg_id,
            data,
            Seq::empty(),
        ) + text,
{
}

/// With structured data, every element stands in the line, whole and in
/// its place: the line is the header, the message id, a space, the
/// elements before it, the element, the elements after it, a space and the
/// text.
pub proof fn lemma_structured_line_with_data(
    formatter: Formatter5424,
    severity: Severity,
    stamp: Timestamp,
    msg_id: Option<int>,
    data: Seq<ElementView>,
    text: Seq<u8>,
    i: int,
)
    requires
        0 <= i < data.len(),
    ensures
        formatter.rendered(severity, stamp, msg_id, data, text) == formatter.header(
            severity,
            stamp,
        ) + or_nil(
            match msg_id {
                Some(id) => Some(signed_decimal(id)),
                None => None,
            },
        ) + seq![SPACE] + elements_text(data.take(i)) + element_text(data[i]) + elements_text(
            data.skip(i + 1),
        ) + seq![SPACE] + text,
{
    lemma_every_element_is_written(data, i);
}

/// A text alone is sent without a message id and without structured data:
/// a dash stands for each.
impl<T: Message> Layout<T> for Formatter5424 {
    open spec fn line(&self, severity: Severity, stamp: Timestamp, message: T) -> Seq<u8> {
        self.rendered(severity, stamp, None, Seq::empty(), message.text())
    }

    open spec fn stamps_with(&self, stamp: Timestamp) -> bool {
        stamp.wf() && stamp.utc_offset == 0
    }

    fn render(&self, severity: Severity, stamp: &Timestamp, message: &T) -> (line: Vec<u8>) {
        let mut line = self.render_header(severity, stamp);
        line.push(DASH);
        line.push(SPACE);
        line.push(DASH);
        line.push(SPACE);
        let ghost head = self.header(severity, *stamp) + seq![DASH, SPACE, DASH, SPACE];
        message.write_text(&mut line);
        assert(head + message.text() =~= self.rendered(
            severity,
            *stamp,
            None,
            Seq::<ElementView>::empty(),
            message.text(),
        ));
        line
    }

    fn clock(&self) -> (reading: Option<Timestamp>) {
        now_utc()
    }
}

impl<T: Message> LogFormat<T> for Formatter5424 {
}

/// A message id, structured data and a text are sent as they are given.
impl<T: Message> Layout<(i32, StructuredData, T)> for Formatter5424 {
    open spec fn line(
        &self,
        severity: Severity,
        stamp: Timestamp,
        message: (i32, StructuredData, T),
    ) -> Seq<u8> {
        self.rendered(severity, stamp, Some(message.0 as int), message.1@, message.2.text())
    }

    open spec fn stamps_with(&self, stamp: Timestamp) -> bool {
        stamp.wf() && stamp.utc_offset == 0
    }

    fn render(&self, severity: Severity, stamp: &Timestamp, message: &(i32, StructuredData, T)) -> (line:
        Vec<u8>) {
        let mut line = self.render_header(severity, stamp);
        push_signed_decimal(&mut line, message.0 as i64);
        line.push(SPACE);
        let ghost numbered = self.header(severity, *stamp) + signed_decimal(message.0 as int)
            + seq![SPACE];
        assert(line@ =~= numbered);
        message.1.write(&mut line);
        line.push(SPACE);
        let ghost head = numbered + structured_data_text(message.1@) + seq![SPACE];
        assert(line@ =~= head);
        message.2.write_text(&mut line);
        line
    }

    fn clock(&self) -> (reading: Option<Timestamp>) {
        now_utc()
    }
}

impl<T: Message> LogFormat<(i32, StructuredData, T)> for Formatter5424 {
}

} // verus!
