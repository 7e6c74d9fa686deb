//! Calendar time: what the clock reads, and the two ways a message is
//! stamped with it.

use vstd::prelude::*;
use crate::ascii::{ascii_bytes, COLON, DASH, LETTER_T, LETTER_Z, PLUS, SPACE};
use crate::decimal::{decimal, digit};

verus! {

/// An instant broken down into calendar fields, the way a clock reports it.
///
/// The year and the month are counted as the clock counts them: the year
/// from 1900 and the month from January as month zero.
#[derive(Clone, Copy, Debug, PartialEq, Eq, Structural)]
pub struct Timestamp {
    /// Years since 1900.
    pub years_since_1900: i32,
    /// Months since January, `0..=11`.
    pub months_since_january: i32,
    /// Day of the month, `1..=31`.
    pub day: i32,
    /// Hours after midnight, `0..=23`.
    pub hour: i32,
    /// Minutes after the hour, `0..=59`.
    pub minute: i32,
    /// Seconds after the minute, `0..=60`; sixty is a leap second.
    pub second: i32,
    /// Seconds east of UTC.
    pub utc_offset: i32,
}

/// The three-letter English abbreviation of a month, counted from January
/// as month zero.
pub open spec fn month_abbreviation(months_since_january: int) -> Seq<u8> {
    ascii_bytes(
        if months_since_january == 0 {
            "Jan"@
        } else if months_since_january == 1 {
            "Feb"@
        } else if months_since_january == 2 {
            "Mar"@
        } else if months_since_january == 3 {
            "Apr"@
        } else if months_since_january == 4 {
            "May"@
        } else if months_since_january == 5 {
            "Jun"@
        } else if months_since_january == 6 {
            "Jul"@
        } else if months_since_january == 7 {
            "Aug"@
        } else if months_since_january == 8 {
            "Sep"@
        } else if months_since_january == 9 {
            "Oct"@
        } else if months_since_january == 10 {
            "Nov"@
        } else {
            "Dec"@
        },
    )
}

/// A number below one hundred as two digits, with a leading zero where it
/// is below ten.
pub open spec fn two_digits(n: int) -> Seq<u8>
    recommends
        0 <= n < 100,
{
    seq![digit((n / 10) as nat), digit((n % 10) as nat)]
}

/// A number below one hundred in two columns, with a leading space where it
/// is below ten.
pub open spec fn two_columns(n: int) -> Seq<u8>
    recommends
        0 <= n < 100,
{
    if n < 10 {
        seq![SPACE, digit(n as nat)]
    } else {
        two_digits(n)
    }
}

/// The time of day as `hh:mm:ss` on the 24-hour clock.
pub open spec fn time_of_day(t: Timestamp) -> Seq<u8> {
    two_digits(t.hour as int) + seq![COLON] + two_digits(t.minute as int) + seq![COLON]
        + two_digits(t.second as int)
}

/// The offset from UTC as a time zone designator: `Z` for no offset, else
/// the sign and `hh:mm`.
pub open spec fn zone_designator(utc_offset: int) -> Seq<u8> {
    if utc_offset == 0 {
        seq![LETTER_Z]
    } else {
        let minutes = (if utc_offset < 0 {
            -utc_offset
        } else {
            utc_offset
        }) / 60;
        seq![
            if utc_offset > 0 {
                PLUS
            } else {
                DASH
            },
        ] + two_digits(minutes / 60) + seq![COLON] + two_digits(minutes % 60)
    }
}

impl Timestamp {
    /// The calendar year.
    pub open spec fn year(&self) -> int {
        self.years_since_1900 + 1900
    }

    /// The month of the year, `1..=12`.
    pub open spec fn month(&self) -> int {
        self.months_since_january + 1
    }

    /// Whether the fields name a calendar time: each within its range, the
    /// year one of four digits, the offset less than a day.
    pub open spec fn wf(&self) -> bool {
        &&& 1000 <= self.year() <= 9999
        &&& 0 <= self.months_since_january <= 11
        &&& 1 <= self.day <= 31
        &&& 0 <= self.hour <= 23
        &&& 0 <= self.minute <= 59
        &&& 0 <= self.second <= 60
        &&& -86400 < self.utc_offset < 86400
    }

    /// The stamp of the older layout, `Mon dd hh:mm:ss`: the month's
    /// abbreviation, the day in two columns, and the time of day.
    pub open spec fn legacy_stamp(&self) -> Seq<u8> {
        month_abbreviation(self.months_since_january as int) + seq![SPACE] + two_columns(
            self.day as int,
        ) + seq![SPACE] + time_of_day(*self)
    }

    /// The stamp of the structured layout, `yyyy-mm-ddThh:mm:ss` followed
    /// by the time zone designator.
    pub open spec fn structured_stamp(&self) -> Seq<u8> {
        decimal(self.year() as nat) + seq![DASH] + two_digits(self.month()) + seq![DASH]
            + two_digits(self.day as int) + seq![LETTER_T] + time_of_day(*self) + zone_designator(
            self.utc_offset as int,
        )
    }

    /// Whether the fields name a calendar time.
    #[verifier::when_used_as_spec(wf)]
    pub fn is_valid(&self) -> (valid: bool)
        ensures
            valid == self.wf(),
    {
        -900 <= self.years_since_1900 && self.years_since_1900 <= 8099 && 0
            <= self.months_since_january && self.months_since_january <= 11 && 1 <= self.day
            && self.day <= 31 && 0 <= self.hour && self.hour <= 23 && 0 <= self.minute
            && self.minute <= 59 && 0 <= self.second && self.second <= 60 && -86400
            < self.utc_offset && self.utc_offset < 86400
    }

    /// The reading itself where its fields name a calendar time, else
    /// `None`.
    pub fn checked(self) -> (t: Option<Timestamp>)
        ensures
            t == if self.wf() {
                Some(self)
            } else {
                None
            },
    {
        if self.is_valid() {
            Some(self)
        } else {
            None
        }
    }

    /// The reading itself where its fields name a calendar time at an
    /// offset of zero from UTC, else `None`.
    pub fn checked_utc(self) -> (t: Option<Timestamp>)
        ensures
            t == if self.wf() && self.utc_offset == 0 {
                Some(self)
            } else {
                None
            },
    {
        if self.is_valid() && self.utc_offset == 0 {
            Some(self)
        } else {
            None
        }
    }

    /// The stamp of the older layout for this calendar time.
    pub fn to_legacy_stamp(&self) -> (text: Vec<u8>)
        requires
            self.wf(),
        ensures
            text@ == self.legacy_stamp(),
    {
        format_legacy_stamp(self)
    }

    /// The stamp of the structured layout for this calendar time.
    pub fn to_structured_stamp(&self) -> (text: Vec<u8>)
        requires
            self.wf(),
        ensures
            text@ == self.structured_stamp(),
    {
        format_structured_stamp(self)
    }

    /// The calendar time with the given year, month (`1..=12`), day, time
    /// of day and offset in seconds east of UTC, if there is one.
    pub fn new(
        year: i32,
        month: i32,
        day: i32,
        hour: i32,
        minute: i32,
        second: i32,
        utc_offset: i32,
    ) -> (t: Option<Timestamp>)
        ensures
            t is Some <==> {
                &&& 1000 <= year <= 9999
                &&& 1 <= month <= 12
                &&& 1 <= day <= 31
                &&& 0 <= hour <= 23
                &&& 0 <= minute <= 59
                &&& 0 <= second <= 60
                &&& -86400 < utc_offset < 86400
            },
            t matches Some(t) ==> {
                &&& t.wf()
                &&& t.year() == year
                &&& t.month() == month
                &&& t.day == day
                &&& t.hour == hour
                &&& t.minute == minute
                &&& t.second == second
                &&& t.utc_offset == utc_offset
            },
    {
        if 1000 <= year && year <= 9999 && 1 <= month && month <= 12 {
            let t = Timestamp {
                years_since_1900: year - 1900,
                months_since_january: month - 1,
                day,
                hour,
                minute,
                second,
                utc_offset,
            };
            if t.is_valid() {
                Some(t)
            } else {
                None
            }
        } else {
            None
        }
    }
}

/// Both stamps have a fixed width: fifteen bytes for the older layout and,
/// at an offset of zero, twenty bytes for the structured one.
pub proof fn lemma_stamps_have_fixed_width(t: Timestamp)
    requires
        t.wf(),
    ensures
        t.legacy_stamp().len() == 15,
        t.utc_offset == 0 ==> t.structured_stamp().len() == 20,
        t.utc_offset != 0 ==> t.structured_stamp().len() == 25,
{
    reveal_strlit("Jan");
    reveal_strlit("Feb");
    reveal_strlit("Mar");
    reveal_strlit("Apr");
    reveal_strlit("May");
    reveal_strlit("Jun");
    reveal_strlit("Jul");
    reveal_strlit("Aug");
    reveal_strlit("Sep");
    reveal_strlit("Oct");
    reveal_strlit("Nov");
    reveal_strlit("Dec");
    reveal_with_fuel(decimal, 4);
}

/// Reads the clock with `time::now`, which breaks the current instant down
/// in the local time zone. Nothing is claimed of the fields: they are what
/// the clock gave. Where the operating system cannot break the instant
/// down at all, `time::now` panics.
#[verifier::external_body]
fn read_local_clock() -> Timestamp {
    let tm = time::now();
    Timestamp {
        years_since_1900: tm.tm_year,
        months_since_january: tm.tm_mon,
        day: tm.tm_mday,
        hour: tm.tm_hour,
        minute: tm.tm_min,
        second: tm.tm_sec,
        utc_offset: tm.tm_utcoff,
    }
}

/// Reads the clock with `time::now_utc`, which breaks the current instant
/// down in UTC. Nothing is claimed of the fields: they are what the clock
/// gave. Where the operating system cannot break the instant down at all,
/// `time::now_utc` panics.
#[verifier::external_body]
fn read_utc_clock() -> Timestamp {
    let tm = time::now_utc();
    Timestamp {
        years_since_1900: tm.tm_year,
        months_since_january: tm.tm_mon,
        day: tm.tm_mday,
        hour: tm.tm_hour,
        minute: tm.tm_min,
        second: tm.tm_sec,
        utc_offset: tm.tm_utcoff,
    }
}

/// Formats a calendar time with `time::Tm::strftime` and the format
/// `%b %e %T`. The contract claims what that format stands for: `%b` is
/// the month's abbreviation, `%e` the day of the month in two columns,
/// `%T` the time of day as `hh:mm:ss` with two digits each. `strftime`
/// refuses a month outside `0..=11`, which `wf` rules out.
#[verifier::external_body]
fn format_legacy_stamp(t: &Timestamp) -> (text: Vec<u8>)
    requires
        t.wf(),
    ensures
        text@ == t.legacy_stamp(),
{
    let tm = time::Tm {
        tm_year: t.years_since_1900,
        tm_mon: t.months_since_january,
        tm_mday: t.day,
        tm_hour: t.hour,
        tm_min: t.minute,
        tm_sec: t.second,
        tm_utcoff: t.utc_offset,
        ..time::empty_tm()
    };
    tm.strftime("%b %e %T").unwrap().to_string().into_bytes()
}

/// Formats a calendar time with `time::Tm::rfc3339`. The contract claims
/// what that method writes: the year unpadded, then month, day, hour,
/// minute and second with two digits each, and `Z` at an offset of zero or
/// else the sign of the offset with its hours and minutes.
#[verifier::external_body]
fn format_structured_stamp(t: &Timestamp) -> (text: Vec<u8>)
    requires
        t.wf(),
    ensures
        text@ == t.structured_stamp(),
{
    let tm = time::Tm {
        tm_year: t.years_since_1900,
        tm_mon: t.months_since_january,
        tm_mday: t.day,
        tm_hour: t.hour,
        tm_min: t.minute,
        tm_sec: t.second,
        tm_utcoff: t.utc_offset,
        ..time::empty_tm()
    };
    tm.rfc3339().to_string().into_bytes()
}

/// The current calendar time in the local time zone, or `None` where the
/// clock's fields name no calendar time.
pub fn now() -> (t: Option<Timestamp>)
    ensures
        t matches Some(t) ==> t.wf(),
{
    read_local_clock().checked()
}

/// The current calendar time in UTC, or `None` where the clock's fields
/// name no calendar time at an offset of zero.
pub fn now_utc() -> (t: Option<Timestamp>)
    ensures
        t matches Some(t) ==> t.wf() && t.utc_offset == 0,
{
    read_utc_clock().checked_utc()
}

} // verus!
