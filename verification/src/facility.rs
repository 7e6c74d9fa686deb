//! The subsystem a message comes from, as a numerical code.

use vstd::prelude::*;

verus! {

/// The facility of a message: one of the twenty-four codes `0..=23`.
#[allow(non_camel_case_types)]
#[derive(Clone, Copy, Debug, PartialEq, Eq, Structural)]
pub enum Facility {
    LOG_KERN,
    LOG_USER,
    LOG_MAIL,
    LOG_DAEMON,
    LOG_AUTH,
    LOG_SYSLOG,
    LOG_LPR,
    LOG_NEWS,
    LOG_UUCP,
    LOG_CRON,
    LOG_AUTHPRIV,
    LOG_FTP,
    LOG_NTP,
    LOG_AUDIT,
    LOG_ALERT,
    LOG_CLOCK,
    LOG_LOCAL0,
    LOG_LOCAL1,
    LOG_LOCAL2,
    LOG_LOCAL3,
    LOG_LOCAL4,
    LOG_LOCAL5,
    LOG_LOCAL6,
    LOG_LOCAL7,
}

impl Facility {
    /// The numerical code of the facility.
    pub open spec fn spec_code(self) -> u8 {
        match self {
            Facility::LOG_KERN => 0,
            Facility::LOG_USER => 1,
            Facility::LOG_MAIL => 2,
            Facility::LOG_DAEMON => 3,
            Facility::LOG_AUTH => 4,
            Facility::LOG_SYSLOG => 5,
            Facility::LOG_LPR => 6,
            Facility::LOG_NEWS => 7,
            Facility::LOG_UUCP => 8,
            Facility::LOG_CRON => 9,
            Facility::LOG_AUTHPRIV => 10,
            Facility::LOG_FTP => 11,
            Facility::LOG_NTP => 12,
            Facility::LOG_AUDIT => 13,
            Facility::LOG_ALERT => 14,
            Facility::LOG_CLOCK => 15,
            Facility::LOG_LOCAL0 => 16,
            Facility::LOG_LOCAL1 => 17,
            Facility::LOG_LOCAL2 => 18,
            Facility::LOG_LOCAL3 => 19,
            Facility::LOG_LOCAL4 => 20,
            Facility::LOG_LOCAL5 => 21,
            Facility::LOG_LOCAL6 => 22,
            Facility::LOG_LOCAL7 => 23,
        }
    }

    /// The numerical code of the facility.
    #[verifier::when_used_as_spec(spec_code)]
    pub fn code(self) -> (code: u8)
        ensures
            code == self.spec_code(),
            code <= 23,
    {
        match self {
            Facility::LOG_KERN => 0,
            Facility::LOG_USER => 1,
            Facility::LOG_MAIL => 2,
            Facility::LOG_DAEMON => 3,
            Facility::LOG_AUTH => 4,
            Facility::LOG_SYSLOG => 5,
            Facility::LOG_LPR => 6,
            Facility::LOG_NEWS => 7,
            Facility::LOG_UUCP => 8,
            Facility::LOG_CRON => 9,
            Facility::LOG_AUTHPRIV => 10,
            Facility::LOG_FTP => 11,
            Facility::LOG_NTP => 12,
            Facility::LOG_AUDIT => 13,
            Facility::LOG_ALERT => 14,
            Facility::LOG_CLOCK => 15,
            Facility::LOG_LOCAL0 => 16,
            Facility::LOG_LOCAL1 => 17,
            Facility::LOG_LOCAL2 => 18,
            Facility::LOG_LOCAL3 => 19,
            Facility::LOG_LOCAL4 => 20,
            Facility::LOG_LOCAL5 => 21,
            Facility::LOG_LOCAL6 => 22,
            Facility::LOG_LOCAL7 => 23,
        }
    }

    /// The facility with the given code, if there is one.
    pub fn from_code(code: u8) -> (facility: Option<Facility>)
        ensures
            code <= 23 <==> facility is Some,
            facility matches Some(f) ==> f.spec_code() == code,
    {
        match code {
            0 => Some(Facility::LOG_KERN),
            1 => Some(Facility::LOG_USER),
            2 => Some(Facility::LOG_MAIL),
            3 => Some(Facility::LOG_DAEMON),
            4 => Some(Facility::LOG_AUTH),
            5 => Some(Facility::LOG_SYSLOG),
            6 => Some(Facility::LOG_LPR),
            7 => Some(Facility::LOG_NEWS),
            8 => Some(Facility::LOG_UUCP),
            9 => Some(Facility::LOG_CRON),
            10 => Some(Facility::LOG_AUTHPRIV),
            11 => Some(Facility::LOG_FTP),
            12 => Some(Facility::LOG_NTP),
            13 => Some(Facility::LOG_AUDIT),
            14 => Some(Facility::LOG_ALERT),
            15 => Some(Facility::LOG_CLOCK),
            16 => Some(Facility::LOG_LOCAL0),
            17 => Some(Facility::LOG_LOCAL1),
            18 => Some(Facility::LOG_LOCAL2),
            19 => Some(Facility::LOG_LOCAL3),
            20 => Some(Facility::LOG_LOCAL4),
            21 => Some(Facility::LOG_LOCAL5),
            22 => Some(Facility::LOG_LOCAL6),
            23 => Some(Facility::LOG_LOCAL7),
            _ => None,
        }
    }
}

/// Every facility has a code in `0..=23`, and no two facilities share one.
pub proof fn lemma_facility_codes(a: Facility, b: Facility)
    ensures
        a.spec_code() <= 23,
        a.spec_code() == b.spec_code() ==> a == b,
{
}

} // verus!
