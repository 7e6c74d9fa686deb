//! The urgency of a message, as a numerical code.

use vstd::prelude::*;

verus! {

/// The severity of a message: one of the eight codes `0..=7`, the most
/// urgent first.
#[allow(non_camel_case_types)]
#[derive(Clone, Copy, Debug, PartialEq, Eq, Structural)]
pub enum Severity {
    LOG_EMERG,
    LOG_ALERT,
    LOG_CRIT,
    LOG_ERR,
    LOG_WARNING,
    LOG_NOTICE,
    LOG_INFO,
    LOG_DEBUG,
}

impl Severity {
    /// The numerical code of the severity.
    pub open spec fn spec_code(self) -> u8 {
        match self {
            Severity::LOG_EMERG => 0,
            Severity::LOG_ALERT => 1,
            Severity::LOG_CRIT => 2,
            Severity::LOG_ERR => 3,
            Severity::LOG_WARNING => 4,
            Severity::LOG_NOTICE => 5,
            Severity::LOG_INFO => 6,
            Severity::LOG_DEBUG => 7,
        }
    }

    /// The numerical code of the severity.
    #[verifier::when_used_as_spec(spec_code)]
    pub fn code(self) -> (code: u8)
        ensures
            code == self.spec_code(),
            code <= 7,
    {
        match self {
            Severity::LOG_EMERG => 0,
            Severity::LOG_ALERT => 1,
            Severity::LOG_CRIT => 2,
            Severity::LOG_ERR => 3,
            Severity::LOG_WARNING => 4,
            Severity::LOG_NOTICE => 5,
            Severity::LOG_INFO => 6,
            Severity::LOG_DEBUG => 7,
        }
    }

    /// The severity with the given code, if there is one.
    pub fn from_code(code: u8) -> (severity: Option<Severity>)
        ensures
            code <= 7 <==> severity is Some,
            severity matches Some(s) ==> s.spec_code() == code,
    {
        match code {
            0 => Some(Severity::LOG_EMERG),
            1 => Some(Severity::LOG_ALERT),
            2 => Some(Severity::LOG_CRIT),
            3 => Some(Severity::LOG_ERR),
            4 => Some(Severity::LOG_WARNING),
            5 => Some(Severity::LOG_NOTICE),
            6 => Some(Severity::LOG_INFO),
            7 => Some(Severity::LOG_DEBUG),
            _ => None,
        }
    }
}

/// Every severity has a code in `0..=7`, and no two severities share one.
pub proof fn lemma_severity_codes(a: Severity, b: Severity)
    ensures
        a.spec_code() <= 7,
        a.spec_code() == b.spec_code() ==> a == b,
{
}

} // verus!
