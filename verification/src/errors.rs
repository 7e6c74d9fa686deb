//! The ways in which setting up a logger or sending a message can fail.

use vstd::prelude::*;

verus! {

/// Why an operation of this crate failed.
#[derive(Clone, Copy, Debug, PartialEq, Eq, Structural)]
pub enum Error {
    /// A logger could not be set up: an address did not resolve, a socket
    /// could not be bound or connected, or a process-wide sink was already
    /// registered.
    Initialization,
    /// The clock gave no calendar time that a message could be stamped with.
    Format,
    /// The transport reported a failure while a message was being sent.
    Write,
}

impl Error {
    /// A short description of the failure, as text.
    pub fn description(&self) -> (text: &'static str)
        ensures
            text@ == match *self {
                Error::Initialization => "could not initialize logger"@,
                Error::Format => "could not format log message"@,
                Error::Write => "could not write log message"@,
            },
    {
        match self {
            Error::Initialization => "could not initialize logger",
            Error::Format => "could not format log message",
            Error::Write => "could not write log message",
        }
    }
}

} // verus!
