//! Rendering a message into a line, and handing the line to a transport.

use vstd::prelude::*;
use crate::errors::Error;
use crate::severity::Severity;
use crate::timestamp::Timestamp;
use crate::transport::{handed, outcome, Transport};

verus! {

/// What `format` owes. It reads the clock, renders one line with a
/// calendar time that the layout's clock may give, and sends that line to
/// the transport once. The result is success where the transport accepted
/// the line and `Error::Write` where it refused it; either way the
/// transport is left as that one send leaves it. Where the clock gave no
/// time the result is `Error::Format`, and the transport has not been
/// touched. So a failure to write is ruled out wherever the transport is
/// sure to take the line, whatever the time.
pub open spec fn formatted<T, F: Layout<T>, W: Transport>(
    formatter: &F,
    before: &W,
    after: &W,
    severity: Severity,
    message: T,
    result: Result<(), Error>,
) -> bool {
    &&& match result {
        Ok(()) => exists|stamp: Timestamp|
            stamp.wf() && formatter.stamps_with(stamp) && handed(
                before,
                #[trigger] formatter.line(severity, stamp, message),
                after,
                true,
            ),
        Err(Error::Write) => exists|stamp: Timestamp|
            stamp.wf() && formatter.stamps_with(stamp) && handed(
                before,
                #[trigger] formatter.line(severity, stamp, message),
                after,
                false,
            ),
        Err(Error::Format) => *after == *before,
        Err(Error::Initialization) => false,
    }
    &&& (forall|stamp: Timestamp|
        stamp.wf() && formatter.stamps_with(stamp) ==> before.takes(
            #[trigger] formatter.line(severity, stamp, message),
        )) ==> result != Err::<(), Error>(Error::Write)
}

/// What `format_at` owes, the clock's reading being given. Without a
/// reading the result is `Error::Format`, and the transport has not been
/// touched. With one, the line for it is sent to the transport once: the
/// result is success where the transport accepted the line, as it must
/// where it is sure to take it, and `Error::Write` where it refused it.
pub open spec fn formatted_at<T, F: Layout<T>, W: Transport>(
    formatter: &F,
    before: &W,
    after: &W,
    severity: Severity,
    clock: Option<Timestamp>,
    message: T,
    result: Result<(), Error>,
) -> bool {
    match clock {
        Some(stamp) => {
            &&& result == Ok::<(), Error>(()) || result == Err::<(), Error>(Error::Write)
            &&& handed(before, formatter.line(severity, stamp, message), after, result is Ok)
        },
        None => result == Err::<(), Error>(Error::Format) && *after == *before,
    }
}

/// A layout for log messages of type `T`: how a message becomes a line.
pub trait Layout<T>: Sized {
    /// The line for `message` at `severity`, stamped with `stamp`.
    spec fn line(&self, severity: Severity, stamp: Timestamp, message: T) -> Seq<u8>;

    /// Whether `stamp` is a time that the layout's own clock may give.
    spec fn stamps_with(&self, stamp: Timestamp) -> bool;

    /// Renders the line for `message` at `severity`, stamped with `stamp`.
    fn render(&self, severity: Severity, stamp: &Timestamp, message: &T) -> (line: Vec<u8>)
        requires
            stamp.wf(),
        ensures
            line@ == self.line(severity, *stamp, *message),
    ;

    /// Reads the clock that the layout stamps its lines by; `None` where
    /// the clock gives no calendar time that the layout can use.
    fn clock(&self) -> (reading: Option<Timestamp>)
        ensures
            reading matches Some(stamp) ==> stamp.wf() && self.stamps_with(stamp),
    ;
}

/// A layout together with the sending of its lines, at each severity.
pub trait LogFormat<T>: Layout<T> {
    /// Renders `message` at `severity` with the given reading of the clock,
    /// and hands the line to `w`. Without a reading nothing is sent, and
    /// the result is `Error::Format`; where `w` does not take the line, the
    /// result is `Error::Write`.
    fn format_at<W: Transport>(
        &self,
        w: &mut W,
        severity: Severity,
        clock: Option<Timestamp>,
        message: T,
    ) -> (result: Result<(), Error>)
        requires
            clock matches Some(stamp) ==> stamp.wf(),
        ensures
            formatted_at(self, old(w), final(w), severity, clock, message, result),
    {
        match clock {
            None => Err(Error::Format),
            Some(stamp) => {
                let line = self.render(severity, &stamp, &message);
                outcome(w.send(line.as_slice()))
            },
        }
    }

    /// Renders `message` at `severity`, stamped with the current time, and
    /// hands the line to `w`.
    fn format<W: Transport>(&self, w: &mut W, severity: Severity, message: T) -> (result: Result<
        (),
        Error,
    >)
        ensures
            formatted(self, old(w), final(w), severity, message, result),
    {
        let clock = self.clock();
        self.format_at(w, severity, clock, message)
    }

    /// Sends `message` as an emergency.
    fn emerg<W: Transport>(&self, w: &mut W, message: T) -> (result: Result<(), Error>)
        ensures
            formatted(self, old(w), final(w), Severity::LOG_EMERG, message, result),
    {
        self.format(w, Severity::LOG_EMERG, message)
    }

    /// Sends `message` as an alert.
    fn alert<W: Transport>(&self, w: &mut W, message: T) -> (result: Result<(), Error>)
        ensures
            formatted(self, old(w), final(w), Severity::LOG_ALERT, message, result),
    {
        self.format(w, Severity::LOG_ALERT, message)
    }

    /// Sends `message` as critical.
    fn crit<W: Transport>(&self, w: &mut W, message: T) -> (result: Result<(), Error>)
        ensures
            formatted(self, old(w), final(w), Severity::LOG_CRIT, message, result),
    {
        self.format(w, Severity::LOG_CRIT, message)
    }

    /// Sends `message` as an error.
    fn err<W: Transport>(&self, w: &mut W, message: T) -> (result: Result<(), Error>)
        ensures
            formatted(self, old(w), final(w), Severity::LOG_ERR, message, result),
    {
        self.format(w, Severity::LOG_ERR, message)
    }

    /// Sends `message` as a warning.
    fn warning<W: Transport>(&self, w: &mut W, message: T) -> (result: Result<(), Error>)
        ensures
            formatted(self, old(w), final(w), Severity::LOG_WARNING, message, result),
    {
        self.format(w, Severity::LOG_WARNING, message)
    }

    /// Sends `message` as a notice.
    fn notice<W: Transport>(&self, w: &mut W, message: T) -> (result: Result<(), Error>)
        ensures
            formatted(self, old(w), final(w), Severity::LOG_NOTICE, message, result),
    {
        self.format(w, Severity::LOG_NOTICE, message)
    }

    /// Sends `message` as information.
    fn info<W: Transport>(&self, w: &mut W, message: T) -> (result: Result<(), Error>)
        ensures
            formatted(self, old(w), final(w), Severity::LOG_INFO, message, result),
    {
        self.format(w, Severity::LOG_INFO, message)
    }

    /// Sends `message` for debugging.
    fn debug<W: Transport>(&self, w: &mut W, message: T) -> (result: Result<(), Error>)
        ensures
            formatted(self, old(w), final(w), Severity::LOG_DEBUG, message, result),
    {
        self.format(w, Severity::LOG_DEBUG, message)
    }
}

} // verus!
