//! The logger: a formatter and the transport it writes to.

use vstd::prelude::*;
use crate::errors::Error;
use crate::format::{formatted, LogFormat};
use crate::severity::Severity;
use crate::transport::{outcome, Transport};

verus! {

/// A formatter and a transport, owned together. It keeps nothing else: no
/// message outlives the call that sends it.
pub struct Logger<Backend: Transport, Formatter> {
    pub formatter: Formatter,
    pub backend: Backend,
}

impl<W: Transport, F> Logger<W, F> {
    /// A logger that renders with `formatter` and writes to `backend`.
    pub fn new(backend: W, formatter: F) -> (logger: Self)
        ensures
            logger.backend == backend,
            logger.formatter == formatter,
    {
        Logger { backend, formatter }
    }

    /// Has the transport push out what it holds back. The transport is
    /// left as its own flush leaves it, and the result is that flush's
    /// answer: success where it went well, `Error::Write` where it did not.
    pub fn flush(&mut self) -> (result: Result<(), Error>)
        ensures
            final(self).formatter == old(self).formatter,
            final(self).backend.transcript() == old(self).backend.transcript(),
            final(self).backend.messages() == old(self).backend.messages(),
            old(self).backend.flushed(&final(self).backend, result is Ok),
            result is Err ==> result == Err::<(), Error>(Error::Write),
    {
        outcome(self.backend.flush())
    }

    /// Sends `message` as an emergency.
    pub fn emerg<T>(&mut self, message: T) -> (result: Result<(), Error>) where F: LogFormat<T>
        ensures
            final(self).formatter == old(self).formatter,
            formatted(
                &old(self).formatter,
                &old(self).backend,
                &final(self).backend,
                Severity::LOG_EMERG,
                message,
                result,
            ),
    {
        self.formatter.emerg(&mut self.backend, message)
    }

    /// Sends `message` as an alert.
    pub fn alert<T>(&mut self, message: T) -> (result: Result<(), Error>) where F: LogFormat<T>
        ensures
            final(self).formatter == old(self).formatter,
            formatted(
                &old(self).formatter,
                &old(self).backend,
                &final(self).backend,
                Severity::LOG_ALERT,
                message,
                result,
            ),
    {
        self.formatter.alert(&mut self.backend, message)
    }

    /// Sends `message` as critical.
    pub fn crit<T>(&mut self, message: T) -> (result: Result<(), Error>) where F: LogFormat<T>
        ensures
            final(self).formatter == old(self).formatter,
            formatted(
                &old(self).formatter,
                &old(self).backend,
                &final(self).backend,
                Severity::LOG_CRIT,
                message,
                result,
            ),
    {
        self.formatter.crit(&mut self.backend, message)
    }

    /// Sends `message` as an error.
    pub fn err<T>(&mut self, message: T) -> (result: Result<(), Error>) where F: LogFormat<T>
        ensures
            final(self).formatter == old(self).formatter,
            formatted(
                &old(self).formatter,
                &old(self).backend,
                &final(self).backend,
                Severity::LOG_ERR,
                message,
                result,
            ),
    {
        self.formatter.err(&mut self.backend, message)
    }

    /// Sends `message` as a warning.
    pub fn warning<T>(&mut self, message: T) -> (result: Result<(), Error>) where F: LogFormat<T>
        ensures
            final(self).formatter == old(self).formatter,
            formatted(
                &old(self).formatter,
                &old(self).backend,
                &final(self).backend,
                Severity::LOG_WARNING,
                message,
                result,
            ),
    {
        self.formatter.warning(&mut self.backend, message)
    }

    /// Sends `message` as a notice.
    pub fn notice<T>(&mut self, message: T) -> (result: Result<(), Error>) where F: LogFormat<T>
        ensures
            final(self).formatter == old(self).formatter,
            formatted(
                &old(self).formatter,
                &old(self).backend,
                &final(self).backend,
                Severity::LOG_NOTICE,
                message,
                result,
            ),
    {
        self.formatter.notice(&mut self.backend, message)
    }

    /// Sends `message` as information.
    pub fn info<T>(&mut self, message: T) -> (result: Result<(), Error>) where F: LogFormat<T>
        ensures
            final(self).formatter == old(self).formatter,
            formatted(
                &old(self).formatter,
                &old(self).backend,
                &final(self).backend,
                Severity::LOG_INFO,
                message,
                result,
            ),
    {
        self.formatter.info(&mut self.backend, message)
    }

    /// Sends `message` for debugging.
    pub fn debug<T>(&mut self, message: T) -> (result: Result<(), Error>) where F: LogFormat<T>
        ensures
            final(self).formatter == old(self).formatter,
            formatted(
                &old(self).formatter,
                &old(self).backend,
                &final(self).backend,
                Severity::LOG_DEBUG,
                message,
                result,
            ),
    {
        self.formatter.debug(&mut self.backend, message)
    }
}

} // verus!
