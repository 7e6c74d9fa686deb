//! Setting a logger up, once the sockets are there or have failed.

use vstd::prelude::*;
use crate::errors::Error;
use crate::logger::Logger;
use crate::transport::{Buffered, LoggerBackend, Transport, DEFAULT_CAPACITY};

verus! {

/// The address that a logger talks to: the first of those that the peer's
/// name resolved to. Where it resolved to none, setting up has failed.
pub fn first_resolved<A>(resolved: Vec<A>) -> (address: Result<A, Error>)
    ensures
        match address {
            Ok(first) => resolved@.len() > 0 && first == resolved@[0],
            Err(e) => resolved@.len() == 0 && e == Error::Initialization,
        },
{
    let mut resolved = resolved;
    if resolved.len() == 0 {
        Err(Error::Initialization)
    } else {
        Ok(resolved.swap_remove(0))
    }
}

/// A logger that sends each message as one datagram through `peer`, a
/// socket bound here and aimed at the collector. Without a socket, setting
/// up has failed.
pub fn udp<D: Transport, S: Transport, F>(formatter: F, peer: Option<D>) -> (logger: Result<
    Logger<LoggerBackend<D, S>, F>,
    Error,
>)
    ensures
        match peer {
            Some(socket) => logger == Ok::<Logger<LoggerBackend<D, S>, F>, Error>(
                Logger { formatter, backend: LoggerBackend::Udp(socket) },
            ),
            None => logger == Err::<Logger<LoggerBackend<D, S>, F>, Error>(Error::Initialization),
        },
{
    match peer {
        Some(socket) => Ok(Logger::new(LoggerBackend::Udp(socket), formatter)),
        None => Err(Error::Initialization),
    }
}

/// A logger that writes to `stream`, a connection to the collector, through
/// a buffer of the default capacity. Without a connection, setting up has
/// failed.
pub fn tcp<D: Transport, S: Transport, F>(formatter: F, stream: Option<S>) -> (logger: Result<
    Logger<LoggerBackend<D, S>, F>,
    Error,
>)
    ensures
        match stream {
            Some(connection) => {
                &&& logger matches Ok(l)
                &&& l.formatter == formatter
                &&& l.backend matches LoggerBackend::Tcp(buffered)
                &&& buffered.inner == connection
                &&& buffered.pending@ == Seq::<u8>::empty()
                &&& buffered.capacity == DEFAULT_CAPACITY
            },
            None => logger == Err::<Logger<LoggerBackend<D, S>, F>, Error>(Error::Initialization),
        },
{
    match stream {
        Some(connection) => Ok(
            Logger::new(LoggerBackend::Tcp(Buffered::new(connection)), formatter),
        ),
        None => Err(Error::Initialization),
    }
}

} // verus!
