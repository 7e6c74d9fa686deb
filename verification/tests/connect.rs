use esp_syslog::transport::DEFAULT_CAPACITY;
use esp_syslog::{
    first_resolved, tcp, udp, Error, Facility, Formatter3164, Logger, LoggerBackend, Transport,
};

/// Stands for the collector: keeps what reaches it, write by write.
struct Collector {
    writes: Vec<Vec<u8>>,
    flushes: usize,
}

impl Collector {
    fn new() -> Collector {
        Collector { writes: Vec::new(), flushes: 0 }
    }
}

impl Transport for Collector {
    fn send(&mut self, message: &[u8]) -> bool {
        self.writes.push(message.to_vec());
        true
    }

    fn flush(&mut self) -> bool {
        self.flushes += 1;
        true
    }
}

type Backend = LoggerBackend<Collector, Collector>;

fn formatter() -> Formatter3164 {
    Formatter3164 {
        facility: Facility::LOG_USER,
        hostname: None,
        process: "myprogram".to_string(),
        pid: 0,
    }
}

fn is_legacy_stamp(stamp: &[u8]) -> bool {
    let months: [&[u8]; 12] = [
        b"Jan", b"Feb", b"Mar", b"Apr", b"May", b"Jun", b"Jul", b"Aug", b"Sep", b"Oct", b"Nov",
        b"Dec",
    ];
    stamp.len() == 15
        && months.contains(&&stamp[0..3])
        && stamp[3] == b' '
        && (stamp[4] == b' ' || stamp[4].is_ascii_digit())
        && stamp[5].is_ascii_digit()
        && stamp[6] == b' '
        && stamp[7].is_ascii_digit()
        && stamp[8].is_ascii_digit()
        && stamp[9] == b':'
        && stamp[10].is_ascii_digit()
        && stamp[11].is_ascii_digit()
        && stamp[12] == b':'
        && stamp[13].is_ascii_digit()
        && stamp[14].is_ascii_digit()
}

#[test]
fn the_first_resolved_address_is_used() {
    assert_eq!(first_resolved(vec!["10.0.0.1:514", "10.0.0.2:514"]), Ok("10.0.0.1:514"));
    assert_eq!(first_resolved(vec![7u16]), Ok(7));
}

#[test]
fn no_resolved_address_is_an_initialization_error() {
    assert_eq!(first_resolved(Vec::<u16>::new()), Err(Error::Initialization));
}

#[test]
fn udp_without_a_socket_is_an_initialization_error() {
    let logger: Result<Logger<Backend, Formatter3164>, Error> = udp(formatter(), None);
    assert!(matches!(logger, Err(Error::Initialization)));
}

#[test]
fn tcp_without_a_connection_is_an_initialization_error() {
    let logger: Result<Logger<Backend, Formatter3164>, Error> = tcp(formatter(), None);
    assert!(matches!(logger, Err(Error::Initialization)));
}

#[test]
fn udp_with_a_socket_sends_datagrams_through_it() {
    let mut logger: Logger<Backend, Formatter3164> =
        udp(formatter(), Some(Collector::new())).ok().unwrap();
    assert_eq!(logger.formatter.process, "myprogram");
    logger.err("hello world").unwrap();
    match &logger.backend {
        LoggerBackend::Udp(peer) => {
            assert_eq!(peer.writes.len(), 1);
            assert!(peer.writes[0].starts_with(b"<11>"));
            assert!(peer.writes[0].ends_with(b" localhost myprogram[0]: hello world"));
        }
        LoggerBackend::Tcp(_) => panic!("a datagram logger was asked for"),
    }
}

#[test]
fn tcp_with_a_connection_starts_with_an_empty_buffer() {
    let logger: Logger<Backend, Formatter3164> =
        tcp(formatter(), Some(Collector::new())).ok().unwrap();
    match &logger.backend {
        LoggerBackend::Tcp(stream) => {
            assert!(stream.pending.is_empty());
            assert_eq!(stream.capacity, DEFAULT_CAPACITY);
            assert!(stream.inner.writes.is_empty());
        }
        LoggerBackend::Udp(_) => panic!("a stream logger was asked for"),
    }
}

#[test]
fn err_over_a_stream_reaches_the_peer_as_a_single_write() {
    let mut logger: Logger<Backend, Formatter3164> =
        tcp(formatter(), Some(Collector::new())).ok().unwrap();
    logger.err("hello world").unwrap();
    match &logger.backend {
        LoggerBackend::Tcp(stream) => assert!(stream.inner.writes.is_empty()),
        LoggerBackend::Udp(_) => panic!("a stream logger was asked for"),
    }
    logger.flush().unwrap();
    match &logger.backend {
        LoggerBackend::Tcp(stream) => {
            assert_eq!(stream.inner.writes.len(), 1);
            assert_eq!(stream.inner.flushes, 1);
            let line = &stream.inner.writes[0];
            let tail = b" localhost myprogram[0]: hello world";
            assert!(line.starts_with(b"<11>"));
            assert_eq!(line.len(), 4 + 15 + tail.len());
            assert!(is_legacy_stamp(&line[4..19]));
            assert_eq!(&line[19..], &tail[..]);
        }
        LoggerBackend::Udp(_) => panic!("a stream logger was asked for"),
    }
}
