use esp_syslog::transport::{outcome, DEFAULT_CAPACITY};
use esp_syslog::{Buffered, Error, LoggerBackend, Memory, Transport};

/// Counts what it is asked, and takes or refuses as it is told.
struct Peer {
    taking: bool,
    flushing: bool,
    sends: Vec<Vec<u8>>,
    flushes: usize,
}

impl Peer {
    fn new(taking: bool, flushing: bool) -> Peer {
        Peer { taking, flushing, sends: Vec::new(), flushes: 0 }
    }
}

impl Transport for Peer {
    fn send(&mut self, message: &[u8]) -> bool {
        self.sends.push(message.to_vec());
        self.taking
    }

    fn flush(&mut self) -> bool {
        self.flushes += 1;
        self.flushing
    }
}

#[test]
fn outcome_maps_refusal_to_a_write_error() {
    assert_eq!(outcome(true), Ok(()));
    assert_eq!(outcome(false), Err(Error::Write));
}

#[test]
fn memory_keeps_every_message_in_order() {
    let mut memory = Memory::new();
    assert!(memory.messages.is_empty());
    assert!(memory.send(b"one"));
    assert!(memory.send(b""));
    assert!(memory.send(b"two"));
    assert!(memory.flush());
    assert_eq!(memory.messages, vec![b"one".to_vec(), b"".to_vec(), b"two".to_vec()]);
}

#[test]
fn buffered_has_the_default_capacity() {
    let buffered = Buffered::new(Memory::new());
    assert_eq!(buffered.capacity, DEFAULT_CAPACITY);
    assert_eq!(DEFAULT_CAPACITY, 8192);
    assert!(buffered.pending.is_empty());
    let buffered = Buffered::with_capacity(16, Memory::new());
    assert_eq!(buffered.capacity, 16);
    assert!(buffered.pending.is_empty());
}

#[test]
fn buffered_holds_messages_back_until_flushed() {
    let mut stream = Buffered::new(Peer::new(true, true));
    assert!(stream.send(b"hello "));
    assert!(stream.send(b"world"));
    assert!(stream.inner.sends.is_empty());
    assert_eq!(stream.inner.flushes, 0);
    assert_eq!(stream.pending, b"hello world".to_vec());
    assert!(stream.flush());
    assert_eq!(stream.inner.sends, vec![b"hello world".to_vec()]);
    assert_eq!(stream.inner.flushes, 1);
    assert!(stream.pending.is_empty());
}

#[test]
fn buffered_flush_with_nothing_pending_only_flushes_the_stream() {
    let mut stream = Buffered::new(Peer::new(true, true));
    assert!(stream.flush());
    assert!(stream.inner.sends.is_empty());
    assert_eq!(stream.inner.flushes, 1);
}

#[test]
fn buffered_hands_on_what_is_pending_when_room_runs_out() {
    let mut stream = Buffered::with_capacity(8, Peer::new(true, true));
    assert!(stream.send(b"12345"));
    assert!(stream.inner.sends.is_empty());
    assert!(stream.send(b"6789"));
    assert_eq!(stream.inner.sends, vec![b"12345".to_vec()]);
    assert_eq!(stream.pending, b"6789".to_vec());
    assert!(stream.send(b"abcd"));
    assert_eq!(stream.inner.sends, vec![b"12345".to_vec()]);
    assert_eq!(stream.pending, b"6789abcd".to_vec());
}

#[test]
fn buffered_passes_a_message_as_large_as_the_buffer_straight_on() {
    let mut stream = Buffered::with_capacity(4, Peer::new(true, true));
    assert!(stream.send(b"ab"));
    assert!(stream.send(b"123456"));
    assert_eq!(stream.inner.sends, vec![b"ab".to_vec(), b"123456".to_vec()]);
    assert!(stream.pending.is_empty());
    assert!(stream.send(b"wxyz"));
    assert_eq!(stream.inner.sends.len(), 3);
    assert!(stream.pending.is_empty());
}

#[test]
fn buffered_keeps_what_the_stream_refuses() {
    let mut stream = Buffered::with_capacity(8, Peer::new(false, true));
    assert!(stream.send(b"12345"));
    assert!(!stream.send(b"6789"));
    assert_eq!(stream.pending, b"12345".to_vec());
    assert!(!stream.flush());
    assert_eq!(stream.pending, b"12345".to_vec());
    assert_eq!(stream.inner.flushes, 0);
}

#[test]
fn buffered_flush_reports_a_stream_that_fails_to_flush() {
    let mut stream = Buffered::new(Peer::new(true, false));
    assert!(stream.send(b"x"));
    assert!(!stream.flush());
    assert_eq!(stream.inner.sends, vec![b"x".to_vec()]);
    assert_eq!(stream.inner.flushes, 1);
}

#[test]
fn buffered_over_memory_delivers_every_byte_in_order() {
    let mut stream = Buffered::with_capacity(4, Memory::new());
    for part in [&b"ab"[..], b"cde", b"", b"fghijk", b"l"] {
        assert!(stream.send(part));
    }
    assert!(stream.flush());
    assert_eq!(stream.inner.messages.concat(), b"abcdefghijkl".to_vec());
    assert!(stream.pending.is_empty());
}

#[test]
fn udp_backend_sends_each_message_at_once_as_one_datagram() {
    let mut backend: LoggerBackend<Peer, Peer> = LoggerBackend::Udp(Peer::new(true, true));
    assert!(backend.send(b"first"));
    assert!(backend.send(b"second"));
    match &backend {
        LoggerBackend::Udp(peer) => {
            assert_eq!(peer.sends, vec![b"first".to_vec(), b"second".to_vec()])
        }
        LoggerBackend::Tcp(_) => panic!("a datagram backend stays one"),
    }
}

#[test]
fn udp_backend_reports_a_failed_send() {
    let mut backend: LoggerBackend<Peer, Peer> = LoggerBackend::Udp(Peer::new(false, true));
    assert!(!backend.send(b"lost"));
}

#[test]
fn udp_backend_flush_succeeds_without_touching_the_socket() {
    let mut backend: LoggerBackend<Peer, Peer> = LoggerBackend::Udp(Peer::new(false, false));
    assert!(backend.flush());
    assert!(backend.flush());
    match &backend {
        LoggerBackend::Udp(peer) => {
            assert_eq!(peer.flushes, 0);
            assert!(peer.sends.is_empty());
        }
        LoggerBackend::Tcp(_) => panic!("a datagram backend stays one"),
    }
}

#[test]
fn tcp_backend_buffers_until_flushed() {
    let mut backend: LoggerBackend<Peer, Peer> =
        LoggerBackend::Tcp(Buffered::new(Peer::new(true, true)));
    assert!(backend.send(b"first"));
    match &backend {
        LoggerBackend::Tcp(stream) => {
            assert!(stream.inner.sends.is_empty());
            assert_eq!(stream.pending, b"first".to_vec());
        }
        LoggerBackend::Udp(_) => panic!("a stream backend stays one"),
    }
    assert!(backend.flush());
    match &backend {
        LoggerBackend::Tcp(stream) => {
            assert_eq!(stream.inner.sends, vec![b"first".to_vec()]);
            assert_eq!(stream.inner.flushes, 1);
            assert!(stream.pending.is_empty());
        }
        LoggerBackend::Udp(_) => panic!("a stream backend stays one"),
    }
}

#[test]
fn tcp_backend_flush_reports_a_failing_stream() {
    let mut backend: LoggerBackend<Peer, Peer> =
        LoggerBackend::Tcp(Buffered::new(Peer::new(false, true)));
    assert!(backend.send(b"first"));
    assert!(!backend.flush());
}
