//! What carries a rendered message away.

use vstd::prelude::*;
use crate::errors::Error;
use crate::bytes::append;

verus! {

/// A way to send the bytes of a message.
///
/// What a transport promises of itself it says through the five spec
/// functions, and the contracts of this crate rest on them: `transcript`
/// and `messages` for what it has accepted, `takes` for what it is sure to
/// accept, `sent` and `flushed` for what the two operations do to it. Each
/// has a default that promises nothing, and a transport of which nothing
/// is known (a socket, say) leaves them all as they are.
pub trait Transport {
    /// Every byte accepted so far, oldest first, where the transport keeps
    /// track of them.
    open spec fn transcript(&self) -> Option<Seq<u8>> {
        None
    }

    /// Every message accepted so far, oldest first and each by itself,
    /// where the transport keeps them apart.
    open spec fn messages(&self) -> Option<Seq<Seq<u8>>> {
        None
    }

    /// Whether the transport is sure to accept `message` as it stands now.
    open spec fn takes(&self, message: Seq<u8>) -> bool {
        false
    }

    /// Whether sending `message` from this state may leave the transport
    /// as `after` and answer `accepted`.
    open spec fn sent(&self, message: Seq<u8>, after: &Self, accepted: bool) -> bool {
        true
    }

    /// Whether a flush from this state may leave the transport as `after`
    /// and answer `done`.
    open spec fn flushed(&self, after: &Self, done: bool) -> bool {
        true
    }

    /// Hands the bytes of one message to the transport, and says whether it
    /// took them. A message is taken whole or not at all.
    fn send(&mut self, message: &[u8]) -> (accepted: bool)
        ensures
            final(self).transcript() == match old(self).transcript() {
                Some(before) => Some(
                    if accepted {
                        before + message@
                    } else {
                        before
                    },
                ),
                None => None,
            },
            final(self).messages() == match old(self).messages() {
                Some(before) => Some(
                    if accepted {
                        before.push(message@)
                    } else {
                        before
                    },
                ),
                None => None,
            },
            old(self).takes(message@) ==> accepted,
            old(self).sent(message@, final(self), accepted),
    ;

    /// Pushes out whatever the transport holds back, and says whether that
    /// went well.
    fn flush(&mut self) -> (flushed: bool)
        ensures
            final(self).transcript() == old(self).transcript(),
            final(self).messages() == old(self).messages(),
            old(self).flushed(final(self), flushed),
    ;
}

/// What every transport owes when it is sent a message: all that `send`
/// ensures, in one.
pub open spec fn handed<W: Transport>(
    before: &W,
    message: Seq<u8>,
    after: &W,
    accepted: bool,
) -> bool {
    &&& after.transcript() == match before.transcript() {
        Some(bytes) => Some(
            if accepted {
                bytes + message
            } else {
                bytes
            },
        ),
        None => None,
    }
    &&& after.messages() == match before.messages() {
        Some(messages) => Some(
            if accepted {
                messages.push(message)
            } else {
                messages
            },
        ),
        None => None,
    }
    &&& before.takes(message) ==> accepted
    &&& before.sent(message, after, accepted)
}

/// Whether a datagram went out whole: the socket reported no failure, and
/// as many bytes sent as the message has. A datagram cut short counts as
/// failed.
pub fn whole_datagram(sent: Option<usize>, message: &[u8]) -> (whole: bool)
    ensures
        whole == (sent == Some(message@.len() as usize)),
{
    match sent {
        Some(count) => count == message.len(),
        None => false,
    }
}

/// What a caller is told after the transport was asked to take or push out
/// bytes: success where it did, `Error::Write` where it did not.
pub fn outcome(done: bool) -> (result: Result<(), Error>)
    ensures
        result == if done {
            Ok::<(), Error>(())
        } else {
            Err::<(), Error>(Error::Write)
        },
{
    if done {
        Ok(())
    } else {
        Err(Error::Write)
    }
}

/// All the messages of `messages`, one after the other.
pub open spec fn concatenated(messages: Seq<Seq<u8>>) -> Seq<u8>
    decreases messages.len(),
{
    if messages.len() == 0 {
        Seq::empty()
    } else {
        concatenated(messages.drop_last()) + messages.last()
    }
}

/// A transport that keeps every message in memory, in the order sent.
pub struct Memory {
    pub messages: Vec<Vec<u8>>,
}

impl Memory {
    /// The messages held, as sequences of bytes.
    pub open spec fn view(&self) -> Seq<Seq<u8>> {
        self.messages@.map_values(|m: Vec<u8>| m@)
    }

    /// A transport that holds no message yet.
    pub fn new() -> (memory: Memory)
        ensures
            memory@ == Seq::<Seq<u8>>::empty(),
    {
        let memory = Memory { messages: Vec::new() };
        memory
    }
}

impl Transport for Memory {
    open spec fn transcript(&self) -> Option<Seq<u8>> {
        Some(concatenated(self@))
    }

    open spec fn messages(&self) -> Option<Seq<Seq<u8>>> {
        Some(self@)
    }

    /// Memory takes whatever it is given.
    open spec fn takes(&self, message: Seq<u8>) -> bool {
        true
    }

    /// The message is put last, and that is all.
    open spec fn sent(&self, message: Seq<u8>, after: &Self, accepted: bool) -> bool {
        accepted && after@ == self@.push(message)
    }

    /// Nothing is held back, so a flush changes nothing and goes well.
    open spec fn flushed(&self, after: &Self, done: bool) -> bool {
        done && *after == *self
    }

    fn send(&mut self, message: &[u8]) -> (accepted: bool) {
        let mut copy: Vec<u8> = Vec::new();
        append(&mut copy, message);
        self.messages.push(copy);
        assert(self@.drop_last() =~= old(self)@);
        true
    }

    fn flush(&mut self) -> (flushed: bool) {
        true
    }
}

/// A vector of bytes is a transport too: what it is sent is appended to
/// it, one message after the other without anything between them.
impl Transport for Vec<u8> {
    open spec fn transcript(&self) -> Option<Seq<u8>> {
        Some(self@)
    }

    open spec fn takes(&self, message: Seq<u8>) -> bool {
        true
    }

    open spec fn sent(&self, message: Seq<u8>, after: &Self, accepted: bool) -> bool {
        accepted && after@ == self@ + message
    }

    open spec fn flushed(&self, after: &Self, done: bool) -> bool {
        done && *after == *self
    }

    fn send(&mut self, message: &[u8]) -> (accepted: bool) {
        append(self, message);
        true
    }

    fn flush(&mut self) -> (flushed: bool) {
        true
    }
}

/// The room that a buffered stream has unless told otherwise, in bytes.
pub const DEFAULT_CAPACITY: usize = 8192;

/// A stream with a buffer in front of it.
///
/// Messages gather in `pending` and reach the stream only when the buffer
/// has no room for the next one, or on `flush`. Nothing is pushed out when
/// the value is dropped: whoever owns it flushes it first.
pub struct Buffered<S> {
    /// The stream itself.
    pub inner: S,
    /// The bytes accepted but not yet handed to the stream.
    pub pending: Vec<u8>,
    /// How many bytes the buffer gathers before it hands them on.
    pub capacity: usize,
}

impl<S: Transport> Buffered<S> {
    /// A buffer of the default capacity in front of `inner`.
    pub fn new(inner: S) -> (buffered: Self)
        ensures
            buffered.inner == inner,
            buffered.pending@ == Seq::<u8>::empty(),
            buffered.capacity == DEFAULT_CAPACITY,
    {
        Buffered { inner, pending: Vec::new(), capacity: DEFAULT_CAPACITY }
    }

    /// A buffer of the given capacity in front of `inner`.
    pub fn with_capacity(capacity: usize, inner: S) -> (buffered: Self)
        ensures
            buffered.inner == inner,
            buffered.pending@ == Seq::<u8>::empty(),
            buffered.capacity == capacity,
    {
        Buffered { inner, pending: Vec::new(), capacity }
    }

    /// Whether `message` is kept in the buffer, without a word to the
    /// stream: it is, where the buffer has room for it.
    pub open spec fn holds_back(&self, message: Seq<u8>) -> bool {
        self.pending@.len() + message.len() <= self.capacity && message.len() < self.capacity
    }

    /// What handing the pending bytes on does: nothing at all where none
    /// are pending; else the stream is sent them, and they leave the buffer
    /// where it took them and stay where it did not.
    pub open spec fn drained(&self, after: &Self, done: bool) -> bool {
        &&& after.capacity == self.capacity
        &&& if self.pending@.len() == 0 {
            done && *after == *self
        } else {
            &&& self.inner.sent(self.pending@, &after.inner, done)
            &&& after.pending@ == if done {
                Seq::<u8>::empty()
            } else {
                self.pending@
            }
        }
    }

    /// Hands the pending bytes to the stream, if there are any, and empties
    /// the buffer where the stream took them.
    fn drain(&mut self) -> (done: bool)
        ensures
            old(self).drained(final(self), done),
            final(self).transcript() == old(self).transcript(),
            old(self).pending@.len() > 0 && old(self).inner.takes(old(self).pending@) ==> done,
    {
        if self.pending.len() == 0 {
            return true;
        }
        let taken = self.inner.send(self.pending.as_slice());
        if taken {
            self.pending.clear();
        }
        taken
    }
}

impl<S: Transport> Transport for Buffered<S> {
    /// What the stream has been passed, and then what is pending.
    open spec fn transcript(&self) -> Option<Seq<u8>> {
        match self.inner.transcript() {
            Some(passed_on) => Some(passed_on + self.pending@),
            None => None,
        }
    }

    /// A message is sure to be accepted where the buffer has room for it,
    /// and, with nothing pending, where the stream is sure to accept it.
    open spec fn takes(&self, message: Seq<u8>) -> bool {
        self.holds_back(message) || (self.pending@.len() == 0 && self.inner.takes(message))
    }

    /// What sending `message` does. A message that the buffer has room for
    /// is kept, and the stream is left alone. For any other the pending
    /// bytes are handed on first. Where the stream refuses them, the
    /// message is refused and nothing else happens. Where it takes them,
    /// the message is kept if it is smaller than the buffer, and is sent
    /// to the stream itself if not, with the stream's answer for answer.
    open spec fn sent(&self, message: Seq<u8>, after: &Self, accepted: bool) -> bool {
        &&& after.capacity == self.capacity
        &&& if self.holds_back(message) {
            &&& accepted
            &&& after.inner == self.inner
            &&& after.pending@ == self.pending@ + message
        } else {
            exists|mid: Self, done: bool|
                {
                    &&& #[trigger] self.drained(&mid, done)
                    &&& if !done {
                        !accepted && *after == mid
                    } else if message.len() < self.capacity {
                        accepted && after.inner == mid.inner && after.pending@ == message
                    } else {
                        &&& mid.inner.sent(message, &after.inner, accepted)
                        &&& after.pending@ == Seq::<u8>::empty()
                    }
                }
        }
    }

    /// What flushing does. The pending bytes are handed on first. Where
    /// the stream refuses them, the flush has failed, they stay, and the
    /// stream is not asked to flush. Where it takes them, or none were
    /// pending, the stream is flushed, and its answer is the answer.
    open spec fn flushed(&self, after: &Self, done: bool) -> bool {
        exists|mid: Self, handed_on: bool|
            {
                &&& #[trigger] self.drained(&mid, handed_on)
                &&& after.capacity == self.capacity
                &&& if !handed_on {
                    !done && *after == mid
                } else {
                    &&& mid.inner.flushed(&after.inner, done)
                    &&& after.pending@ == Seq::<u8>::empty()
                }
            }
    }

    fn send(&mut self, message: &[u8]) -> (accepted: bool) {
        if self.pending.len() <= self.capacity && message.len() <= self.capacity
            - self.pending.len() && message.len() < self.capacity {
            append(&mut self.pending, message);
            return true;
        }
        let done = self.drain();
        if !done {
            return false;
        }
        if message.len() < self.capacity {
            append(&mut self.pending, message);
            true
        } else {
            let accepted = self.inner.send(message);
            assert(self.pending@ == Seq::<u8>::empty());
            accepted
        }
    }

    fn flush(&mut self) -> (flushed: bool) {
        let handed_on = self.drain();
        if !handed_on {
            return false;
        }
        let done = self.inner.flush();
        assert(self.pending@ == Seq::<u8>::empty());
        done
    }
}

/// What a buffer does is seen in what is pending. A message that is
/// accepted is pending afterwards, alone or behind what was pending, unless
/// it went straight to the stream; a message is refused only where the
/// buffer had no room for it, and the pending bytes are then all there
/// still or all gone. After a flush that went well nothing is pending;
/// after one that failed the pending bytes are all there still or all
/// gone. And with nothing pending, a flush is the flush of the stream.
pub proof fn lemma_buffer_keeps_or_hands_on<S: Transport>(
    before: Buffered<S>,
    message: Seq<u8>,
    after: Buffered<S>,
    answer: bool,
)
    ensures
        before.sent(message, &after, answer) ==> {
            &&& after.capacity == before.capacity
            &&& answer ==> after.pending@ == if before.holds_back(message) {
                before.pending@ + message
            } else if message.len() < before.capacity {
                message
            } else {
                Seq::<u8>::empty()
            }
            &&& !answer ==> after.pending@ == before.pending@ || after.pending@
                == Seq::<u8>::empty()
            &&& !answer ==> !before.holds_back(message)
        },
        before.flushed(&after, answer) ==> {
            &&& after.capacity == before.capacity
            &&& answer ==> after.pending@ == Seq::<u8>::empty()
            &&& !answer ==> after.pending@ == before.pending@ || after.pending@
                == Seq::<u8>::empty()
            &&& before.pending@.len() == 0 ==> before.inner.flushed(&after.inner, answer)
        },
{
}

/// What a buffered stream has accepted is what it has passed on and what
/// is pending, in that order; so once nothing is pending, as after a flush
/// that went well, all of it has reached the stream.
pub proof fn lemma_nothing_pending_means_all_passed_on<S: Transport>(buffered: Buffered<S>)
    ensures
        buffered.transcript() matches Some(accepted) ==> {
            &&& buffered.inner.transcript() matches Some(passed_on)
            &&& accepted == passed_on + buffered.pending@
            &&& buffered.pending@.len() == 0 ==> accepted == passed_on
        },
{
}

/// The transports a logger is set up with: one datagram per message to a
/// fixed peer, or a buffered stream to a connected one.
pub enum LoggerBackend<D, S> {
    /// Connectionless: every message is handed on at once, as it is.
    Udp(D),
    /// Streaming: messages gather in a buffer until it is flushed.
    Tcp(Buffered<S>),
}

impl<D: Transport, S: Transport> Transport for LoggerBackend<D, S> {
    open spec fn transcript(&self) -> Option<Seq<u8>> {
        match self {
            LoggerBackend::Udp(peer) => peer.transcript(),
            LoggerBackend::Tcp(stream) => stream.transcript(),
        }
    }

    /// Datagrams stay apart; in a stream nothing parts one message from
    /// the next.
    open spec fn messages(&self) -> Option<Seq<Seq<u8>>> {
        match self {
            LoggerBackend::Udp(peer) => peer.messages(),
            LoggerBackend::Tcp(_) => None,
        }
    }

    open spec fn takes(&self, message: Seq<u8>) -> bool {
        match self {
            LoggerBackend::Udp(peer) => peer.takes(message),
            LoggerBackend::Tcp(stream) => stream.takes(message),
        }
    }

    /// What sending `message` does. Over datagrams the message is sent to
    /// the peer, once and as it is: the peer is left as that one send
    /// leaves it, and its answer is the answer. Over a stream the message
    /// goes to the buffer.
    open spec fn sent(&self, message: Seq<u8>, after: &Self, accepted: bool) -> bool {
        match self {
            LoggerBackend::Udp(peer) => {
                &&& *after matches LoggerBackend::Udp(left)
                &&& peer.sent(message, &left, accepted)
            },
            LoggerBackend::Tcp(stream) => {
                &&& *after matches LoggerBackend::Tcp(left)
                &&& stream.sent(message, &left, accepted)
            },
        }
    }

    /// What flushing does. Datagrams are never held back, so for them a
    /// flush goes well and touches nothing, the socket least of all; a
    /// stream flushes its buffer.
    open spec fn flushed(&self, after: &Self, done: bool) -> bool {
        match self {
            LoggerBackend::Udp(_) => done && *after == *self,
            LoggerBackend::Tcp(stream) => {
                &&& *after matches LoggerBackend::Tcp(left)
                &&& stream.flushed(&left, done)
            },
        }
    }

    fn send(&mut self, message: &[u8]) -> (accepted: bool) {
        match self {
            LoggerBackend::Udp(peer) => peer.send(message),
            LoggerBackend::Tcp(stream) => stream.send(message),
        }
    }

    fn flush(&mut self) -> (flushed: bool) {
        match self {
            LoggerBackend::Udp(_) => true,
            LoggerBackend::Tcp(stream) => stream.flush(),
        }
    }
}

} // verus!
