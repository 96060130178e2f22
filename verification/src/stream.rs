use vstd::prelude::*;

use crate::errors::DecodeError;
use crate::pg_parse::{spec_extract, MessagePacket};

verus! {

/// Enforced ceiling on the decode buffer of one direction, in bytes. A
/// corrupt or malicious length field can declare far more than will ever
/// arrive; the buffer refuses to grow past this bound instead of
/// accumulating without limit.
pub const MAX_BUFFERED: usize = 1048576;

/// The per-direction decode buffer: the accumulated, not-yet-consumed
/// bytes of one side of a connection. Grows by socket reads, shrinks by
/// whole extracted messages, and is owned by exactly one direction of one
/// connection.
pub struct MessageBuffer {
    buf: Vec<u8>,
}

impl View for MessageBuffer {
    type V = Seq<u8>;

    closed spec fn view(&self) -> Seq<u8> {
        self.buf@
    }
}

/// What one scheduling opportunity on the reading side observed: either a
/// chunk of bytes (possibly empty) or the peer's clean end-of-stream.
pub enum ReadEvent {
    Data(Vec<u8>),
    Closed,
}

/// The decision taken after one read event: yield a framed message, ask
/// for more bytes, end the sequence, or fail this connection.
pub enum StreamStep {
    Packet(MessagePacket),
    NeedMore,
    EndOfStream,
    Failed(DecodeError),
}

impl MessageBuffer {
    /// An empty decode buffer for a fresh connection direction.
    pub fn new() -> (r: Self)
        ensures
            r@ == Seq::<u8>::empty(),
            r@.len() == 0,
    {
        MessageBuffer { buf: Vec::new() }
    }

    /// How many bytes are currently buffered.
    pub fn len(&self) -> (n: usize)
        ensures
            n == self@.len(),
    {
        self.buf.len()
    }

    /// Appends freshly read bytes, unless that would push the buffer past
    /// `MAX_BUFFERED`; a refused chunk leaves the buffer untouched.
    pub fn feed(&mut self, chunk: &[u8]) -> (r: Result<(), DecodeError>)
        ensures
            old(self)@.len() + chunk@.len() <= MAX_BUFFERED
                ==> r is Ok && final(self)@ == old(self)@ + chunk@,
            old(self)@.len() + chunk@.len() > MAX_BUFFERED
                ==> r == Err::<(), DecodeError>(DecodeError::BufferLimitExceeded)
                    && final(self)@ == old(self)@,
    {
        if (self.buf.len() as u128) + (chunk.len() as u128) > (MAX_BUFFERED as u128) {
            return Err(DecodeError::BufferLimitExceeded);
        }
        let n = chunk.len();
        let mut i: usize = 0;
        while i < n
            invariant
                i <= n,
                n == chunk@.len(),
                self.buf@ == old(self)@ + chunk@.subrange(0, i as int),
            decreases n - i,
        {
            self.buf.push(chunk[i]);
            i = i + 1;
            proof {
                assert(old(self)@ + chunk@.subrange(0, i - 1) + seq![chunk@[i - 1]] =~= old(self)@
                    + chunk@.subrange(0, i as int));
            }
        }
        proof {
            assert(chunk@.subrange(0, n as int) =~= chunk@);
        }
        Ok(())
    }

    /// Attempts to slice one complete message off the front of the buffer,
    /// exactly as `MessagePacket::try_from` does.
    pub fn next_packet(&mut self) -> (r: Result<MessagePacket, DecodeError>)
        ensures
            (match (spec_extract(old(self)@), r) {
                (Ok(t), Ok(p)) => {
                    &&& p.msg_type == t.0
                    &&& p.body@ == t.1
                    &&& final(self)@ == t.2
                    &&& p.wf()
                },
                (Err(e), Err(e2)) => e2 == e && final(self)@ == old(self)@,
                _ => false,
            }),
    {
        MessagePacket::try_from(&mut self.buf)
    }

    /// The framing decision for one read event, the pure core of the
    /// message stream's poll loop:
    ///
    /// - a closed peer ends the message sequence gracefully;
    /// - a chunk that would overflow the buffer fails the connection;
    /// - otherwise the chunk is buffered and one extraction is attempted:
    ///   a complete message is yielded, an incomplete-input signal asks
    ///   for more bytes, and the unsupported negotiation request fails the
    ///   connection rather than being misframed.
    pub fn step(&mut self, event: ReadEvent) -> (r: StreamStep)
        ensures
            (match event {
                ReadEvent::Closed => r is EndOfStream && final(self)@ == old(self)@,
                ReadEvent::Data(c) => {
                    if old(self)@.len() + c@.len() > MAX_BUFFERED {
                        r == StreamStep::Failed(DecodeError::BufferLimitExceeded)
                            && final(self)@ == old(self)@
                    } else {
                        let fed = old(self)@ + c@;
                        match (spec_extract(fed), r) {
                            (Ok(t), StreamStep::Packet(p)) => {
                                &&& p.msg_type == t.0
                                &&& p.body@ == t.1
                                &&& final(self)@ == t.2
                                &&& p.wf()
                            },
                            (Err(e), rr) => {
                                if e == DecodeError::UnsupportedSslRequest {
                                    rr == StreamStep::Failed(DecodeError::UnsupportedSslRequest)
                                        && final(self)@ == fed
                                } else {
                                    rr is NeedMore && final(self)@ == fed
                                }
                            },
                            _ => false,
                        }
                    }
                },
            }),
    {
        match event {
            ReadEvent::Closed => StreamStep::EndOfStream,
            ReadEvent::Data(chunk) => {
                match self.feed(chunk.as_slice()) {
                    Err(e) => StreamStep::Failed(e),
                    Ok(()) => {
                        match self.next_packet() {
                            Ok(p) => StreamStep::Packet(p),
                            Err(DecodeError::UnsupportedSslRequest) => StreamStep::Failed(
                                DecodeError::UnsupportedSslRequest,
                            ),
                            Err(_) => StreamStep::NeedMore,
                        }
                    },
                }
            },
        }
    }
}

} // verus!

