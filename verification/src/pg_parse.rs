use vstd::prelude::*;

use crate::errors::DecodeError;

verus! {

/// The semantic role of one protocol message.
///
/// Most traffic is "tagged": the wire form starts with a one-byte type tag
/// drawn from a closed set. `Startup` stands for the untagged startup-class
/// shape used during connection negotiation, `SSLRequest` for its length-8
/// negotiation variant, and `NoTag` for a tag byte outside the known set.
#[derive(Debug, Clone, Copy, PartialEq, Eq, Structural)]
pub enum MessageType {
    ParseComplete,
    Startup,
    SSLRequest,
    Authentication,
    BackendKeyData,
    BindComplete,
    CloseComplete,
    CommandComplete,
    CopyData,
    CopyDone,
    CopyInResponse,
    CopyOutResponse,
    DataRow,
    EmptyQueryResponse,
    ErrorResponse,
    NoData,
    NoticeResponse,
    NotificationResponse,
    ParameterDescription,
    ParameterStatus,
    PasswordMessage,
    PortalSuspended,
    ReadyForQuery,
    RowDescription,
    Terminate,
    Query,
    NoTag,
}

// The one-byte type tags of the regular (tagged) messages, as ASCII values:
// '1' '2' '3' 'A' 'c' 'C' 'd' 'D' 'E' 'G' 'H' 'I' 'K' 'n' 'N' 'R' 's' 'S'
// 't' 'p' 'T' 'Z' 'Q' 'X'.
pub const TAG_PARSE_COMPLETE: u8 = 49;
pub const TAG_BIND_COMPLETE: u8 = 50;
pub const TAG_CLOSE_COMPLETE: u8 = 51;
pub const TAG_NOTIFICATION_RESPONSE: u8 = 65;
pub const TAG_COPY_DONE: u8 = 99;
pub const TAG_COMMAND_COMPLETE: u8 = 67;
pub const TAG_COPY_DATA: u8 = 100;
pub const TAG_DATA_ROW: u8 = 68;
pub const TAG_ERROR_RESPONSE: u8 = 69;
pub const TAG_COPY_IN_RESPONSE: u8 = 71;
pub const TAG_COPY_OUT_RESPONSE: u8 = 72;
pub const TAG_EMPTY_QUERY_RESPONSE: u8 = 73;
pub const TAG_BACKEND_KEY_DATA: u8 = 75;
pub const TAG_NO_DATA: u8 = 110;
pub const TAG_NOTICE_RESPONSE: u8 = 78;
pub const TAG_AUTHENTICATION: u8 = 82;
pub const TAG_PORTAL_SUSPENDED: u8 = 115;
pub const TAG_PARAMETER_STATUS: u8 = 83;
pub const TAG_PARAMETER_DESCRIPTION: u8 = 116;
pub const TAG_PASSWORD_MESSAGE: u8 = 112;
pub const TAG_ROW_DESCRIPTION: u8 = 84;
pub const TAG_READY_FOR_QUERY: u8 = 90;
pub const TAG_QUERY: u8 = 81;
pub const TAG_TERMINATE: u8 = 88;

/// The message kind a one-byte type tag stands for; `NoTag` when the byte
/// is outside the recognized set.
pub open spec fn kind_of_tag(tag: u8) -> MessageType {
    if tag == TAG_PARSE_COMPLETE {
        MessageType::ParseComplete
    } else if tag == TAG_BIND_COMPLETE {
        MessageType::BindComplete
    } else if tag == TAG_CLOSE_COMPLETE {
        MessageType::CloseComplete
    } else if tag == TAG_NOTIFICATION_RESPONSE {
        MessageType::NotificationResponse
    } else if tag == TAG_COPY_DONE {
        MessageType::CopyDone
    } else if tag == TAG_COMMAND_COMPLETE {
        MessageType::CommandComplete
    } else if tag == TAG_COPY_DATA {
        MessageType::CopyData
    } else if tag == TAG_DATA_ROW {
        MessageType::DataRow
    } else if tag == TAG_ERROR_RESPONSE {
        MessageType::ErrorResponse
    } else if tag == TAG_COPY_IN_RESPONSE {
        MessageType::CopyInResponse
    } else if tag == TAG_COPY_OUT_RESPONSE {
        MessageType::CopyOutResponse
    } else if tag == TAG_EMPTY_QUERY_RESPONSE {
        MessageType::EmptyQueryResponse
    } else if tag == TAG_BACKEND_KEY_DATA {
        MessageType::BackendKeyData
    } else if tag == TAG_NO_DATA {
        MessageType::NoData
    } else if tag == TAG_NOTICE_RESPONSE {
        MessageType::NoticeResponse
    } else if tag == TAG_AUTHENTICATION {
        MessageType::Authentication
    } else if tag == TAG_PORTAL_SUSPENDED {
        MessageType::PortalSuspended
    } else if tag == TAG_PARAMETER_STATUS {
        MessageType::ParameterStatus
    } else if tag == TAG_PARAMETER_DESCRIPTION {
        MessageType::ParameterDescription
    } else if tag == TAG_PASSWORD_MESSAGE {
        MessageType::PasswordMessage
    } else if tag == TAG_ROW_DESCRIPTION {
        MessageType::RowDescription
    } else if tag == TAG_READY_FOR_QUERY {
        MessageType::ReadyForQuery
    } else if tag == TAG_QUERY {
        MessageType::Query
    } else if tag == TAG_TERMINATE {
        MessageType::Terminate
    } else {
        MessageType::NoTag
    }
}

/// A tag byte that belongs to the closed set of regular (tagged) messages.
pub open spec fn is_known_tag(tag: u8) -> bool {
    kind_of_tag(tag) != MessageType::NoTag
}

impl core::convert::From<u8> for MessageType {
    /// Maps a wire tag byte to the kind it stands for, `NoTag` otherwise.
    fn from(val: u8) -> (r: Self) {
        if val == TAG_PARSE_COMPLETE {
            MessageType::ParseComplete
        } else if val == TAG_BIND_COMPLETE {
            MessageType::BindComplete
        } else if val == TAG_CLOSE_COMPLETE {
            MessageType::CloseComplete
        } else if val == TAG_NOTIFICATION_RESPONSE {
            MessageType::NotificationResponse
        } else if val == TAG_COPY_DONE {
            MessageType::CopyDone
        } else if val == TAG_COMMAND_COMPLETE {
            MessageType::CommandComplete
        } else if val == TAG_COPY_DATA {
            MessageType::CopyData
        } else if val == TAG_DATA_ROW {
            MessageType::DataRow
        } else if val == TAG_ERROR_RESPONSE {
            MessageType::ErrorResponse
        } else if val == TAG_COPY_IN_RESPONSE {
            MessageType::CopyInResponse
        } else if val == TAG_COPY_OUT_RESPONSE {
            MessageType::CopyOutResponse
        } else if val == TAG_EMPTY_QUERY_RESPONSE {
            MessageType::EmptyQueryResponse
        } else if val == TAG_BACKEND_KEY_DATA {
            MessageType::BackendKeyData
        } else if val == TAG_NO_DATA {
            MessageType::NoData
        } else if val == TAG_NOTICE_RESPONSE {
            MessageType::NoticeResponse
        } else if val == TAG_AUTHENTICATION {
            MessageType::Authentication
        } else if val == TAG_PORTAL_SUSPENDED {
            MessageType::PortalSuspended
        } else if val == TAG_PARAMETER_STATUS {
            MessageType::ParameterStatus
        } else if val == TAG_PARAMETER_DESCRIPTION {
            MessageType::ParameterDescription
        } else if val == TAG_PASSWORD_MESSAGE {
            MessageType::PasswordMessage
        } else if val == TAG_ROW_DESCRIPTION {
            MessageType::RowDescription
        } else if val == TAG_READY_FOR_QUERY {
            MessageType::ReadyForQuery
        } else if val == TAG_QUERY {
            MessageType::Query
        } else if val == TAG_TERMINATE {
            MessageType::Terminate
        } else {
            MessageType::NoTag
        }
    }
}

impl vstd::std_specs::convert::FromSpecImpl<u8> for MessageType {
    open spec fn obeys_from_spec() -> bool {
        true
    }

    open spec fn from_spec(v: u8) -> MessageType {
        kind_of_tag(v)
    }
}

/// The value of the big-endian 32-bit integer whose four bytes sit at
/// offsets `i .. i + 4` of `s`.
pub open spec fn be32_at(s: Seq<u8>, i: int) -> int {
    0x1000000 * (s[i] as int) + 0x10000 * (s[i + 1] as int) + 0x100 * (s[i + 2] as int) + (s[i + 3] as int)
}

/// Reads the big-endian 32-bit integer at offset `at` of `buf`.
pub fn read_u32_be(buf: &Vec<u8>, at: usize) -> (r: u32)
    requires
        at + 4 <= buf@.len(),
    ensures
        r as int == be32_at(buf@, at as int),
{
    // binds the buffer length so the index sums below are known to fit
    let n = buf.len();
    let b0 = buf[at];
    let b1 = buf[at + 1];
    let b2 = buf[at + 2];
    let b3 = buf[at + 3];
    (b0 as u32) * 0x1000000 + (b1 as u32) * 0x10000 + (b2 as u32) * 0x100 + (b3 as u32)
}

/// Total on-wire length declared by a tagged message: the big-endian length
/// at bytes 1..5 counts everything but the tag byte, so one more.
pub open spec fn tagged_total_len(s: Seq<u8>) -> int {
    be32_at(s, 1) + 1
}

/// Total on-wire length declared by an untagged (startup-class) message:
/// the big-endian length at bytes 0..4 counts the whole message.
pub open spec fn untagged_total_len(s: Seq<u8>) -> int {
    be32_at(s, 0)
}

/// One decoding step on the accumulated bytes `s` of one direction.
///
/// `Ok((kind, body, rest))` means: exactly one message of kind `kind` and
/// on-wire bytes `body` (header included) is sliced off the front, leaving
/// `rest` buffered. `Err` carries the reason no message was produced, in
/// which case the buffer is to be left untouched.
///
/// A tagged message is extracted only when its declared total length equals
/// the whole buffer — deliberately strict exact-match framing, under which
/// several pipelined messages in one buffer are not split apart. An untagged
/// message is extracted whenever its declared length is covered, leaving the
/// remainder buffered.
pub open spec fn spec_extract(s: Seq<u8>) -> Result<(MessageType, Seq<u8>, Seq<u8>), DecodeError> {
    if s.len() < 5 {
        Err(DecodeError::NotEnoughData)
    } else if is_known_tag(s[0]) {
        if tagged_total_len(s) == s.len() {
            Ok((kind_of_tag(s[0]), s, Seq::empty()))
        } else {
            Err(DecodeError::NotFullyLoaded)
        }
    } else {
        let len = untagged_total_len(s);
        if len == 8 {
            Err(DecodeError::UnsupportedSslRequest)
        } else if len <= s.len() {
            Ok((MessageType::Startup, s.subrange(0, len), s.subrange(len, s.len() as int)))
        } else {
            Err(DecodeError::NotEnoughData)
        }
    }
}

/// One complete protocol message: its kind and its exact on-wire bytes,
/// length header (and tag byte, for tagged messages) included.
#[derive(Debug)]
pub struct MessagePacket {
    pub msg_type: MessageType,
    pub body: Vec<u8>,
}

impl MessagePacket {
    /// Syntactic completeness: the body carries its own framing header and
    /// the declared length equals the body's length. For an untagged
    /// (startup-class) message a malformed length field shorter than the
    /// header itself is tolerated, as the decoder extracts such a prefix
    /// unchecked.
    pub open spec fn wf(self) -> bool {
        if self.msg_type == MessageType::Startup {
            &&& (0 < self.body@.len() ==> !is_known_tag(self.body@[0]))
            &&& (4 <= self.body@.len() ==> untagged_total_len(self.body@) == self.body@.len())
        } else {
            &&& 5 <= self.body@.len()
            &&& is_known_tag(self.body@[0])
            &&& self.msg_type == kind_of_tag(self.body@[0])
            &&& tagged_total_len(self.body@) == self.body@.len()
        }
    }

    /// Packs a kind and its on-wire bytes into a message value.
    pub fn new(msg_type: MessageType, body: Vec<u8>) -> (r: Self)
        ensures
            r.msg_type == msg_type,
            r.body == body,
    {
        MessagePacket { msg_type, body }
    }

    /// Attempts to slice exactly one complete message off the front of the
    /// accumulated bytes, per `spec_extract`. On any `Err` the buffer is
    /// left byte-for-byte as it was, ready to be appended to and retried.
    pub fn try_from(buf: &mut Vec<u8>) -> (r: Result<Self, DecodeError>)
        ensures
            (match (spec_extract(old(buf)@), r) {
                (Ok(t), Ok(p)) => {
                    &&& p.msg_type == t.0
                    &&& p.body@ == t.1
                    &&& final(buf)@ == t.2
                    &&& p.wf()
                },
                (Err(e), Err(e2)) => e2 == e && final(buf)@ == old(buf)@,
                _ => false,
            }),
    {
        let n = buf.len();
        if n < 5 {
            return Err(DecodeError::NotEnoughData);
        }

        let tag = buf[0];
        let msg_type = MessageType::from(tag);

        if msg_type == MessageType::NoTag {
            let len64: u64 = read_u32_be(buf, 0) as u64;
            if len64 == 8 {
                return Err(DecodeError::UnsupportedSslRequest);
            }
            if len64 > n as u64 {
                return Err(DecodeError::NotEnoughData);
            }
            let len: usize = len64 as usize;
            let mut body = buf.split_off(len);
            core::mem::swap(buf, &mut body);
            proof {
                assert(buf@ == old(buf)@.subrange(len as int, old(buf)@.len() as int));
                assert(body@ == old(buf)@.subrange(0, len as int));
            }
            Ok(MessagePacket::new(MessageType::Startup, body))
        } else {
            let len64: u64 = read_u32_be(buf, 1) as u64 + 1;
            if len64 == n as u64 {
                let mut body = buf.split_off(n);
                core::mem::swap(buf, &mut body);
                proof {
                    assert(body@ == old(buf)@);
                    assert(buf@ == Seq::<u8>::empty());
                }
                Ok(MessagePacket::new(msg_type, body))
            } else {
                Err(DecodeError::NotFullyLoaded)
            }
        }
    }

    /// Hands the message's exact on-wire bytes to `writer` in one write
    /// call; forwarding a message is writing its body verbatim.
    pub fn write<W: std::io::Write>(&self, writer: &mut W) -> (r: std::io::Result<usize>)
        ensures
            r matches Ok(n) ==> n <= self.body@.len(),
    {
        io_write(writer, self.body.as_slice())
    }
}

/// Declares std::io::Error so `write` results can carry it; the error is
/// opaque here and is only reported by callers outside the library.
#[verifier::external_type_specification]
#[verifier::external_body]
pub struct ExIoError(std::io::Error);

/// Relies on std::io::Write::write: a successful call reports how many
/// bytes from the front of the buffer were accepted, never more than the
/// buffer's length.
#[verifier::external_body]
fn io_write<W: std::io::Write>(writer: &mut W, bytes: &[u8]) -> (r: std::io::Result<usize>)
    ensures
        r matches Ok(n) ==> n <= bytes@.len(),
{
    writer.write(bytes)
}

/// The contents of a decode buffer that started as `base` and was handed
/// the chunks of `chunks` one read at a time, in order.
pub open spec fn after_feeding(base: Seq<u8>, chunks: Seq<Seq<u8>>) -> Seq<u8>
    decreases chunks.len(),
{
    if chunks.len() == 0 {
        base
    } else {
        after_feeding(base + chunks.first(), chunks.drop_first())
    }
}

/// Chunk-boundary independence: decoding looks only at the accumulated
/// bytes. However the same bytes are split across any number of reads, the
/// buffer ends as their one-shot concatenation, and so the decoding step
/// on what accumulated is the same as on the bytes handed over at once.
pub proof fn lemma_chunk_boundary_independence(base: Seq<u8>, chunks: Seq<Seq<u8>>)
    ensures
        after_feeding(base, chunks) == base + chunks.flatten(),
        spec_extract(after_feeding(base, chunks)) == spec_extract(base + chunks.flatten()),
    decreases chunks.len(),
{
    if chunks.len() == 0 {
        assert(base + chunks.flatten() =~= base);
    } else {
        lemma_chunk_boundary_independence(base + chunks.first(), chunks.drop_first());
        assert((base + chunks.first()) + chunks.drop_first().flatten() =~= base
            + chunks.flatten());
    }
}

/// Every known tag decodes to its kind: a buffer holding exactly one
/// tagged message — known tag byte, then a big-endian length that counts
/// the rest of the buffer — extracts to a message of the corresponding
/// kind whose body is exactly the input bytes, leaving nothing buffered.
pub proof fn lemma_tagged_message_decodes(s: Seq<u8>)
    requires
        5 <= s.len(),
        is_known_tag(s[0]),
        tagged_total_len(s) == s.len(),
    ensures
        spec_extract(s) == Ok::<_, DecodeError>((kind_of_tag(s[0]), s, Seq::<u8>::empty())),
{
}

/// Every unrecognized tag byte makes the buffer startup-class: the first
/// four bytes are read as the total length, and when that many bytes are
/// buffered the message extracts as `Startup`, body and remainder
/// partitioning the input.
pub proof fn lemma_unknown_tag_is_untagged(s: Seq<u8>)
    requires
        5 <= s.len(),
        !is_known_tag(s[0]),
        untagged_total_len(s) != 8,
        untagged_total_len(s) <= s.len(),
    ensures
        spec_extract(s) == Ok::<_, DecodeError>(
            (
                MessageType::Startup,
                s.subrange(0, untagged_total_len(s)),
                s.subrange(untagged_total_len(s), s.len() as int),
            ),
        ),
{
}

/// A buffer shorter than the declared total length yields an
/// incomplete-input signal, never a message and never a failure; by
/// `try_from`'s contract the buffer is then left byte-for-byte unchanged,
/// so any number of repeated calls returns the same signal.
pub proof fn lemma_short_buffer_incomplete(s: Seq<u8>)
    requires
        s.len() < 5 || (is_known_tag(s[0]) && s.len() < tagged_total_len(s)) || (!is_known_tag(
            s[0],
        ) && untagged_total_len(s) != 8 && s.len() < untagged_total_len(s)),
    ensures
        spec_extract(s) matches Err(e) && e.spec_is_incomplete(),
{
}

/// Extraction partitions the buffer: whenever a message comes out, its
/// on-wire bytes followed by the remainder are exactly the input buffer,
/// and the remainder is empty in the exact-length (tagged) case.
pub proof fn lemma_extract_partitions_buffer(s: Seq<u8>)
    requires
        spec_extract(s) matches Ok(t),
    ensures
        spec_extract(s) matches Ok(t) ==> t.1 + t.2 == s,
{
    let t = spec_extract(s)->Ok_0;
    assert(t.1 + t.2 =~= s);
}

} // verus!

