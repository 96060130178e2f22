use vstd::prelude::*;

use crate::pg_parse::{be32_at, MessagePacket, MessageType, TAG_ERROR_RESPONSE};

verus! {

/// A query message body whose text can be inspected: after the five header
/// bytes there is at least the terminating NUL, the last byte is that NUL,
/// and no NUL comes earlier in the text.
pub open spec fn valid_query_body(body: Seq<u8>) -> bool {
    &&& 6 <= body.len()
    &&& body[body.len() - 1] == 0
    &&& forall|i: int| 5 <= i < body.len() - 1 ==> body[i] != 0
}

/// The query text carried by a query message body: everything between the
/// five header bytes and the terminating NUL.
pub open spec fn query_payload(body: Seq<u8>) -> Seq<u8> {
    body.subrange(5, body.len() - 1)
}

/// The inspection hook's decoding step: the NUL-terminated query text of a
/// `Query` message, as bytes, or `None` when the message is not a query or
/// its body is malformed. A malformed query never aborts anything; the
/// caller simply has no text to report.
pub fn query_text(pkt: &MessagePacket) -> (r: Option<Vec<u8>>)
    ensures
        r is Some <==> (pkt.msg_type == MessageType::Query && valid_query_body(pkt.body@)),
        r matches Some(v) ==> v@ == query_payload(pkt.body@),
{
    if !(pkt.msg_type == MessageType::Query) {
        return None;
    }
    let n = pkt.body.len();
    if n < 6 {
        return None;
    }
    if pkt.body[n - 1] != 0 {
        return None;
    }
    let mut out: Vec<u8> = Vec::new();
    let mut i: usize = 5;
    while i < n - 1
        invariant
            5 <= i <= n - 1,
            6 <= n,
            n == pkt.body@.len(),
            out@ == pkt.body@.subrange(5, i as int),
            forall|j: int| 5 <= j < i ==> pkt.body@[j] != 0,
        decreases n - 1 - i,
    {
        let b = pkt.body[i];
        if b == 0 {
            return None;
        }
        out.push(b);
        i = i + 1;
        proof {
            assert(pkt.body@.subrange(5, i - 1) + seq![pkt.body@[i - 1]] =~= pkt.body@.subrange(
                5,
                i as int,
            ));
        }
    }
    proof {
        assert(out@ =~= query_payload(pkt.body@));
    }
    Some(out)
}

/// What a handler tells the pipe to do with one decoded message.
#[derive(Debug)]
pub enum Action {
    /// forward the message unmodified — the default policy
    Forward,
    /// drop the message: forward nothing, answer nothing
    Discard,
    /// forward a mutated message in its place
    Mutate(MessagePacket),
    /// respond to the client directly, forwarding nothing
    Respond(Vec<MessagePacket>),
    /// respond to the client with a protocol-level error, forwarding nothing
    RespondError { state: [u8; 5], msg: Vec<u8> },
}

/// The pipe's per-message hook: invoked once per decoded message before
/// forwarding, for each direction. Implementations choose each message's
/// disposition; nothing is assumed about their choices.
pub trait MessageHandler {
    fn handle_request(&mut self, m: &MessagePacket) -> Action;

    fn handle_response(&mut self, m: &MessagePacket) -> Action;
}

/// The default policy when no other handler is installed: every message,
/// in either direction, is forwarded unmodified.
pub struct ForwardHandler;

impl MessageHandler for ForwardHandler {
    fn handle_request(&mut self, m: &MessagePacket) -> Action {
        Action::Forward
    }

    fn handle_response(&mut self, m: &MessagePacket) -> Action {
        Action::Forward
    }
}

/// What the pipe owes each side after a handler's decision on one message.
pub struct Disposition {
    pub to_server: Option<MessagePacket>,
    pub to_client: Vec<MessagePacket>,
}

/// The four bytes of a 32-bit value in big-endian order.
pub open spec fn be32_bytes(v: int) -> Seq<u8> {
    seq![
        (((v / 0x1000000) % 0x100) as u8),
        (((v / 0x10000) % 0x100) as u8),
        (((v / 0x100) % 0x100) as u8),
        ((v % 0x100) as u8),
    ]
}

/// Writing a 32-bit value big-endian and reading it back is the identity.
pub proof fn lemma_be32_round_trip(v: u32)
    ensures
        be32_at(be32_bytes(v as int), 0) == v as int,
{
    assert(0x1000000u32 * ((v / 0x1000000) % 0x100) + 0x10000u32 * ((v / 0x10000) % 0x100)
        + 0x100u32 * ((v / 0x100) % 0x100) + (v % 0x100) == v) by (bit_vector);
}

/// Appends the big-endian bytes of `v` to `out`.
fn push_u32_be(out: &mut Vec<u8>, v: u32)
    ensures
        final(out)@ == old(out)@ + be32_bytes(v as int),
{
    out.push(((v / 0x1000000) % 0x100) as u8);
    out.push(((v / 0x10000) % 0x100) as u8);
    out.push(((v / 0x100) % 0x100) as u8);
    out.push((v % 0x100) as u8);
    proof {
        assert(out@ =~= old(out)@ + be32_bytes(v as int));
    }
}

/// On-wire bytes of an `ErrorResponse` message: the tag, the length field,
/// a fixed `ERROR` severity field, the five-byte SQLSTATE field, the
/// message-text field, and the field-list terminator.
pub open spec fn error_response_bytes(state: Seq<u8>, msg: Seq<u8>) -> Seq<u8> {
    seq![TAG_ERROR_RESPONSE] + be32_bytes(21 + msg.len() as int) + seq![
        83u8,
        69u8,
        82u8,
        82u8,
        79u8,
        82u8,
        0u8,
    ] + seq![67u8] + state + seq![0u8] + seq![77u8] + msg + seq![0u8] + seq![0u8]
}

/// Builds the complete, well-formed `ErrorResponse` message that answers a
/// client at the protocol level with SQLSTATE `state` and text `msg`. The
/// length bound keeps the declared length inside its 32-bit field.
pub fn encode_error_response(state: [u8; 5], msg: &Vec<u8>) -> (r: MessagePacket)
    requires
        msg@.len() + 21 < 0x100000000,
    ensures
        r.msg_type == MessageType::ErrorResponse,
        r.body@ == error_response_bytes(state@, msg@),
        r.wf(),
{
    let mut body: Vec<u8> = Vec::new();
    body.push(TAG_ERROR_RESPONSE);
    let total: u32 = 21 + (msg.len() as u32);
    push_u32_be(&mut body, total);
    body.push(83);
    body.push(69);
    body.push(82);
    body.push(82);
    body.push(79);
    body.push(82);
    body.push(0);
    body.push(67);
    body.push(state[0]);
    body.push(state[1]);
    body.push(state[2]);
    body.push(state[3]);
    body.push(state[4]);
    body.push(0);
    body.push(77);
    let n = msg.len();
    let ghost head: Seq<u8> = body@;
    let mut i: usize = 0;
    while i < n
        invariant
            n == msg@.len(),
            i <= n,
            body@ == head + msg@.subrange(0, i as int),
        decreases n - i,
    {
        body.push(msg[i]);
        i = i + 1;
        proof {
            assert(head + msg@.subrange(0, i - 1) + seq![msg@[i - 1]] =~= head + msg@.subrange(
                0,
                i as int,
            ));
        }
    }
    body.push(0);
    body.push(0);
    proof {
        assert(msg@.subrange(0, n as int) =~= msg@);
        assert(body@ =~= error_response_bytes(state@, msg@));
        lemma_be32_round_trip(total);
    }
    MessagePacket::new(MessageType::ErrorResponse, body)
}

/// Carries out a handler's decision on one decoded message: what is
/// forwarded to the server and what is answered to the client. The default
/// `Forward` hands the message on untouched; nothing is ever sent in both
/// directions for one message.
pub fn dispose(pkt: MessagePacket, action: Action) -> (r: Disposition)
    requires
        action matches Action::RespondError { state, msg } ==> msg@.len() + 21 < 0x100000000,
    ensures
        (match action {
            Action::Forward => r.to_server == Some(pkt) && r.to_client@ == Seq::<
                MessagePacket,
            >::empty(),
            Action::Discard => r.to_server is None && r.to_client@ == Seq::<
                MessagePacket,
            >::empty(),
            Action::Mutate(m) => r.to_server == Some(m) && r.to_client@ == Seq::<
                MessagePacket,
            >::empty(),
            Action::Respond(ms) => r.to_server is None && r.to_client == ms,
            Action::RespondError { state, msg } => {
                &&& r.to_server is None
                &&& r.to_client@.len() == 1
                &&& r.to_client@[0].msg_type == MessageType::ErrorResponse
                &&& r.to_client@[0].body@ == error_response_bytes(state@, msg@)
                &&& r.to_client@[0].wf()
            },
        }),
{
    match action {
        Action::Forward => Disposition { to_server: Some(pkt), to_client: Vec::new() },
        Action::Discard => Disposition { to_server: None, to_client: Vec::new() },
        Action::Mutate(m) => Disposition { to_server: Some(m), to_client: Vec::new() },
        Action::Respond(ms) => Disposition { to_server: None, to_client: ms },
        Action::RespondError { state, msg } => {
            let mut answers: Vec<MessagePacket> = Vec::new();
            answers.push(encode_error_response(state, &msg));
            Disposition { to_server: None, to_client: answers }
        },
    }
}

} // verus!

