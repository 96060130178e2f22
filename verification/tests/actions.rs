use pg_proxy::pg_parse::{MessagePacket, MessageType};
use pg_proxy::pipe::{
    dispose, encode_error_response, Action, ForwardHandler, MessageHandler,
};

fn query_packet() -> MessagePacket {
    let mut wire = vec![b'Q', 0, 0, 0, 14];
    wire.extend_from_slice(b"SELECT 1;\0");
    MessagePacket::try_from(&mut wire).unwrap()
}

#[test]
fn default_policy_forwards_unmodified() {
    let pkt = query_packet();
    let mut handler = ForwardHandler;
    let action = handler.handle_request(&pkt);
    assert!(matches!(action, Action::Forward));
    let action = handler.handle_response(&pkt);
    assert!(matches!(action, Action::Forward));

    let body_before = pkt.body.clone();
    let d = dispose(pkt, Action::Forward);
    let fwd = d.to_server.expect("forward must hand the message on");
    assert_eq!(fwd.msg_type, MessageType::Query);
    assert_eq!(fwd.body, body_before);
    assert!(d.to_client.is_empty());
}

#[test]
fn discard_sends_nothing_anywhere() {
    let d = dispose(query_packet(), Action::Discard);
    assert!(d.to_server.is_none());
    assert!(d.to_client.is_empty());
}

#[test]
fn mutate_replaces_the_forwarded_message() {
    let replacement = MessagePacket::new(MessageType::Terminate, vec![b'X', 0, 0, 0, 4]);
    let d = dispose(query_packet(), Action::Mutate(replacement));
    let fwd = d.to_server.unwrap();
    assert_eq!(fwd.msg_type, MessageType::Terminate);
    assert_eq!(fwd.body, vec![b'X', 0, 0, 0, 4]);
    assert!(d.to_client.is_empty());
}

#[test]
fn respond_answers_the_client_directly() {
    let answer = MessagePacket::new(MessageType::ReadyForQuery, vec![b'Z', 0, 0, 0, 5, b'I']);
    let d = dispose(query_packet(), Action::Respond(vec![answer]));
    assert!(d.to_server.is_none());
    assert_eq!(d.to_client.len(), 1);
    assert_eq!(d.to_client[0].msg_type, MessageType::ReadyForQuery);
    assert_eq!(d.to_client[0].body, vec![b'Z', 0, 0, 0, 5, b'I']);
}

#[test]
fn respond_error_builds_a_wire_error_message() {
    let state = *b"42601";
    let msg = b"syntax error".to_vec();
    let d = dispose(
        query_packet(),
        Action::RespondError { state, msg: msg.clone() },
    );
    assert!(d.to_server.is_none());
    assert_eq!(d.to_client.len(), 1);
    let err = &d.to_client[0];
    assert_eq!(err.msg_type, MessageType::ErrorResponse);

    let mut expect = vec![b'E'];
    expect.extend_from_slice(&(21u32 + msg.len() as u32).to_be_bytes());
    expect.extend_from_slice(b"SERROR\0");
    expect.push(b'C');
    expect.extend_from_slice(&state);
    expect.push(0);
    expect.push(b'M');
    expect.extend_from_slice(&msg);
    expect.push(0);
    expect.push(0);
    assert_eq!(err.body, expect);

    // the built message frames itself: it decodes back as exactly one
    // ErrorResponse, leaving nothing behind
    let mut buf = err.body.clone();
    let back = MessagePacket::try_from(&mut buf).unwrap();
    assert_eq!(back.msg_type, MessageType::ErrorResponse);
    assert_eq!(back.body, err.body);
    assert!(buf.is_empty());
}

#[test]
fn encode_error_response_declared_length_counts_all_but_the_tag() {
    let pkt = encode_error_response(*b"08000", &b"x".to_vec());
    assert_eq!(pkt.body.len(), 22 + 1);
    let declared = u32::from_be_bytes([pkt.body[1], pkt.body[2], pkt.body[3], pkt.body[4]]);
    assert_eq!(declared as usize, pkt.body.len() - 1);
}
