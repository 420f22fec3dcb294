use maelstrom::echo::{EchoNode, Payload};
use maelstrom::protocol::{Body, Message, NodeError, Response};

fn envelope(src: &str, dest: &str, msg_id: Option<usize>, payload: Payload) -> Message<Payload> {
    Message {
        src: src.to_string(),
        dest: dest.to_string(),
        body: Body { msg_id, in_reply_to: None, payload },
    }
}

#[test]
fn echo_reflects_text_verbatim() {
    let mut node = EchoNode::new();
    let input = envelope(
        "c1",
        "n1",
        Some(1),
        Payload::Echo { echo: "Please echo 35".to_string() },
    );
    let reply = node.respond(input).unwrap();
    assert_eq!(reply.src, "n1");
    assert_eq!(reply.dest, "c1");
    assert_eq!(reply.body.msg_id, Some(1));
    assert_eq!(reply.body.in_reply_to, Some(1));
    assert_eq!(reply.body.payload, Payload::EchoOk { echo: "Please echo 35".to_string() });
}

#[test]
fn echo_identity_on_empty_and_non_ascii() {
    let mut node = EchoNode::new();
    let texts = ["", "h\u{e9}llo \u{2192} w\u{f6}rld", "\u{1f680}", "line\nbreak\t\"quoted\""];
    for (k, text) in texts.iter().enumerate() {
        let input = envelope("c2", "n1", Some(k + 10), Payload::Echo { echo: text.to_string() });
        let reply = node.respond(input).unwrap();
        match reply.body.payload {
            Payload::EchoOk { echo } => assert_eq!(echo, *text),
            other => panic!("expected EchoOk, got {:?}", other),
        }
    }
}

#[test]
fn echo_init_is_acknowledged_and_reanswered() {
    let mut node = EchoNode::new();
    let init = envelope(
        "c0",
        "n1",
        Some(1),
        Payload::Init { node_id: "n1".to_string(), node_ids: vec!["n1".to_string()] },
    );
    let reply = node.respond(init).unwrap();
    assert_eq!(reply.body.payload, Payload::InitOk);
    assert_eq!(reply.body.msg_id, Some(1));

    // a repeated Init is harmless and is re-answered identically
    let again = envelope(
        "c0",
        "n1",
        Some(2),
        Payload::Init { node_id: "n1".to_string(), node_ids: vec!["n1".to_string()] },
    );
    let reply = node.respond(again).unwrap();
    assert_eq!(reply.body.payload, Payload::InitOk);
    assert_eq!(reply.body.msg_id, Some(2));
}

#[test]
fn echo_msg_ids_increase_by_one() {
    let mut node = EchoNode::new();
    for k in 0..5usize {
        let input = envelope("c1", "n1", Some(100 + k), Payload::Echo { echo: "x".to_string() });
        let reply = node.respond(input).unwrap();
        assert_eq!(reply.body.msg_id, Some(1 + k));
    }
}

#[test]
fn echo_reply_to_envelope_without_msg_id_omits_in_reply_to() {
    let mut node = EchoNode::new();
    let input = envelope("c1", "n1", None, Payload::Echo { echo: "x".to_string() });
    let reply = node.respond(input).unwrap();
    assert_eq!(reply.body.in_reply_to, None);
    assert_eq!(reply.body.msg_id, Some(1));
}

#[test]
fn echo_refuses_reply_only_payloads() {
    let mut node = EchoNode::new();
    let input = envelope("c1", "n1", Some(1), Payload::EchoOk { echo: "x".to_string() });
    assert_eq!(node.respond(input), Err(NodeError::ProtocolViolation));
    let input = envelope("c1", "n1", Some(2), Payload::InitOk);
    assert_eq!(node.respond(input), Err(NodeError::ProtocolViolation));
    // the refusals consumed no counter slot
    let input = envelope("c1", "n1", Some(3), Payload::Echo { echo: "y".to_string() });
    let reply = node.respond(input).unwrap();
    assert_eq!(reply.body.msg_id, Some(1));
}
