use maelstrom::broadcast::{BroadcastNode, Payload};
use maelstrom::protocol::{Body, InputEvent, Message, NodeError, Outcome, Response};

fn envelope(src: &str, dest: &str, msg_id: Option<usize>, payload: Payload) -> Message<Payload> {
    Message {
        src: src.to_string(),
        dest: dest.to_string(),
        body: Body { msg_id, in_reply_to: None, payload },
    }
}

fn sorted(mut values: Vec<usize>) -> Vec<usize> {
    values.sort();
    values
}

fn read_values(node: &mut BroadcastNode, msg_id: usize) -> Vec<usize> {
    let reply = node.respond(envelope("c1", "n1", Some(msg_id), Payload::Read)).unwrap();
    match reply.body.payload {
        Payload::ReadOk { messages } => messages,
        other => panic!("expected ReadOk, got {:?}", other),
    }
}

#[test]
fn read_returns_distinct_values_broadcast_so_far() {
    let mut node = BroadcastNode::new();
    for value in [5usize, 7, 5, 3, 7, 5] {
        let reply = node
            .respond(envelope("c1", "n1", Some(1), Payload::Broadcast { message: value }))
            .unwrap();
        assert_eq!(reply.body.payload, Payload::BroadcastOk);
    }
    let values = read_values(&mut node, 2);
    assert_eq!(sorted(values), vec![3, 5, 7]);
}

#[test]
fn read_on_fresh_node_is_empty() {
    let mut node = BroadcastNode::new();
    assert_eq!(read_values(&mut node, 1), Vec::<usize>::new());
}

#[test]
fn read_snapshot_is_unaffected_by_later_broadcasts() {
    let mut node = BroadcastNode::new();
    node.respond(envelope("c1", "n1", Some(1), Payload::Broadcast { message: 1 })).unwrap();
    let snapshot = read_values(&mut node, 2);
    node.respond(envelope("c1", "n1", Some(3), Payload::Broadcast { message: 2 })).unwrap();
    assert_eq!(snapshot, vec![1]);
    assert_eq!(sorted(read_values(&mut node, 4)), vec![1, 2]);
}

#[test]
fn topology_is_acknowledged() {
    let mut node = BroadcastNode::new();
    let adjacency = vec![
        ("n1".to_string(), vec!["n2".to_string(), "n3".to_string()]),
        ("n2".to_string(), vec!["n1".to_string()]),
    ];
    let reply = node
        .respond(envelope("c1", "n1", Some(1), Payload::Topology { topology: adjacency }))
        .unwrap();
    assert_eq!(reply.body.payload, Payload::TopologyOk);
    // the node keeps its own peer list, addressed as "n1"
    assert_eq!(node.peers, vec!["n2".to_string(), "n3".to_string()]);
}

#[test]
fn topology_without_an_entry_for_this_node_leaves_no_peers() {
    let mut node = BroadcastNode::new();
    let adjacency = vec![("n9".to_string(), vec!["n1".to_string()])];
    node.respond(envelope("c1", "n1", Some(1), Payload::Topology { topology: adjacency }))
        .unwrap();
    assert_eq!(node.peers, Vec::<String>::new());
}

#[test]
fn msg_ids_increase_by_one_across_payload_kinds() {
    let mut node = BroadcastNode::new();
    let inputs = vec![
        Payload::Init { node_id: "n1".to_string(), node_ids: vec!["n1".to_string()] },
        Payload::Broadcast { message: 9 },
        Payload::Read,
        Payload::Topology { topology: vec![] },
        Payload::Broadcast { message: 9 },
    ];
    for (k, payload) in inputs.into_iter().enumerate() {
        let reply = node.respond(envelope("c1", "n1", Some(50 + k), payload)).unwrap();
        assert_eq!(reply.body.msg_id, Some(1 + k));
        assert_eq!(reply.body.in_reply_to, Some(50 + k));
    }
}

#[test]
fn reply_only_payload_as_input_is_a_protocol_violation() {
    let mut node = BroadcastNode::new();
    for payload in [
        Payload::InitOk,
        Payload::BroadcastOk,
        Payload::ReadOk { messages: vec![] },
        Payload::TopologyOk,
    ] {
        let r = node.respond(envelope("c1", "n1", Some(1), payload));
        assert_eq!(r, Err(NodeError::ProtocolViolation));
    }
}

#[test]
fn malformed_input_is_skipped_and_next_line_still_answered() {
    let mut node = BroadcastNode::new();
    match maelstrom::protocol::dispatch(&mut node, InputEvent::Malformed) {
        Outcome::Skipped => {},
        other => panic!("expected Skipped, got {:?}", outcome_kind(&other)),
    }
    let event = InputEvent::Decoded(envelope("c1", "n1", Some(1), Payload::Broadcast {
        message: 4,
    }));
    match maelstrom::protocol::dispatch(&mut node, event) {
        Outcome::Reply(reply) => {
            assert_eq!(reply.body.msg_id, Some(1));
            assert_eq!(reply.body.payload, Payload::BroadcastOk);
        },
        other => panic!("expected Reply, got {:?}", outcome_kind(&other)),
    }
    assert_eq!(read_values(&mut node, 2), vec![4]);
}

fn outcome_kind(outcome: &Outcome<Payload>) -> &'static str {
    match outcome {
        Outcome::Reply(_) => "Reply",
        Outcome::Skipped => "Skipped",
        Outcome::Fatal(_) => "Fatal",
    }
}
