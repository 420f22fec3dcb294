//! The echo role: a stateless node that reflects each `Echo` payload back
//! verbatim.

use vstd::prelude::*;
use crate::protocol::{build_reply, Message, NodeError, Response};

verus! {

/// The payload vocabulary of the echo role.
#[derive(Debug, PartialEq, Eq)]
pub enum Payload {
    Init { node_id: String, node_ids: Vec<String> },
    InitOk,
    Echo { echo: String },
    EchoOk { echo: String },
}

/// An echo node: no state beyond the outgoing-message-ID counter.
#[derive(Debug, PartialEq, Eq)]
pub struct EchoNode {
    pub msg_id: usize,
}

impl EchoNode {
    /// A fresh node whose first emitted envelope will carry message ID 1.
    pub fn new() -> (n: EchoNode)
        ensures
            n.msg_id == 1,
            n.inv(),
    {
        EchoNode { msg_id: 1 }
    }
}

impl Response<Payload> for EchoNode {
    open spec fn inv(&self) -> bool {
        true
    }

    open spec fn has_capacity(&self) -> bool {
        self.msg_id < usize::MAX
    }

    open spec fn accepts(&self, input: Message<Payload>) -> bool {
        match input.body.payload {
            Payload::Init { .. } => true,
            Payload::Echo { .. } => true,
            _ => false,
        }
    }

    open spec fn step(
        pre: Self,
        input: Message<Payload>,
        post: Self,
        reply: Message<Payload>,
    ) -> bool {
        &&& post.msg_id == pre.msg_id + 1
        &&& reply.src == input.dest
        &&& reply.dest == input.src
        &&& reply.body.msg_id == Some(pre.msg_id)
        &&& reply.body.in_reply_to == input.body.msg_id
        &&& match input.body.payload {
            Payload::Init { .. } => reply.body.payload == Payload::InitOk,
            Payload::Echo { echo } => reply.body.payload == (Payload::EchoOk { echo }),
            _ => false,
        }
    }

    fn respond(&mut self, input: Message<Payload>) -> (r: Result<Message<Payload>, NodeError>) {
        let Message { src, dest, body } = input;
        match body.payload {
            Payload::Init { node_id: _, node_ids: _ } => {
                let reply = build_reply(src, dest, body.msg_id, self.msg_id, Payload::InitOk);
                self.msg_id = self.msg_id + 1;
                Ok(reply)
            },
            Payload::Echo { echo } => {
                let reply = build_reply(
                    src,
                    dest,
                    body.msg_id,
                    self.msg_id,
                    Payload::EchoOk { echo },
                );
                self.msg_id = self.msg_id + 1;
                Ok(reply)
            },
            _ => Err(NodeError::ProtocolViolation),
        }
    }
}

} // verus!
