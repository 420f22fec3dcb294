//! The wire envelope and the request/reply correlation discipline shared by
//! every node role.

use vstd::prelude::*;

verus! {

/// The outer wire object: source node, destination node, and a body carrying
/// the correlation fields and the role-specific payload.
#[derive(Debug, PartialEq, Eq)]
pub struct Message<Payload> {
    pub src: String,
    pub dest: String,
    pub body: Body<Payload>,
}

/// The inner object of an envelope: correlation fields plus the payload.
///
/// `msg_id` is present on originating messages and absent on pure
/// acknowledgements; `in_reply_to`, when set, equals the `msg_id` of the
/// envelope being answered.
#[derive(Debug, PartialEq, Eq)]
pub struct Body<Payload> {
    pub msg_id: Option<usize>,
    pub in_reply_to: Option<usize>,
    pub payload: Payload,
}

/// Why a node refused an input: a reply-only payload arrived as an input,
/// which signals peer or harness misbehaviour that local retry cannot fix.
#[derive(Debug, PartialEq, Eq, Structural, Clone, Copy)]
pub enum NodeError {
    ProtocolViolation,
}

/// Builds the reply envelope for `payload`, answering an input that came from
/// `input_src` addressed to `input_dest` with message ID `input_msg_id`.
///
/// Source and destination are swapped relative to the input; the reply takes
/// `counter` as its own `msg_id`, and its `in_reply_to` is exactly the input's
/// `msg_id` (absent when the input carried none).
pub fn build_reply<Payload>(
    input_src: String,
    input_dest: String,
    input_msg_id: Option<usize>,
    counter: usize,
    payload: Payload,
) -> (r: Message<Payload>)
    ensures
        r.src == input_dest,
        r.dest == input_src,
        r.body.msg_id == Some(counter),
        r.body.in_reply_to == input_msg_id,
        r.body.payload == payload,
{
    Message {
        src: input_dest,
        dest: input_src,
        body: Body { msg_id: Some(counter), in_reply_to: input_msg_id, payload },
    }
}

/// A node role: a state machine that answers each accepted input envelope
/// with exactly one reply envelope.
///
/// Reply-only payloads arriving as inputs are refused with
/// [`NodeError::ProtocolViolation`] and leave the state untouched; every
/// accepted input advances the state and produces a reply as the role's
/// `step` relation describes.
pub trait Response<Payload>: Sized {
    /// Well-formedness of the node's state.
    spec fn inv(&self) -> bool;

    /// The node can still mint a fresh outgoing message ID.
    spec fn has_capacity(&self) -> bool;

    /// Whether the node accepts this input; reply-only payloads are refused.
    spec fn accepts(&self, input: Message<Payload>) -> bool;

    /// How handling one accepted input relates the state before, the state
    /// after, and the emitted reply.
    spec fn step(pre: Self, input: Message<Payload>, post: Self, reply: Message<Payload>) -> bool;

    /// Handles one input envelope: mutates the state and returns the reply
    /// to emit, or refuses a reply-only input without changing anything.
    fn respond(&mut self, input: Message<Payload>) -> (r: Result<Message<Payload>, NodeError>)
        requires
            old(self).inv(),
            old(self).has_capacity(),
        ensures
            final(self).inv(),
            match r {
                Ok(reply) => old(self).accepts(input) && Self::step(*old(self), input, *final(self), reply),
                Err(e) => {
                    &&& !old(self).accepts(input)
                    &&& *final(self) == *old(self)
                    &&& e == NodeError::ProtocolViolation
                },
            },
    ;
}

/// One item read from the input stream: either a decoded envelope, or a line
/// that did not parse as one.
pub enum InputEvent<Payload> {
    Decoded(Message<Payload>),
    Malformed,
}

/// What the dispatcher decided for one input item.
pub enum Outcome<Payload> {
    /// Emit this reply envelope and continue with the next input.
    Reply(Message<Payload>),
    /// The input was malformed; it is skipped and the loop continues.
    Skipped,
    /// The input breached the protocol; the node cannot continue.
    Fatal(NodeError),
}

/// Routes one input item to the node: a malformed line is skipped without
/// touching the state, so the next well-formed line is still answered; a
/// decoded envelope is handled by the role's `respond`.
pub fn dispatch<Payload, N: Response<Payload>>(node: &mut N, event: InputEvent<Payload>) -> (r: Outcome<
    Payload,
>)
    requires
        old(node).inv(),
        old(node).has_capacity(),
    ensures
        final(node).inv(),
        match event {
            InputEvent::Malformed => r is Skipped && *final(node) == *old(node),
            InputEvent::Decoded(m) => match r {
                Outcome::Reply(reply) => old(node).accepts(m) && N::step(*old(node), m, *final(node), reply),
                Outcome::Skipped => false,
                Outcome::Fatal(e) => {
                    &&& !old(node).accepts(m)
                    &&& *final(node) == *old(node)
                    &&& e == NodeError::ProtocolViolation
                },
            },
        },
{
    match event {
        InputEvent::Malformed => Outcome::Skipped,
        InputEvent::Decoded(m) => match node.respond(m) {
            Ok(reply) => Outcome::Reply(reply),
            Err(e) => Outcome::Fatal(e),
        },
    }
}

} // verus!
