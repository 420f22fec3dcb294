//! The unique-ID role: each `Generate` request is answered with an
//! identifier built from the requesting node's name and a freshly minted
//! time-sortable random component, so identifiers never collide across the
//! cluster without any coordination.

use vstd::prelude::*;
use crate::protocol::{build_reply, Message, NodeError, Response};

verus! {

/// The payload vocabulary of the unique-ID role.
#[derive(Debug, PartialEq, Eq)]
pub enum Payload {
    Init { node_id: String, node_ids: Vec<String> },
    InitOk,
    Generate,
    GenerateOk { id: String },
}

/// A character of the minted component's canonical text form: a digit or an
/// uppercase letter (Crockford base32); in particular never the separator
/// character `-`.
pub open spec fn is_minted_char(c: char) -> bool {
    ||| ('0' as u32) <= (c as u32) && (c as u32) <= ('9' as u32)
    ||| ('A' as u32) <= (c as u32) && (c as u32) <= ('Z' as u32)
}

/// The shape of every identifier this role hands out: the requesting node's
/// name, one separator `-`, then 26 minted characters.
pub open spec fn is_generated_id(src: Seq<char>, id: Seq<char>) -> bool {
    &&& id.len() == src.len() + 27
    &&& id.subrange(0, src.len() as int) == src
    &&& id[src.len() as int] == '-'
    &&& forall|i: int| src.len() < i < id.len() ==> is_minted_char(#[trigger] id[i])
}

/// Relies on `ulid::Ulid::new` and `ulid::Ulid::to_string`: a freshly minted
/// ULID rendered in its canonical text form, which is always exactly 26
/// characters drawn from the Crockford base32 alphabet
/// (`0123456789ABCDEFGHJKMNPQRSTVWXYZ`). The value itself depends on the
/// clock and on randomness, so nothing more is promised of it.
#[verifier::external_body]
fn fresh_ulid_text() -> (r: String)
    ensures
        r@.len() == 26,
        forall|i: int| 0 <= i < 26 ==> is_minted_char(#[trigger] r@[i]),
{
    ulid::Ulid::new().to_string()
}

/// Joins the requesting node's name and a minted component into one
/// identifier: `src`, `-`, `minted`.
pub fn make_unique_id(src: &str, minted: &str) -> (r: String)
    ensures
        r@ == src@ + "-"@ + minted@,
{
    let mut id = String::from_str(src);
    id.append("-");
    id.append(minted);
    id
}

/// A unique-ID node: no state beyond the outgoing-message-ID counter.
#[derive(Debug, PartialEq, Eq)]
pub struct GenerateNode {
    pub msg_id: usize,
}

impl GenerateNode {
    /// A fresh node whose first emitted envelope will carry message ID 1.
    pub fn new() -> (n: GenerateNode)
        ensures
            n.msg_id == 1,
            n.inv(),
    {
        GenerateNode { msg_id: 1 }
    }
}

impl Response<Payload> for GenerateNode {
    open spec fn inv(&self) -> bool {
        true
    }

    open spec fn has_capacity(&self) -> bool {
        self.msg_id < usize::MAX
    }

    open spec fn accepts(&self, input: Message<Payload>) -> bool {
        match input.body.payload {
            Payload::Init { .. } => true,
            Payload::Generate => true,
            _ => false,
        }
    }

    open spec fn step(
        pre: Self,
        input: Message<Payload>,
        post: Self,
        reply: Message<Payload>,
    ) -> bool {
        &&& post.msg_id == pre.msg_id + 1
        &&& reply.src == input.dest
        &&& reply.dest == input.src
        &&& reply.body.msg_id == Some(pre.msg_id)
        &&& reply.body.in_reply_to == input.body.msg_id
        &&& match input.body.payload {
            Payload::Init { .. } => reply.body.payload == Payload::InitOk,
            Payload::Generate => {
                &&& reply.body.payload matches Payload::GenerateOk { id }
                &&& is_generated_id(input.src@, id@)
            },
            _ => false,
        }
    }

    fn respond(&mut self, input: Message<Payload>) -> (r: Result<Message<Payload>, NodeError>) {
        let Message { src, dest, body } = input;
        match body.payload {
            Payload::Init { node_id: _, node_ids: _ } => {
                let reply = build_reply(src, dest, body.msg_id, self.msg_id, Payload::InitOk);
                self.msg_id = self.msg_id + 1;
                Ok(reply)
            },
            Payload::Generate => {
                let minted = fresh_ulid_text();
                let id = make_unique_id(src.as_str(), minted.as_str());
                proof {
                    reveal_strlit("-");
                    assert(id@.subrange(0, src@.len() as int) =~= src@);
                    assert forall|i: int| src@.len() < i < id@.len() implies is_minted_char(
                        #[trigger] id@[i],
                    ) by {
                        assert(id@[i] == minted@[i - src@.len() - 1]);
                    }
                    assert(is_generated_id(src@, id@));
                }
                let reply = build_reply(
                    src,
                    dest,
                    body.msg_id,
                    self.msg_id,
                    Payload::GenerateOk { id },
                );
                self.msg_id = self.msg_id + 1;
                Ok(reply)
            },
            _ => Err(NodeError::ProtocolViolation),
        }
    }
}

/// Identifiers handed out by one node for distinct minted components are
/// distinct: the identifier determines the minted component that went into
/// it.
pub proof fn lemma_distinct_minted_distinct_ids(
    src: Seq<char>,
    m1: Seq<char>,
    id1: Seq<char>,
    m2: Seq<char>,
    id2: Seq<char>,
)
    requires
        id1 == src + seq!['-'] + m1,
        id2 == src + seq!['-'] + m2,
        m1 != m2,
    ensures
        id1 != id2,
{
    if id1 == id2 {
        assert(id1.len() == src.len() + 1 + m1.len());
        assert(id2.len() == src.len() + 1 + m2.len());
        assert(m1.len() == m2.len());
        assert forall|i: int| 0 <= i < m1.len() implies m1[i] == m2[i] by {
            assert(id1[src.len() + 1 + i] == m1[i]);
            assert(id2[src.len() + 1 + i] == m2[i]);
        }
        assert(m1 =~= m2);
        assert(false);
    }
}

/// Identifiers handed to distinct requesting nodes are always distinct: the
/// node-name prefix separates nodes entirely, whatever the minted components
/// are.
pub proof fn lemma_distinct_sources_distinct_ids(
    src1: Seq<char>,
    id1: Seq<char>,
    src2: Seq<char>,
    id2: Seq<char>,
)
    requires
        is_generated_id(src1, id1),
        is_generated_id(src2, id2),
        src1 != src2,
    ensures
        id1 != id2,
{
    if id1 == id2 {
        assert(src1.len() == src2.len());
        assert(src1 == id1.subrange(0, src1.len() as int));
        assert(src2 == id2.subrange(0, src2.len() as int));
        assert(false);
    }
}

} // verus!
