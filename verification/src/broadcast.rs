//! The broadcast role: a node that accumulates a replicated value set,
//! answers reads with a snapshot of it, and records topology assignments.

use vstd::prelude::*;
use crate::protocol::{build_reply, Message, NodeError, Response};

verus! {

/// The payload vocabulary of the broadcast role.
#[derive(Debug, PartialEq, Eq)]
pub enum Payload {
    Init { node_id: String, node_ids: Vec<String> },
    InitOk,
    Broadcast { message: usize },
    BroadcastOk,
    Read,
    ReadOk { messages: Vec<usize> },
    Topology { topology: Vec<(String, Vec<String>)> },
    TopologyOk,
}

/// The mathematical state of a broadcast node: the outgoing-message-ID
/// counter, the set of values accepted so far, and the node's own peer list
/// from the last topology assignment.
#[verifier::ext_equal]
pub struct BroadcastModel {
    pub counter: nat,
    pub values: Set<usize>,
    pub peers: Seq<Seq<char>>,
}

/// The peer list an adjacency listing assigns to `node`: the list of the
/// first entry named `node`, or empty when no entry is.
pub open spec fn peers_of(adjacency: Seq<(String, Vec<String>)>, node: Seq<char>) -> Seq<Seq<char>>
    decreases adjacency.len(),
{
    if adjacency.len() == 0 {
        Seq::empty()
    } else if adjacency[0].0@ == node {
        adjacency[0].1.deep_view()
    } else {
        peers_of(adjacency.drop_first(), node)
    }
}

/// How one accepted input payload advances the model of the node named
/// `dest`: the counter always advances by exactly 1 (one envelope is
/// emitted), a `Broadcast` input joins its value into the value set, and a
/// `Topology` input replaces the peer list with this node's entry.
pub open spec fn broadcast_step(m: BroadcastModel, dest: Seq<char>, p: Payload) -> BroadcastModel {
    BroadcastModel {
        counter: m.counter + 1,
        values: match p {
            Payload::Broadcast { message } => m.values.insert(message),
            _ => m.values,
        },
        peers: match p {
            Payload::Topology { topology } => peers_of(topology@, dest),
            _ => m.peers,
        },
    }
}

/// A broadcast node: the counter, the value set stored as a duplicate-free
/// vector, and the peer list from the last topology assignment.
#[derive(Debug, PartialEq, Eq)]
pub struct BroadcastNode {
    pub msg_id: usize,
    pub messages: Vec<usize>,
    pub peers: Vec<String>,
}

/// Whether `values` holds `x`; the executable mirror of `Seq::contains`.
fn contains_value(values: &Vec<usize>, x: usize) -> (b: bool)
    ensures
        b == values@.contains(x),
{
    let mut i: usize = 0;
    while i < values.len()
        invariant
            i <= values.len(),
            forall|k: int| 0 <= k < i ==> values@[k] != x,
        decreases values.len() - i,
    {
        if values[i] == x {
            return true;
        }
        i = i + 1;
    }
    false
}

/// A copy of `values`: the reply to a `Read` carries a snapshot, so later
/// mutation of the node cannot affect an already-built reply.
fn snapshot_values(values: &Vec<usize>) -> (r: Vec<usize>)
    ensures
        r@ == values@,
{
    let mut r: Vec<usize> = Vec::new();
    let mut i: usize = 0;
    while i < values.len()
        invariant
            i <= values.len(),
            r@ == values@.subrange(0, i as int),
        decreases values.len() - i,
    {
        r.push(values[i]);
        i = i + 1;
        proof {
            assert(r@ =~= values@.subrange(0, i as int));
        }
    }
    proof {
        assert(values@.subrange(0, values@.len() as int) =~= values@);
    }
    r
}

/// A copy of a list of node names.
fn copy_names(names: &Vec<String>) -> (r: Vec<String>)
    ensures
        r.deep_view() == names.deep_view(),
{
    let mut r: Vec<String> = Vec::new();
    let mut i: usize = 0;
    while i < names.len()
        invariant
            i <= names.len(),
            r@.len() == i,
            forall|k: int| 0 <= k < i ==> r@[k]@ == names@[k]@,
        decreases names.len() - i,
    {
        r.push(String::from_str(names[i].as_str()));
        i = i + 1;
    }
    proof {
        assert forall|k: int| 0 <= k < r@.len() implies r.deep_view()[k]
            == names.deep_view()[k] by {
            assert(r.deep_view()[k] == r@[k]@);
            assert(names.deep_view()[k] == names@[k]@);
        }
        assert(r.deep_view() =~= names.deep_view());
    }
    r
}

proof fn lemma_peers_of_first_match(
    adjacency: Seq<(String, Vec<String>)>,
    node: Seq<char>,
    i: int,
)
    requires
        0 <= i < adjacency.len(),
        adjacency[i].0@ == node,
        forall|k: int| 0 <= k < i ==> adjacency[k].0@ != node,
    ensures
        peers_of(adjacency, node) == adjacency[i].1.deep_view(),
    decreases i,
{
    if i > 0 {
        lemma_peers_of_first_match(adjacency.drop_first(), node, i - 1);
    }
}

proof fn lemma_peers_of_no_match(adjacency: Seq<(String, Vec<String>)>, node: Seq<char>)
    requires
        forall|k: int| 0 <= k < adjacency.len() ==> adjacency[k].0@ != node,
    ensures
        peers_of(adjacency, node) == Seq::<Seq<char>>::empty(),
    decreases adjacency.len(),
{
    if adjacency.len() > 0 {
        lemma_peers_of_no_match(adjacency.drop_first(), node);
    }
}

/// This node's own peer list in an adjacency listing: the list of the first
/// entry named `node`, copied out, or empty when the listing has no entry
/// for it.
fn find_peers(topology: &Vec<(String, Vec<String>)>, node: &String) -> (r: Vec<String>)
    ensures
        r.deep_view() == peers_of(topology@, node@),
{
    let mut i: usize = 0;
    while i < topology.len()
        invariant
            i <= topology.len(),
            forall|k: int| 0 <= k < i ==> topology@[k].0@ != node@,
        decreases topology.len() - i,
    {
        if topology[i].0 == *node {
            let r = copy_names(&topology[i].1);
            proof {
                lemma_peers_of_first_match(topology@, node@, i as int);
            }
            return r;
        }
        i = i + 1;
    }
    let r: Vec<String> = Vec::new();
    proof {
        lemma_peers_of_no_match(topology@, node@);
        assert(r.deep_view() =~= Seq::<Seq<char>>::empty());
    }
    r
}

impl BroadcastNode {
    /// The node's state viewed as its mathematical model.
    pub open spec fn model(&self) -> BroadcastModel {
        BroadcastModel {
            counter: self.msg_id as nat,
            values: self.messages@.to_set(),
            peers: self.peers.deep_view(),
        }
    }

    /// A fresh node: empty value set, no peers, first emitted envelope
    /// carries ID 1.
    pub fn new() -> (n: BroadcastNode)
        ensures
            n.inv(),
            n.msg_id == 1,
            n.model().values == Set::<usize>::empty(),
            n.model().peers == Seq::<Seq<char>>::empty(),
    {
        let n = BroadcastNode { msg_id: 1, messages: Vec::new(), peers: Vec::new() };
        proof {
            assert(n.messages@.to_set() =~= Set::<usize>::empty());
            assert(n.peers.deep_view() =~= Seq::<Seq<char>>::empty());
        }
        n
    }

    /// Joins `value` into the value set; re-insertion of a present value is
    /// a no-op, so the store stays duplicate-free.
    fn insert_value(&mut self, value: usize)
        requires
            old(self).inv(),
        ensures
            final(self).inv(),
            final(self).msg_id == old(self).msg_id,
            final(self).peers == old(self).peers,
            final(self).messages@.to_set() == old(self).messages@.to_set().insert(value),
    {
        if !contains_value(&self.messages, value) {
            self.messages.push(value);
            proof {
                old(self).messages@.lemma_push_to_set_commute(value);
                assert(final(self).messages@ == old(self).messages@.push(value));
            }
        } else {
            proof {
                assert(old(self).messages@.to_set().insert(value) =~= old(
                    self,
                ).messages@.to_set());
            }
        }
    }
}

impl Response<Payload> for BroadcastNode {
    /// The stored vector is duplicate-free: it faithfully represents a set.
    open spec fn inv(&self) -> bool {
        self.messages@.no_duplicates()
    }

    open spec fn has_capacity(&self) -> bool {
        self.msg_id < usize::MAX
    }

    open spec fn accepts(&self, input: Message<Payload>) -> bool {
        match input.body.payload {
            Payload::Init { .. } => true,
            Payload::Broadcast { .. } => true,
            Payload::Read => true,
            Payload::Topology { .. } => true,
            _ => false,
        }
    }

    open spec fn step(
        pre: Self,
        input: Message<Payload>,
        post: Self,
        reply: Message<Payload>,
    ) -> bool {
        &&& post.model() == broadcast_step(pre.model(), input.dest@, input.body.payload)
        &&& reply.src == input.dest
        &&& reply.dest == input.src
        &&& reply.body.msg_id == Some(pre.msg_id)
        &&& reply.body.in_reply_to == input.body.msg_id
        &&& match input.body.payload {
            Payload::Init { .. } => reply.body.payload == Payload::InitOk,
            Payload::Broadcast { .. } => reply.body.payload == Payload::BroadcastOk,
            Payload::Read => {
                &&& reply.body.payload matches Payload::ReadOk { messages }
                &&& messages@.no_duplicates()
                &&& messages@.to_set() == pre.model().values
            },
            Payload::Topology { .. } => reply.body.payload == Payload::TopologyOk,
            _ => false,
        }
    }

    fn respond(&mut self, input: Message<Payload>) -> (r: Result<Message<Payload>, NodeError>) {
        let Message { src, dest, body } = input;
        let ghost pre = *old(self);
        match body.payload {
            Payload::Init { node_id: _, node_ids: _ } => {
                let reply = build_reply(src, dest, body.msg_id, self.msg_id, Payload::InitOk);
                self.msg_id = self.msg_id + 1;
                proof {
                    assert(self.model() =~= broadcast_step(
                        pre.model(),
                        input.dest@,
                        input.body.payload,
                    ));
                }
                Ok(reply)
            },
            Payload::Broadcast { message } => {
                self.insert_value(message);
                let reply = build_reply(src, dest, body.msg_id, self.msg_id, Payload::BroadcastOk);
                self.msg_id = self.msg_id + 1;
                proof {
                    assert(self.model() =~= broadcast_step(
                        pre.model(),
                        input.dest@,
                        input.body.payload,
                    ));
                }
                Ok(reply)
            },
            Payload::Read => {
                let snap = snapshot_values(&self.messages);
                let reply = build_reply(
                    src,
                    dest,
                    body.msg_id,
                    self.msg_id,
                    Payload::ReadOk { messages: snap },
                );
                self.msg_id = self.msg_id + 1;
                proof {
                    assert(self.model() =~= broadcast_step(
                        pre.model(),
                        input.dest@,
                        input.body.payload,
                    ));
                }
                Ok(reply)
            },
            Payload::Topology { topology } => {
                self.peers = find_peers(&topology, &dest);
                let reply = build_reply(src, dest, body.msg_id, self.msg_id, Payload::TopologyOk);
                self.msg_id = self.msg_id + 1;
                proof {
                    assert(self.model() =~= broadcast_step(
                        pre.model(),
                        input.dest@,
                        input.body.payload,
                    ));
                }
                Ok(reply)
            },
            _ => Err(NodeError::ProtocolViolation),
        }
    }
}

/// Applies a whole sequence of `Broadcast` inputs, carrying the values `vs`
/// in order, to a model.
pub open spec fn apply_broadcasts(m: BroadcastModel, dest: Seq<char>, vs: Seq<usize>) -> BroadcastModel
    decreases vs.len(),
{
    if vs.len() == 0 {
        m
    } else {
        apply_broadcasts(
            broadcast_step(m, dest, Payload::Broadcast { message: vs[0] }),
            dest,
            vs.drop_first(),
        )
    }
}

/// After any sequence of `Broadcast` inputs, the value set is exactly the
/// prior value set joined with every value broadcast, regardless of
/// duplicates or order among them; the counter advances once per input.
pub proof fn lemma_broadcasts_accumulate(m: BroadcastModel, dest: Seq<char>, vs: Seq<usize>)
    ensures
        apply_broadcasts(m, dest, vs).values == m.values + vs.to_set(),
        apply_broadcasts(m, dest, vs).counter == m.counter + vs.len(),
        apply_broadcasts(m, dest, vs).peers == m.peers,
    decreases vs.len(),
{
    if vs.len() == 0 {
        assert(m.values + vs.to_set() =~= m.values);
    } else {
        let m1 = broadcast_step(m, dest, Payload::Broadcast { message: vs[0] });
        lemma_broadcasts_accumulate(m1, dest, vs.drop_first());
        assert forall|x: usize| vs.to_set().contains(x) implies m1.values.contains(x)
            || vs.drop_first().to_set().contains(x) by {
            let i = choose|i: int| 0 <= i < vs.len() && vs[i] == x;
            if i > 0 {
                assert(vs.drop_first()[i - 1] == x);
            }
        }
        assert forall|x: usize| vs.drop_first().to_set().contains(x) implies vs.to_set().contains(
            x,
        ) by {
            let i = choose|i: int| 0 <= i < vs.drop_first().len() && vs.drop_first()[i] == x;
            assert(vs[i + 1] == x);
        }
        assert(m1.values + vs.drop_first().to_set() =~= m.values + vs.to_set());
    }
}

/// A `Read` on a node that started empty reports exactly the set of distinct
/// values broadcast to it so far.
pub proof fn lemma_read_after_broadcasts(m: BroadcastModel, dest: Seq<char>, vs: Seq<usize>)
    requires
        m.values == Set::<usize>::empty(),
    ensures
        apply_broadcasts(m, dest, vs).values == vs.to_set(),
{
    lemma_broadcasts_accumulate(m, dest, vs);
    assert(m.values + vs.to_set() =~= vs.to_set());
}

/// The message IDs stamped on the replies to a sequence of accepted inputs:
/// one per input, each taken from the counter as it stood at that step.
pub open spec fn emitted_ids(m: BroadcastModel, dest: Seq<char>, ps: Seq<Payload>) -> Seq<nat>
    decreases ps.len(),
{
    if ps.len() == 0 {
        Seq::empty()
    } else {
        seq![m.counter] + emitted_ids(broadcast_step(m, dest, ps[0]), dest, ps.drop_first())
    }
}

/// Across any mixture of payload kinds, the outgoing message-ID sequence is
/// strictly increasing by exactly 1 per emitted envelope, starting from the
/// counter's initial value.
pub proof fn lemma_emitted_ids_consecutive(m: BroadcastModel, dest: Seq<char>, ps: Seq<Payload>)
    ensures
        emitted_ids(m, dest, ps).len() == ps.len(),
        forall|i: int| 0 <= i < ps.len() ==> emitted_ids(m, dest, ps)[i] == m.counter + i,
    decreases ps.len(),
{
    if ps.len() > 0 {
        let m1 = broadcast_step(m, dest, ps[0]);
        lemma_emitted_ids_consecutive(m1, dest, ps.drop_first());
        assert forall|i: int| 0 <= i < ps.len() implies emitted_ids(m, dest, ps)[i] == m.counter
            + i by {
            if i > 0 {
                assert(emitted_ids(m, dest, ps)[i] == emitted_ids(m1, dest, ps.drop_first())[i - 1]);
            }
        }
    }
}

} // verus!
