//! Participant nodes for a distributed-systems-challenge harness.
//!
//! Each node consumes a stream of message envelopes, updates local state, and
//! produces at most one reply envelope per input. Three node roles are
//! provided: echo (pure reflection), unique-ID generation, and broadcast
//! (a replicated value set with read/write/topology operations).

pub mod broadcast;
pub mod echo;
pub mod protocol;
pub mod unique_ids;
