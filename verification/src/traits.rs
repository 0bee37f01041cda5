//! What the surrounding system supplies: the types of values, hashes and signatures.

use vstd::prelude::*;
use crate::vertex::WireVote;

verus! {

/// The choice of consensus values, vote hashes, secret keys and signatures.
///
/// The scheduler passes hashes and values on and never looks inside them; signing is the
/// only thing it asks of the context.
pub trait Context: Sized {
    /// What the validators come to agree on: a block, or whatever stands for one.
    type ConsensusValue: Clone + PartialEq + Eq + core::fmt::Debug;

    /// The name of a vote: a hash of its content.
    type Hash: Copy + PartialEq + Eq + core::fmt::Debug;

    /// The key a validator signs its votes with.
    type ValidatorSecret;

    /// A signature on a vote.
    type Signature: Clone + PartialEq + Eq + core::fmt::Debug;

    /// Signs `wire_vote` with `secret`.
    fn sign(secret: &Self::ValidatorSecret, wire_vote: &WireVote<Self>) -> Self::Signature;
}

} // verus!
