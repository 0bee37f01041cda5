//! Votes as they travel between validators.

use vstd::prelude::*;
use crate::time::Timestamp;
use crate::traits::Context;
use crate::validators::ValidatorIndex;
use crate::vote::{Observation, Panorama, VoteView};

verus! {

/// The content of a vote.
#[derive(Debug, PartialEq, Eq)]
pub struct WireVote<C: Context> {
    /// What the creator had seen when it cast the vote.
    pub panorama: Panorama<C>,
    /// The validator that cast the vote.
    pub creator: ValidatorIndex,
    /// The proposed value; only a proposal carries one.
    pub value: Option<C::ConsensusValue>,
    /// The number of votes the creator had cast before this one.
    pub seq_number: u64,
    /// When the vote was cast.
    pub timestamp: Timestamp,
}

/// The content of a vote as a mathematical value.
pub ghost struct WireVoteView<C: Context> {
    /// What the creator had seen when it cast the vote.
    pub panorama: Seq<Observation<C>>,
    /// The validator that cast the vote.
    pub creator: ValidatorIndex,
    /// The proposed value; only a proposal carries one.
    pub value: Option<C::ConsensusValue>,
    /// The number of votes the creator had cast before this one.
    pub seq_number: u64,
    /// When the vote was cast.
    pub timestamp: Timestamp,
}

impl<C: Context> WireVoteView<C> {
    /// The vote that a protocol state keeps of this one: all but its value.
    pub open spec fn kept(self) -> VoteView<C> {
        VoteView {
            panorama: self.panorama,
            seq_number: self.seq_number,
            creator: self.creator,
            timestamp: self.timestamp,
        }
    }
}

impl<C: Context> View for WireVote<C> {
    type V = WireVoteView<C>;

    open spec fn view(&self) -> WireVoteView<C> {
        WireVoteView {
            panorama: self.panorama@,
            creator: self.creator,
            value: self.value,
            seq_number: self.seq_number,
            timestamp: self.timestamp,
        }
    }
}

impl<C: Context> WireVote<C> {
    /// Whether this vote is a copy of `other`: all is the same, but that the value, if
    /// there is one, is what its own type makes of a copy.
    pub open spec fn is_copy_of(&self, other: &Self) -> bool {
        &&& self.panorama@ == other.panorama@
        &&& self.creator == other.creator
        &&& self.seq_number == other.seq_number
        &&& self.timestamp == other.timestamp
        &&& match (other.value, self.value) {
            (Some(value), Some(copy)) => cloned(value, copy),
            (None, None) => true,
            _ => false,
        }
    }
}

impl<C: Context> Clone for WireVote<C> {
    fn clone(&self) -> (r: Self)
        ensures
            r.is_copy_of(self),
    {
        let value = match &self.value {
            Some(v) => Some(v.clone()),
            None => None,
        };
        WireVote {
            panorama: self.panorama.clone(),
            creator: self.creator,
            value,
            seq_number: self.seq_number,
            timestamp: self.timestamp,
        }
    }
}

/// A vote together with its creator's signature.
#[derive(Debug, PartialEq, Eq)]
pub struct SignedWireVote<C: Context> {
    /// The content of the vote.
    pub wire_vote: WireVote<C>,
    /// The creator's signature on the content.
    pub signature: C::Signature,
}

impl<C: Context> Clone for SignedWireVote<C> {
    fn clone(&self) -> (r: Self)
        ensures
            r.is_copy_of(self),
    {
        SignedWireVote { wire_vote: self.wire_vote.clone(), signature: self.signature.clone() }
    }
}

impl<C: Context> SignedWireVote<C> {
    /// Whether this signed vote is a copy of `other`: the vote is a copy of the other
    /// vote, and the signature is what its own type makes of a copy.
    pub open spec fn is_copy_of(&self, other: &Self) -> bool {
        &&& self.wire_vote.is_copy_of(&other.wire_vote)
        &&& cloned(other.signature, self.signature)
    }

    /// Signs `wire_vote` with `secret`.
    ///
    /// The vote comes back unchanged, and the signature is the one that the context's
    /// signer gave for it.
    pub fn new(wire_vote: WireVote<C>, secret: &C::ValidatorSecret) -> (r: Self)
        ensures
            r.wire_vote == wire_vote,
            call_ensures(C::sign, (secret, &wire_vote), r.signature),
    {
        let signature = C::sign(secret, &wire_vote);
        SignedWireVote { wire_vote, signature }
    }
}

} // verus!
