//! The protocol state as the scheduler sees it.
//!
//! The scheduler only reads the state. What it reads is described here once as a
//! mathematical value, [`StateModel`], and every answer of a [`StateView`] is stated over it.

use vstd::prelude::*;
use crate::time::Timestamp;
use crate::traits::Context;
use crate::validators::ValidatorIndex;
use crate::vote::{Observation, Panorama, Vote, VoteView};

verus! {

/// The protocol state as a mathematical value.
#[verifier::reject_recursive_types(C)]
pub ghost struct StateModel<C: Context> {
    /// The latest observation of each validator.
    pub panorama: Seq<Observation<C>>,
    /// The votes that the state holds, by their hashes.
    pub votes: Map<C::Hash, VoteView<C>>,
    /// The leader of the round that an instant lies in.
    pub leaders: spec_fn(Timestamp) -> ValidatorIndex,
    /// The validators that are known to have equivocated.
    pub faulty: Set<ValidatorIndex>,
    /// Whether a panorama has a vote in its causal past.
    pub sees: spec_fn(Seq<Observation<C>>, C::Hash) -> bool,
}

/// The observation that the vote `h` holds of its own creator: its predecessor.
pub open spec fn lane_predecessor<C: Context>(
    votes: Map<C::Hash, VoteView<C>>,
    h: C::Hash,
) -> Observation<C> {
    votes[h].panorama[votes[h].creator.0 as int]
}

/// How many votes lie on the way back from `obs` to its validator's first vote.
pub open spec fn lane_height<C: Context>(
    votes: Map<C::Hash, VoteView<C>>,
    obs: Observation<C>,
) -> nat {
    match obs {
        Observation::Correct(g) => votes[g].seq_number as nat + 1,
        _ => 0,
    }
}

/// Whether the vote `h` is found on the way back from `obs` along its validator's own
/// votes, `obs` included.
pub open spec fn lane_reaches<C: Context>(
    votes: Map<C::Hash, VoteView<C>>,
    obs: Observation<C>,
    h: C::Hash,
) -> bool
    decreases lane_height(votes, obs),
{
    match obs {
        Observation::Correct(g) => {
            let prev = lane_predecessor(votes, g);
            g == h || (lane_height(votes, prev) < lane_height(votes, obs) && lane_reaches(
                votes,
                prev,
                h,
            ))
        },
        _ => false,
    }
}

/// Whether the panorama `pan` holds the vote `h` or a later vote of the same validator.
pub open spec fn lane_sees<C: Context>(
    votes: Map<C::Hash, VoteView<C>>,
    pan: Seq<Observation<C>>,
    h: C::Hash,
) -> bool {
    lane_reaches(votes, pan[votes[h].creator.0 as int], h)
}

impl<C: Context> StateModel<C> {
    /// The number of validators.
    pub open spec fn num_validators(self) -> nat {
        self.panorama.len()
    }

    /// Whether the state holds a vote under the hash `h`.
    pub open spec fn has_vote(self, h: C::Hash) -> bool {
        self.votes.dom().contains(h)
    }

    /// A panorama fits the state when it has one slot for each validator and each vote it
    /// cites is held by the state and was cast by the validator of its slot.
    pub open spec fn fits(self, pan: Seq<Observation<C>>) -> bool {
        &&& pan.len() == self.num_validators()
        &&& forall|i: int|
            0 <= i < pan.len() ==> match #[trigger] pan[i] {
                Observation::Correct(h) => self.has_vote(h) && self.votes[h].creator.0 == i,
                _ => true,
            }
    }

    /// The observation that a vote holds of its own creator: its predecessor.
    pub open spec fn predecessor(self, h: C::Hash) -> Observation<C> {
        lane_predecessor(self.votes, h)
    }

    /// How many votes lie on the way back from an observation to the creator's first vote.
    pub open spec fn height(self, obs: Observation<C>) -> nat {
        lane_height(self.votes, obs)
    }

    /// Whether the vote `h` is found on the way back from `obs` along its validator's own
    /// votes, `obs` included.
    pub open spec fn reaches(self, obs: Observation<C>, h: C::Hash) -> bool {
        lane_reaches(self.votes, obs, h)
    }

    /// Whether the state has seen all that the panorama `pan` holds: the panorama fits the
    /// state, every validator of whom it cites a vote has been seen by the state, and every
    /// validator that it marks as faulty is marked so in the state.
    pub open spec fn has_seen(self, pan: Seq<Observation<C>>) -> bool {
        &&& self.fits(pan)
        &&& forall|i: int|
            0 <= i < pan.len() ==> match #[trigger] pan[i] {
                Observation::Correct(_) => !(self.panorama[i] is Nothing),
                Observation::Faulty => self.panorama[i] is Faulty,
                Observation::Nothing => true,
            }
    }

    /// Whether the vote under `h` is sound: the state has seen all that its panorama
    /// holds, and it continues its creator's own sequence.
    pub open spec fn vote_is_sound(self, h: C::Hash) -> bool {
        let vote = self.votes[h];
        &&& self.has_seen(vote.panorama)
        &&& vote.creator.0 < self.num_validators()
        &&& vote.seq_number < u64::MAX
        &&& match self.predecessor(h) {
            Observation::Correct(p) => self.votes[p].seq_number + 1 == vote.seq_number,
            Observation::Nothing => vote.seq_number == 0,
            Observation::Faulty => false,
        }
    }

    /// Whether the vote under `h` is in line: unless its creator is faulty, it is the
    /// latest vote of its creator or one that came before it.
    pub open spec fn vote_is_in_line(self, h: C::Hash) -> bool {
        let creator = self.votes[h].creator;
        self.faulty.contains(creator) || self.reaches(self.panorama[creator.0 as int], h)
    }

    /// The invariant of a protocol state: its own panorama fits it; every vote it holds is
    /// sound and in line; its faulty validators are those that its panorama marks; and a
    /// panorama sees a vote if it holds it or a later vote of the same validator.
    pub open spec fn valid(self) -> bool {
        &&& self.num_validators() <= u32::MAX
        &&& self.fits(self.panorama)
        &&& forall|h: C::Hash| #[trigger]
            self.has_vote(h) ==> self.vote_is_sound(h) && self.vote_is_in_line(h)
        &&& forall|v: ValidatorIndex| #[trigger]
            self.faulty.contains(v) <==> (v.0 < self.num_validators()
                && self.panorama[v.0 as int] is Faulty)
        &&& forall|pan: Seq<Observation<C>>, h: C::Hash|
            self.fits(pan) && self.has_vote(h) && lane_sees(self.votes, pan, h) ==> #[trigger]
            (self.sees)(pan, h)
    }

    /// Whether this state can grow into the state `later`: the validators are the same,
    /// the votes of this state are held by `later` as they are, and who is known to be
    /// faulty here is known to be so in `later`.
    pub open spec fn grows_into(self, later: StateModel<C>) -> bool {
        &&& later.num_validators() == self.num_validators()
        &&& forall|h: C::Hash| #[trigger]
            self.has_vote(h) ==> later.votes.dom().contains(h) && later.votes[h]
                == self.votes[h]
        &&& forall|v: ValidatorIndex| #[trigger]
            self.faulty.contains(v) ==> later.faulty.contains(v)
    }

    /// Whether the state holds `vote` under the hash `hash` as the latest vote of its
    /// creator.
    pub open spec fn holds_as_latest(self, hash: C::Hash, vote: VoteView<C>) -> bool {
        &&& vote.creator.0 < self.num_validators()
        &&& self.panorama[vote.creator.0 as int] == Observation::<C>::Correct(hash)
        &&& self.has_vote(hash)
        &&& self.votes[hash] == vote
    }

    /// One slot of a panorama, walked back along its validator's own votes to the latest
    /// one that was cast no later than `t`; `Nothing` if there is none.
    pub open spec fn cutoff_obs(self, obs: Observation<C>, t: Timestamp) -> Observation<C>
        decreases self.height(obs),
    {
        match obs {
            Observation::Correct(h) => {
                if self.votes[h].timestamp.0 <= t.0 {
                    obs
                } else if self.height(self.predecessor(h)) < self.height(obs) {
                    self.cutoff_obs(self.predecessor(h), t)
                } else {
                    Observation::Nothing
                }
            },
            _ => obs,
        }
    }

    /// A panorama restricted to the votes cast no later than `t`.
    pub open spec fn cutoff(self, pan: Seq<Observation<C>>, t: Timestamp) -> Seq<Observation<C>> {
        Seq::new(pan.len(), |i: int| self.cutoff_obs(pan[i], t))
    }

    /// Two observations of one validator merged: a fault outweighs everything, `Nothing`
    /// yields to anything, and of two votes the one with the higher sequence number stays.
    pub open spec fn merge_obs(self, a: Observation<C>, b: Observation<C>) -> Observation<C> {
        match (a, b) {
            (Observation::Faulty, _) => Observation::Faulty,
            (_, Observation::Faulty) => Observation::Faulty,
            (Observation::Nothing, _) => b,
            (_, Observation::Nothing) => a,
            (Observation::Correct(ha), Observation::Correct(hb)) => {
                if self.votes[hb].seq_number > self.votes[ha].seq_number {
                    b
                } else {
                    a
                }
            },
        }
    }

    /// Two panoramas merged slot by slot.
    pub open spec fn merge(self, a: Seq<Observation<C>>, b: Seq<Observation<C>>) -> Seq<
        Observation<C>,
    > {
        Seq::new(a.len(), |i: int| self.merge_obs(a[i], b[i]))
    }
}

/// Read-only access to the protocol state.
///
/// Each method answers from the state's model and from nothing else.
pub trait StateView<C: Context>: Sized {
    /// The state as a mathematical value.
    spec fn model(&self) -> StateModel<C>;

    /// The latest observation of each validator.
    fn panorama(&self) -> (r: &Panorama<C>)
        requires
            self.model().valid(),
        ensures
            r@ == self.model().panorama,
    ;

    /// The vote with hash `h`, which the state must hold.
    fn vote(&self, h: &C::Hash) -> (r: &Vote<C>)
        requires
            self.model().valid(),
            self.model().has_vote(*h),
        ensures
            r@ == self.model().votes[*h],
    ;

    /// The leader of the round that `t` lies in.
    fn leader(&self, t: Timestamp) -> (r: ValidatorIndex)
        requires
            self.model().valid(),
        ensures
            r == (self.model().leaders)(t),
    ;

    /// Whether validator `v` is known to have equivocated.
    fn has_evidence(&self, v: ValidatorIndex) -> (r: bool)
        requires
            self.model().valid(),
        ensures
            r == self.model().faulty.contains(v),
    ;

    /// The validators that are known to have equivocated, in no particular order.
    fn faulty_validators(&self) -> (r: Vec<ValidatorIndex>)
        requires
            self.model().valid(),
        ensures
            forall|v: ValidatorIndex| r@.contains(v) <==> self.model().faulty.contains(v),
    ;

    /// The panorama `pan` restricted to the votes cast no later than `t`.
    fn panorama_cutoff(&self, pan: &Panorama<C>, t: Timestamp) -> (r: Panorama<C>)
        requires
            self.model().valid(),
            self.model().fits(pan@),
        ensures
            r@ == self.model().cutoff(pan@, t),
    ;

    /// The panoramas `a` and `b` merged slot by slot.
    fn merge_panoramas(&self, a: &Panorama<C>, b: &Panorama<C>) -> (r: Panorama<C>)
        requires
            self.model().valid(),
            self.model().fits(a@),
            self.model().fits(b@),
        ensures
            r@ == self.model().merge(a@, b@),
    ;

    /// Whether the vote with hash `h` lies in the causal past of `pan`.
    fn sees_correct(&self, pan: &Panorama<C>, h: &C::Hash) -> (r: bool)
        requires
            self.model().valid(),
            self.model().fits(pan@),
            self.model().has_vote(*h),
        ensures
            r == (self.model().sees)(pan@, *h),
    ;
}

} // verus!
