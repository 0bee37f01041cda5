//! Observations, panoramas and the votes kept in the protocol state.

use vstd::prelude::*;
use crate::time::Timestamp;
use crate::traits::Context;
use crate::validators::ValidatorIndex;

verus! {

/// What one validator has seen of another.
#[derive(Debug, PartialEq, Eq)]
pub enum Observation<C: Context> {
    /// No vote of that validator has been seen.
    Nothing,
    /// The latest vote seen of that validator.
    Correct(C::Hash),
    /// The validator has equivocated. This mark is never taken back.
    Faulty,
}

impl<C: Context> Clone for Observation<C> {
    fn clone(&self) -> (r: Self)
        ensures
            r == *self,
    {
        match self {
            Observation::Nothing => Observation::Nothing,
            Observation::Correct(h) => Observation::Correct(*h),
            Observation::Faulty => Observation::Faulty,
        }
    }
}

impl<C: Context> Copy for Observation<C> {

}

impl<C: Context> Observation<C> {
    /// The hash of the latest vote, if the validator is honest and has voted.
    pub fn correct(&self) -> (r: Option<C::Hash>)
        ensures
            r == self.correct_spec(),
    {
        match self {
            Observation::Correct(h) => Some(*h),
            _ => None,
        }
    }

    /// The hash that `correct` returns.
    pub open spec fn correct_spec(&self) -> Option<C::Hash> {
        match self {
            Observation::Correct(h) => Some(*h),
            _ => None,
        }
    }

    /// Whether nothing has been seen.
    pub fn is_nothing(&self) -> (r: bool)
        ensures
            r == (*self is Nothing),
    {
        match self {
            Observation::Nothing => true,
            _ => false,
        }
    }

    /// Whether the validator is marked as faulty.
    pub fn is_faulty(&self) -> (r: bool)
        ensures
            r == (*self is Faulty),
    {
        match self {
            Observation::Faulty => true,
            _ => false,
        }
    }
}

/// One observation for each validator, in the order of the validator set.
#[derive(Debug, PartialEq, Eq)]
pub struct Panorama<C: Context>(pub Vec<Observation<C>>);

impl<C: Context> View for Panorama<C> {
    type V = Seq<Observation<C>>;

    open spec fn view(&self) -> Seq<Observation<C>> {
        self.0@
    }
}

/// A panorama is empty when it holds no observation but `Nothing`.
pub open spec fn panorama_is_empty<C: Context>(pan: Seq<Observation<C>>) -> bool {
    forall|i: int| 0 <= i < pan.len() ==> pan[i] is Nothing
}

impl<C: Context> Panorama<C> {
    /// The panorama of `num_validators` validators of whom nothing has been seen.
    pub fn new(num_validators: usize) -> (r: Self)
        ensures
            r@.len() == num_validators,
            panorama_is_empty(r@),
    {
        let mut obs: Vec<Observation<C>> = Vec::new();
        let mut i: usize = 0;
        while i < num_validators
            invariant
                i <= num_validators,
                obs@.len() == i,
                forall|j: int| 0 <= j < i ==> obs@[j] is Nothing,
            decreases num_validators - i,
        {
            obs.push(Observation::Nothing);
            i += 1;
        }
        Panorama(obs)
    }

    /// The number of validators.
    pub fn len(&self) -> (r: usize)
        ensures
            r == self@.len(),
    {
        self.0.len()
    }

    /// The observation of validator `idx`.
    pub fn get(&self, idx: ValidatorIndex) -> (r: Observation<C>)
        requires
            idx.0 < self@.len(),
        ensures
            r == self@[idx.0 as int],
    {
        self.0[idx.0 as usize]
    }

    /// Replaces the observation of validator `idx` by `obs`.
    pub fn update(&mut self, idx: ValidatorIndex, obs: Observation<C>)
        requires
            idx.0 < old(self)@.len(),
        ensures
            final(self)@ == old(self)@.update(idx.0 as int, obs),
    {
        self.0[idx.0 as usize] = obs;
    }

    /// Whether nothing has been seen of any validator.
    pub fn is_empty(&self) -> (r: bool)
        ensures
            r == panorama_is_empty(self@),
    {
        let mut i: usize = 0;
        while i < self.0.len()
            invariant
                i <= self@.len(),
                forall|j: int| 0 <= j < i ==> self@[j] is Nothing,
            decreases self@.len() - i,
        {
            if !self.0[i].is_nothing() {
                return false;
            }
            i += 1;
        }
        true
    }
}

impl<C: Context> Clone for Panorama<C> {
    fn clone(&self) -> (r: Self)
        ensures
            r@ == self@,
    {
        let mut obs: Vec<Observation<C>> = Vec::new();
        let mut i: usize = 0;
        while i < self.0.len()
            invariant
                i <= self@.len(),
                obs@ == self@.subrange(0, i as int),
            decreases self@.len() - i,
        {
            obs.push(self.0[i]);
            assert(obs@ == self@.subrange(0, i + 1));
            i += 1;
        }
        assert(self@.subrange(0, self@.len() as int) == self@);
        Panorama(obs)
    }
}

/// A vote as the protocol state keeps it.
#[derive(Debug, PartialEq, Eq)]
pub struct Vote<C: Context> {
    /// What the creator had seen when it cast the vote.
    pub panorama: Panorama<C>,
    /// The number of votes the creator had cast before this one.
    pub seq_number: u64,
    /// The validator that cast the vote.
    pub creator: ValidatorIndex,
    /// When the vote was cast.
    pub timestamp: Timestamp,
}

/// A vote of the protocol state as a mathematical value.
pub ghost struct VoteView<C: Context> {
    /// What the creator had seen when it cast the vote.
    pub panorama: Seq<Observation<C>>,
    /// The number of votes the creator had cast before this one.
    pub seq_number: u64,
    /// The validator that cast the vote.
    pub creator: ValidatorIndex,
    /// When the vote was cast.
    pub timestamp: Timestamp,
}

impl<C: Context> Clone for Vote<C> {
    fn clone(&self) -> (r: Self)
        ensures
            r@ == self@,
    {
        Vote {
            panorama: self.panorama.clone(),
            seq_number: self.seq_number,
            creator: self.creator,
            timestamp: self.timestamp,
        }
    }
}

impl<C: Context> View for Vote<C> {
    type V = VoteView<C>;

    open spec fn view(&self) -> VoteView<C> {
        VoteView {
            panorama: self.panorama@,
            seq_number: self.seq_number,
            creator: self.creator,
            timestamp: self.timestamp,
        }
    }
}

} // verus!
