//! A protocol state that is kept in memory.
//!
//! It holds the votes in the order in which they were added and finds them by a search.
//! The validators lead in turns: one after the other, each for a turn of a fixed length.

use vstd::prelude::*;
use vstd::laws_eq::obeys_concrete_eq;
use crate::state::{lane_reaches, lane_sees, StateModel, StateView};
use crate::active_validator::ActiveValidator;
use crate::schedule_laws::{casts, lemma_vote_continues_own_sequence, reaction, Event};
use crate::state_laws::{lemma_cutoff_obs_fits, lemma_lane_is_kept};
use crate::time::{TimeDiff, Timestamp};
use crate::traits::Context;
use crate::validators::ValidatorIndex;
use crate::vertex::{SignedWireVote, WireVoteView};
use crate::vote::{panorama_is_empty, Observation, Panorama, Vote, VoteView};

verus! {

/// A vote under its hash.
struct Entry<C: Context> {
    hash: C::Hash,
    vote: Vote<C>,
}

/// A protocol state that is kept in memory.
pub struct MemoryState<C: Context> {
    /// How long a validator leads before the next one takes over.
    turn_len: u64,
    /// The votes, in the order in which they were added.
    entries: Vec<Entry<C>>,
    /// The latest observation of each validator.
    panorama: Panorama<C>,
}

/// Whether one of `entries` holds a vote under the hash `h`.
spec fn holds<C: Context>(entries: Seq<Entry<C>>, h: C::Hash) -> bool {
    exists|i: int| 0 <= i < entries.len() && #[trigger] entries[i].hash == h
}

/// The place in `entries` of the vote under the hash `h`.
spec fn place<C: Context>(entries: Seq<Entry<C>>, h: C::Hash) -> int {
    choose|i: int| 0 <= i < entries.len() && #[trigger] entries[i].hash == h
}

/// The votes of `entries` by their hashes.
spec fn votes_of<C: Context>(entries: Seq<Entry<C>>) -> Map<C::Hash, VoteView<C>> {
    Map::new(|h: C::Hash| holds(entries, h), |h: C::Hash| entries[place(entries, h)].vote@)
}

/// The validator whose turn it is at `t`, where `num_validators` validators take turns of
/// `turn_len` milliseconds, the first of them at the epoch.
pub open spec fn leader_by_turns(num_validators: nat, turn_len: u64, t: Timestamp) -> ValidatorIndex {
    ValidatorIndex(((t.0 as int / turn_len as int) % num_validators as int) as u32)
}

impl<C: Context> MemoryState<C> {
    /// The length of a validator's turn as leader.
    pub closed spec fn turn_len(&self) -> u64 {
        self.turn_len
    }

    /// The invariant: the hashes are those of a type whose `==` is equality, no two votes
    /// share a hash, and the state is valid.
    #[verifier::type_invariant]
    pub closed spec fn inv(&self) -> bool {
        &&& obeys_concrete_eq::<C::Hash>()
        &&& self.turn_len > 0
        &&& 0 < self.panorama@.len() <= u32::MAX
        &&& forall|i: int, j: int|
            0 <= i < j < self.entries@.len() ==> self.entries@[i].hash != self.entries@[j].hash
        &&& self.model().valid()
    }

    /// A state without votes, for `num_validators` validators that lead in turns of
    /// `turn_len`.
    pub fn new(num_validators: u32, turn_len: TimeDiff) -> (r: Self)
        requires
            obeys_concrete_eq::<C::Hash>(),
            num_validators > 0,
            turn_len.0 > 0,
        ensures
            r.model().valid(),
            r.model().num_validators() == num_validators,
            panorama_is_empty(r.model().panorama),
            r.model().votes == Map::<C::Hash, VoteView<C>>::empty(),
            r.model().faulty == Set::<ValidatorIndex>::empty(),
            r.turn_len() == turn_len.0,
            leads_by_turns(r.model(), turn_len.0),
            follows_lanes(r.model()),
    {
        let panorama = Panorama::new(num_validators as usize);
        let r = MemoryState { turn_len: turn_len.0, entries: Vec::new(), panorama };
        proof {
            assert(r.model().votes =~= Map::<C::Hash, VoteView<C>>::empty());
            assert(r.model().faulty =~= Set::<ValidatorIndex>::empty());
        }
        r
    }

    /// Whether the state holds a vote under the hash `h`.
    pub fn has_vote(&self, h: &C::Hash) -> (r: bool)
        ensures
            r == self.model().has_vote(*h),
    {
        self.find(h).is_some()
    }

    /// The number of validators.
    pub fn num_validators(&self) -> (r: u32)
        ensures
            r == self.model().num_validators(),
    {
        proof {
            use_type_invariant(self);
        }
        self.panorama.len() as u32
    }

    /// The place of the vote under `h`, if there is one.
    fn find(&self, h: &C::Hash) -> (r: Option<usize>)
        ensures
            r is Some <==> self.model().has_vote(*h),
            r matches Some(i) ==> i < self.entries@.len() && self.entries@[i as int].hash == *h
                && self.entries@[i as int].vote@ == self.model().votes[*h],
    {
        proof {
            use_type_invariant(self);
            reveal(obeys_concrete_eq);
        }
        let mut i: usize = 0;
        while i < self.entries.len()
            invariant
                i <= self.entries@.len(),
                obeys_concrete_eq::<C::Hash>(),
                forall|j: int| 0 <= j < i ==> self.entries@[j].hash != *h,
            decreases self.entries@.len() - i,
        {
            proof {
                reveal(obeys_concrete_eq);
            }
            if self.entries[i].hash == *h {
                proof {
                    use_type_invariant(self);
                    let k = place(self.entries@, *h);
                    assert(k == i);
                }
                return Some(i);
            }
            i += 1;
        }
        None
    }
}

impl<C: Context> StateView<C> for MemoryState<C> {
    closed spec fn model(&self) -> StateModel<C> {
        let votes = votes_of(self.entries@);
        StateModel {
            panorama: self.panorama@,
            votes,
            leaders: |t: Timestamp| leader_by_turns(self.panorama@.len(), self.turn_len, t),
            faulty: Set::new(
                |v: ValidatorIndex|
                    v.0 < self.panorama@.len() && self.panorama@[v.0 as int] is Faulty,
            ),
            sees: |pan: Seq<Observation<C>>, h: C::Hash| lane_sees(votes, pan, h),
        }
    }

    fn panorama(&self) -> (r: &Panorama<C>) {
        &self.panorama
    }

    fn vote(&self, h: &C::Hash) -> (r: &Vote<C>) {
        let place = self.find(h).unwrap();
        &self.entries[place].vote
    }

    fn leader(&self, t: Timestamp) -> (r: ValidatorIndex) {
        proof {
            use_type_invariant(self);
        }
        let n: u64 = self.panorama.len() as u64;
        ValidatorIndex(((t.0 / self.turn_len) % n) as u32)
    }

    fn has_evidence(&self, v: ValidatorIndex) -> (r: bool) {
        (v.0 as usize) < self.panorama.len() && self.panorama.get(v).is_faulty()
    }

    fn faulty_validators(&self) -> (r: Vec<ValidatorIndex>) {
        proof {
            use_type_invariant(self);
        }
        let mut faulty: Vec<ValidatorIndex> = Vec::new();
        let mut i: u32 = 0;
        while (i as usize) < self.panorama.len()
            invariant
                i <= self.panorama@.len() <= u32::MAX,
                forall|v: ValidatorIndex|
                    faulty@.contains(v) <==> v.0 < i && self.panorama@[v.0 as int] is Faulty,
            decreases self.panorama@.len() - i,
        {
            let v = ValidatorIndex(i);
            if self.panorama.get(v).is_faulty() {
                let ghost before = faulty@;
                faulty.push(v);
                assert forall|w: ValidatorIndex| faulty@.contains(w) <==> w.0 < i + 1
                    && self.panorama@[w.0 as int] is Faulty by {
                    if faulty@.contains(w) {
                        let k = choose|k: int| 0 <= k < faulty@.len() && faulty@[k] == w;
                        if k < before.len() {
                            assert(before.contains(w));
                        }
                    }
                    if w.0 < i + 1 && self.panorama@[w.0 as int] is Faulty {
                        if w.0 < i {
                            assert(before.contains(w));
                            let k = choose|k: int| 0 <= k < before.len() && before[k] == w;
                            assert(faulty@[k] == w);
                        } else {
                            assert(faulty@[before.len() as int] == w);
                        }
                    }
                }
            }
            i += 1;
        }
        faulty
    }

    fn panorama_cutoff(&self, pan: &Panorama<C>, t: Timestamp) -> (r: Panorama<C>) {
        let mut cut: Vec<Observation<C>> = Vec::new();
        let mut i: usize = 0;
        while i < pan.len()
            invariant
                i <= pan@.len(),
                self.model().valid(),
                self.model().fits(pan@),
                cut@.len() == i,
                forall|j: int| 0 <= j < i ==> cut@[j] == self.model().cutoff_obs(pan@[j], t),
            decreases pan@.len() - i,
        {
            let obs = self.walk_back(pan.0[i], t);
            cut.push(obs);
            i += 1;
        }
        assert(cut@ =~= self.model().cutoff(pan@, t));
        Panorama(cut)
    }

    fn merge_panoramas(&self, a: &Panorama<C>, b: &Panorama<C>) -> (r: Panorama<C>) {
        let mut merged: Vec<Observation<C>> = Vec::new();
        let mut i: usize = 0;
        while i < a.len()
            invariant
                i <= a@.len(),
                self.model().valid(),
                self.model().fits(a@),
                self.model().fits(b@),
                merged@.len() == i,
                forall|j: int|
                    0 <= j < i ==> merged@[j] == self.model().merge_obs(a@[j], b@[j]),
            decreases a@.len() - i,
        {
            let obs = self.merge_one(a.0[i], b.0[i]);
            merged.push(obs);
            i += 1;
        }
        assert(merged@ =~= self.model().merge(a@, b@));
        Panorama(merged)
    }

    fn sees_correct(&self, pan: &Panorama<C>, h: &C::Hash) -> (r: bool) {
        proof {
            use_type_invariant(self);
            assert(self.model().vote_is_sound(*h));
        }
        let target = self.vote(h);
        let ghost votes = self.model().votes;
        let start = pan.get(target.creator);
        let mut cur = start;
        let mut found = false;
        let mut done = false;
        while !done
            invariant
                obeys_concrete_eq::<C::Hash>(),
                self.model().valid(),
                votes == self.model().votes,
                cur matches Observation::Correct(g) ==> self.model().has_vote(g),
                !done ==> !found && lane_reaches(votes, cur, *h) == lane_reaches(
                    votes,
                    start,
                    *h,
                ),
                done ==> found == lane_reaches(votes, start, *h),
            decreases self.model().height(cur), (if done { 0int } else { 1int }),
        {
            proof {
                reveal(obeys_concrete_eq);
            }
            match cur {
                Observation::Correct(g) => {
                    if g == *h {
                        found = true;
                        done = true;
                    } else {
                        proof {
                            assert(self.model().vote_is_sound(g));
                        }
                        let vote = self.vote(&g);
                        cur = vote.panorama.get(vote.creator);
                    }
                },
                _ => {
                    done = true;
                },
            }
        }
        found
    }
}

impl<C: Context> MemoryState<C> {
    /// One slot of a panorama, walked back to the latest vote cast no later than `t`.
    fn walk_back(&self, obs: Observation<C>, t: Timestamp) -> (r: Observation<C>)
        requires
            self.model().valid(),
            obs matches Observation::Correct(h) ==> self.model().has_vote(h),
        ensures
            r == self.model().cutoff_obs(obs, t),
    {
        let mut cur = obs;
        let mut done = false;
        while !done
            invariant
                self.model().valid(),
                cur matches Observation::Correct(g) ==> self.model().has_vote(g),
                self.model().cutoff_obs(cur, t) == self.model().cutoff_obs(obs, t),
                done ==> cur == self.model().cutoff_obs(cur, t),
            decreases self.model().height(cur), (if done { 0int } else { 1int }),
        {
            match cur {
                Observation::Correct(g) => {
                    proof {
                        assert(self.model().vote_is_sound(g));
                    }
                    let vote = self.vote(&g);
                    if vote.timestamp.0 <= t.0 {
                        done = true;
                    } else {
                        cur = vote.panorama.get(vote.creator);
                    }
                },
                _ => {
                    done = true;
                },
            }
        }
        cur
    }

    /// Two observations of one validator merged.
    fn merge_one(&self, a: Observation<C>, b: Observation<C>) -> (r: Observation<C>)
        requires
            self.model().valid(),
            a matches Observation::Correct(h) ==> self.model().has_vote(h),
            b matches Observation::Correct(h) ==> self.model().has_vote(h),
        ensures
            r == self.model().merge_obs(a, b),
    {
        match (a, b) {
            (Observation::Faulty, _) => Observation::Faulty,
            (_, Observation::Faulty) => Observation::Faulty,
            (Observation::Nothing, _) => b,
            (_, Observation::Nothing) => a,
            (Observation::Correct(ha), Observation::Correct(hb)) => {
                if self.vote(&hb).seq_number > self.vote(&ha).seq_number {
                    b
                } else {
                    a
                }
            },
        }
    }
}

/// Why a vote is not added to a state.
#[derive(Clone, Copy, Debug, PartialEq, Eq, Structural)]
pub enum AddVoteError {
    /// The state already holds a vote under the hash.
    KnownHash,
    /// The panorama of the vote does not have one slot for each validator.
    PanoramaLength,
    /// The creator of the vote is not in the validator set.
    UnknownCreator,
    /// The panorama of the vote holds what the state has not seen: a vote that the state
    /// does not hold, a vote in the slot of another validator than its creator, or a fault
    /// that the state does not know of.
    UnseenCitation,
    /// The vote does not follow the latest vote of its creator in the state, or its
    /// creator is known to be faulty.
    NotLatest,
    /// The sequence number of the vote is not the number of its creator's earlier votes,
    /// or it is the highest number there is.
    SequenceNumber,
}

/// Why `state` does not take the vote `vote` under the hash `hash`, if it does not.
pub open spec fn rejection<C: Context>(
    state: StateModel<C>,
    hash: C::Hash,
    vote: WireVoteView<C>,
) -> Option<AddVoteError> {
    let own = vote.creator.0 as int;
    if state.has_vote(hash) {
        Some(AddVoteError::KnownHash)
    } else if vote.panorama.len() != state.num_validators() {
        Some(AddVoteError::PanoramaLength)
    } else if vote.creator.0 >= state.num_validators() {
        Some(AddVoteError::UnknownCreator)
    } else if !state.has_seen(vote.panorama) {
        Some(AddVoteError::UnseenCitation)
    } else if vote.panorama[own] != state.panorama[own] || vote.panorama[own] is Faulty {
        Some(AddVoteError::NotLatest)
    } else if vote.seq_number != state.height(vote.panorama[own]) || vote.seq_number
        == u64::MAX {
        Some(AddVoteError::SequenceNumber)
    } else {
        None
    }
}

/// A valid state stays valid when it takes a vote that it does not reject and holds it as
/// the latest vote of its creator. Its faulty validators stay the same.
pub proof fn lemma_taking_a_vote_keeps_valid<C: Context>(
    state: StateModel<C>,
    after: StateModel<C>,
    hash: C::Hash,
    vote: WireVoteView<C>,
)
    requires
        state.valid(),
        follows_lanes(state),
        rejection(state, hash, vote) is None,
        after.panorama == state.panorama.update(
            vote.creator.0 as int,
            Observation::Correct(hash),
        ),
        after.votes == state.votes.insert(hash, vote.kept()),
        follows_lanes(after),
    ensures
        after.valid(),
        after.faulty == state.faulty,
{
    let own = vote.creator.0 as int;
    assert forall|h: C::Hash| #[trigger] after.has_vote(h) implies after.vote_is_sound(h)
        && after.vote_is_in_line(h) by {
        let pan = after.votes[h].panorama;
        if h != hash {
            assert(state.has_vote(h));
            assert(state.vote_is_sound(h));
            assert(after.votes[h] == state.votes[h]);
            if let Observation::Correct(p) = state.predecessor(h) {
                assert(state.has_vote(p));
            }
        } else {
            assert(pan == vote.panorama);
            assert(state.has_seen(pan));
            if let Observation::Correct(p) = pan[own] {
                assert(state.has_vote(p));
            }
        }
        assert(state.has_seen(pan));
        assert forall|i: int| 0 <= i < pan.len() implies (match #[trigger] pan[i] {
            Observation::Correct(g) => after.has_vote(g) && after.votes[g].creator.0 == i,
            _ => true,
        }) && (match pan[i] {
            Observation::Correct(_) => !(after.panorama[i] is Nothing),
            Observation::Faulty => after.panorama[i] is Faulty,
            Observation::Nothing => true,
        }) by {
            if let Observation::Correct(g) = pan[i] {
                assert(state.has_vote(g));
            }
        }
        assert(after.fits(pan));
        assert(after.has_seen(pan));
        let creator = after.votes[h].creator;
        if !after.faulty.contains(creator) && h != hash {
            assert(state.vote_is_in_line(h));
            assert(!state.faulty.contains(creator)) by {
                assert(state.panorama[own] == vote.panorama[own]);
            }
            if creator.0 == own {
                let latest = state.panorama[own];
                lemma_lane_is_kept(state, after.votes, latest, h);
                assert(lane_reaches(after.votes, latest, h));
                assert(after.predecessor(hash) == latest);
            } else {
                lemma_lane_is_kept(state, after.votes, state.panorama[creator.0 as int], h);
            }
        }
        assert(after.vote_is_in_line(h));
    }
    assert forall|i: int| 0 <= i < after.panorama.len() implies (match #[trigger] after.panorama[i] {
        Observation::Correct(g) => after.has_vote(g) && after.votes[g].creator.0 == i,
        _ => true,
    }) by {
        if i != own {
            if let Observation::Correct(g) = state.panorama[i] {
                assert(state.has_vote(g));
            }
        }
    }
    assert(after.fits(after.panorama));
    assert(after.faulty =~= state.faulty);
}

/// A vote that a validator casts is taken by the state in which it was cast, under any
/// hash that the state does not hold yet, as long as the sequence numbers last.
pub proof fn lemma_cast_vote_is_taken<C: Context>(
    av: &ActiveValidator<C>,
    event: Event<C>,
    state: StateModel<C>,
    vote: WireVoteView<C>,
    hash: C::Hash,
)
    requires
        av.wf(),
        state.valid(),
        av.in_good_standing(state),
        event.fits(state),
        casts(reaction(av, event, state), vote),
        !state.has_vote(hash),
        state.height(state.panorama[av.vidx().0 as int]) < u64::MAX,
    ensures
        rejection(state, hash, vote) is None,
{
    lemma_vote_continues_own_sequence(av, event, state, vote);
    let me = av.vidx().0 as int;
    let pan = vote.panorama;
    assert forall|i: int| 0 <= i < pan.len() implies match #[trigger] pan[i] {
        Observation::Correct(_) => !(state.panorama[i] is Nothing),
        Observation::Faulty => state.panorama[i] is Faulty,
        Observation::Nothing => true,
    } by {
        match event {
            Event::Vote(vhash, t) => {
                assert(pan == av.confirmation_panorama_spec(vhash, state));
                assert(state.vote_is_sound(vhash));
                assert(state.vote_is_in_line(vhash));
                let theirs = state.votes[vhash].panorama;
                let marked = ValidatorIndex(i as u32);
                if state.faulty.contains(marked) {
                } else if i == state.votes[vhash].creator.0 {
                    assert(ValidatorIndex(i as u32) == state.votes[vhash].creator);
                } else if let Observation::Correct(prev) = state.panorama[me] {
                    assert(state.has_vote(prev));
                    assert(state.vote_is_sound(prev));
                    if i != me {
                        assert(pan[i] == state.merge_obs(theirs[i], state.votes[prev].panorama[i]));
                    }
                } else {
                    assert(pan[i] == theirs[i]);
                }
            },
            _ => {
                assert(pan == state.cutoff(state.panorama, event.time()));
                lemma_cutoff_obs_fits(state, state.panorama[i], event.time(), i);
            },
        }
    }
    assert(state.has_seen(pan));
}

/// Whether the validators of `state` lead in turns of `turn_len` milliseconds.
pub open spec fn leads_by_turns<C: Context>(state: StateModel<C>, turn_len: u64) -> bool {
    forall|t: Timestamp| #[trigger]
        (state.leaders)(t) == leader_by_turns(state.num_validators(), turn_len, t)
}

/// Whether `state` answers as a state in memory does: its faulty validators are those
/// that its panorama marks, and a panorama sees a vote if it holds it or a later one of
/// the same validator.
pub open spec fn follows_lanes<C: Context>(state: StateModel<C>) -> bool {
    &&& forall|pan: Seq<Observation<C>>, h: C::Hash| #[trigger]
        (state.sees)(pan, h) == lane_sees(state.votes, pan, h)
    &&& forall|v: ValidatorIndex|
        state.faulty.contains(v) <==> v.0 < state.num_validators() && state.panorama[v.0 as int]
            is Faulty
}

impl<C: Context> MemoryState<C> {
    /// Adds the vote `vote`, whose hash is `hash`, as the latest vote of its creator.
    ///
    /// The vote is taken if the state has seen all that it cites and it follows its
    /// creator's latest vote; else the state stays as it is.
    pub fn add_vote(&mut self, hash: C::Hash, vote: SignedWireVote<C>) -> (r: Result<
        (),
        AddVoteError,
    >)
        ensures
            r == (match rejection(old(self).model(), hash, vote.wire_vote@) {
                Some(e) => Err::<(), AddVoteError>(e),
                None => Ok::<(), AddVoteError>(()),
            }),
            final(self).model().valid(),
            leads_by_turns(final(self).model(), final(self).turn_len()),
            follows_lanes(final(self).model()),
            final(self).turn_len() == old(self).turn_len(),
            final(self).model().faulty == old(self).model().faulty,
            r is Err ==> final(self).model().votes == old(self).model().votes
                && final(self).model().panorama == old(self).model().panorama,
            r is Ok ==> final(self).model().votes == old(self).model().votes.insert(
                hash,
                vote.wire_vote@.kept(),
            ) && final(self).model().panorama == old(self).model().panorama.update(
                vote.wire_vote.creator.0 as int,
                Observation::Correct(hash),
            ),
            old(self).model().grows_into(final(self).model()),
            r is Ok ==> final(self).model().holds_as_latest(hash, vote.wire_vote@.kept()),
    {
        proof {
            use_type_invariant(&*self);
        }
        let wire_vote = vote.wire_vote;
        let ghost before = self.model();
        let ghost view = wire_vote@;
        if self.find(&hash).is_some() {
            return Err(AddVoteError::KnownHash);
        }
        if wire_vote.panorama.len() != self.panorama.len() {
            return Err(AddVoteError::PanoramaLength);
        }
        if wire_vote.creator.0 as usize >= self.panorama.len() {
            return Err(AddVoteError::UnknownCreator);
        }
        if !self.has_seen_all(&wire_vote.panorama) {
            return Err(AddVoteError::UnseenCitation);
        }
        let own = wire_vote.panorama.get(wire_vote.creator);
        let expected: u64 = match (own, self.panorama.get(wire_vote.creator)) {
            (Observation::Nothing, Observation::Nothing) => 0,
            (Observation::Correct(mine), Observation::Correct(latest)) => {
                proof {
                    reveal(obeys_concrete_eq);
                }
                if !(mine == latest) {
                    return Err(AddVoteError::NotLatest);
                }
                assert(before.vote_is_sound(mine));
                self.vote(&mine).seq_number + 1
            },
            _ => {
                return Err(AddVoteError::NotLatest);
            },
        };
        if wire_vote.seq_number != expected || wire_vote.seq_number == u64::MAX {
            return Err(AddVoteError::SequenceNumber);
        }
        assert(rejection(before, hash, view) is None);
        let creator = wire_vote.creator;
        let entry = Entry {
            hash,
            vote: Vote {
                panorama: wire_vote.panorama,
                seq_number: wire_vote.seq_number,
                creator,
                timestamp: wire_vote.timestamp,
            },
        };
        let ghost votes = before.votes.insert(hash, view.kept());
        let ghost latest = before.panorama.update(creator.0 as int, Observation::Correct(hash));
        let ghost after = StateModel {
            panorama: latest,
            votes,
            faulty: Set::new(
                |v: ValidatorIndex| v.0 < latest.len() && latest[v.0 as int] is Faulty,
            ),
            sees: |pan: Seq<Observation<C>>, h: C::Hash| lane_sees(votes, pan, h),
            ..before
        };
        proof {
            lemma_taking_a_vote_keeps_valid(before, after, hash, view);
            lemma_votes_of_push(self.entries@, entry);
        }
        let (turn_len, mut entries, mut panorama) = self.take_apart();
        entries.push(entry);
        panorama.update(creator, Observation::Correct(hash));
        let next = MemoryState { turn_len, entries, panorama };
        proof {
            assert(next.model().faulty =~= after.faulty);
            assert(next.model().leaders == after.leaders);
            assert(next.model() == after);
        }
        *self = next;
        Ok(())
    }

    /// Marks validator `v` as faulty, for good. Nothing changes if `v` is not in the
    /// validator set.
    pub fn mark_faulty(&mut self, v: ValidatorIndex)
        ensures
            final(self).model().valid(),
            leads_by_turns(final(self).model(), final(self).turn_len()),
            follows_lanes(final(self).model()),
            final(self).turn_len() == old(self).turn_len(),
            final(self).model().votes == old(self).model().votes,
            old(self).model().grows_into(final(self).model()),
            final(self).model().panorama == (if v.0 < old(self).model().num_validators() {
                old(self).model().panorama.update(v.0 as int, Observation::Faulty)
            } else {
                old(self).model().panorama
            }),
    {
        proof {
            use_type_invariant(&*self);
        }
        if (v.0 as usize) < self.panorama.len() {
            let ghost before = self.model();
            let ghost pan = before.panorama.update(v.0 as int, Observation::Faulty);
            let ghost after = StateModel {
                panorama: pan,
                faulty: Set::new(|w: ValidatorIndex| w.0 < pan.len() && pan[w.0 as int] is Faulty),
                ..before
            };
            proof {
                assert forall|h: C::Hash| #[trigger] after.has_vote(h) implies after.vote_is_sound(h)
                    && after.vote_is_in_line(h) by {
                    assert(before.has_vote(h));
                    assert(before.vote_is_sound(h));
                    let cited = before.votes[h].panorama;
                    assert forall|i: int| 0 <= i < cited.len() implies match #[trigger] cited[i] {
                        Observation::Correct(_) => !(after.panorama[i] is Nothing),
                        Observation::Faulty => after.panorama[i] is Faulty,
                        Observation::Nothing => true,
                    } by {}
                    assert(before.vote_is_in_line(h));
                    assert(after.vote_is_in_line(h));
                }
                assert(after.valid());
            }
            let (turn_len, entries, mut panorama) = self.take_apart();
            panorama.update(v, Observation::Faulty);
            let next = MemoryState { turn_len, entries, panorama };
            proof {
                assert(next.model() == after);
            }
            *self = next;
        }
    }

    /// Takes the state apart and leaves a state without votes in its place.
    fn take_apart(&mut self) -> (r: (u64, Vec<Entry<C>>, Panorama<C>))
        ensures
            r.0 == old(self).turn_len,
            r.1 == old(self).entries,
            r.2 == old(self).panorama,
    {
        proof {
            use_type_invariant(&*self);
        }
        let mut taken = MemoryState::new(1, TimeDiff(1));
        core::mem::swap(self, &mut taken);
        let MemoryState { turn_len, entries, panorama } = taken;
        (turn_len, entries, panorama)
    }

    /// Whether the state has seen all that the panorama `pan` holds.
    fn has_seen_all(&self, pan: &Panorama<C>) -> (r: bool)
        requires
            pan@.len() == self.model().num_validators(),
        ensures
            r == self.model().has_seen(pan@),
    {
        proof {
            use_type_invariant(self);
        }
        let mut i: u32 = 0;
        while (i as usize) < pan.len()
            invariant
                i <= pan@.len() <= u32::MAX,
                pan@.len() == self.panorama@.len(),
                forall|j: int|
                    0 <= j < i ==> (match #[trigger] pan@[j] {
                        Observation::Correct(h) => self.model().has_vote(h)
                            && self.model().votes[h].creator.0 == j && !(self.panorama@[j]
                            is Nothing),
                        Observation::Faulty => self.panorama@[j] is Faulty,
                        Observation::Nothing => true,
                    }),
            decreases pan@.len() - i,
        {
            let seen = self.panorama.get(ValidatorIndex(i));
            let ok = match pan.get(ValidatorIndex(i)) {
                Observation::Correct(h) => match self.find(&h) {
                    Some(k) => self.entries[k].vote.creator.0 == i && !seen.is_nothing(),
                    None => false,
                },
                Observation::Faulty => seen.is_faulty(),
                Observation::Nothing => true,
            };
            if !ok {
                assert(!self.model().has_seen(pan@)) by {
                    let j = i as int;
                    if self.model().has_seen(pan@) {
                        assert(self.model().fits(pan@));
                        let o = pan@[j];
                    }
                }
                return false;
            }
            i += 1;
        }
        true
    }
}

/// The votes of a list with one more entry, under a hash that the list did not hold, are
/// those of the list and the new one.
proof fn lemma_votes_of_push<C: Context>(entries: Seq<Entry<C>>, entry: Entry<C>)
    requires
        !holds(entries, entry.hash),
        forall|i: int, j: int| 0 <= i < j < entries.len() ==> entries[i].hash != entries[j].hash,
    ensures
        votes_of(entries.push(entry)) == votes_of(entries).insert(entry.hash, entry.vote@),
        forall|i: int, j: int|
            0 <= i < j < entries.len() + 1 ==> entries.push(entry)[i].hash != entries.push(
                entry,
            )[j].hash,
{
    let more = entries.push(entry);
    assert forall|i: int, j: int| 0 <= i < j < more.len() implies more[i].hash
        != more[j].hash by {
        if j == entries.len() {
            assert(entries[i].hash == more[i].hash);
        }
    }
    assert forall|h: C::Hash| holds(more, h) <==> (holds(entries, h) || h == entry.hash) by {
        if holds(more, h) {
            let i = choose|i: int| 0 <= i < more.len() && #[trigger] more[i].hash == h;
            if i < entries.len() {
                assert(entries[i].hash == h);
            }
        }
        if holds(entries, h) {
            let i = choose|i: int| 0 <= i < entries.len() && #[trigger] entries[i].hash == h;
            assert(more[i].hash == h);
        }
        if h == entry.hash {
            assert(more[entries.len() as int].hash == h);
        }
    }
    assert forall|h: C::Hash| holds(more, h) implies #[trigger] votes_of(more)[h] == votes_of(
        entries,
    ).insert(entry.hash, entry.vote@)[h] by {
        let k = place(more, h);
        if h == entry.hash {
            if k < entries.len() {
                assert(entries[k].hash == h);
            }
        } else {
            let i = place(entries, h);
            assert(more[i].hash == h);
            if k < entries.len() {
                assert(entries[k].hash == h);
            }
        }
    }
    assert(votes_of(more) =~= votes_of(entries).insert(entry.hash, entry.vote@));
}

} // verus!
