//! The schedule of a validator that takes part in consensus by casting votes.
//!
//! Time is cut into rounds, and each round has one leader. When a round begins, its leader
//! casts a _proposal_, a vote that carries a consensus value. Every other validator that
//! receives the proposal within the round answers with a _confirmation_. Two thirds into the
//! round every validator casts a _witness_ vote that cites whatever it has seen by then.
//!
//! An [`ActiveValidator`] decides when to cast which vote. It reads the protocol state and
//! never changes it; what it wants done it hands back as a list of [`Effect`]s.

use vstd::prelude::*;
use vstd::arithmetic::power2::{lemma2_to64, lemma_pow2_adds, lemma_pow2_strictly_increases, pow2};
use vstd::bits::lemma_u64_shl_is_mul;
use crate::state::{StateModel, StateView};
use crate::state_laws::lemma_cutoff_fits;
use crate::time::{lemma_round_bounds, round_id, round_offset, TimeDiff, Timestamp};
use crate::traits::Context;
use crate::validators::ValidatorIndex;
use crate::vertex::{SignedWireVote, WireVote, WireVoteView};
use crate::vote::{panorama_is_empty, Observation, Panorama};

verus! {

/// What a value provider needs to know to build a block.
#[derive(Clone, Copy, Debug, PartialEq, Eq, Structural)]
pub struct BlockContext {
    timestamp: Timestamp,
}

impl BlockContext {
    /// The context of a block proposed at `timestamp`.
    pub fn new(timestamp: Timestamp) -> (r: BlockContext)
        ensures
            r.timestamp_spec() == timestamp,
    {
        BlockContext { timestamp }
    }

    /// The instant at which the block is proposed.
    pub fn timestamp(&self) -> (r: Timestamp)
        ensures
            r == self.timestamp_spec(),
    {
        self.timestamp
    }

    /// The instant that `timestamp` returns.
    pub closed spec fn timestamp_spec(&self) -> Timestamp {
        self.timestamp
    }
}

/// Something a validator wants done.
#[derive(Debug, PartialEq, Eq)]
pub enum Effect<C: Context> {
    /// A vote that the validator has just cast: to be sent to the other validators and
    /// added to the protocol state.
    NewVertex(SignedWireVote<C>),
    /// `handle_timer` is to be called at the given instant.
    ScheduleTimer(Timestamp),
    /// `propose` is to be called with a value for a block with the given context.
    RequestNewBlock(BlockContext),
}

impl<C: Context> Clone for Effect<C> {
    fn clone(&self) -> (r: Self)
        ensures
            match (*self, r) {
                (Effect::NewVertex(vote), Effect::NewVertex(copy)) => copy.is_copy_of(&vote),
                (Effect::NewVertex(_), _) => false,
                _ => r == *self,
            },
    {
        match self {
            Effect::NewVertex(vote) => Effect::NewVertex(vote.clone()),
            Effect::ScheduleTimer(t) => Effect::ScheduleTimer(*t),
            Effect::RequestNewBlock(ctx) => Effect::RequestNewBlock(*ctx),
        }
    }
}

/// What an effect says, the signature on a vote left aside.
pub ghost enum EffectContent<C: Context> {
    /// A vote with the given content is cast.
    Vote(WireVoteView<C>),
    /// A timer is set for the given instant.
    Timer(Timestamp),
    /// A value is asked for, for a block proposed at the given instant.
    Block(Timestamp),
}

impl<C: Context> Effect<C> {
    /// What this effect says.
    pub open spec fn content(self) -> EffectContent<C> {
        match self {
            Effect::NewVertex(vote) => EffectContent::Vote(vote.wire_vote@),
            Effect::ScheduleTimer(t) => EffectContent::Timer(t),
            Effect::RequestNewBlock(ctx) => EffectContent::Block(ctx.timestamp_spec()),
        }
    }
}

/// What a list of effects says, one by one.
pub open spec fn contents<C: Context>(effects: Seq<Effect<C>>) -> Seq<EffectContent<C>> {
    Seq::new(effects.len(), |i: int| effects[i].content())
}

/// Whether each vote among `effects` carries a signature that the context's signer gave
/// for that vote under `secret`.
pub open spec fn signed_with<C: Context>(
    secret: C::ValidatorSecret,
    effects: Seq<Effect<C>>,
) -> bool {
    forall|i: int|
        0 <= i < effects.len() ==> match #[trigger] effects[i] {
            Effect::NewVertex(vote) => call_ensures(
                C::sign,
                (&secret, &vote.wire_vote),
                vote.signature,
            ),
            _ => true,
        }
}

/// The length of a round with exponent `round_exp`: two to that power.
pub open spec fn round_len_of(round_exp: u8) -> int {
    pow2(round_exp as nat) as int
}

/// How far into a round of exponent `round_exp` the witness votes are cast: two thirds of
/// its length, rounded down.
pub open spec fn witness_offset_of(round_exp: u8) -> int {
    round_len_of(round_exp) * 2 / 3
}

/// The next instant after `t` at which validator `vidx` has something to do: the witness
/// tick of the round of `t` if that still lies ahead; else the start of the next round if
/// `vidx` leads it; else the witness tick of the next round.
pub open spec fn next_landmark<C: Context>(
    vidx: ValidatorIndex,
    round_exp: u8,
    t: Timestamp,
    state: StateModel<C>,
) -> int {
    let len = round_len_of(round_exp);
    let witness = witness_offset_of(round_exp);
    let id = round_id(t.0 as int, len);
    if round_offset(t.0 as int, len) < witness {
        id + witness
    } else if (state.leaders)(Timestamp((id + len) as u64)) == vidx {
        id + len
    } else {
        id + len + witness
    }
}

/// The sequence number of a vote whose creator's own slot holds `own`: one more than that
/// of the vote cited there, and zero if none is cited.
pub open spec fn next_seq_number<C: Context>(state: StateModel<C>, own: Observation<C>) -> int {
    match own {
        Observation::Correct(h) => state.votes[h].seq_number + 1,
        _ => 0,
    }
}

/// A panorama in which every validator that `state` knows to be faulty is marked so.
pub open spec fn mark_faulty<C: Context>(
    state: StateModel<C>,
    pan: Seq<Observation<C>>,
) -> Seq<Observation<C>> {
    Seq::new(
        pan.len(),
        |i: int|
            if state.faulty.contains(ValidatorIndex(i as u32)) {
                Observation::Faulty
            } else {
                pan[i]
            },
    )
}

/// Round exponents below this one make rounds too short to hold both landmarks.
pub const MIN_ROUND_EXP: u8 = 2;

/// Round exponents above this one make round lengths that cannot be doubled in 64 bits.
pub const MAX_ROUND_EXP: u8 = 62;

/// A validator that takes part in consensus by casting votes of its own.
pub struct ActiveValidator<C: Context> {
    /// Our own place in the validator set.
    vidx: ValidatorIndex,
    /// The key we sign our votes with.
    secret: C::ValidatorSecret,
    /// Our rounds are `1 << round_exp` milliseconds long.
    round_exp: u8,
    /// The latest timer we asked for.
    next_timer: Timestamp,
}

impl<C: Context> ActiveValidator<C> {
    /// Our own place in the validator set.
    pub closed spec fn spec_vidx(&self) -> ValidatorIndex {
        self.vidx
    }

    /// Our own place in the validator set.
    #[verifier::when_used_as_spec(spec_vidx)]
    pub fn vidx(&self) -> (r: ValidatorIndex)
        ensures
            r == self.vidx(),
    {
        self.vidx
    }

    /// The key we sign our votes with.
    pub closed spec fn secret(&self) -> C::ValidatorSecret {
        self.secret
    }

    /// The exponent of our round length.
    pub closed spec fn spec_round_exp(&self) -> u8 {
        self.round_exp
    }

    /// The exponent of our round length.
    #[verifier::when_used_as_spec(spec_round_exp)]
    pub fn round_exp(&self) -> (r: u8)
        ensures
            r == self.round_exp(),
    {
        self.round_exp
    }

    /// The latest timer we asked for.
    pub closed spec fn spec_next_timer(&self) -> Timestamp {
        self.next_timer
    }

    /// The latest timer we asked for.
    #[verifier::when_used_as_spec(spec_next_timer)]
    pub fn next_timer(&self) -> (r: Timestamp)
        ensures
            r == self.next_timer(),
    {
        self.next_timer
    }

    /// The invariant: the round exponent is one that rounds can be computed with.
    pub open spec fn wf(&self) -> bool {
        MIN_ROUND_EXP <= self.round_exp() <= MAX_ROUND_EXP
    }

    /// Whether `other` is the same validator with the same key and round length.
    pub open spec fn same_validator(&self, other: &Self) -> bool {
        &&& self.vidx() == other.vidx()
        &&& self.secret() == other.secret()
        &&& self.round_exp() == other.round_exp()
    }

    /// Whether this validator belongs to the validator set of `state` and is not known
    /// there to be faulty.
    pub open spec fn in_good_standing(&self, state: StateModel<C>) -> bool {
        &&& self.vidx().0 < state.num_validators()
        &&& !state.faulty.contains(self.vidx())
    }

    /// The length of a round, in milliseconds.
    pub open spec fn round_len_spec(&self) -> int {
        round_len_of(self.round_exp())
    }

    /// The offset of the witness tick within a round.
    pub open spec fn witness_offset_spec(&self) -> int {
        witness_offset_of(self.round_exp())
    }

    /// The instant from which on we can vote without equivocating: that of our latest
    /// vote in `state`, and the epoch if there is none.
    pub open spec fn earliest_vote_time_spec(&self, state: StateModel<C>) -> Timestamp {
        match state.panorama[self.vidx().0 as int] {
            Observation::Correct(h) => state.votes[h].timestamp,
            _ => Timestamp(0),
        }
    }

    /// Whether a timer has to be set at `t`: not while a later one is pending.
    pub open spec fn timer_is_due(&self, t: Timestamp) -> bool {
        self.next_timer().0 <= t.0
    }

    /// The instant that the timer is set for once `schedule_timer` has run at `t`.
    pub open spec fn timer_after(&self, t: Timestamp, state: StateModel<C>) -> int {
        if self.timer_is_due(t) {
            next_landmark(self.vidx(), self.round_exp(), t, state)
        } else {
            self.next_timer().0 as int
        }
    }

    /// What `schedule_timer` asks for at `t`.
    pub open spec fn schedule_effects(&self, t: Timestamp, state: StateModel<C>) -> Seq<
        EffectContent<C>,
    > {
        if self.timer_is_due(t) {
            seq![
                EffectContent::Timer(
                    Timestamp(next_landmark(self.vidx(), self.round_exp(), t, state) as u64),
                ),
            ]
        } else {
            Seq::empty()
        }
    }

    /// The content of the vote that we cast at `t` with panorama `pan` and value `value`.
    pub open spec fn vote_content(
        &self,
        pan: Seq<Observation<C>>,
        t: Timestamp,
        value: Option<C::ConsensusValue>,
        state: StateModel<C>,
    ) -> WireVoteView<C> {
        WireVoteView {
            panorama: pan,
            creator: self.vidx(),
            value,
            seq_number: next_seq_number(state, pan[self.vidx().0 as int]) as u64,
            timestamp: t,
        }
    }

    /// Whether `t` is the first instant of a round that we lead.
    pub open spec fn is_proposal_tick(&self, t: Timestamp, state: StateModel<C>) -> bool {
        &&& round_offset(t.0 as int, self.round_len_spec()) == 0
        &&& (state.leaders)(Timestamp(round_id(t.0 as int, self.round_len_spec()) as u64))
            == self.vidx()
    }

    /// Whether `t` is the witness tick of its round.
    pub open spec fn is_witness_tick(&self, t: Timestamp) -> bool {
        round_offset(t.0 as int, self.round_len_spec()) == self.witness_offset_spec()
    }

    /// What the timer at `t` makes us do, besides setting the next timer: nothing if we
    /// have already voted later than `t`; at the start of a round that we lead, ask for a
    /// value to propose; at the witness tick, cast a witness vote, unless we have seen
    /// nothing to cite.
    pub open spec fn timer_work(&self, t: Timestamp, state: StateModel<C>) -> Seq<
        EffectContent<C>,
    > {
        let pan = state.cutoff(state.panorama, t);
        if self.earliest_vote_time_spec(state).0 > t.0 {
            Seq::empty()
        } else if self.is_proposal_tick(t, state) {
            seq![EffectContent::Block(t)]
        } else if self.is_witness_tick(t) && !panorama_is_empty(pan) {
            seq![EffectContent::Vote(self.vote_content(pan, t, None, state))]
        } else {
            Seq::empty()
        }
    }

    /// What `handle_timer` hands back at `t`.
    pub open spec fn timer_effects(&self, t: Timestamp, state: StateModel<C>) -> Seq<
        EffectContent<C>,
    > {
        self.schedule_effects(t, state) + self.timer_work(t, state)
    }

    /// Whether the vote `vhash` is one that we have to confirm at `t`: it is not from the
    /// future, it was cast in the round of `t` by that round's leader, who is neither
    /// ourselves nor known to be faulty, and our latest vote does not see it yet. The
    /// leader's proposal is such a vote; that the vote carries a value is not asked.
    pub open spec fn should_confirm(
        &self,
        vhash: C::Hash,
        t: Timestamp,
        state: StateModel<C>,
    ) -> bool {
        let vote = state.votes[vhash];
        let len = self.round_len_spec();
        &&& vote.timestamp.0 <= t.0
        &&& t.0 as int / len == vote.timestamp.0 as int / len
        &&& (state.leaders)(vote.timestamp) == vote.creator
        &&& vote.creator != self.vidx()
        &&& !state.faulty.contains(vote.creator)
        &&& match state.panorama[self.vidx().0 as int] {
            Observation::Correct(own) => !(state.sees)(state.votes[own].panorama, vhash),
            _ => true,
        }
    }

    /// The panorama of our confirmation of the proposal `vhash`: the proposal's own
    /// panorama, merged with that of our latest vote if we have one, which then also takes
    /// our own slot; then the proposal in its creator's slot; then every faulty validator
    /// marked as such.
    pub open spec fn confirmation_panorama_spec(
        &self,
        vhash: C::Hash,
        state: StateModel<C>,
    ) -> Seq<Observation<C>> {
        let vote = state.votes[vhash];
        let base = match state.panorama[self.vidx().0 as int] {
            Observation::Correct(prev) => state.merge(
                vote.panorama,
                state.votes[prev].panorama,
            ).update(self.vidx().0 as int, Observation::Correct(prev)),
            _ => vote.panorama,
        };
        mark_faulty(state, base.update(vote.creator.0 as int, Observation::Correct(vhash)))
    }

    /// What `on_new_vote` hands back for the vote `vhash` at `t`: a confirmation if one is
    /// due and we have not already voted later than `t`.
    pub open spec fn vote_effects(
        &self,
        vhash: C::Hash,
        t: Timestamp,
        state: StateModel<C>,
    ) -> Seq<EffectContent<C>> {
        let pan = self.confirmation_panorama_spec(vhash, state);
        if self.earliest_vote_time_spec(state).0 <= t.0 && self.should_confirm(vhash, t, state)
            && !panorama_is_empty(pan) {
            seq![EffectContent::Vote(self.vote_content(pan, t, None, state))]
        } else {
            Seq::empty()
        }
    }

    /// What `propose` hands back for `value` at `t`: the proposal, unless we have already
    /// voted later than `t`.
    pub open spec fn proposal_effects(
        &self,
        value: C::ConsensusValue,
        t: Timestamp,
        state: StateModel<C>,
    ) -> Seq<EffectContent<C>> {
        if self.earliest_vote_time_spec(state).0 > t.0 {
            Seq::empty()
        } else {
            seq![
                EffectContent::Vote(
                    self.vote_content(state.cutoff(state.panorama, t), t, Some(value), state),
                ),
            ]
        }
    }

    /// Creates the validator `vidx` at the instant `timestamp` and sets its first timer.
    pub fn new<S: StateView<C>>(
        vidx: ValidatorIndex,
        secret: C::ValidatorSecret,
        round_exp: u8,
        timestamp: Timestamp,
        state: &S,
    ) -> (r: (Self, Vec<Effect<C>>))
        requires
            MIN_ROUND_EXP <= round_exp <= MAX_ROUND_EXP,
            state.model().valid(),
            next_landmark(vidx, round_exp, timestamp, state.model()) <= u64::MAX,
        ensures
            r.0.wf(),
            r.0.vidx() == vidx,
            r.0.secret() == secret,
            r.0.round_exp() == round_exp,
            r.0.next_timer().0 == next_landmark(vidx, round_exp, timestamp, state.model()),
            r.1@ == seq![Effect::<C>::ScheduleTimer(r.0.next_timer())],
    {
        let mut av = ActiveValidator { vidx, secret, round_exp, next_timer: Timestamp::zero() };
        let effects = av.schedule_timer(timestamp, state);
        (av, effects)
    }

    /// What we have to do at the instant `timestamp`, to which a timer was set.
    pub fn handle_timer<S: StateView<C>>(&mut self, timestamp: Timestamp, state: &S) -> (r: Vec<
        Effect<C>,
    >)
        requires
            old(self).wf(),
            state.model().valid(),
            old(self).in_good_standing(state.model()),
            old(self).timer_after(timestamp, state.model()) <= u64::MAX,
        ensures
            final(self).wf(),
            final(self).same_validator(old(self)),
            final(self).next_timer().0 == old(self).timer_after(timestamp, state.model()),
            final(self).next_timer().0 >= old(self).next_timer().0,
            contents(r@) == old(self).timer_effects(timestamp, state.model()),
            signed_with(old(self).secret(), r@),
    {
        let mut effects = self.schedule_timer(timestamp, state);
        if self.earliest_vote_time(state).millis() > timestamp.millis() {
            assert(contents(effects@) == old(self).timer_effects(timestamp, state.model()));
            return effects;
        }
        let round_offset = timestamp.round_offset(self.round_len());
        let round_id = timestamp.round_id(self.round_len());
        if round_offset.millis() == 0 && state.leader(round_id) == self.vidx {
            let bctx = BlockContext::new(timestamp);
            effects.push(Effect::RequestNewBlock(bctx));
            assert(contents(effects@) == old(self).timer_effects(timestamp, state.model()));
        } else if round_offset.millis() == self.witness_offset().millis() {
            let panorama = state.panorama_cutoff(state.panorama(), timestamp);
            proof {
                lemma_cutoff_fits(state.model(), state.model().panorama, timestamp);
            }
            if !panorama.is_empty() {
                let witness_vote = self.new_vote(panorama, timestamp, None, state);
                effects.push(Effect::NewVertex(witness_vote));
            }
            assert(contents(effects@) == old(self).timer_effects(timestamp, state.model()));
        } else {
            assert(contents(effects@) == old(self).timer_effects(timestamp, state.model()));
        }
        effects
    }

    /// What we have to do at the instant `timestamp`, at which the vote `vhash` came in.
    pub fn on_new_vote<S: StateView<C>>(
        &self,
        vhash: &C::Hash,
        timestamp: Timestamp,
        state: &S,
    ) -> (r: Vec<Effect<C>>)
        requires
            self.wf(),
            state.model().valid(),
            self.in_good_standing(state.model()),
            state.model().has_vote(*vhash),
        ensures
            contents(r@) == self.vote_effects(*vhash, timestamp, state.model()),
            signed_with(self.secret(), r@),
    {
        let mut effects: Vec<Effect<C>> = Vec::new();
        if self.earliest_vote_time(state).millis() <= timestamp.millis()
            && self.should_send_confirmation(vhash, timestamp, state) {
            let panorama = self.confirmation_panorama(vhash, state);
            if !panorama.is_empty() {
                let confirmation_vote = self.new_vote(panorama, timestamp, None, state);
                effects.push(Effect::NewVertex(confirmation_vote));
            }
        }
        assert(contents(effects@) == self.vote_effects(*vhash, timestamp, state.model()));
        effects
    }

    /// Proposes a block with the consensus value `value`, which we asked for with
    /// `block_context`.
    pub fn propose<S: StateView<C>>(
        &self,
        value: C::ConsensusValue,
        block_context: BlockContext,
        state: &S,
    ) -> (r: Vec<Effect<C>>)
        requires
            self.wf(),
            state.model().valid(),
            self.in_good_standing(state.model()),
        ensures
            contents(r@) == self.proposal_effects(value, block_context.timestamp_spec(), state.model()),
            signed_with(self.secret(), r@),
    {
        let timestamp = block_context.timestamp();
        let mut effects: Vec<Effect<C>> = Vec::new();
        if self.earliest_vote_time(state).millis() > timestamp.millis() {
            assert(contents(effects@) == self.proposal_effects(value, timestamp, state.model()));
            return effects;
        }
        let panorama = state.panorama_cutoff(state.panorama(), timestamp);
        proof {
            lemma_cutoff_fits(state.model(), state.model().panorama, timestamp);
        }
        let proposal_vote = self.new_vote(panorama, timestamp, Some(value), state);
        effects.push(Effect::NewVertex(proposal_vote));
        assert(contents(effects@) == self.proposal_effects(value, timestamp, state.model()));
        effects
    }

    /// Whether the vote `vhash` is a vote of the leader that we have to confirm at
    /// `timestamp`.
    pub fn should_send_confirmation<S: StateView<C>>(
        &self,
        vhash: &C::Hash,
        timestamp: Timestamp,
        state: &S,
    ) -> (r: bool)
        requires
            self.wf(),
            state.model().valid(),
            self.vidx().0 < state.model().num_validators(),
            state.model().has_vote(*vhash),
        ensures
            r == self.should_confirm(*vhash, timestamp, state.model()),
    {
        let vote = state.vote(vhash);
        if vote.timestamp.millis() > timestamp.millis() {
            return false;
        }
        if timestamp.round_number(self.round_len()) != vote.timestamp.round_number(
            self.round_len(),
        ) {
            return false;
        }
        if state.leader(vote.timestamp) != vote.creator {
            return false;
        }
        if vote.creator == self.vidx {
            return false;
        }
        if state.has_evidence(vote.creator) {
            return false;
        }
        match state.panorama().get(self.vidx).correct() {
            Some(own_vh) => {
                assert(state.model().vote_is_sound(own_vh));
                !state.sees_correct(&state.vote(&own_vh).panorama, vhash)
            },
            None => true,
        }
    }

    /// The panorama of our confirmation of the proposal `vhash`.
    pub fn confirmation_panorama<S: StateView<C>>(&self, vhash: &C::Hash, state: &S) -> (r:
        Panorama<C>)
        requires
            state.model().valid(),
            self.vidx().0 < state.model().num_validators(),
            state.model().has_vote(*vhash),
        ensures
            r@ == self.confirmation_panorama_spec(*vhash, state.model()),
    {
        let vote = state.vote(vhash);
        assert(state.model().vote_is_sound(*vhash));
        let mut panorama: Panorama<C>;
        match state.panorama().get(self.vidx).correct() {
            Some(prev_hash) => {
                assert(state.model().vote_is_sound(prev_hash));
                let own_vote = state.vote(&prev_hash);
                panorama = state.merge_panoramas(&vote.panorama, &own_vote.panorama);
                panorama.update(self.vidx, Observation::Correct(prev_hash));
            },
            None => {
                panorama = vote.panorama.clone();
            },
        }
        panorama.update(vote.creator, Observation::Correct(*vhash));
        let ghost base = panorama@;
        let faulty = state.faulty_validators();
        let mut k: usize = 0;
        while k < faulty.len()
            invariant
                k <= faulty@.len(),
                state.model().valid(),
                base.len() == state.model().num_validators(),
                forall|v: ValidatorIndex| faulty@.contains(v) <==> state.model().faulty.contains(v),
                panorama@.len() == base.len(),
                forall|i: int|
                    0 <= i < base.len() ==> #[trigger] panorama@[i] == (if exists|j: int|
                        0 <= j < k && faulty@[j].0 == i {
                        Observation::<C>::Faulty
                    } else {
                        base[i]
                    }),
            decreases faulty@.len() - k,
        {
            let faulty_v = faulty[k];
            assert(faulty@.contains(faulty_v));
            panorama.update(faulty_v, Observation::Faulty);
            k += 1;
        }
        proof {
            let marked = mark_faulty(state.model(), base);
            assert forall|i: int| 0 <= i < base.len() implies panorama@[i] == marked[i] by {
                let v = ValidatorIndex(i as u32);
                if state.model().faulty.contains(v) {
                    assert(faulty@.contains(v));
                    let j = choose|j: int| 0 <= j < faulty@.len() && faulty@[j] == v;
                    assert(faulty@[j].0 == i);
                } else {
                    if exists|j: int| 0 <= j < k && faulty@[j].0 == i {
                        let j = choose|j: int| 0 <= j < k && faulty@[j].0 == i;
                        assert(faulty@.contains(faulty@[j]));
                        assert(faulty@[j] == v);
                    }
                }
            }
            assert(panorama@ =~= marked);
        }
        panorama
    }

    /// Casts a vote with the given panorama and value at `timestamp`, and signs it.
    ///
    /// The panorama is taken as it comes: the callers see to it that it cites our latest
    /// vote and marks the faulty validators.
    pub fn new_vote<S: StateView<C>>(
        &self,
        panorama: Panorama<C>,
        timestamp: Timestamp,
        value: Option<C::ConsensusValue>,
        state: &S,
    ) -> (r: SignedWireVote<C>)
        requires
            state.model().valid(),
            self.vidx().0 < panorama@.len(),
            match panorama@[self.vidx().0 as int] {
                Observation::Correct(h) => state.model().has_vote(h),
                Observation::Nothing => true,
                Observation::Faulty => false,
            },
        ensures
            r.wire_vote@ == self.vote_content(panorama@, timestamp, value, state.model()),
            call_ensures(C::sign, (&self.secret(), &r.wire_vote), r.signature),
    {
        let seq_number: u64 = match panorama.get(self.vidx).correct() {
            Some(vh) => {
                assert(state.model().vote_is_sound(vh));
                state.vote(&vh).seq_number + 1
            },
            None => 0,
        };
        let wvote = WireVote { panorama, creator: self.vidx, value, seq_number, timestamp };
        SignedWireVote::new(wvote, &self.secret)
    }

    /// Sets the timer for the next instant after `timestamp` at which we have something to
    /// do, unless a timer for a later instant than `timestamp` is pending.
    pub fn schedule_timer<S: StateView<C>>(&mut self, timestamp: Timestamp, state: &S) -> (r:
        Vec<Effect<C>>)
        requires
            old(self).wf(),
            state.model().valid(),
            old(self).timer_after(timestamp, state.model()) <= u64::MAX,
        ensures
            final(self).wf(),
            final(self).same_validator(old(self)),
            final(self).next_timer().0 == old(self).timer_after(timestamp, state.model()),
            final(self).next_timer().0 >= old(self).next_timer().0,
            r@ == (if old(self).timer_is_due(timestamp) {
                seq![Effect::<C>::ScheduleTimer(final(self).next_timer())]
            } else {
                Seq::<Effect<C>>::empty()
            }),
            contents(r@) == old(self).schedule_effects(timestamp, state.model()),
    {
        let mut effects: Vec<Effect<C>> = Vec::new();
        if self.next_timer.millis() > timestamp.millis() {
            assert(contents(effects@) =~= old(self).schedule_effects(timestamp, state.model()));
            return effects;
        }
        let round_len = self.round_len();
        let witness_offset = self.witness_offset();
        let round_offset = timestamp.round_offset(round_len);
        let round_id = timestamp.round_id(round_len);
        proof {
            lemma_round_bounds(timestamp.0 as int, round_len.0 as int);
        }
        self.next_timer = if round_offset.millis() < witness_offset.millis() {
            round_id.later_by(witness_offset)
        } else if state.leader(round_id.later_by(round_len)) == self.vidx {
            round_id.later_by(round_len)
        } else {
            round_id.later_by(round_len).later_by(witness_offset)
        };
        effects.push(Effect::ScheduleTimer(self.next_timer));
        assert(effects@ =~= seq![Effect::<C>::ScheduleTimer(self.next_timer)]);
        assert(contents(effects@) =~= old(self).schedule_effects(timestamp, state.model()));
        effects
    }

    /// The instant from which on we can vote without equivocating: that of our latest
    /// vote, and the epoch if we have not voted yet.
    pub fn earliest_vote_time<S: StateView<C>>(&self, state: &S) -> (r: Timestamp)
        requires
            state.model().valid(),
            self.vidx().0 < state.model().num_validators(),
        ensures
            r == self.earliest_vote_time_spec(state.model()),
    {
        match state.panorama().get(self.vidx).correct() {
            Some(own_vh) => state.vote(&own_vh).timestamp,
            None => Timestamp::zero(),
        }
    }

    /// How far into a round the witness votes are cast.
    pub fn witness_offset(&self) -> (r: TimeDiff)
        requires
            self.wf(),
        ensures
            r.0 == self.witness_offset_spec(),
            0 < r.0 < self.round_len_spec(),
    {
        let len: u64 = self.round_len().millis();
        TimeDiff(len * 2 / 3)
    }

    /// The length of a round, in milliseconds.
    pub fn round_len(&self) -> (r: TimeDiff)
        requires
            self.wf(),
        ensures
            r.0 == self.round_len_spec(),
            4 <= r.0,
            r.0 * 2 <= u64::MAX,
    {
        proof {
            lemma_round_len_bounds(self.round_exp);
            lemma_u64_shl_is_mul(1u64, self.round_exp as u64);
        }
        TimeDiff(1u64 << self.round_exp)
    }
}

/// A round is at least four milliseconds long, and twice its length fits in 64 bits.
pub proof fn lemma_round_len_bounds(round_exp: u8)
    requires
        MIN_ROUND_EXP <= round_exp <= MAX_ROUND_EXP,
    ensures
        4 <= round_len_of(round_exp),
        round_len_of(round_exp) * 2 <= u64::MAX,
        0 < witness_offset_of(round_exp) < round_len_of(round_exp),
{
    lemma2_to64();
    if round_exp > 2 {
        lemma_pow2_strictly_increases(2, round_exp as nat);
    }
    lemma_pow2_adds(round_exp as nat, 1);
    lemma_pow2_strictly_increases((round_exp + 1) as nat, 64);
}

} // verus!
