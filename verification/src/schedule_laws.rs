//! What holds of everything an [`ActiveValidator`] hands back.
//!
//! The laws speak of the three events that a validator reacts to, and of its reaction as
//! the entry points' contracts state it.

use vstd::prelude::*;
use crate::active_validator::{
    lemma_round_len_bounds, next_landmark, next_seq_number, round_len_of, witness_offset_of,
    ActiveValidator, EffectContent, MAX_ROUND_EXP, MIN_ROUND_EXP,
};
use crate::state::StateModel;
use crate::state_laws::{lemma_cutoff_fits, lemma_cutoff_keeps_early_votes, lemma_merge_fits};
use crate::time::{lemma_round_bounds, round_id, round_offset, Timestamp};
use crate::traits::Context;
use crate::validators::ValidatorIndex;
use crate::vertex::WireVoteView;
use crate::vote::{panorama_is_empty, Observation};

verus! {

/// Something that an active validator reacts to.
pub ghost enum Event<C: Context> {
    /// The timer went off at the given instant: `handle_timer`.
    Timer(Timestamp),
    /// The vote with the given hash came in at the given instant: `on_new_vote`.
    Vote(C::Hash, Timestamp),
    /// The value asked for at the given instant came in: `propose`.
    Value(C::ConsensusValue, Timestamp),
}

impl<C: Context> Event<C> {
    /// The instant of the event.
    pub open spec fn time(self) -> Timestamp {
        match self {
            Event::Timer(t) => t,
            Event::Vote(_, t) => t,
            Event::Value(_, t) => t,
        }
    }

    /// Whether the event can occur in `state`: a vote that comes in is held by the state.
    pub open spec fn fits(self, state: StateModel<C>) -> bool {
        match self {
            Event::Vote(vhash, _) => state.has_vote(vhash),
            _ => true,
        }
    }
}

/// What the validator `av` hands back when `event` occurs in `state`.
pub open spec fn reaction<C: Context>(
    av: &ActiveValidator<C>,
    event: Event<C>,
    state: StateModel<C>,
) -> Seq<EffectContent<C>> {
    match event {
        Event::Timer(t) => av.timer_effects(t, state),
        Event::Vote(vhash, t) => av.vote_effects(vhash, t, state),
        Event::Value(value, t) => av.proposal_effects(value, t, state),
    }
}

/// Whether `vote` is among `effects`.
pub open spec fn casts<C: Context>(effects: Seq<EffectContent<C>>, vote: WireVoteView<C>) -> bool {
    exists|i: int| 0 <= i < effects.len() && effects[i] == EffectContent::Vote(vote)
}

/// Whether a request for a value is among `effects`.
pub open spec fn asks_for_value<C: Context>(effects: Seq<EffectContent<C>>) -> bool {
    exists|i: int| 0 <= i < effects.len() && effects[i] is Block
}

/// No equivocation: a vote is cast at the instant of the event, and never at an instant
/// before that of the validator's latest vote in the state.
pub proof fn lemma_no_vote_before_latest<C: Context>(
    av: &ActiveValidator<C>,
    event: Event<C>,
    state: StateModel<C>,
    vote: WireVoteView<C>,
)
    requires
        casts(reaction(av, event, state), vote),
    ensures
        vote.timestamp == event.time(),
        vote.timestamp.0 >= av.earliest_vote_time_spec(state).0,
{
}

/// At most one vote is cast in reaction to an event, and it is the last of the effects.
pub proof fn lemma_one_vote_at_most<C: Context>(
    av: &ActiveValidator<C>,
    event: Event<C>,
    state: StateModel<C>,
    v: WireVoteView<C>,
    w: WireVoteView<C>,
)
    requires
        casts(reaction(av, event, state), v),
        casts(reaction(av, event, state), w),
    ensures
        v == w,
        reaction(av, event, state).last() == EffectContent::Vote(v),
{
}

/// Continuity: a vote that is cast names the validator as its creator and cites in the
/// creator's own slot what the state holds there, the validator's latest vote or nothing;
/// its sequence number is one more than that of the latest vote, and zero if there is none.
pub proof fn lemma_vote_continues_own_sequence<C: Context>(
    av: &ActiveValidator<C>,
    event: Event<C>,
    state: StateModel<C>,
    vote: WireVoteView<C>,
)
    requires
        av.wf(),
        state.valid(),
        av.in_good_standing(state),
        event.fits(state),
        casts(reaction(av, event, state), vote),
    ensures
        vote.creator == av.vidx(),
        vote.panorama.len() == state.num_validators(),
        vote.panorama[av.vidx().0 as int] == state.panorama[av.vidx().0 as int],
        !(vote.panorama[av.vidx().0 as int] is Faulty),
        vote.seq_number == next_seq_number(state, state.panorama[av.vidx().0 as int]),
        state.fits(vote.panorama),
{
    let me = av.vidx().0 as int;
    let own = state.panorama[me];
    assert(!(own is Faulty));
    if let Observation::Correct(prev) = own {
        assert(state.has_vote(prev));
        assert(state.vote_is_sound(prev));
    }
    match event {
        Event::Vote(vhash, t) => {
            lemma_confirmation_panorama(av, vhash, state);
            assert(vote.panorama == av.confirmation_panorama_spec(vhash, state));
        },
        _ => {
            let t = event.time();
            lemma_cutoff_fits(state, state.panorama, t);
            lemma_cutoff_keeps_early_votes(state, state.panorama, t, me);
            assert(vote.panorama == state.cutoff(state.panorama, t));
            assert(state.cutoff(state.panorama, t)[me] == own);
        },
    }
}

/// The faulty stay faulty: a vote that is cast marks every validator as faulty that the
/// state knows to be so.
pub proof fn lemma_vote_marks_the_faulty<C: Context>(
    av: &ActiveValidator<C>,
    event: Event<C>,
    state: StateModel<C>,
    vote: WireVoteView<C>,
    faulty: ValidatorIndex,
)
    requires
        av.wf(),
        state.valid(),
        av.in_good_standing(state),
        event.fits(state),
        casts(reaction(av, event, state), vote),
        state.faulty.contains(faulty),
    ensures
        faulty.0 < vote.panorama.len(),
        vote.panorama[faulty.0 as int] is Faulty,
{
    match event {
        Event::Vote(vhash, t) => {
            lemma_confirmation_panorama(av, vhash, state);
            assert(ValidatorIndex(faulty.0 as int as u32) == faulty);
        },
        _ => {
            lemma_cutoff_fits(state, state.panorama, event.time());
        },
    }
}

/// The panorama of a confirmation has one slot for each validator and fits the state. It
/// cites the proposal in its creator's slot unless the creator is faulty. Where the
/// proposal is not our own, our slot holds what the state holds there, our latest vote or
/// nothing, unless we are faulty.
pub proof fn lemma_confirmation_panorama<C: Context>(
    av: &ActiveValidator<C>,
    vhash: C::Hash,
    state: StateModel<C>,
)
    requires
        state.valid(),
        av.vidx().0 < state.num_validators(),
        state.has_vote(vhash),
    ensures
        state.fits(av.confirmation_panorama_spec(vhash, state)),
        forall|f: ValidatorIndex| #[trigger]
            state.faulty.contains(f) ==> av.confirmation_panorama_spec(vhash, state)[f.0 as int]
                is Faulty,
        !state.faulty.contains(state.votes[vhash].creator) ==> av.confirmation_panorama_spec(
            vhash,
            state,
        )[state.votes[vhash].creator.0 as int] == Observation::<C>::Correct(vhash),
        !state.faulty.contains(av.vidx()) && state.votes[vhash].creator != av.vidx()
            ==> av.confirmation_panorama_spec(vhash, state)[av.vidx().0 as int]
            == state.panorama[av.vidx().0 as int],
{
    let me = av.vidx().0 as int;
    let vote = state.votes[vhash];
    let leader = vote.creator.0 as int;
    let pan = av.confirmation_panorama_spec(vhash, state);
    assert(state.vote_is_sound(vhash));
    assert(ValidatorIndex(me as u32) == av.vidx());
    assert(ValidatorIndex(leader as u32) == vote.creator);
    assert forall|f: ValidatorIndex| #[trigger] state.faulty.contains(f) implies pan[f.0 as int]
        is Faulty by {
        assert(ValidatorIndex(f.0 as int as u32) == f);
    }
    match state.panorama[me] {
        Observation::Correct(prev) => {
            assert(state.has_vote(prev));
            assert(state.vote_is_sound(prev));
            let merged = state.merge(vote.panorama, state.votes[prev].panorama);
            lemma_merge_fits(state, vote.panorama, state.votes[prev].panorama);
            assert forall|i: int| 0 <= i < pan.len() implies match #[trigger] pan[i] {
                Observation::Correct(h) => state.has_vote(h) && state.votes[h].creator.0 == i,
                _ => true,
            } by {
                assert(merged[i] == state.merge_obs(
                    vote.panorama[i],
                    state.votes[prev].panorama[i],
                ));
            }
        },
        _ => {
            if !state.faulty.contains(av.vidx()) {
                assert(state.panorama[me] is Nothing);
                assert(vote.panorama[me] is Nothing);
            }
        },
    }
}

/// No second confirmation: once our latest vote sees a proposal, no vote is cast when
/// that proposal comes in again.
pub proof fn lemma_no_confirmation_of_what_we_see<C: Context>(
    av: &ActiveValidator<C>,
    vhash: C::Hash,
    t: Timestamp,
    state: StateModel<C>,
    latest: C::Hash,
)
    requires
        state.panorama[av.vidx().0 as int] == Observation::<C>::Correct(latest),
        (state.sees)(state.votes[latest].panorama, vhash),
    ensures
        reaction(av, Event::Vote(vhash, t), state) == Seq::<EffectContent<C>>::empty(),
{
}

/// No second confirmation: once our latest vote cites a proposal in its creator's slot,
/// as our confirmation of it does, no vote is cast when that proposal comes in again.
pub proof fn lemma_no_confirmation_after_confirmation<C: Context>(
    av: &ActiveValidator<C>,
    vhash: C::Hash,
    t: Timestamp,
    state: StateModel<C>,
    latest: C::Hash,
)
    requires
        state.valid(),
        av.vidx().0 < state.num_validators(),
        state.has_vote(vhash),
        state.panorama[av.vidx().0 as int] == Observation::<C>::Correct(latest),
        state.votes[latest].panorama[state.votes[vhash].creator.0 as int] == Observation::<
            C,
        >::Correct(vhash),
    ensures
        reaction(av, Event::Vote(vhash, t), state) == Seq::<EffectContent<C>>::empty(),
{
    assert(state.has_vote(latest));
    assert(state.vote_is_sound(latest));
    assert((state.sees)(state.votes[latest].panorama, vhash));
}

/// The timer never goes back: after `schedule_timer` or `handle_timer` at `t` it is set
/// for an instant no earlier than before, and for one later than `t`.
pub proof fn lemma_timer_never_goes_back<C: Context>(
    av: &ActiveValidator<C>,
    t: Timestamp,
    state: StateModel<C>,
)
    requires
        av.wf(),
    ensures
        av.timer_after(t, state) >= av.next_timer().0,
        av.timer_after(t, state) > t.0,
{
    lemma_next_landmark(av.vidx(), av.round_exp(), t, state);
}

/// The next landmark after `t` lies after `t`, at most two rounds later, and it is the
/// witness tick of its round or the first instant of a round that the validator leads.
pub proof fn lemma_next_landmark<C: Context>(
    vidx: ValidatorIndex,
    round_exp: u8,
    t: Timestamp,
    state: StateModel<C>,
)
    requires
        MIN_ROUND_EXP <= round_exp <= MAX_ROUND_EXP,
    ensures
        t.0 < next_landmark(vidx, round_exp, t, state) < t.0 + 2 * round_len_of(round_exp),
        ({
            let len = round_len_of(round_exp);
            let next = next_landmark(vidx, round_exp, t, state);
            ||| round_offset(next, len) == witness_offset_of(round_exp)
            ||| round_offset(next, len) == 0 && (state.leaders)(Timestamp(next as u64)) == vidx
        }),
{
    let len = round_len_of(round_exp);
    let witness = witness_offset_of(round_exp);
    let id = round_id(t.0 as int, len);
    lemma_round_len_bounds(round_exp);
    lemma_round_bounds(t.0 as int, len);
    lemma_offset_in_round(id, witness, len);
    lemma_offset_in_round(id + len, 0, len);
    lemma_offset_in_round(id + len, witness, len);
    assert((id + len) % len == 0) by (nonlinear_arith)
        requires
            id % len == 0,
            len > 0,
    ;
}

/// The timer is set for a landmark: an instant for which a timer is set is the witness
/// tick of its round or the first instant of a round that the validator leads.
pub proof fn lemma_timer_is_set_for_a_landmark<C: Context>(
    av: &ActiveValidator<C>,
    t: Timestamp,
    state: StateModel<C>,
)
    requires
        av.wf(),
        av.timer_is_due(t),
        av.timer_after(t, state) <= u64::MAX,
    ensures
        ({
            let next = Timestamp(av.timer_after(t, state) as u64);
            av.is_witness_tick(next) || av.is_proposal_tick(next, state)
        }),
{
    lemma_next_landmark(av.vidx(), av.round_exp(), t, state);
}

/// The timer skips nothing: between `t` and the next landmark after `t` there is no
/// witness tick and no first instant of a round that the validator leads.
pub proof fn lemma_no_landmark_is_skipped<C: Context>(
    av: &ActiveValidator<C>,
    t: Timestamp,
    between: Timestamp,
    state: StateModel<C>,
)
    requires
        av.wf(),
        t.0 < between.0 < next_landmark(av.vidx(), av.round_exp(), t, state),
    ensures
        !av.is_witness_tick(between),
        !av.is_proposal_tick(between, state),
{
    let len = round_len_of(av.round_exp());
    let id = round_id(t.0 as int, len);
    lemma_round_len_bounds(av.round_exp());
    lemma_round_bounds(t.0 as int, len);
    if between.0 < id + len {
        lemma_offset_in_round(id, between.0 - id, len);
    } else {
        lemma_offset_in_round(id + len, between.0 - id - len, len);
    }
}

/// An instant that lies `offset` into the round that begins at `start` has that offset.
pub proof fn lemma_offset_in_round(start: int, offset: int, len: int)
    requires
        0 <= start,
        0 <= offset < len,
        start % len == 0 || (start - len >= 0 && (start - len) % len == 0),
    ensures
        round_offset(start + offset, len) == offset,
        round_id(start + offset, len) == start,
{
    assert(start % len == 0) by (nonlinear_arith)
        requires
            len > 0,
            start % len == 0 || (start - len) % len == 0,
    ;
    assert((start + offset) % len == offset) by (nonlinear_arith)
        requires
            start % len == 0,
            0 <= offset < len,
    ;
}

/// A timer that goes off at the very instant it was set for is due: a new timer is
/// set, and it is the first of the effects.
pub proof fn lemma_timer_at_its_instant_is_due<C: Context>(
    av: &ActiveValidator<C>,
    state: StateModel<C>,
)
    requires
        av.wf(),
    ensures
        av.timer_is_due(av.next_timer()),
        reaction(av, Event::Timer(av.next_timer()), state).len() >= 1,
        reaction(av, Event::Timer(av.next_timer()), state)[0] == EffectContent::<C>::Timer(
            Timestamp(av.timer_after(av.next_timer(), state) as u64),
        ),
{
}

/// A value is asked for only by `handle_timer`, and only at the first instant of a round
/// that the validator leads.
pub proof fn lemma_value_asked_for_at_proposal_tick<C: Context>(
    av: &ActiveValidator<C>,
    event: Event<C>,
    state: StateModel<C>,
)
    requires
        asks_for_value(reaction(av, event, state)),
    ensures
        event is Timer,
        round_offset(event.time().0 as int, av.round_len_spec()) == 0,
        (state.leaders)(Timestamp(round_id(event.time().0 as int, av.round_len_spec()) as u64))
            == av.vidx(),
        reaction(av, event, state).last() == EffectContent::<C>::Block(event.time()),
{
}

/// `handle_timer` casts a vote only at the witness tick of a round, and the vote carries
/// no value.
pub proof fn lemma_witness_at_witness_tick<C: Context>(
    av: &ActiveValidator<C>,
    t: Timestamp,
    state: StateModel<C>,
    vote: WireVoteView<C>,
)
    requires
        casts(reaction(av, Event::Timer(t), state), vote),
    ensures
        round_offset(t.0 as int, av.round_len_spec()) == av.witness_offset_spec(),
        vote.value is None,
        vote.creator == av.vidx(),
        vote.panorama == state.cutoff(state.panorama, t),
{
}

/// `handle_timer` does one thing at most besides setting the timer: the first instant of
/// a round is no witness tick.
pub proof fn lemma_ticks_are_apart<C: Context>(av: &ActiveValidator<C>, t: Timestamp)
    requires
        av.wf(),
    ensures
        !(round_offset(t.0 as int, av.round_len_spec()) == 0 && av.is_witness_tick(t)),
{
    lemma_round_len_bounds(av.round_exp());
}

/// With nothing to cite, the witness tick passes without a vote: `handle_timer` sets the
/// timer and does nothing else.
pub proof fn lemma_no_witness_of_nothing<C: Context>(
    av: &ActiveValidator<C>,
    t: Timestamp,
    state: StateModel<C>,
)
    requires
        av.wf(),
        av.is_witness_tick(t),
        panorama_is_empty(state.cutoff(state.panorama, t)),
    ensures
        reaction(av, Event::Timer(t), state) == av.schedule_effects(t, state),
{
    lemma_round_len_bounds(av.round_exp());
    assert(av.timer_work(t, state) == Seq::<EffectContent<C>>::empty());
    assert(av.schedule_effects(t, state) + Seq::<EffectContent<C>>::empty()
        =~= av.schedule_effects(t, state));
}

/// Late events are passed over: if the validator's latest vote in the state was cast
/// after the instant of an event, the reaction to it holds no vote and asks for no
/// value, and a value that comes in is dropped.
pub proof fn lemma_late_event_is_passed_over<C: Context>(
    av: &ActiveValidator<C>,
    event: Event<C>,
    state: StateModel<C>,
)
    requires
        av.earliest_vote_time_spec(state).0 > event.time().0,
    ensures
        forall|vote: WireVoteView<C>| !casts(reaction(av, event, state), vote),
        !asks_for_value(reaction(av, event, state)),
        !(event is Timer) ==> reaction(av, event, state) == Seq::<EffectContent<C>>::empty(),
        event matches Event::Timer(t) ==> reaction(av, event, state) == av.schedule_effects(
            t,
            state,
        ),
{
    if let Event::Timer(t) = event {
        assert(av.timer_work(t, state) == Seq::<EffectContent<C>>::empty());
        assert(av.schedule_effects(t, state) + Seq::<EffectContent<C>>::empty()
            =~= av.schedule_effects(t, state));
    }
}

/// A proposal is confirmed only if it comes from the leader of the running round, who is
/// neither the validator itself nor known to be faulty, and only at an instant no earlier
/// than the proposal's own.
pub proof fn lemma_confirmation_only_of_leader<C: Context>(
    av: &ActiveValidator<C>,
    vhash: C::Hash,
    t: Timestamp,
    state: StateModel<C>,
    vote: WireVoteView<C>,
)
    requires
        casts(reaction(av, Event::Vote(vhash, t), state), vote),
    ensures
        state.votes[vhash].timestamp.0 <= t.0,
        t.0 as int / av.round_len_spec() == state.votes[vhash].timestamp.0 as int
            / av.round_len_spec(),
        (state.leaders)(state.votes[vhash].timestamp) == state.votes[vhash].creator,
        state.votes[vhash].creator != av.vidx(),
        !state.faulty.contains(state.votes[vhash].creator),
        vote.value is None,
        vote.panorama == av.confirmation_panorama_spec(vhash, state),
{
}

/// The proposal of a faulty leader is not confirmed.
pub proof fn lemma_faulty_leader_is_not_confirmed<C: Context>(
    av: &ActiveValidator<C>,
    vhash: C::Hash,
    t: Timestamp,
    state: StateModel<C>,
)
    requires
        state.faulty.contains(state.votes[vhash].creator),
    ensures
        reaction(av, Event::Vote(vhash, t), state) == Seq::<EffectContent<C>>::empty(),
{
}

/// Our own proposal is not confirmed.
pub proof fn lemma_own_proposal_is_not_confirmed<C: Context>(
    av: &ActiveValidator<C>,
    vhash: C::Hash,
    t: Timestamp,
    state: StateModel<C>,
)
    requires
        state.votes[vhash].creator == av.vidx(),
    ensures
        reaction(av, Event::Vote(vhash, t), state) == Seq::<EffectContent<C>>::empty(),
{
}

/// A value that comes in when the validator has not voted after the instant it was
/// asked for is proposed: one vote is cast, and it carries the value.
pub proof fn lemma_value_is_proposed<C: Context>(
    av: &ActiveValidator<C>,
    value: C::ConsensusValue,
    t: Timestamp,
    state: StateModel<C>,
)
    requires
        av.earliest_vote_time_spec(state).0 <= t.0,
    ensures
        reaction(av, Event::Value(value, t), state).len() == 1,
        reaction(av, Event::Value(value, t), state)[0] matches EffectContent::Vote(vote)
            && vote.value == Some(value) && vote.timestamp == t && vote.creator == av.vidx(),
{
}

} // verus!
