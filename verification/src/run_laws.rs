//! What holds in the long run, when the votes that an [`ActiveValidator`] casts are added
//! to the protocol state before the next event comes in.

use vstd::prelude::*;
use crate::active_validator::{ActiveValidator, EffectContent};
use crate::schedule_laws::{
    casts, lemma_confirmation_panorama, lemma_vote_continues_own_sequence, reaction, Event,
};
use crate::state::{lane_sees, StateModel};
use crate::state_laws::{
    lemma_cutoff_keeps_in_sight, lemma_lane_is_kept, lemma_reaches_is_transitive,
    lemma_votes_of_the_honest_are_in_line,
};
use crate::time::Timestamp;
use crate::traits::Context;
use crate::vertex::WireVoteView;
use crate::vote::Observation;

verus! {

/// The next vote follows the last: if the vote that a validator casts is added to the
/// state as its latest, then the vote that it casts next cites that vote in its own
/// slot, has the next sequence number and is cast no earlier.
pub proof fn lemma_next_vote_follows<C: Context>(
    av: &ActiveValidator<C>,
    last: WireVoteView<C>,
    hash: C::Hash,
    event: Event<C>,
    state: StateModel<C>,
    next: WireVoteView<C>,
)
    requires
        av.wf(),
        state.valid(),
        av.in_good_standing(state),
        last.creator == av.vidx(),
        state.holds_as_latest(hash, last.kept()),
        event.fits(state),
        casts(reaction(av, event, state), next),
    ensures
        next.creator == av.vidx(),
        next.panorama[av.vidx().0 as int] == Observation::<C>::Correct(hash),
        next.seq_number == last.seq_number + 1,
        next.timestamp.0 >= last.timestamp.0,
{
    lemma_vote_continues_own_sequence(av, event, state, next);
}

/// Whether the validator has the vote `vhash` in sight: its latest vote was cast no
/// earlier than `vhash` and cites, of the creator of `vhash`, that vote or a later one;
/// or that creator is known to be faulty.
pub open spec fn has_in_sight<C: Context>(
    av: &ActiveValidator<C>,
    vhash: C::Hash,
    state: StateModel<C>,
) -> bool {
    let creator = state.votes[vhash].creator;
    match state.panorama[av.vidx().0 as int] {
        Observation::Correct(latest) => {
            &&& state.votes[vhash].timestamp.0 <= state.votes[latest].timestamp.0
            &&& state.faulty.contains(creator) || state.reaches(
                state.votes[latest].panorama[creator.0 as int],
                vhash,
            )
        },
        _ => false,
    }
}

/// What is in sight is not confirmed.
pub proof fn lemma_no_confirmation_of_what_is_in_sight<C: Context>(
    av: &ActiveValidator<C>,
    vhash: C::Hash,
    t: Timestamp,
    state: StateModel<C>,
)
    requires
        state.valid(),
        av.vidx().0 < state.num_validators(),
        state.has_vote(vhash),
        has_in_sight(av, vhash, state),
    ensures
        reaction(av, Event::Vote(vhash, t), state) == Seq::<EffectContent<C>>::empty(),
{
    let creator = state.votes[vhash].creator;
    if let Observation::Correct(latest) = state.panorama[av.vidx().0 as int] {
        assert(state.has_vote(latest));
        assert(state.vote_is_sound(latest));
        if !state.faulty.contains(creator) {
            assert(lane_sees(state.votes, state.votes[latest].panorama, vhash));
            assert((state.sees)(state.votes[latest].panorama, vhash));
        }
    }
}

/// A proposal is in sight once its confirmation has been added to the state.
pub proof fn lemma_confirmation_puts_in_sight<C: Context>(
    av: &ActiveValidator<C>,
    vhash: C::Hash,
    t: Timestamp,
    state: StateModel<C>,
    vote: WireVoteView<C>,
    hash: C::Hash,
    later: StateModel<C>,
)
    requires
        av.wf(),
        state.valid(),
        av.in_good_standing(state),
        state.has_vote(vhash),
        casts(reaction(av, Event::Vote(vhash, t), state), vote),
        state.grows_into(later),
        later.holds_as_latest(hash, vote.kept()),
    ensures
        has_in_sight(av, vhash, later),
{
    lemma_confirmation_panorama(av, vhash, state);
    let creator = state.votes[vhash].creator;
    assert(vote.panorama[creator.0 as int] == Observation::<C>::Correct(vhash));
    assert(later.votes[vhash] == state.votes[vhash]);
    assert(later.reaches(Observation::Correct(vhash), vhash));
}

/// What is in sight stays in sight: whatever vote the validator casts next, once that
/// vote has been added to the state, the validator has in sight what it had before.
pub proof fn lemma_sight_is_kept<C: Context>(
    av: &ActiveValidator<C>,
    vhash: C::Hash,
    event: Event<C>,
    state: StateModel<C>,
    vote: WireVoteView<C>,
    hash: C::Hash,
    later: StateModel<C>,
)
    requires
        av.wf(),
        state.valid(),
        av.in_good_standing(state),
        state.has_vote(vhash),
        has_in_sight(av, vhash, state),
        event.fits(state),
        casts(reaction(av, event, state), vote),
        state.grows_into(later),
        later.holds_as_latest(hash, vote.kept()),
    ensures
        has_in_sight(av, vhash, later),
{
    let me = av.vidx().0 as int;
    let creator = state.votes[vhash].creator;
    let slot = creator.0 as int;
    let latest = state.panorama[me]->Correct_0;
    lemma_vote_continues_own_sequence(av, event, state, vote);
    assert(state.has_vote(latest));
    assert(state.vote_is_sound(latest));
    assert(state.vote_is_sound(vhash));
    assert(later.votes[vhash] == state.votes[vhash]);
    assert(vote.timestamp.0 >= state.votes[latest].timestamp.0);
    if !later.faulty.contains(creator) {
        assert(!state.faulty.contains(creator));
        let seen = state.votes[latest].panorama[slot];
        assert(state.reaches(seen, vhash));
        assert(state.vote_is_in_line(vhash));
        match event {
            Event::Vote(other, t) => {
                lemma_confirmation_panorama(av, other, state);
                assert(state.vote_is_sound(other));
                let theirs = state.votes[other].panorama[slot];
                if creator == state.votes[other].creator {
                    if state.votes[other].seq_number < state.votes[vhash].seq_number {
                        lemma_votes_of_the_honest_are_in_line(state, vhash, other);
                        lemma_reaches_is_transitive(state, seen, vhash, other);
                        assert(lane_sees(state.votes, state.votes[latest].panorama, other));
                        assert((state.sees)(state.votes[latest].panorama, other));
                        assert(false);
                    }
                    lemma_votes_of_the_honest_are_in_line(state, other, vhash);
                    assert(vote.panorama[slot] == Observation::<C>::Correct(other));
                } else if slot == me {
                    assert(vote.panorama[slot] == Observation::<C>::Correct(latest));
                } else {
                    assert(vote.panorama[slot] == state.merge_obs(theirs, seen));
                    let mine = seen->Correct_0;
                    assert(state.has_vote(mine) && state.votes[mine].creator == creator);
                    match theirs {
                        Observation::Correct(x) => {
                            assert(state.has_vote(x) && state.votes[x].creator == creator);
                            if state.votes[mine].seq_number <= state.votes[x].seq_number {
                                lemma_votes_of_the_honest_are_in_line(state, x, mine);
                                lemma_reaches_is_transitive(state, theirs, mine, vhash);
                            }
                        },
                        Observation::Faulty => {
                            assert(state.panorama[slot] is Faulty);
                            assert(false);
                        },
                        Observation::Nothing => {},
                    }
                }
            },
            _ => {
                let t = event.time();
                assert(vote.panorama == state.cutoff(state.panorama, t));
                lemma_cutoff_keeps_in_sight(state, state.panorama[slot], t, vhash);
            },
        }
        assert(state.reaches(vote.panorama[slot], vhash));
        assert(state.fits(vote.panorama));
        lemma_lane_is_kept(state, later.votes, vote.panorama[slot], vhash);
    }
}

/// One step in the life of a validator: an event to which it reacts by casting a vote.
#[verifier::reject_recursive_types(C)]
pub ghost struct Step<C: Context> {
    /// The validator as it is when the event occurs.
    pub validator: ActiveValidator<C>,
    /// The protocol state in which the event occurs.
    pub state: StateModel<C>,
    /// The event.
    pub event: Event<C>,
    /// The vote that the validator casts in reaction.
    pub vote: WireVoteView<C>,
    /// The hash under which that vote is added to the state.
    pub hash: C::Hash,
}

impl<C: Context> Step<C> {
    /// Whether the step can be taken: the state is valid, the validator is one of its
    /// validators and not known to be faulty, and it reacts to the event with the vote.
    pub open spec fn can_be_taken(self) -> bool {
        &&& self.validator.wf()
        &&& self.state.valid()
        &&& self.validator.in_good_standing(self.state)
        &&& self.event.fits(self.state)
        &&& casts(reaction(&self.validator, self.event, self.state), self.vote)
    }

    /// Whether `next` can be the next step after this one: the validator is the same, and
    /// the state has grown and holds the vote of this step as the validator's latest.
    pub open spec fn leads_to(self, next: Step<C>) -> bool {
        &&& next.validator.same_validator(&self.validator)
        &&& self.state.grows_into(next.state)
        &&& next.state.holds_as_latest(self.hash, self.vote.kept())
    }
}

/// Whether `steps` are the steps in which a validator casts its votes, one after the
/// other, each vote being added to the state before the next event comes in. Between two
/// steps any number of events may occur to which the validator reacts without a vote, and
/// any number of votes of others may be added to the state.
pub open spec fn is_run<C: Context>(steps: Seq<Step<C>>) -> bool {
    &&& forall|k: int| 0 <= k < steps.len() ==> (#[trigger] steps[k]).can_be_taken()
    &&& forall|k: int|
        0 <= k < steps.len() - 1 ==> (#[trigger] steps[k]).leads_to(steps[k + 1])
}

/// The votes of a run are numbered as they come: the first vote of a validator that has
/// not voted before has the sequence number zero and cites nothing of the validator
/// itself; each later vote has the next number and cites the vote before it; and no vote
/// is cast at an earlier instant than the one before it.
pub proof fn lemma_run_numbers_its_votes<C: Context>(steps: Seq<Step<C>>, k: int)
    requires
        is_run(steps),
        0 <= k < steps.len(),
        steps[0].state.panorama[steps[0].validator.vidx().0 as int] is Nothing,
    ensures
        steps[k].vote.creator == steps[0].validator.vidx(),
        steps[k].vote.seq_number == k,
        k == 0 ==> steps[k].vote.panorama[steps[0].validator.vidx().0 as int] is Nothing,
        k > 0 ==> steps[k].vote.panorama[steps[0].validator.vidx().0 as int]
            == Observation::<C>::Correct(steps[k - 1].hash),
        k > 0 ==> steps[k].vote.timestamp.0 >= steps[k - 1].vote.timestamp.0,
    decreases k,
{
    let step = steps[k];
    assert(step.can_be_taken());
    lemma_vote_continues_own_sequence(&step.validator, step.event, step.state, step.vote);
    lemma_run_keeps_the_validator(steps, k);
    if k > 0 {
        let last = steps[k - 1];
        assert(last.leads_to(steps[k - 1 + 1]));
        lemma_run_numbers_its_votes(steps, k - 1);
        lemma_next_vote_follows(
            &step.validator,
            last.vote,
            last.hash,
            step.event,
            step.state,
            step.vote,
        );
    }
}

/// The validator of a run is the same in every step.
pub proof fn lemma_run_keeps_the_validator<C: Context>(steps: Seq<Step<C>>, k: int)
    requires
        is_run(steps),
        0 <= k < steps.len(),
    ensures
        steps[k].validator.same_validator(&steps[0].validator),
    decreases k,
{
    if k > 0 {
        assert(steps[k - 1].leads_to(steps[k - 1 + 1]));
        lemma_run_keeps_the_validator(steps, k - 1);
    }
}

/// A proposal that is confirmed in one step of a run is in sight in every later step,
/// and the state of every later step holds it.
pub proof fn lemma_run_keeps_in_sight<C: Context>(
    steps: Seq<Step<C>>,
    i: int,
    k: int,
    vhash: C::Hash,
    t: Timestamp,
)
    requires
        is_run(steps),
        0 <= i < k < steps.len(),
        steps[i].event == Event::<C>::Vote(vhash, t),
    ensures
        steps[k].state.has_vote(vhash),
        has_in_sight(&steps[k].validator, vhash, steps[k].state),
    decreases k,
{
    let last = steps[k - 1];
    let step = steps[k];
    assert(last.can_be_taken());
    assert(last.leads_to(steps[k - 1 + 1]));
    if k - 1 == i {
        lemma_confirmation_puts_in_sight(
            &last.validator,
            vhash,
            t,
            last.state,
            last.vote,
            last.hash,
            step.state,
        );
    } else {
        lemma_run_keeps_in_sight(steps, i, k - 1, vhash, t);
        lemma_sight_is_kept(
            &last.validator,
            vhash,
            last.event,
            last.state,
            last.vote,
            last.hash,
            step.state,
        );
    }
    assert(has_in_sight(&last.validator, vhash, step.state));
}

/// One confirmation at most: a proposal that is confirmed in one step of a run is not
/// confirmed again in any later step.
pub proof fn lemma_run_confirms_once<C: Context>(
    steps: Seq<Step<C>>,
    i: int,
    k: int,
    vhash: C::Hash,
)
    requires
        is_run(steps),
        0 <= i < k < steps.len(),
        steps[i].event matches Event::Vote(h, _) && h == vhash,
    ensures
        !(steps[k].event matches Event::Vote(h, _) && h == vhash),
{
    let t = steps[i].event.time();
    let step = steps[k];
    assert(step.can_be_taken());
    lemma_run_keeps_in_sight(steps, i, k, vhash, t);
    if let Event::Vote(h, at) = step.event {
        if h == vhash {
            lemma_no_confirmation_of_what_is_in_sight(&step.validator, vhash, at, step.state);
            assert(false);
        }
    }
}

} // verus!
