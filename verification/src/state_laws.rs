//! What follows from the invariant of a protocol state.

use vstd::prelude::*;
use crate::state::{lane_reaches, StateModel};
use crate::time::Timestamp;
use crate::traits::Context;
use crate::vote::{Observation, VoteView};

verus! {

/// Walking back from an observation that fits the state ends in one that fits it: a cited
/// vote is held by the state and was cast by the same validator.
pub proof fn lemma_cutoff_obs_fits<C: Context>(
    state: StateModel<C>,
    obs: Observation<C>,
    t: Timestamp,
    i: int,
)
    requires
        state.valid(),
        obs matches Observation::Correct(h) ==> state.has_vote(h) && state.votes[h].creator.0 == i,
    ensures
        state.cutoff_obs(obs, t) matches Observation::Correct(h) ==> state.has_vote(h)
            && state.votes[h].creator.0 == i && state.votes[h].timestamp.0 <= t.0,
        obs is Faulty <==> state.cutoff_obs(obs, t) is Faulty,
        obs is Nothing ==> state.cutoff_obs(obs, t) is Nothing,
    decreases state.height(obs),
{
    if let Observation::Correct(h) = obs {
        assert(state.vote_is_sound(h));
        if state.votes[h].timestamp.0 > t.0 {
            let prev = state.predecessor(h);
            assert(state.height(prev) < state.height(obs));
            lemma_cutoff_obs_fits(state, prev, t, i);
        }
    }
}

/// A panorama that fits the state still fits it when it is cut off at `t`; the cut keeps
/// the fault marks and adds none.
pub proof fn lemma_cutoff_fits<C: Context>(
    state: StateModel<C>,
    pan: Seq<Observation<C>>,
    t: Timestamp,
)
    requires
        state.valid(),
        state.fits(pan),
    ensures
        state.fits(state.cutoff(pan, t)),
        forall|i: int|
            0 <= i < pan.len() ==> (pan[i] is Faulty <==> #[trigger] state.cutoff(pan, t)[i]
                is Faulty),
{
    let cut = state.cutoff(pan, t);
    assert forall|i: int| 0 <= i < cut.len() implies (match #[trigger] cut[i] {
        Observation::Correct(h) => state.has_vote(h) && state.votes[h].creator.0 == i,
        _ => true,
    }) && (pan[i] is Faulty <==> cut[i] is Faulty) by {
        lemma_cutoff_obs_fits(state, pan[i], t, i);
    }
}

/// The cut at `t` leaves a slot as it is if the vote it cites was cast no later than `t`.
pub proof fn lemma_cutoff_keeps_early_votes<C: Context>(
    state: StateModel<C>,
    pan: Seq<Observation<C>>,
    t: Timestamp,
    i: int,
)
    requires
        0 <= i < pan.len(),
        pan[i] matches Observation::Correct(h) ==> state.votes[h].timestamp.0 <= t.0,
    ensures
        state.cutoff(pan, t)[i] == pan[i],
{
}

/// Two panoramas that fit the state merge into one that fits it.
pub proof fn lemma_merge_fits<C: Context>(
    state: StateModel<C>,
    a: Seq<Observation<C>>,
    b: Seq<Observation<C>>,
)
    requires
        state.fits(a),
        state.fits(b),
    ensures
        state.fits(state.merge(a, b)),
{
    let merged = state.merge(a, b);
    assert forall|i: int| 0 <= i < merged.len() implies match #[trigger] merged[i] {
        Observation::Correct(h) => state.has_vote(h) && state.votes[h].creator.0 == i,
        _ => true,
    } by {
        assert(merged[i] == state.merge_obs(a[i], b[i]));
    }
}

/// What is found on the way back from a vote of a valid state does not change when more
/// votes are held, as long as the votes of the state are kept as they are.
pub proof fn lemma_lane_is_kept<C: Context>(
    state: StateModel<C>,
    more: Map<C::Hash, VoteView<C>>,
    obs: Observation<C>,
    h: C::Hash,
)
    requires
        state.valid(),
        obs matches Observation::Correct(g) ==> state.has_vote(g),
        forall|g: C::Hash| #[trigger]
            state.has_vote(g) ==> more.dom().contains(g) && more[g] == state.votes[g],
    ensures
        lane_reaches(more, obs, h) == state.reaches(obs, h),
    decreases state.height(obs),
{
    if let Observation::Correct(g) = obs {
        assert(state.vote_is_sound(g));
        let prev = state.predecessor(g);
        if let Observation::Correct(p) = prev {
            assert(state.has_vote(p));
        }
        if g != h {
            lemma_lane_is_kept(state, more, prev, h);
        }
    }
}

/// A vote that is found on the way back from a vote of a valid state is held by the state,
/// was cast by the same validator, and has no higher sequence number.
pub proof fn lemma_reached_vote_is_earlier<C: Context>(
    state: StateModel<C>,
    g: C::Hash,
    h: C::Hash,
)
    requires
        state.valid(),
        state.has_vote(g),
        state.reaches(Observation::Correct(g), h),
    ensures
        state.has_vote(h),
        state.votes[h].creator == state.votes[g].creator,
        state.votes[h].seq_number <= state.votes[g].seq_number,
        state.votes[h].seq_number == state.votes[g].seq_number ==> h == g,
    decreases state.votes[g].seq_number,
{
    if g != h {
        assert(state.vote_is_sound(g));
        let own = state.votes[g].creator.0 as int;
        assert(state.fits(state.votes[g].panorama));
        match state.predecessor(g) {
            Observation::Correct(p) => {
                assert(state.votes[g].panorama[own] == Observation::<C>::Correct(p));
                assert(state.has_vote(p) && state.votes[p].creator.0 == own);
                assert(state.reaches(Observation::Correct(p), h));
                lemma_reached_vote_is_earlier(state, p, h);
            },
            prev => {
                assert(!state.reaches(prev, h));
            },
        }
    }
}

/// What is found on the way back from a vote that is itself found on the way back from an
/// observation is found on the way back from that observation.
pub proof fn lemma_reaches_is_transitive<C: Context>(
    state: StateModel<C>,
    obs: Observation<C>,
    g: C::Hash,
    h: C::Hash,
)
    requires
        state.reaches(obs, g),
        state.reaches(Observation::Correct(g), h),
    ensures
        state.reaches(obs, h),
    decreases state.height(obs),
{
    if let Observation::Correct(x) = obs {
        if x != g && x != h {
            lemma_reaches_is_transitive(state, state.predecessor(x), g, h);
        }
    }
}

/// A lane is a line: of two votes that are found on the way back from one observation,
/// the one with the higher sequence number has the other on its own way back.
pub proof fn lemma_lane_is_a_line<C: Context>(
    state: StateModel<C>,
    obs: Observation<C>,
    g: C::Hash,
    h: C::Hash,
)
    requires
        state.valid(),
        obs matches Observation::Correct(x) ==> state.has_vote(x),
        state.reaches(obs, g),
        state.reaches(obs, h),
        state.votes[g].seq_number >= state.votes[h].seq_number,
    ensures
        state.reaches(Observation::Correct(g), h),
    decreases state.height(obs),
{
    if let Observation::Correct(x) = obs {
        if x == g {
        } else if x == h {
            lemma_reached_vote_is_earlier(state, h, g);
        } else {
            assert(state.vote_is_sound(x));
            let prev = state.predecessor(x);
            if let Observation::Correct(p) = prev {
                assert(state.votes[x].panorama[state.votes[x].creator.0 as int]
                    == Observation::<C>::Correct(p));
                assert(state.has_vote(p));
            }
            lemma_lane_is_a_line(state, prev, g, h);
        }
    }
}

/// Of two votes that a valid state holds of one validator who is not faulty, the one with
/// the higher sequence number has the other on its way back.
pub proof fn lemma_votes_of_the_honest_are_in_line<C: Context>(
    state: StateModel<C>,
    g: C::Hash,
    h: C::Hash,
)
    requires
        state.valid(),
        state.has_vote(g),
        state.has_vote(h),
        state.votes[g].creator == state.votes[h].creator,
        !state.faulty.contains(state.votes[g].creator),
        state.votes[g].seq_number >= state.votes[h].seq_number,
    ensures
        state.reaches(Observation::Correct(g), h),
{
    let creator = state.votes[g].creator;
    let latest = state.panorama[creator.0 as int];
    assert(state.vote_is_in_line(g));
    assert(state.vote_is_in_line(h));
    assert(state.vote_is_sound(g));
    if let Observation::Correct(x) = latest {
        assert(state.has_vote(x));
    }
    lemma_lane_is_a_line(state, latest, g, h);
}

/// The cut at `t` keeps in sight what was cast no later than `t`: a vote that is found
/// on the way back from an observation and was cast no later than `t` is found on the way
/// back from what the cut leaves of the observation.
pub proof fn lemma_cutoff_keeps_in_sight<C: Context>(
    state: StateModel<C>,
    obs: Observation<C>,
    t: Timestamp,
    h: C::Hash,
)
    requires
        state.reaches(obs, h),
        state.votes[h].timestamp.0 <= t.0,
    ensures
        state.reaches(state.cutoff_obs(obs, t), h),
    decreases state.height(obs),
{
    if let Observation::Correct(x) = obs {
        if x != h && state.votes[x].timestamp.0 > t.0 {
            lemma_cutoff_keeps_in_sight(state, state.predecessor(x), t, h);
        }
    }
}

} // verus!
