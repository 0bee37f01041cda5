//! The schedule of an active validator, event by event.

use highway_validator::active_validator::{ActiveValidator, BlockContext, Effect};
use highway_validator::memory_state::MemoryState;
use highway_validator::state::StateView;
use highway_validator::time::{TimeDiff, Timestamp};
use highway_validator::traits::Context;
use highway_validator::validators::ValidatorIndex;
use highway_validator::vertex::{SignedWireVote, WireVote};
use highway_validator::vote::{Observation, Panorama};

const ALICE: ValidatorIndex = ValidatorIndex(0);
const BOB: ValidatorIndex = ValidatorIndex(1);
const CAROL: ValidatorIndex = ValidatorIndex(2);

#[derive(Clone, Debug, PartialEq, Eq)]
struct TestContext;

struct TestSecret(u64);

impl Context for TestContext {
    type ConsensusValue = u32;
    type Hash = u64;
    type ValidatorSecret = TestSecret;
    type Signature = u64;

    fn sign(secret: &TestSecret, wire_vote: &WireVote<TestContext>) -> u64 {
        secret.0 * 1_000_000 + wire_vote.timestamp.0 * 100 + wire_vote.seq_number
    }
}

type Obs = Observation<TestContext>;
type Eff = Effect<TestContext>;
type State = MemoryState<TestContext>;
type Validator = ActiveValidator<TestContext>;

/// Three validators who lead in turns of 16 milliseconds.
fn three() -> State {
    State::new(3, TimeDiff(16))
}

fn vote(
    panorama: Vec<Obs>,
    creator: ValidatorIndex,
    seq_number: u64,
    timestamp: u64,
) -> SignedWireVote<TestContext> {
    SignedWireVote {
        wire_vote: WireVote {
            panorama: Panorama(panorama),
            creator,
            value: None,
            seq_number,
            timestamp: Timestamp(timestamp),
        },
        signature: 0,
    }
}

fn validator(vidx: ValidatorIndex, now: u64, state: &State) -> Validator {
    ActiveValidator::new(vidx, TestSecret(u64::from(vidx.0) + 1), 4, Timestamp(now), state).0
}

fn timer(t: u64) -> Eff {
    Eff::ScheduleTimer(Timestamp(t))
}

fn only_vote(effects: Vec<Eff>) -> SignedWireVote<TestContext> {
    assert_eq!(1, effects.len());
    match effects.into_iter().next() {
        Some(Eff::NewVertex(vote)) => vote,
        other => panic!("no vote: {:?}", other),
    }
}

#[test]
fn round_length_and_witness_offset() {
    let state = three();
    for (round_exp, len, witness) in [
        (2u8, 4u64, 2u64),
        (3, 8, 5),
        (4, 16, 10),
        (5, 32, 21),
        (10, 1024, 682),
        (62, 1 << 62, 3074457345618258602),
    ] {
        let (av, _) = Validator::new(ALICE, TestSecret(1), round_exp, Timestamp(0), &state);
        assert_eq!(TimeDiff(len), av.round_len());
        assert_eq!(TimeDiff(witness), av.witness_offset());
        assert_eq!(round_exp, av.round_exp());
        assert_eq!(ALICE, av.vidx());
    }
}

#[test]
fn first_timer_is_the_next_landmark() {
    let state = three();
    // Rounds begin at 400, 416, 432; their leaders are Bob, Carol, Alice.
    assert_eq!(BOB, state.leader(Timestamp(400)));
    assert_eq!(CAROL, state.leader(Timestamp(416)));
    assert_eq!(ALICE, state.leader(Timestamp(432)));
    for (vidx, now, expected) in [
        (ALICE, 400u64, 410u64),
        (ALICE, 409, 410),
        (ALICE, 410, 426),
        (ALICE, 415, 426),
        (CAROL, 409, 410),
        (CAROL, 410, 416),
        (CAROL, 415, 416),
        (CAROL, 416, 426),
        (ALICE, 426, 432),
        (ALICE, 431, 432),
        (BOB, 426, 442),
        (BOB, 0, 10),
        (ALICE, 10, 26),
    ] {
        let (av, effects) = Validator::new(vidx, TestSecret(0), 4, Timestamp(now), &state);
        assert_eq!(vec![timer(expected)], effects, "{:?} at {}", vidx, now);
        assert_eq!(Timestamp(expected), av.next_timer());
    }
}

#[test]
fn no_timer_while_a_later_one_is_pending() {
    let state = three();
    let mut av = validator(ALICE, 400, &state);
    assert_eq!(Timestamp(410), av.next_timer());
    assert!(av.schedule_timer(Timestamp(405), &state).is_empty());
    assert!(av.schedule_timer(Timestamp(409), &state).is_empty());
    assert_eq!(Timestamp(410), av.next_timer());
    assert_eq!(vec![timer(426)], av.schedule_timer(Timestamp(410), &state));
    assert_eq!(Timestamp(426), av.next_timer());
}

#[test]
fn timer_never_goes_back() {
    let state = three();
    let mut av = validator(BOB, 0, &state);
    let mut last = av.next_timer();
    for t in [0u64, 3, 10, 9, 11, 16, 40, 26, 42, 41, 100, 5, 1000, 999, 1010] {
        let effects = av.handle_timer(Timestamp(t), &state);
        assert!(av.next_timer() >= last);
        if let Some(Eff::ScheduleTimer(next)) = effects.first() {
            assert!(next.0 > t);
            assert_eq!(*next, av.next_timer());
        } else {
            assert_eq!(last, av.next_timer());
        }
        last = av.next_timer();
    }
}

#[test]
fn value_is_asked_for_only_at_the_start_of_an_own_round() {
    let state = three();
    for vidx in [ALICE, BOB, CAROL] {
        for t in 380u64..450 {
            let mut av = validator(vidx, 0, &state);
            let effects = av.handle_timer(Timestamp(t), &state);
            let asked = effects
                .iter()
                .any(|effect| matches!(effect, Eff::RequestNewBlock(_)));
            let leads = t % 16 == 0 && state.leader(Timestamp(t)) == vidx;
            assert_eq!(leads, asked, "{:?} at {}", vidx, t);
            if asked {
                assert_eq!(2, effects.len());
                assert_eq!(Eff::RequestNewBlock(BlockContext::new(Timestamp(t))), effects[1]);
            }
        }
    }
}

#[test]
fn witness_is_cast_only_at_the_witness_tick() {
    let mut state = three();
    state.add_vote(7, vote(vec![Obs::Nothing; 3], BOB, 0, 400)).unwrap();
    for t in 400u64..450 {
        let mut av = validator(ALICE, 0, &state);
        let effects = av.handle_timer(Timestamp(t), &state);
        let cast = effects.iter().any(|effect| matches!(effect, Eff::NewVertex(_)));
        assert_eq!(t % 16 == 10, cast, "at {}", t);
        if cast {
            assert_eq!(2, effects.len());
            match &effects[1] {
                Eff::NewVertex(witness) => {
                    assert_eq!(ALICE, witness.wire_vote.creator);
                    assert_eq!(None, witness.wire_vote.value);
                    assert_eq!(Timestamp(t), witness.wire_vote.timestamp);
                    assert_eq!(0, witness.wire_vote.seq_number);
                    assert_eq!(
                        vec![Obs::Nothing, Obs::Correct(7), Obs::Nothing],
                        witness.wire_vote.panorama.0
                    );
                    assert_eq!(1_000_000 + t * 100, witness.signature);
                }
                other => panic!("no vote: {:?}", other),
            }
        }
    }
}

#[test]
fn empty_panorama_at_witness_tick() {
    let state = three();
    let mut av = validator(ALICE, 400, &state);
    assert_eq!(vec![timer(426)], av.handle_timer(Timestamp(410), &state));
}

#[test]
fn only_later_votes_leave_the_panorama_empty_at_witness_tick() {
    let mut state = three();
    state.add_vote(7, vote(vec![Obs::Nothing; 3], BOB, 0, 411)).unwrap();
    let mut av = validator(ALICE, 400, &state);
    assert_eq!(vec![timer(426)], av.handle_timer(Timestamp(410), &state));
}

#[test]
fn timer_at_its_own_instant_is_handled() {
    let mut state = three();
    state.add_vote(7, vote(vec![Obs::Nothing; 3], BOB, 0, 401)).unwrap();

    // Carol waits for the witness tick, then for the round that she leads.
    let mut carol = validator(CAROL, 400, &state);
    let next = carol.next_timer();
    assert_eq!(Timestamp(410), next);
    let effects = carol.handle_timer(next, &state);
    assert_eq!(2, effects.len());
    assert_eq!(timer(416), effects[0]);
    assert!(matches!(effects[1], Eff::NewVertex(_)));
    let next = carol.next_timer();
    assert_eq!(
        vec![timer(426), Eff::RequestNewBlock(BlockContext::new(Timestamp(416)))],
        carol.handle_timer(next, &state)
    );

    // One millisecond early nothing happens at all.
    let mut carol = validator(CAROL, 400, &state);
    assert!(carol.handle_timer(Timestamp(409), &state).is_empty());
}

#[test]
fn late_timer_only_sets_the_next_timer() {
    let mut state = three();
    state.add_vote(7, vote(vec![Obs::Nothing; 3], ALICE, 0, 433)).unwrap();
    let mut av = validator(ALICE, 400, &state);
    assert_eq!(Timestamp(433), av.earliest_vote_time(&state));
    // 432 begins a round that Alice leads, and 426 is a witness tick.
    assert_eq!(vec![timer(442)], av.handle_timer(Timestamp(432), &state));
    let mut av = validator(ALICE, 400, &state);
    assert_eq!(vec![timer(432)], av.handle_timer(Timestamp(426), &state));
    // At the instant of the latest vote itself the timer is not late.
    let mut state = three();
    state.add_vote(7, vote(vec![Obs::Nothing; 3], ALICE, 0, 426)).unwrap();
    let mut av = validator(ALICE, 400, &state);
    let effects = av.handle_timer(Timestamp(426), &state);
    assert_eq!(2, effects.len());
    assert!(matches!(&effects[1], Eff::NewVertex(v) if v.wire_vote.seq_number == 1));
}

#[test]
fn proposal_carries_the_value() {
    let mut state = three();
    state.add_vote(7, vote(vec![Obs::Nothing; 3], BOB, 0, 401)).unwrap();
    state.add_vote(8, vote(vec![Obs::Nothing, Obs::Correct(7), Obs::Nothing], BOB, 1, 440)).unwrap();
    let av = validator(ALICE, 400, &state);
    let proposal = only_vote(av.propose(0xC0FFEE, BlockContext::new(Timestamp(432)), &state));
    assert_eq!(Some(0xC0FFEE), proposal.wire_vote.value);
    assert_eq!(ALICE, proposal.wire_vote.creator);
    assert_eq!(Timestamp(432), proposal.wire_vote.timestamp);
    assert_eq!(0, proposal.wire_vote.seq_number);
    // Bob's vote of 440 is cut off.
    assert_eq!(
        vec![Obs::Nothing, Obs::Correct(7), Obs::Nothing],
        proposal.wire_vote.panorama.0
    );
    assert_eq!(1_000_000 + 43200, proposal.signature);
}

#[test]
fn proposal_off_the_tick_is_cast_as_asked() {
    let state = three();
    let av = validator(BOB, 400, &state);
    let proposal = only_vote(av.propose(5, BlockContext::new(Timestamp(437)), &state));
    assert_eq!(Timestamp(437), proposal.wire_vote.timestamp);
    assert_eq!(BOB, proposal.wire_vote.creator);
    assert_eq!(vec![Obs::Nothing; 3], proposal.wire_vote.panorama.0);
}

#[test]
fn proposal_before_the_latest_vote_is_dropped() {
    let mut state = three();
    state.add_vote(7, vote(vec![Obs::Nothing; 3], ALICE, 0, 433)).unwrap();
    let av = validator(ALICE, 400, &state);
    assert!(av.propose(1, BlockContext::new(Timestamp(432)), &state).is_empty());
    assert!(av.propose(1, BlockContext::new(Timestamp(0)), &state).is_empty());
    let proposal = only_vote(av.propose(1, BlockContext::new(Timestamp(433)), &state));
    assert_eq!(1, proposal.wire_vote.seq_number);
    assert_eq!(Obs::Correct(7), proposal.wire_vote.panorama.0[0]);
}

/// A state in which Carol, who leads the round from 416, has proposed at 416.
fn with_proposal() -> State {
    let mut state = three();
    state.add_vote(70, vote(vec![Obs::Nothing; 3], CAROL, 0, 416)).unwrap();
    state
}

#[test]
fn proposal_of_the_leader_is_confirmed() {
    let state = with_proposal();
    let av = validator(ALICE, 400, &state);
    assert!(av.should_send_confirmation(&70, Timestamp(420), &state));
    let confirmation = only_vote(av.on_new_vote(&70, Timestamp(420), &state));
    assert_eq!(ALICE, confirmation.wire_vote.creator);
    assert_eq!(None, confirmation.wire_vote.value);
    assert_eq!(0, confirmation.wire_vote.seq_number);
    assert_eq!(Timestamp(420), confirmation.wire_vote.timestamp);
    assert_eq!(
        vec![Obs::Nothing, Obs::Nothing, Obs::Correct(70)],
        confirmation.wire_vote.panorama.0
    );
    assert_eq!(1_000_000 + 42000, confirmation.signature);
    // At the very instant of the proposal, and at the last instant of the round.
    assert!(av.should_send_confirmation(&70, Timestamp(416), &state));
    assert!(av.should_send_confirmation(&70, Timestamp(431), &state));
}

#[test]
fn no_confirmation_of_a_vote_from_the_future() {
    let state = with_proposal();
    let av = validator(ALICE, 400, &state);
    assert!(!av.should_send_confirmation(&70, Timestamp(415), &state));
    assert!(av.on_new_vote(&70, Timestamp(415), &state).is_empty());
}

#[test]
fn no_confirmation_in_a_later_round() {
    let state = with_proposal();
    let av = validator(ALICE, 400, &state);
    assert!(!av.should_send_confirmation(&70, Timestamp(432), &state));
    assert!(av.on_new_vote(&70, Timestamp(432), &state).is_empty());
}

#[test]
fn no_confirmation_of_a_vote_that_is_not_the_leaders() {
    let mut state = three();
    state.add_vote(71, vote(vec![Obs::Nothing; 3], BOB, 0, 416)).unwrap();
    let av = validator(ALICE, 400, &state);
    assert!(!av.should_send_confirmation(&71, Timestamp(420), &state));
    assert!(av.on_new_vote(&71, Timestamp(420), &state).is_empty());
}

#[test]
fn no_confirmation_of_our_own_proposal() {
    let state = with_proposal();
    let av = validator(CAROL, 400, &state);
    assert!(!av.should_send_confirmation(&70, Timestamp(420), &state));
    assert!(av.on_new_vote(&70, Timestamp(420), &state).is_empty());
}

#[test]
fn no_confirmation_of_a_faulty_leader() {
    let mut state = with_proposal();
    let av = validator(ALICE, 400, &state);
    assert!(av.should_send_confirmation(&70, Timestamp(420), &state));
    state.mark_faulty(CAROL);
    assert!(!av.should_send_confirmation(&70, Timestamp(420), &state));
    assert!(av.on_new_vote(&70, Timestamp(420), &state).is_empty());
}

#[test]
fn no_confirmation_before_our_latest_vote() {
    let mut state = with_proposal();
    state.add_vote(1, vote(vec![Obs::Nothing; 3], ALICE, 0, 421)).unwrap();
    let av = validator(ALICE, 400, &state);
    assert!(av.should_send_confirmation(&70, Timestamp(420), &state));
    assert!(av.on_new_vote(&70, Timestamp(420), &state).is_empty());
    assert_eq!(1, only_vote(av.on_new_vote(&70, Timestamp(421), &state)).wire_vote.seq_number);
}

#[test]
fn no_second_confirmation() {
    let mut state = with_proposal();
    let av = validator(ALICE, 400, &state);
    let confirmation = only_vote(av.on_new_vote(&70, Timestamp(420), &state));
    state.add_vote(1, confirmation).unwrap();
    assert!(!av.should_send_confirmation(&70, Timestamp(421), &state));
    assert!(av.on_new_vote(&70, Timestamp(421), &state).is_empty());

    // Neither after a later vote of ours that still sees the proposal.
    let mut av = validator(ALICE, 400, &state);
    let effects = av.handle_timer(Timestamp(426), &state);
    let witness = match effects.into_iter().nth(1) {
        Some(Eff::NewVertex(witness)) => witness,
        other => panic!("no vote: {:?}", other),
    };
    assert_eq!(1, witness.wire_vote.seq_number);
    assert_eq!(
        vec![Obs::Correct(1), Obs::Nothing, Obs::Correct(70)],
        witness.wire_vote.panorama.0
    );
    state.add_vote(2, witness).unwrap();
    assert!(av.on_new_vote(&70, Timestamp(427), &state).is_empty());
}

#[test]
fn confirmation_merges_our_latest_panorama() {
    let mut state = three();
    // Bob votes twice; Alice has seen his second vote, Carol's proposal only his first.
    state.add_vote(10, vote(vec![Obs::Nothing; 3], BOB, 0, 401)).unwrap();
    state.add_vote(11, vote(vec![Obs::Nothing, Obs::Correct(10), Obs::Nothing], BOB, 1, 402)).unwrap();
    state.add_vote(20, vote(vec![Obs::Nothing, Obs::Correct(11), Obs::Nothing], ALICE, 0, 403)).unwrap();
    state.add_vote(70, vote(vec![Obs::Nothing, Obs::Correct(10), Obs::Nothing], CAROL, 0, 416)).unwrap();
    let av = validator(ALICE, 400, &state);
    let confirmation = only_vote(av.on_new_vote(&70, Timestamp(417), &state));
    assert_eq!(
        vec![Obs::Correct(20), Obs::Correct(11), Obs::Correct(70)],
        confirmation.wire_vote.panorama.0
    );
    assert_eq!(1, confirmation.wire_vote.seq_number);
    assert_eq!(
        vec![Obs::Correct(20), Obs::Correct(11), Obs::Correct(70)],
        av.confirmation_panorama(&70, &state).0
    );

    // The other way round: the proposal has seen more of Bob than Alice has.
    let mut state = three();
    state.add_vote(10, vote(vec![Obs::Nothing; 3], BOB, 0, 401)).unwrap();
    state.add_vote(11, vote(vec![Obs::Nothing, Obs::Correct(10), Obs::Nothing], BOB, 1, 402)).unwrap();
    state.add_vote(20, vote(vec![Obs::Nothing, Obs::Correct(10), Obs::Nothing], ALICE, 0, 403)).unwrap();
    state.add_vote(70, vote(vec![Obs::Correct(20), Obs::Correct(11), Obs::Nothing], CAROL, 0, 416)).unwrap();
    let confirmation = only_vote(av.on_new_vote(&70, Timestamp(417), &state));
    assert_eq!(
        vec![Obs::Correct(20), Obs::Correct(11), Obs::Correct(70)],
        confirmation.wire_vote.panorama.0
    );
}

#[test]
fn votes_mark_the_faulty() {
    let mut state = three();
    state.add_vote(10, vote(vec![Obs::Nothing; 3], BOB, 0, 401)).unwrap();
    state.add_vote(70, vote(vec![Obs::Nothing, Obs::Correct(10), Obs::Nothing], CAROL, 0, 416)).unwrap();
    state.mark_faulty(BOB);
    let mut av = validator(ALICE, 400, &state);

    let confirmation = only_vote(av.on_new_vote(&70, Timestamp(417), &state));
    assert_eq!(vec![Obs::Nothing, Obs::Faulty, Obs::Correct(70)], confirmation.wire_vote.panorama.0);

    let effects = av.handle_timer(Timestamp(426), &state);
    match &effects[1] {
        Eff::NewVertex(witness) => assert_eq!(
            vec![Obs::Nothing, Obs::Faulty, Obs::Correct(70)],
            witness.wire_vote.panorama.0
        ),
        other => panic!("no vote: {:?}", other),
    }

    let proposal = only_vote(av.propose(3, BlockContext::new(Timestamp(432)), &state));
    assert_eq!(vec![Obs::Nothing, Obs::Faulty, Obs::Correct(70)], proposal.wire_vote.panorama.0);
}

#[test]
fn new_vote_counts_on() {
    let mut state = three();
    state.add_vote(1, vote(vec![Obs::Nothing; 3], ALICE, 0, 401)).unwrap();
    state.add_vote(2, vote(vec![Obs::Correct(1), Obs::Nothing, Obs::Nothing], ALICE, 1, 402)).unwrap();
    let av = validator(ALICE, 400, &state);
    let pan = |first: Obs| Panorama(vec![first, Obs::Nothing, Obs::Nothing]);
    let cast = av.new_vote(pan(Obs::Nothing), Timestamp(500), Some(9), &state);
    assert_eq!(0, cast.wire_vote.seq_number);
    assert_eq!(Some(9), cast.wire_vote.value);
    assert_eq!(ALICE, cast.wire_vote.creator);
    assert_eq!(Timestamp(500), cast.wire_vote.timestamp);
    assert_eq!(1_000_000 + 50000, cast.signature);
    let cast = av.new_vote(pan(Obs::Correct(1)), Timestamp(500), None, &state);
    assert_eq!(1, cast.wire_vote.seq_number);
    assert_eq!(1_000_000 + 50001, cast.signature);
    let cast = av.new_vote(pan(Obs::Correct(2)), Timestamp(500), None, &state);
    assert_eq!(2, cast.wire_vote.seq_number);
    assert_eq!(pan(Obs::Correct(2)), cast.wire_vote.panorama);
}

#[test]
fn earliest_vote_time_is_that_of_the_latest_vote() {
    let mut state = three();
    let av = validator(BOB, 400, &state);
    assert_eq!(Timestamp(0), av.earliest_vote_time(&state));
    state.add_vote(1, vote(vec![Obs::Nothing; 3], ALICE, 0, 401)).unwrap();
    assert_eq!(Timestamp(0), av.earliest_vote_time(&state));
    state.add_vote(2, vote(vec![Obs::Nothing; 3], BOB, 0, 405)).unwrap();
    assert_eq!(Timestamp(405), av.earliest_vote_time(&state));
    state.add_vote(3, vote(vec![Obs::Nothing, Obs::Correct(2), Obs::Nothing], BOB, 1, 409)).unwrap();
    assert_eq!(Timestamp(409), av.earliest_vote_time(&state));
}

#[test]
fn copies_are_equal() {
    let state = with_proposal();
    let av = validator(ALICE, 400, &state);
    let confirmation = only_vote(av.on_new_vote(&70, Timestamp(420), &state));
    assert_eq!(confirmation.clone(), confirmation);
    assert_eq!(confirmation.wire_vote.clone(), confirmation.wire_vote);
    let effect = Eff::NewVertex(confirmation);
    assert_eq!(effect.clone(), effect);
    assert_eq!(timer(3).clone(), timer(3));
    let block = Eff::RequestNewBlock(BlockContext::new(Timestamp(4)));
    assert_eq!(block.clone(), block);
    assert!(block != timer(4));
}
