//! Two validators run through one round.

use std::collections::hash_map::DefaultHasher;
use std::fmt::Debug;
use std::hash::Hasher;

use highway_validator::active_validator::{ActiveValidator, BlockContext, Effect};
use highway_validator::memory_state::{AddVoteError, MemoryState};
use highway_validator::state::StateView;
use highway_validator::time::{TimeDiff, Timestamp};
use highway_validator::traits::Context;
use highway_validator::validators::ValidatorIndex;
use highway_validator::vertex::{SignedWireVote, WireVote};
use highway_validator::vote::Observation;

const ALICE: ValidatorIndex = ValidatorIndex(0);
const BOB: ValidatorIndex = ValidatorIndex(1);

#[derive(Clone, Debug, PartialEq, Eq)]
struct TestContext;

struct TestSecret(u32);

fn hash(wire_vote: &WireVote<TestContext>) -> u64 {
    let mut hasher = DefaultHasher::new();
    for obs in wire_vote.panorama.0.iter() {
        match obs {
            Observation::Nothing => hasher.write_u8(0),
            Observation::Correct(h) => {
                hasher.write_u8(1);
                hasher.write_u64(*h);
            }
            Observation::Faulty => hasher.write_u8(2),
        }
    }
    hasher.write_u32(wire_vote.creator.0);
    match wire_vote.value {
        None => hasher.write_u8(0),
        Some(value) => {
            hasher.write_u8(1);
            hasher.write_u32(value);
        }
    }
    hasher.write_u64(wire_vote.seq_number);
    hasher.write_u64(wire_vote.timestamp.0);
    hasher.finish()
}

impl Context for TestContext {
    type ConsensusValue = u32;
    type Hash = u64;
    type ValidatorSecret = TestSecret;
    type Signature = u64;

    fn sign(secret: &TestSecret, wire_vote: &WireVote<TestContext>) -> u64 {
        hash(wire_vote).wrapping_add(u64::from(secret.0))
    }
}

type Eff = Effect<TestContext>;

fn unwrap_vote(effect: Eff) -> SignedWireVote<TestContext> {
    if let Eff::NewVertex(swvote) = effect {
        swvote
    } else {
        panic!("Unexpected effect: {:?}", effect);
    }
}

fn unwrap_single<T: Debug>(vec: Vec<T>) -> T {
    let mut iter = vec.into_iter();
    match (iter.next(), iter.next()) {
        (None, _) => panic!("Unexpected empty vec"),
        (Some(t), None) => t,
        (Some(t0), Some(t1)) => panic!("Expected only one element: {:?}, {:?}", t0, t1),
    }
}

#[test]
#[allow(clippy::unreadable_literal)] // 0xC0FFEE is more readable than 0x00C0_FFEE.
fn active_validator() -> Result<(), AddVoteError> {
    let mut state = MemoryState::<TestContext>::new(2, TimeDiff::from(16));

    // We start at time 410, with round length 16, so the first leader tick is 416, and the
    // first witness tick 426.
    assert_eq!(ALICE, state.leader(416.into())); // Alice will be the first leader.
    assert_eq!(BOB, state.leader(432.into())); // Bob will be the second leader.
    let (mut alice_av, effects) =
        ActiveValidator::new(ALICE, TestSecret(0), 4, 410.into(), &state);
    assert_eq!([Eff::ScheduleTimer(416.into())], *effects);
    let (mut bob_av, effects) = ActiveValidator::new(BOB, TestSecret(1), 4, 410.into(), &state);
    assert_eq!([Eff::ScheduleTimer(426.into())], *effects);

    assert!(alice_av.handle_timer(415.into(), &state).is_empty()); // Too early: No new effects.

    // Alice wants to propose a block, and also make her witness vote at 426.
    let bctx = match &*alice_av.handle_timer(416.into(), &state) {
        [Eff::ScheduleTimer(timestamp), Eff::RequestNewBlock(bctx)]
            if *timestamp == 426.into() =>
        {
            bctx.clone()
        }
        effects => panic!("unexpected effects {:?}", effects),
    };
    assert_eq!(Timestamp::from(416), bctx.timestamp());

    // She has a pending deploy from Colin who wants to pay for a hot beverage.
    let effects = alice_av.propose(0xC0FFEE, bctx, &state);
    let proposal_wvote = unwrap_vote(unwrap_single(effects));
    assert_eq!(Timestamp::from(416), proposal_wvote.wire_vote.timestamp);
    assert_eq!(ALICE, proposal_wvote.wire_vote.creator);
    assert_eq!(Some(0xC0FFEE), proposal_wvote.wire_vote.value);
    assert_eq!(0, proposal_wvote.wire_vote.seq_number);
    let prop_hash = hash(&proposal_wvote.wire_vote);
    assert_eq!(prop_hash, proposal_wvote.signature);
    state.add_vote(prop_hash, proposal_wvote)?;
    assert!(alice_av
        .on_new_vote(&prop_hash, 417.into(), &state)
        .is_empty());

    // Bob creates a confirmation vote for Alice's proposal.
    let effects = bob_av.on_new_vote(&prop_hash, 419.into(), &state);
    let confirmation = unwrap_vote(unwrap_single(effects));
    assert_eq!(BOB, confirmation.wire_vote.creator);
    assert_eq!(None, confirmation.wire_vote.value);
    assert_eq!(0, confirmation.wire_vote.seq_number);
    assert_eq!(Timestamp::from(419), confirmation.wire_vote.timestamp);
    assert_eq!(
        vec![Observation::Correct(prop_hash), Observation::Nothing],
        confirmation.wire_vote.panorama.0
    );
    let conf_hash = hash(&confirmation.wire_vote);
    assert_eq!(conf_hash.wrapping_add(1), confirmation.signature);
    state.add_vote(conf_hash, confirmation)?;

    // Bob creates his witness message 2/3 through the round.
    let mut effects = bob_av.handle_timer(426.into(), &state).into_iter();
    assert_eq!(Some(Eff::ScheduleTimer(432.into())), effects.next()); // Bob is the next leader.
    let witness = unwrap_vote(effects.next().unwrap());
    assert_eq!(1, witness.wire_vote.seq_number);
    assert_eq!(None, witness.wire_vote.value);
    assert_eq!(
        vec![Observation::Correct(prop_hash), Observation::Correct(conf_hash)],
        witness.wire_vote.panorama.0
    );
    let bob_witness_hash = hash(&witness.wire_vote);
    state.add_vote(bob_witness_hash, witness)?;
    assert_eq!(None, effects.next());

    // Alice also sends her own witness message.
    let mut effects = alice_av.handle_timer(426.into(), &state).into_iter();
    assert_eq!(Some(Eff::ScheduleTimer(442.into())), effects.next()); // Timer for witness vote.
    let witness = unwrap_vote(effects.next().unwrap());
    assert_eq!(ALICE, witness.wire_vote.creator);
    assert_eq!(1, witness.wire_vote.seq_number);
    assert_eq!(
        vec![Observation::Correct(prop_hash), Observation::Correct(bob_witness_hash)],
        witness.wire_vote.panorama.0
    );
    state.add_vote(hash(&witness.wire_vote), witness)?;
    assert_eq!(None, effects.next());
    Ok(())
}

#[test]
fn block_context_keeps_its_timestamp() {
    assert_eq!(BlockContext::new(Timestamp(77)).timestamp(), Timestamp(77));
}
