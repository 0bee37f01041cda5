//! Validators, named by their place in the validator set.

use vstd::prelude::*;
use vstd::std_specs::convert::FromSpecImpl;

verus! {

/// The place of a validator in the validator set, which is fixed when the protocol starts.
#[derive(Clone, Copy, Debug, PartialEq, Eq, Structural, PartialOrd, Ord, Hash)]
pub struct ValidatorIndex(pub u32);

impl From<u32> for ValidatorIndex {
    fn from(idx: u32) -> (r: ValidatorIndex) {
        ValidatorIndex(idx)
    }
}

impl FromSpecImpl<u32> for ValidatorIndex {
    open spec fn obeys_from_spec() -> bool {
        true
    }

    open spec fn from_spec(idx: u32) -> ValidatorIndex {
        ValidatorIndex(idx)
    }
}

} // verus!
