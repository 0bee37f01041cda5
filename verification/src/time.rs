//! Instants and durations, counted in milliseconds.

use vstd::prelude::*;
use vstd::std_specs::convert::FromSpecImpl;

verus! {

/// An absolute instant: the number of milliseconds since the epoch.
#[derive(Clone, Copy, Debug, PartialEq, Eq, Structural, PartialOrd, Ord, Hash)]
pub struct Timestamp(pub u64);

/// The distance between two instants, in milliseconds.
#[derive(Clone, Copy, Debug, PartialEq, Eq, Structural, PartialOrd, Ord, Hash)]
pub struct TimeDiff(pub u64);

impl Timestamp {
    /// The epoch itself.
    pub fn zero() -> (r: Timestamp)
        ensures
            r.0 == 0,
    {
        Timestamp(0)
    }

    /// The number of milliseconds since the epoch.
    pub fn millis(&self) -> (r: u64)
        ensures
            r == self.0,
    {
        self.0
    }

    /// How far this instant lies into its round, for rounds of `len` milliseconds.
    pub fn round_offset(self, len: TimeDiff) -> (r: TimeDiff)
        requires
            len.0 > 0,
        ensures
            r.0 == round_offset(self.0 as int, len.0 as int),
    {
        TimeDiff(self.0 % len.0)
    }

    /// The instant at which the round of this instant began, for rounds of `len` milliseconds.
    pub fn round_id(self, len: TimeDiff) -> (r: Timestamp)
        requires
            len.0 > 0,
        ensures
            r.0 == round_id(self.0 as int, len.0 as int),
    {
        let offset: u64 = self.0 % len.0;
        assert(offset <= self.0) by (nonlinear_arith)
            requires
                offset == self.0 % len.0,
                len.0 > 0,
        ;
        Timestamp(self.0 - offset)
    }

    /// The number of whole rounds of `len` milliseconds that lie before this instant.
    pub fn round_number(self, len: TimeDiff) -> (r: u64)
        requires
            len.0 > 0,
        ensures
            r == self.0 as int / len.0 as int,
    {
        self.0 / len.0
    }

    /// The instant `d` later than this one.
    pub fn later_by(self, d: TimeDiff) -> (r: Timestamp)
        requires
            self.0 + d.0 <= u64::MAX,
        ensures
            r.0 == self.0 + d.0,
    {
        Timestamp(self.0 + d.0)
    }
}

impl TimeDiff {
    /// The length in milliseconds.
    pub fn millis(&self) -> (r: u64)
        ensures
            r == self.0,
    {
        self.0
    }
}

impl From<u64> for Timestamp {
    fn from(millis: u64) -> (r: Timestamp) {
        Timestamp(millis)
    }
}

impl FromSpecImpl<u64> for Timestamp {
    open spec fn obeys_from_spec() -> bool {
        true
    }

    open spec fn from_spec(millis: u64) -> Timestamp {
        Timestamp(millis)
    }
}

impl From<u64> for TimeDiff {
    fn from(millis: u64) -> (r: TimeDiff) {
        TimeDiff(millis)
    }
}

impl FromSpecImpl<u64> for TimeDiff {
    open spec fn obeys_from_spec() -> bool {
        true
    }

    open spec fn from_spec(millis: u64) -> TimeDiff {
        TimeDiff(millis)
    }
}

/// The offset of instant `t` within its round: `t mod len`.
pub open spec fn round_offset(t: int, len: int) -> int {
    t % len
}

/// The first instant of the round that holds `t`: `t - (t mod len)`.
pub open spec fn round_id(t: int, len: int) -> int {
    t - t % len
}

/// A round begins at a multiple of its length, and `t` lies inside the round that holds it.
pub proof fn lemma_round_bounds(t: int, len: int)
    requires
        0 <= t,
        0 < len,
    ensures
        0 <= round_offset(t, len) < len,
        0 <= round_id(t, len) <= t < round_id(t, len) + len,
        round_id(t, len) == (t / len) * len,
        round_id(t, len) % len == 0,
{
    assert(t == len * (t / len) + t % len) by (nonlinear_arith)
        requires
            0 < len,
    ;
    assert(0 <= t % len < len) by (nonlinear_arith)
        requires
            0 < len,
    ;
    assert(((t / len) * len) % len == 0) by (nonlinear_arith)
        requires
            0 < len,
    ;
    assert(len * (t / len) == (t / len) * len) by (nonlinear_arith);
}

} // verus!
