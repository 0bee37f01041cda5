//! A sink for tests, which takes bytes and can be obstructed.
//!
//! ```text
//!   item ->   (plugged?)   [ bytes taken so far ]   -> (clogged?) -> flushed
//! ```
//!
//! A plug keeps items from going in; a clog lets them in but keeps the sink from
//! reporting that it has flushed. This stands for a sink on a slow or busy connection.

use vstd::prelude::*;

verus! {

/// Whether an operation of a sink has come to an end.
#[derive(Clone, Copy, Debug, PartialEq, Eq, Structural)]
pub enum Readiness {
    /// The operation cannot go on for now.
    Pending,
    /// The operation is done.
    Ready,
}

/// A sink that keeps all it is sent, and that can be plugged and clogged.
#[derive(Debug)]
pub struct TestingSink {
    /// Whether a plug keeps items from going in.
    plugged: bool,
    /// Whether a clog keeps the sink from flushing.
    clogged: bool,
    /// All the bytes taken so far.
    buffer: Vec<u8>,
}

impl TestingSink {
    /// Whether the sink is plugged.
    pub closed spec fn plugged(&self) -> bool {
        self.plugged
    }

    /// Whether the sink is clogged.
    pub closed spec fn clogged(&self) -> bool {
        self.clogged
    }

    /// The bytes taken so far.
    pub closed spec fn contents(&self) -> Seq<u8> {
        self.buffer@
    }

    /// A sink that has taken nothing and is neither plugged nor clogged.
    pub fn new() -> (r: Self)
        ensures
            !r.plugged(),
            !r.clogged(),
            r.contents() == Seq::<u8>::empty(),
    {
        TestingSink { plugged: false, clogged: false, buffer: Vec::new() }
    }

    /// Puts the plug in or takes it out. Returns whether those who wait for the sink are
    /// to be woken: they are when the plug is out.
    pub fn set_plugged(&mut self, plugged: bool) -> (wake: bool)
        ensures
            final(self).plugged() == plugged,
            final(self).clogged() == old(self).clogged(),
            final(self).contents() == old(self).contents(),
            wake == !plugged,
    {
        self.plugged = plugged;
        !plugged
    }

    /// Puts the clog in or takes it out. Returns whether those who wait for the sink are
    /// to be woken: they are when the clog is out.
    pub fn set_clogged(&mut self, clogged: bool) -> (wake: bool)
        ensures
            final(self).clogged() == clogged,
            final(self).plugged() == old(self).plugged(),
            final(self).contents() == old(self).contents(),
            wake == !clogged,
    {
        self.clogged = clogged;
        !clogged
    }

    /// Whether the sink is plugged.
    pub fn is_plugged(&self) -> (r: bool)
        ensures
            r == self.plugged(),
    {
        self.plugged
    }

    /// Whether the sink is clogged.
    pub fn is_clogged(&self) -> (r: bool)
        ensures
            r == self.clogged(),
    {
        self.clogged
    }

    /// A copy of the bytes taken so far.
    pub fn get_contents(&self) -> (r: Vec<u8>)
        ensures
            r@ == self.contents(),
    {
        let mut copy: Vec<u8> = Vec::new();
        let mut i: usize = 0;
        while i < self.buffer.len()
            invariant
                i <= self.buffer@.len(),
                copy@ == self.buffer@.subrange(0, i as int),
            decreases self.buffer@.len() - i,
        {
            copy.push(self.buffer[i]);
            assert(copy@ == self.buffer@.subrange(0, i + 1));
            i += 1;
        }
        assert(self.buffer@.subrange(0, self.buffer@.len() as int) == self.buffer@);
        copy
    }

    /// Whether an item can go in: not while the sink is plugged.
    pub fn sink_poll_ready(&self) -> (r: Readiness)
        ensures
            r == (if self.plugged() {
                Readiness::Pending
            } else {
                Readiness::Ready
            }),
    {
        if self.is_plugged() {
            Readiness::Pending
        } else {
            Readiness::Ready
        }
    }

    /// Takes the bytes of `item`, behind all that was taken before.
    pub fn sink_start_send(&mut self, item: &[u8])
        ensures
            final(self).contents() == old(self).contents() + item@,
            final(self).plugged() == old(self).plugged(),
            final(self).clogged() == old(self).clogged(),
    {
        let mut i: usize = 0;
        while i < item.len()
            invariant
                i <= item@.len(),
                self.buffer@ == old(self).buffer@ + item@.subrange(0, i as int),
                self.plugged == old(self).plugged,
                self.clogged == old(self).clogged,
            decreases item@.len() - i,
        {
            self.buffer.push(item[i]);
            assert(self.buffer@ == old(self).buffer@ + item@.subrange(0, i + 1));
            i += 1;
        }
        assert(item@.subrange(0, item@.len() as int) == item@);
    }

    /// Whether all that was taken has been flushed: not while the sink is clogged.
    pub fn sink_poll_flush(&self) -> (r: Readiness)
        ensures
            r == (if self.clogged() {
                Readiness::Pending
            } else {
                Readiness::Ready
            }),
    {
        if self.is_clogged() {
            Readiness::Pending
        } else {
            Readiness::Ready
        }
    }

    /// Whether the sink has closed. There is nothing to close, so this is the same as
    /// flushing.
    pub fn sink_poll_close(&self) -> (r: Readiness)
        ensures
            r == (if self.clogged() {
                Readiness::Pending
            } else {
                Readiness::Ready
            }),
    {
        self.sink_poll_flush()
    }
}

} // verus!
