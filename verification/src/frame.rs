//! Frames whose bytes are held in place, such as the few bytes of a length.

use vstd::prelude::*;
use vstd::slice::slice_subrange;
use vstd::std_specs::convert::FromSpecImpl;

verus! {

/// A frame of bytes that are held in place, together with the place up to which they have
/// been read.
#[derive(Debug)]
pub struct ImmediateFrame<A> {
    /// How much of the frame has been read.
    pos: usize,
    /// The bytes of the frame.
    value: A,
}

impl<A> ImmediateFrame<A> {
    /// A frame that holds `value`, of which nothing has been read.
    #[inline]
    pub fn new(value: A) -> (r: Self)
        ensures
            r.pos() == 0,
            r.value() == value,
    {
        Self { pos: 0, value }
    }

    /// How much of the frame has been read.
    pub closed spec fn pos(&self) -> usize {
        self.pos
    }

    /// What the frame holds.
    pub closed spec fn value(&self) -> A {
        self.value
    }
}

impl<const N: usize> ImmediateFrame<[u8; N]> {
    /// The invariant: no more has been read than there is.
    pub open spec fn wf(&self) -> bool {
        self.pos() <= N
    }

    /// The bytes that have not been read yet.
    pub open spec fn unread(&self) -> Seq<u8> {
        self.value()@.subrange(self.pos() as int, N as int)
    }

    /// The number of bytes that have not been read yet.
    pub fn remaining(&self) -> (r: usize)
        requires
            self.wf(),
        ensures
            r == self.unread().len(),
            r == N - self.pos(),
    {
        N - self.pos
    }

    /// The bytes that have not been read yet.
    pub fn chunk(&self) -> (r: &[u8])
        requires
            self.wf(),
        ensures
            r@ == self.unread(),
    {
        slice_subrange(self.value.as_slice(), self.pos, N)
    }

    /// Marks the next `cnt` bytes as read, or all that are left if they are fewer.
    pub fn advance(&mut self, cnt: usize)
        requires
            old(self).wf(),
        ensures
            final(self).wf(),
            final(self).value() == old(self).value(),
            final(self).pos() == if cnt <= N - old(self).pos() {
                old(self).pos() + cnt
            } else {
                N as int
            },
            final(self).unread() == old(self).unread().skip(
                if cnt <= old(self).unread().len() {
                    cnt as int
                } else {
                    old(self).unread().len() as int
                },
            ),
    {
        if cnt <= N - self.pos {
            self.pos = self.pos + cnt;
        } else {
            self.pos = N;
        }
        assert(self.unread() =~= old(self).unread().skip(
            if cnt <= old(self).unread().len() {
                cnt as int
            } else {
                old(self).unread().len() as int
            },
        ));
    }
}

/// The bytes of `value`, the lowest first.
pub open spec fn le_bytes(value: nat, len: nat) -> Seq<u8>
    decreases len,
{
    if len == 0 {
        Seq::empty()
    } else {
        seq![(value % 256) as u8] + le_bytes(value / 256, (len - 1) as nat)
    }
}

impl From<u8> for ImmediateFrame<[u8; 1]> {
    /// The frame of the one byte `value`.
    #[inline]
    fn from(value: u8) -> (r: Self)
        ensures
            r.pos() == 0,
            r.value()@ == le_bytes(value as nat, 1),
    {
        let bytes: [u8; 1] = [value];
        proof {
            reveal_with_fuel(le_bytes, 2);
            assert(bytes@ =~= le_bytes(value as nat, 1));
        }
        ImmediateFrame::new(bytes)
    }
}

impl FromSpecImpl<u8> for ImmediateFrame<[u8; 1]> {
    open spec fn obeys_from_spec() -> bool {
        true
    }

    closed spec fn from_spec(value: u8) -> Self {
        ImmediateFrame { pos: 0, value: [value] }
    }
}

impl From<u16> for ImmediateFrame<[u8; 2]> {
    /// The frame of the two bytes of `value`, the lower one first.
    #[inline]
    fn from(value: u16) -> (r: Self)
        ensures
            r.pos() == 0,
            r.value()@ == le_bytes(value as nat, 2),
    {
        let bytes: [u8; 2] = [(value % 256) as u8, (value / 256) as u8];
        proof {
            reveal_with_fuel(le_bytes, 3);
            assert(bytes@ =~= le_bytes(value as nat, 2));
        }
        ImmediateFrame::new(bytes)
    }
}

impl FromSpecImpl<u16> for ImmediateFrame<[u8; 2]> {
    open spec fn obeys_from_spec() -> bool {
        true
    }

    closed spec fn from_spec(value: u16) -> Self {
        ImmediateFrame { pos: 0, value: [(value % 256) as u8, (value / 256) as u8] }
    }
}

impl From<u32> for ImmediateFrame<[u8; 4]> {
    /// The frame of the four bytes of `value`, the lowest first.
    #[inline]
    fn from(value: u32) -> (r: Self)
        ensures
            r.pos() == 0,
            r.value()@ == le_bytes(value as nat, 4),
    {
        let bytes: [u8; 4] = [
            (value % 256) as u8,
            (value / 256 % 256) as u8,
            (value / 65536 % 256) as u8,
            (value / 16777216) as u8,
        ];
        proof {
            reveal_with_fuel(le_bytes, 5);
            assert(bytes@ =~= le_bytes(value as nat, 4));
        }
        ImmediateFrame::new(bytes)
    }
}

impl FromSpecImpl<u32> for ImmediateFrame<[u8; 4]> {
    open spec fn obeys_from_spec() -> bool {
        true
    }

    closed spec fn from_spec(value: u32) -> Self {
        ImmediateFrame {
            pos: 0,
            value: [
                (value % 256) as u8,
                (value / 256 % 256) as u8,
                (value / 65536 % 256) as u8,
                (value / 16777216) as u8,
            ],
        }
    }
}

} // verus!
