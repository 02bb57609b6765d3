//! The bounded display queue: the most recent messages, oldest first.
//!
//! Both loops push every successfully seen message here, and the dashboard
//! reads a snapshot each UI tick. The queue keeps at most
//! [`DISPLAY_CAPACITY`] entries; pushing into a full queue evicts exactly
//! the single oldest one. Concurrent access puts the queue behind one lock,
//! which lives with the caller; every operation here is one short step on
//! the owned state, never held across a suspension point.

use vstd::prelude::*;
use std::collections::VecDeque;
use crate::message::{views_of, DDSMessage, MsgView};

verus! {

/// Capacity of the display queue.
pub const DISPLAY_CAPACITY: usize = 20;

/// The queue after a push: the message is appended, and when the queue is
/// full the single oldest entry leaves first.
pub open spec fn display_after_push(s: Seq<MsgView>, m: MsgView) -> Seq<MsgView> {
    if s.len() >= DISPLAY_CAPACITY {
        s.drop_first().push(m)
    } else {
        s.push(m)
    }
}

/// The display queue never outgrows its capacity: a push into a queue with
/// room appends and keeps everything, and a push into a full queue evicts
/// exactly the single oldest entry, keeping the rest in order.
pub proof fn lemma_display_push_bound(s: Seq<MsgView>, m: MsgView)
    requires
        s.len() <= DISPLAY_CAPACITY,
    ensures
        display_after_push(s, m).len() <= DISPLAY_CAPACITY,
        s.len() < DISPLAY_CAPACITY ==> display_after_push(s, m) == s.push(m),
        s.len() == DISPLAY_CAPACITY ==> display_after_push(s, m) == s.subrange(
            1,
            s.len() as int,
        ).push(m),
{
    if s.len() == DISPLAY_CAPACITY {
        assert(s.drop_first() =~= s.subrange(1, s.len() as int));
    }
}

/// The bounded FIFO of recently seen messages.
pub struct DisplayQueue {
    entries: VecDeque<DDSMessage>,
    /// How many pushes the queue has taken, wrapping around at the type's
    /// limit; the dashboard compares two readings to see whether the queue
    /// changed between them.
    pushes: u64,
}

impl View for DisplayQueue {
    type V = Seq<MsgView>;

    closed spec fn view(&self) -> Seq<MsgView> {
        views_of(self.entries@)
    }
}

impl DisplayQueue {
    /// The queue never holds more than its capacity.
    pub open spec fn wf(&self) -> bool {
        self@.len() <= DISPLAY_CAPACITY
    }

    /// How many pushes the queue has taken so far (wrapping).
    pub closed spec fn push_count(&self) -> u64 {
        self.pushes
    }

    /// A fresh, empty display queue.
    pub fn new() -> (r: Self)
        ensures
            r@ == Seq::<MsgView>::empty(),
            r.wf(),
            r.push_count() == 0,
    {
        let r = DisplayQueue { entries: VecDeque::new(), pushes: 0 };
        proof {
            assert(r@ =~= Seq::<MsgView>::empty());
        }
        r
    }

    /// How many messages the queue currently holds.
    pub fn len(&self) -> (r: usize)
        ensures
            r == self@.len(),
    {
        self.entries.len()
    }

    /// A reading of the push counter: two equal readings mean no push
    /// happened in between (short of the counter wrapping all the way
    /// around).
    pub fn change_stamp(&self) -> (r: u64)
        ensures
            r == self.push_count(),
    {
        self.pushes
    }

    /// Appends one message, evicting the single oldest entry when the queue
    /// is already full.
    pub fn push(&mut self, message: DDSMessage)
        requires
            old(self).wf(),
        ensures
            final(self).wf(),
            final(self)@ == display_after_push(old(self)@, message@),
            final(self).push_count() == if old(self).push_count() == u64::MAX {
                0u64
            } else {
                (old(self).push_count() + 1) as u64
            },
    {
        if self.pushes == u64::MAX {
            self.pushes = 0;
        } else {
            self.pushes = self.pushes + 1;
        }
        self.entries.push_back(message);
        proof {
            assert(self@ =~= old(self)@.push(message@));
        }
        if self.entries.len() > DISPLAY_CAPACITY {
            let _evicted = self.entries.pop_front();
            proof {
                assert(self@ =~= old(self)@.drop_first().push(message@));
            }
        }
    }

    /// An ordered copy of the queue's contents, oldest first, for the
    /// dashboard to render.
    pub fn snapshot(&self) -> (r: Vec<DDSMessage>)
        ensures
            views_of(r@) == self@,
    {
        let n = self.entries.len();
        let mut r: Vec<DDSMessage> = Vec::with_capacity(n);
        let mut i: usize = 0;
        while i < n
            invariant
                n == self.entries@.len(),
                0 <= i <= n,
                views_of(r@) == self@.subrange(0, i as int),
        decreases n - i,
        {
            let item = self.entries[i].duplicate();
            let ghost prev = r@;
            r.push(item);
            proof {
                assert(prev.len() == views_of(prev).len() == i as int);
                assert(r@ == prev.push(item));
                assert forall|j: int| 0 <= j < i + 1 implies views_of(r@)[j] == self@.subrange(
                    0,
                    i + 1,
                )[j] by {
                    if j < i {
                        assert(views_of(prev)[j] == self@.subrange(0, i as int)[j]);
                        assert(r@[j] == prev[j]);
                    } else {
                        assert(r@[j] == item);
                        assert(item@ == self.entries@[i as int]@);
                    }
                }
                assert(views_of(r@) =~= self@.subrange(0, i + 1));
            }
            i += 1;
        }
        proof {
            assert(views_of(r@) =~= self@);
        }
        r
    }
}

} // verus!
