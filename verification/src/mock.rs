//! The in-process mock transport: a bounded, consuming ring buffer.
//!
//! The buffer keeps at most [`MOCK_CAPACITY`] messages; publishing into a
//! full buffer evicts the single oldest entry. Receiving removes the head,
//! so each entry is handed out at most once — a single shared consuming
//! queue, not a broadcast. Concurrent access puts this whole system behind
//! one lock, which lives with the caller; every operation here is one short
//! step on the owned state, never held across a suspension point.

use vstd::prelude::*;
use std::collections::VecDeque;
use crate::message::{content_valid, msg_valid, views_of, DDSMessage, MsgView};
use crate::DdsError;

verus! {

/// Capacity of the mock transport's ring buffer.
pub const MOCK_CAPACITY: usize = 100;

/// The ring buffer after a successful publish: the message is appended, and
/// when the buffer is full the single oldest entry leaves first.
pub open spec fn mock_after_publish(s: Seq<MsgView>, m: MsgView) -> Seq<MsgView> {
    if s.len() >= MOCK_CAPACITY {
        s.drop_first().push(m)
    } else {
        s.push(m)
    }
}

/// The ring buffer after a receive: the head leaves; an empty buffer is
/// unchanged.
pub open spec fn mock_after_receive(s: Seq<MsgView>) -> Seq<MsgView> {
    if s.len() == 0 {
        s
    } else {
        s.drop_first()
    }
}

/// What a receive returns: the head, or nothing from an empty buffer.
pub open spec fn mock_front(s: Seq<MsgView>) -> Option<MsgView> {
    if s.len() == 0 {
        None
    } else {
        Some(s[0])
    }
}

/// Publish keeps FIFO order and delivers exactly once: a buffer with room
/// gains the published message at its tail, everything already queued stays,
/// in order, and the buffer holds exactly one more copy of the message than
/// before.
pub proof fn lemma_mock_publish_fifo(s: Seq<MsgView>, m: MsgView)
    requires
        s.len() < MOCK_CAPACITY,
    ensures
        mock_after_publish(s, m) == s.push(m),
        mock_after_publish(s, m).to_multiset() == s.to_multiset().insert(m),
{
    s.to_multiset_ensures();
}

/// Publishing into a full buffer evicts exactly the single oldest entry: the
/// rest stays, in order, with the new message at the tail, and the buffer
/// never outgrows its capacity.
pub proof fn lemma_mock_publish_evicts_oldest(s: Seq<MsgView>, m: MsgView)
    requires
        s.len() == MOCK_CAPACITY,
    ensures
        mock_after_publish(s, m) == s.subrange(1, s.len() as int).push(m),
        mock_after_publish(s, m).len() == MOCK_CAPACITY,
{
    assert(s.drop_first() =~= s.subrange(1, s.len() as int));
}

/// Receive consumes: after any number of receives, the next receive returns
/// the entry at exactly that position, and removes it — so no entry is ever
/// returned twice.
pub proof fn lemma_mock_receive_consumes(s: Seq<MsgView>, n: int)
    requires
        0 <= n < s.len(),
    ensures
        mock_front(s.skip(n)) == Some(s[n]),
        mock_after_receive(s.skip(n)) == s.skip(n + 1),
{
    assert(s.skip(n)[0] == s[n]);
    assert(s.skip(n).drop_first() =~= s.skip(n + 1));
}

/// Receiving from an empty buffer yields nothing and changes nothing, every
/// time.
pub proof fn lemma_mock_receive_empty_idempotent(s: Seq<MsgView>)
    requires
        s.len() == 0,
    ensures
        mock_front(s) is None,
        mock_after_receive(s) == s,
{
}

/// Publish then receive round-trips: with the entries queued before it
/// received first, in FIFO order, the receive that follows them returns the
/// published message itself — content identical — and afterwards the buffer
/// no longer holds it.
pub proof fn lemma_mock_round_trip(s: Seq<MsgView>, m: MsgView)
    requires
        s.len() < MOCK_CAPACITY,
    ensures
        forall|n: int|
            0 <= n < s.len() ==> mock_front(#[trigger] mock_after_publish(s, m).skip(n)) == Some(
                s[n],
            ),
        mock_front(mock_after_publish(s, m).skip(s.len() as int)) == Some(m),
        mock_after_receive(mock_after_publish(s, m).skip(s.len() as int)).len() == 0,
{
    let t = mock_after_publish(s, m);
    assert(t =~= s.push(m));
    assert forall|n: int| 0 <= n < s.len() implies mock_front(#[trigger] t.skip(n)) == Some(
        s[n],
    ) by {
        lemma_mock_receive_consumes(t, n);
    }
    lemma_mock_receive_consumes(t, s.len() as int);
    assert(t.skip(s.len() as int).drop_first() =~= t.skip(s.len() as int + 1));
}

/// The mock transport system: one shared consuming queue of messages.
pub struct MockDDSSystem {
    messages: VecDeque<DDSMessage>,
}

impl View for MockDDSSystem {
    type V = Seq<MsgView>;

    closed spec fn view(&self) -> Seq<MsgView> {
        views_of(self.messages@)
    }
}

impl MockDDSSystem {
    /// The ring buffer never holds more than its capacity.
    pub open spec fn wf(&self) -> bool {
        self@.len() <= MOCK_CAPACITY
    }

    /// A fresh, empty mock system.
    pub fn new() -> (r: Self)
        ensures
            r@ == Seq::<MsgView>::empty(),
            r.wf(),
    {
        let r = MockDDSSystem { messages: VecDeque::new() };
        proof {
            assert(r@ =~= Seq::<MsgView>::empty());
        }
        r
    }

    /// How many messages the buffer currently holds.
    pub fn len(&self) -> (r: usize)
        ensures
            r == self@.len(),
    {
        self.messages.len()
    }

    /// Publishes one message: validates it, appends a copy, and evicts the
    /// oldest entry if the buffer would otherwise exceed its capacity.
    ///
    /// Fails exactly on invalid content (too long, or an embedded zero
    /// byte), leaving the buffer unchanged; both backends enforce the same
    /// ceiling.
    pub fn publish(&mut self, message: &DDSMessage) -> (r: Result<(), DdsError>)
        requires
            old(self).wf(),
        ensures
            final(self).wf(),
            r is Ok <==> msg_valid(message@),
            r is Ok ==> final(self)@ == mock_after_publish(old(self)@, message@),
            r matches Err(e) ==> final(self)@ == old(self)@ && e == DdsError::Serialization,
    {
        if !content_valid(message.content.as_str()) {
            return Err(DdsError::Serialization);
        }
        self.messages.push_back(message.duplicate());
        proof {
            assert(self@ =~= old(self)@.push(message@));
        }
        if self.messages.len() > MOCK_CAPACITY {
            let _evicted = self.messages.pop_front();
            proof {
                assert(self@ =~= old(self)@.drop_first().push(message@));
            }
        }
        Ok(())
    }

    /// Receives one message: removes and returns the oldest entry, or
    /// returns nothing — leaving the buffer untouched — when it is empty.
    pub fn receive(&mut self) -> (r: Option<DDSMessage>)
        ensures
            final(self)@ == mock_after_receive(old(self)@),
            r is Some <==> old(self)@.len() > 0,
            r matches Some(m) ==> m@ == old(self)@[0],
            old(self).wf() ==> final(self).wf(),
    {
        let r = self.messages.pop_front();
        proof {
            if old(self)@.len() > 0 {
                assert(self@ =~= old(self)@.drop_first());
            } else {
                assert(self@ =~= old(self)@);
            }
        }
        r
    }
}

} // verus!
