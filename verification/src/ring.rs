//! Bounded FIFO store of the most recent serialized activity records.
//!
//! A push on a full buffer evicts the oldest entry, so the buffer never
//! holds more than `RING_CAPACITY` records.  Reading returns the most
//! recent entries in chronological order and never blocks the writer for
//! longer than the copy.

use vstd::prelude::*;
use std::collections::VecDeque;

verus! {

/// Most records the ring buffer retains at once.
pub const RING_CAPACITY: usize = 200;

/// What one push leaves in the buffer: the new record is appended, and when
/// the buffer already holds `RING_CAPACITY` records the oldest one leaves.
pub open spec fn push_model(s: Seq<String>, v: String) -> Seq<String> {
    if s.len() < RING_CAPACITY {
        s.push(v)
    } else {
        s.subrange(1, s.len() as int).push(v)
    }
}

/// The buffer a sequence of pushes leaves behind, oldest push first.
pub open spec fn push_all_model(s: Seq<String>, vs: Seq<String>) -> Seq<String>
    decreases vs.len(),
{
    if vs.len() == 0 {
        s
    } else {
        push_all_model(push_model(s, vs[0]), vs.subrange(1, vs.len() as int))
    }
}

/// The tail that a read with the given limit returns: the last
/// `min(limit or 50, RING_CAPACITY, len)` records, in chronological order.
pub open spec fn recent_model(s: Seq<String>, limit: Option<usize>) -> Seq<String> {
    let eff = match limit {
        Some(l) => if l < RING_CAPACITY { l as int } else { RING_CAPACITY as int },
        None => 50,
    };
    let k = if eff < s.len() { eff } else { s.len() as int };
    s.subrange(s.len() - k, s.len() as int)
}

pub struct ActivityRing {
    entries: VecDeque<String>,
}

impl View for ActivityRing {
    type V = Seq<String>;

    closed spec fn view(&self) -> Seq<String> {
        self.entries@
    }
}

impl ActivityRing {
    /// The buffer never exceeds its capacity.
    pub open spec fn wf(&self) -> bool {
        self@.len() <= RING_CAPACITY
    }

    pub fn new() -> (r: ActivityRing)
        ensures
            r@ == Seq::<String>::empty(),
            r.wf(),
    {
        ActivityRing { entries: VecDeque::with_capacity(RING_CAPACITY) }
    }

    pub fn len(&self) -> (n: usize)
        ensures
            n == self@.len(),
    {
        self.entries.len()
    }

    /// Appends a record, evicting the oldest one when the buffer is full.
    pub fn push(&mut self, v: String)
        requires
            old(self).wf(),
        ensures
            final(self)@ == push_model(old(self)@, v),
            final(self).wf(),
    {
        self.entries.push_back(v);
        if self.entries.len() > RING_CAPACITY {
            self.entries.pop_front();
            proof {
                assert(final(self)@ =~= push_model(old(self)@, v));
            }
        }
    }

    /// The most recent records, oldest first; `limit` defaults to 50 and is
    /// capped at the capacity.
    pub fn get_recent(&self, limit: Option<usize>) -> (r: Vec<String>)
        ensures
            r@ == recent_model(self@, limit),
    {
        let eff: usize = match limit {
            Some(l) => if l < RING_CAPACITY { l } else { RING_CAPACITY },
            None => 50,
        };
        let len = self.entries.len();
        let k = if eff < len { eff } else { len };
        let start = len - k;
        let mut r: Vec<String> = Vec::new();
        let mut i = start;
        while i < len
            invariant
                start <= i <= len,
                len == self@.len(),
                start == len - k,
                r@ == self@.subrange(start as int, i as int),
            decreases len - i,
        {
            r.push(self.entries[i].clone());
            proof {
                assert(r@ =~= self@.subrange(start as int, i + 1 as int));
            }
            i = i + 1;
        }
        proof {
            assert(r@ =~= recent_model(self@, limit));
        }
        r
    }

    /// Empties the buffer; the durable log is not touched.
    pub fn clear(&mut self)
        ensures
            final(self)@ == Seq::<String>::empty(),
            final(self).wf(),
    {
        self.entries.clear();
    }
}

/// A push never grows the buffer past its capacity, and on a full buffer it
/// is exactly the oldest record that leaves.
pub proof fn lemma_push_bounded(s: Seq<String>, v: String)
    requires
        s.len() <= RING_CAPACITY,
    ensures
        push_model(s, v).len() <= RING_CAPACITY,
        s.len() < RING_CAPACITY ==> push_model(s, v) == s.push(v),
        s.len() == RING_CAPACITY ==> push_model(s, v) == s.subrange(1, s.len() as int).push(v),
{
}

/// For every sequence of pushes, a buffer within capacity stays within
/// capacity.
pub proof fn lemma_push_all_bounded(s: Seq<String>, vs: Seq<String>)
    requires
        s.len() <= RING_CAPACITY,
    ensures
        push_all_model(s, vs).len() <= RING_CAPACITY,
    decreases vs.len(),
{
    if vs.len() > 0 {
        lemma_push_bounded(s, vs[0]);
        lemma_push_all_bounded(push_model(s, vs[0]), vs.subrange(1, vs.len() as int));
    }
}

/// Round trip: a pushed record sits verbatim at the end of the buffer, a
/// read with a sufficient limit returns it as the last entry, and every
/// record that survives the push keeps its place and order.
pub proof fn lemma_push_round_trip(s: Seq<String>, v: String, limit: usize)
    requires
        s.len() <= RING_CAPACITY,
        1 <= limit <= RING_CAPACITY,
    ensures
        push_model(s, v).last() == v,
        recent_model(push_model(s, v), Some(limit)).last() == v,
        forall|i: int| 0 <= i < s.len() && (s.len() < RING_CAPACITY || i >= 1)
            ==> push_model(s, v)[i - (if s.len() < RING_CAPACITY { 0int } else { 1int })] == s[i],
        limit >= push_model(s, v).len() ==> recent_model(push_model(s, v), Some(limit)) == push_model(s, v),
{
    let t = push_model(s, v);
    assert(t.last() == v);
    let r = recent_model(t, Some(limit));
    assert(r.last() == v);
    if limit >= t.len() {
        assert(recent_model(t, Some(limit)) =~= t);
    }
}

} // verus!
