//! Bounded, append-only history of submitted input lines.
//!
//! The ring keeps insertion order, holds at most [`HISTORY_LENGTH`]
//! entries, and evicts the oldest entry first when full.  Entries are
//! never mutated after insertion.

use vstd::prelude::*;

verus! {

/// Capacity of the history ring.
pub const HISTORY_LENGTH: usize = 1000;

/// One submission appended to a history model: the new entry goes to
/// the back, and the oldest entry leaves if the ring is full.
pub open spec fn ring_push(h: Seq<Seq<char>>, t: Seq<char>) -> Seq<Seq<char>> {
    if h.len() < HISTORY_LENGTH {
        h.push(t)
    } else {
        h.skip(1).push(t)
    }
}

/// The history model after a whole sequence of submissions, starting
/// from an empty ring.
pub open spec fn ring_fold(subs: Seq<Seq<char>>) -> Seq<Seq<char>>
    decreases subs.len(),
{
    if subs.len() == 0 {
        Seq::empty()
    } else {
        ring_push(ring_fold(subs.drop_last()), subs.last())
    }
}

/// Bounded FIFO buffer of submitted lines.
pub struct HistoryRing {
    /// Entries, oldest first.
    pub entries: Vec<Vec<char>>,
}

impl HistoryRing {
    /// The ring never holds more than its capacity.
    pub open spec fn wf(&self) -> bool {
        self.entries@.len() <= HISTORY_LENGTH
    }

    /// The stored lines as mathematical sequences, oldest first.
    pub open spec fn model(&self) -> Seq<Seq<char>> {
        self.entries@.map_values(|e: Vec<char>| e@)
    }

    /// An empty ring.
    pub fn new() -> (r: HistoryRing)
        ensures
            r.wf(),
            r.model() == Seq::<Seq<char>>::empty(),
    {
        let r = HistoryRing { entries: Vec::new() };
        proof {
            assert(r.model() =~= Seq::<Seq<char>>::empty());
        }
        r
    }

    /// Number of stored entries.
    pub fn len(&self) -> (r: usize)
        ensures
            r == self.model().len(),
    {
        self.entries.len()
    }

    /// The entry at `i`, oldest first.
    pub fn entry(&self, i: usize) -> (r: &Vec<char>)
        requires
            i < self.model().len(),
        ensures
            r@ == self.model()[i as int],
    {
        &self.entries[i]
    }

    /// Appends a submitted line, evicting the oldest entry when the
    /// ring is at capacity.
    pub fn push(&mut self, t: Vec<char>)
        requires
            old(self).wf(),
        ensures
            final(self).wf(),
            final(self).model() == ring_push(old(self).model(), t@),
            final(self).model().len() == if old(self).model().len() < HISTORY_LENGTH {
                old(self).model().len() + 1
            } else {
                HISTORY_LENGTH as nat
            },
    {
        if self.entries.len() >= HISTORY_LENGTH {
            let _evicted = self.entries.remove(0);
            proof {
                assert(self.entries@ =~= old(self).entries@.skip(1));
                assert(self.model() =~= old(self).model().skip(1));
            }
            self.entries.push(t);
            proof {
                assert(self.model() =~= old(self).model().skip(1).push(t@));
            }
        } else {
            self.entries.push(t);
            proof {
                assert(self.model() =~= old(self).model().push(t@));
            }
        }
    }
}

/// History bound: after any sequence of submissions into an empty ring,
/// the ring holds the last `min(N, HISTORY_LENGTH)` submitted lines, in
/// submission order — the oldest lines were evicted first.
pub proof fn lemma_history_bound(subs: Seq<Seq<char>>)
    ensures
        ring_fold(subs) == subs.skip(
            if subs.len() <= HISTORY_LENGTH {
                0
            } else {
                subs.len() - HISTORY_LENGTH
            },
        ),
        ring_fold(subs).len() == if subs.len() <= HISTORY_LENGTH {
            subs.len() as int
        } else {
            HISTORY_LENGTH as int
        },
    decreases subs.len(),
{
    if subs.len() == 0 {
        assert(ring_fold(subs) =~= subs.skip(0));
    } else {
        let head = subs.drop_last();
        lemma_history_bound(head);
        if subs.len() <= HISTORY_LENGTH {
            assert(ring_fold(head) == head.skip(0));
            assert(head.skip(0) =~= head);
            assert(ring_fold(subs) == head.push(subs.last()));
            assert(head.push(subs.last()) =~= subs.skip(0));
        } else {
            let cut = subs.len() - HISTORY_LENGTH;
            if head.len() <= HISTORY_LENGTH {
                // exactly one over capacity: the fold of the head is the
                // whole head, and the push evicts its first entry
                assert(ring_fold(head) == head.skip(0));
                assert(head.skip(0) =~= head);
                assert(ring_fold(head).len() == HISTORY_LENGTH);
                assert(ring_fold(subs) == head.skip(1).push(subs.last()));
                assert(head.skip(1).push(subs.last()) =~= subs.skip(cut));
            } else {
                assert(ring_fold(head) == head.skip(head.len() - HISTORY_LENGTH));
                assert(ring_fold(head).len() == HISTORY_LENGTH);
                assert(ring_fold(subs) == ring_fold(head).skip(1).push(subs.last()));
                assert(head.skip(head.len() - HISTORY_LENGTH).skip(1).push(subs.last()) =~= subs.skip(
                    cut,
                ));
            }
        }
    }
}

} // verus!
