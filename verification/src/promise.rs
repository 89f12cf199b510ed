//! Request/response correlation tables.
//!
//! An outbound request registers its correlation id against a fresh
//! one-shot completion slot; the matching response fulfills the slot
//! exactly once and removes the entry. A response with no waiter (the
//! caller timed out and evicted its entry, or never registered) is silently
//! dropped. A waiter whose receiving end is abandoned counts as cancelled,
//! never as a fault of the sender.
//!
//! Two independent instances serve the session core: the main table for
//! decoded response packets and a secondary one for integer delivery
//! receipts; their id spaces are disjoint by construction.

use vstd::prelude::*;

use crate::assoc::AssocMap;
use crate::channels::{oneshot_channel, oneshot_send};
use crate::errors::SessionError;

verus! {

/// Maps a live correlation id to the one-shot slot its waiter holds.
#[verifier::reject_recursive_types(T)]
pub struct CorrelationTable<T> {
    slots: AssocMap<tokio::sync::oneshot::Sender<T>>,
}

impl<T> CorrelationTable<T> {
    /// Well-formedness of the backing store.
    pub closed spec fn wf(self) -> bool {
        self.slots.wf()
    }

    /// The correlation ids with a live waiter. At most one entry exists
    /// per id; an id returns only after its entry was fulfilled, cancelled
    /// or evicted.
    pub closed spec fn pending(self) -> Set<i64> {
        self.slots@.dom()
    }

    /// An empty table.
    pub fn new() -> (r: CorrelationTable<T>)
        ensures
            r.wf(),
            r.pending() == Set::<i64>::empty(),
    {
        CorrelationTable { slots: AssocMap::new() }
    }

    /// Whether `id` has a live waiter.
    pub fn is_pending(&self, id: i32) -> (r: bool)
        requires
            self.wf(),
        ensures
            r == self.pending().contains(id as i64),
    {
        self.slots.contains_key(id as i64)
    }

    /// Number of live waiters.
    pub fn pending_count(&self) -> (r: usize)
        requires
            self.wf(),
        ensures
            r == self.pending().len(),
    {
        self.slots.len()
    }

    /// Registers a fresh completion slot for `id` and hands back the end
    /// that will receive the value. Fails — signalling a logic error in id
    /// allocation, since unique allocation rules it out — exactly when `id`
    /// already has a live waiter; the table is then unchanged.
    pub fn register(&mut self, id: i32) -> (r: Result<
        tokio::sync::oneshot::Receiver<T>,
        SessionError,
    >)
        requires
            old(self).wf(),
        ensures
            final(self).wf(),
            old(self).pending().contains(id as i64) ==> (r matches Err(e) && e
                == SessionError::DuplicateCorrelationId && final(self).pending() == old(
                self,
            ).pending()),
            !old(self).pending().contains(id as i64) ==> r is Ok && final(self).pending() == old(
                self,
            ).pending().insert(id as i64),
    {
        if self.slots.contains_key(id as i64) {
            Err(SessionError::DuplicateCorrelationId)
        } else {
            let (tx, rx) = oneshot_channel();
            self.slots.insert(id as i64, tx);
            proof {
                assert(self.slots@.dom() =~= old(self).slots@.dom().insert(id as i64));
            }
            Ok(rx)
        }
    }

    /// Removes the waiter for `id`, if any, and fulfills its slot with
    /// `value`. Returns whether a waiter existed; a response with no
    /// waiter, and a waiter whose receiving end was dropped, are both
    /// silently dropped.
    pub fn resolve(&mut self, id: i32, value: T) -> (r: bool)
        requires
            old(self).wf(),
        ensures
            final(self).wf(),
            r == old(self).pending().contains(id as i64),
            final(self).pending() == old(self).pending().remove(id as i64),
    {
        let removed = self.slots.remove(id as i64);
        proof {
            assert(self.slots@.dom() =~= old(self).slots@.dom().remove(id as i64));
        }
        match removed {
            Some(tx) => {
                let _ = oneshot_send(tx, value);
                true
            },
            None => false,
        }
    }

    /// Evicts the waiter for `id` without fulfilling it; its receiving end
    /// observes cancellation. A caller that times out must evict its own
    /// entry this way before treating the request as failed, so the id can
    /// be reused after wraparound without collision.
    pub fn cancel(&mut self, id: i32)
        requires
            old(self).wf(),
        ensures
            final(self).wf(),
            final(self).pending() == old(self).pending().remove(id as i64),
    {
        let removed = self.slots.remove(id as i64);
        proof {
            assert(self.slots@.dom() =~= old(self).slots@.dom().remove(id as i64));
        }
        let _ = removed;
    }
}

/// Law of one-shot resolution: once registered, an id has its waiter until
/// the first resolution removes it, so a value is yielded to the original
/// waiter exactly once — by `resolve`'s contract, a second resolution with
/// no re-registration finds no waiter and reports so.
pub proof fn lemma_resolve_exactly_once(pending: Set<i64>, id: i64)
    ensures
        pending.insert(id).contains(id),
        !pending.insert(id).remove(id).contains(id),
{
}

} // verus!
