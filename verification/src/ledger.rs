//! The in-flight ledger: the ordered set of request identifiers whose
//! dispatch has started and not yet completed.

use std::collections::BTreeSet;
use vstd::prelude::*;

verus! {

/// A request identifier: the 32 bytes of an event id, read big-endian as a
/// high and a low half. Tuples order lexicographically, so identifiers order
/// as their bytes do.
pub type RequestId = (u128, u128);

/// The set of requests currently being processed.
pub struct InFlightLedger {
    entries: BTreeSet<RequestId>,
}

impl View for InFlightLedger {
    type V = Set<RequestId>;

    closed spec fn view(&self) -> Set<RequestId> {
        self.entries@
    }
}

impl InFlightLedger {
    /// Well-formedness: the ledger holds finitely many identifiers.
    pub closed spec fn wf(&self) -> bool {
        self.entries@.finite()
    }

    /// A well-formed ledger has a finite view.
    pub proof fn lemma_wf_finite(self)
        requires
            self.wf(),
        ensures
            self@.finite(),
    {
    }

    /// An empty ledger.
    pub fn new() -> (ledger: InFlightLedger)
        ensures
            ledger.wf(),
            ledger@ == Set::<RequestId>::empty(),
    {
        InFlightLedger { entries: BTreeSet::new() }
    }

    /// Records that the dispatch of `id` has started. Returns whether `id`
    /// was absent before.
    pub fn begin(&mut self, id: RequestId) -> (fresh: bool)
        requires
            old(self).wf(),
        ensures
            final(self).wf(),
            final(self)@ == old(self)@.insert(id),
            fresh == !old(self)@.contains(id),
            final(self)@.len() == old(self)@.len() + (if fresh { 1nat } else { 0nat }),
    {
        self.entries.insert(id)
    }

    /// Records that the dispatch of `id` has completed. Returns whether `id`
    /// was present before.
    pub fn end(&mut self, id: RequestId) -> (present: bool)
        requires
            old(self).wf(),
        ensures
            final(self).wf(),
            final(self)@ == old(self)@.remove(id),
            present == old(self)@.contains(id),
            final(self)@.len() == old(self)@.len() - (if present { 1nat } else { 0nat }),
    {
        self.entries.remove(&id)
    }

    /// Whether `id` is in flight.
    pub fn contains(&self, id: RequestId) -> (present: bool)
        ensures
            present == self@.contains(id),
    {
        self.entries.contains(&id)
    }

    /// The number of requests in flight.
    pub fn len(&self) -> (n: usize)
        requires
            self.wf(),
        ensures
            n == self@.len(),
    {
        self.entries.len()
    }

    /// Whether no request is in flight.
    pub fn is_empty(&self) -> (empty: bool)
        requires
            self.wf(),
        ensures
            empty == (self@ == Set::<RequestId>::empty()),
            empty == (self@.len() == 0),
    {
        self.entries.is_empty()
    }
}

} // verus!
