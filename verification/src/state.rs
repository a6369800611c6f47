//! The gateway's long-lived state: its identity, the in-flight ledger and
//! the spending policy it carries to the wallet backend.

use crate::event::{eligible, rejection_of, Rejection, RequestEvent, RequestEventView};
use crate::ledger::{InFlightLedger, RequestId};
use vstd::prelude::*;

verus! {

/// Seconds a backend invocation may take before it counts as timed out.
pub const REQUEST_TIMEOUT_SECS: u64 = 60;

/// Seconds between two looks at the ledger while draining.
pub const DRAIN_POLL_SECS: u64 = 1;

/// The spending policy handed to the wallet backend. The gateway carries it
/// and does not enforce it.
#[derive(Clone, Copy, Debug, PartialEq, Eq, Structural)]
pub struct NwcConfig {
    pub max_amount: u64,
    pub daily_limit: u64,
}

/// An accepted request, ready for the wallet backend.
#[derive(Clone, Copy, Debug, PartialEq, Eq)]
pub struct Invocation {
    /// The request's identifier, now in the ledger.
    pub id: RequestId,
    /// The bound on the backend call, in seconds.
    pub timeout_secs: u64,
}

/// How a backend invocation ended.
#[derive(Clone, Copy, Debug, PartialEq, Eq, Structural)]
pub enum Outcome {
    /// The backend returned a response.
    Success,
    /// The backend returned an error.
    BackendError,
    /// The bound elapsed before the backend returned.
    TimedOut,
}

/// A failed invocation, to be logged as an error.
#[derive(Clone, Copy, Debug, PartialEq, Eq, Structural)]
pub enum Failure {
    /// The backend returned an error.
    Backend,
    /// The invocation timed out: a backend failure of its own kind.
    Timeout,
}

/// The failure that an outcome amounts to, if any.
pub open spec fn failure_of(outcome: Outcome) -> Option<Failure> {
    match outcome {
        Outcome::Success => None,
        Outcome::BackendError => Some(Failure::Backend),
        Outcome::TimedOut => Some(Failure::Timeout),
    }
}

/// What one look at the ledger found while draining.
#[derive(Clone, Copy, Debug, PartialEq, Eq, Structural)]
pub enum DrainStatus {
    /// No request is in flight.
    Drained,
    /// `pending` requests are in flight: look again after `poll_secs`.
    Pending { pending: usize, poll_secs: u64 },
}

/// The ledger after an event has been handled: an accepted event's
/// identifier is added, a rejected event changes nothing.
pub open spec fn ledger_after_event(
    ledger: Set<RequestId>,
    ev: RequestEventView,
    identity: Seq<u8>,
) -> Set<RequestId> {
    if eligible(ev, identity) {
        ledger.insert(ev.id)
    } else {
        ledger
    }
}

/// What handling an event returns: the invocation of an accepted event, or
/// the reason an event was dropped.
pub open spec fn dispatch_of(ev: RequestEventView, identity: Seq<u8>) -> Result<
    Invocation,
    Rejection,
> {
    match rejection_of(ev, identity) {
        None => Ok(Invocation { id: ev.id, timeout_secs: REQUEST_TIMEOUT_SECS }),
        Some(why) => Err(why),
    }
}

/// What a look at a ledger reports while draining.
pub open spec fn drain_status_of(ledger: Set<RequestId>) -> DrainStatus {
    if ledger.len() == 0 {
        DrainStatus::Drained
    } else {
        DrainStatus::Pending { pending: ledger.len() as usize, poll_secs: DRAIN_POLL_SECS }
    }
}

/// The gateway's state.
pub struct AppState {
    identity: [u8; 32],
    active_requests: InFlightLedger,
    nwc_config: NwcConfig,
}

impl AppState {
    /// Well-formedness: the ledger is well-formed.
    pub closed spec fn wf(&self) -> bool {
        self.active_requests.wf()
    }

    /// The gateway's public identity.
    pub closed spec fn spec_identity(&self) -> Seq<u8> {
        self.identity@
    }

    /// The identifiers in flight.
    pub closed spec fn in_flight(&self) -> Set<RequestId> {
        self.active_requests@
    }

    /// The policy record.
    pub closed spec fn spec_nwc_config(&self) -> NwcConfig {
        self.nwc_config
    }

    /// In a well-formed state finitely many requests are in flight.
    pub proof fn lemma_in_flight_finite(self)
        requires
            self.wf(),
        ensures
            self.in_flight().finite(),
    {
        self.active_requests.lemma_wf_finite();
    }

    /// A state for the gateway `identity` with an empty ledger and the given
    /// policy.
    pub fn new(identity: [u8; 32], max_amount: u64, daily_limit: u64) -> (state: AppState)
        ensures
            state.wf(),
            state.spec_identity() == identity@,
            state.in_flight() == Set::<RequestId>::empty(),
            state.spec_nwc_config() == (NwcConfig { max_amount, daily_limit }),
    {
        AppState {
            identity,
            active_requests: InFlightLedger::new(),
            nwc_config: NwcConfig { max_amount, daily_limit },
        }
    }

    /// The gateway's public identity.
    pub fn identity(&self) -> (identity: &[u8; 32])
        ensures
            identity@ == self.spec_identity(),
    {
        &self.identity
    }

    /// The policy record.
    pub fn nwc_config(&self) -> (config: NwcConfig)
        ensures
            config == self.spec_nwc_config(),
    {
        self.nwc_config
    }

    /// The number of requests in flight.
    pub fn active_count(&self) -> (n: usize)
        requires
            self.wf(),
        ensures
            n == self.in_flight().len(),
    {
        self.active_requests.len()
    }

    /// Whether request `id` is in flight.
    pub fn is_active(&self, id: RequestId) -> (active: bool)
        ensures
            active == self.in_flight().contains(id),
    {
        self.active_requests.contains(id)
    }

    /// Authenticates `event` and, if it is accepted, enters it in the ledger and returns the backend invocation
    /// to make. A rejected event is dropped: the ledger stays as it was and
    /// no invocation is returned.
    pub fn handle_event(&mut self, event: &RequestEvent) -> (dispatch: Result<Invocation, Rejection>)
        requires
            old(self).wf(),
        ensures
            final(self).wf(),
            final(self).spec_identity() == old(self).spec_identity(),
            final(self).spec_nwc_config() == old(self).spec_nwc_config(),
            dispatch == dispatch_of(event@, old(self).spec_identity()),
            dispatch is Ok <==> eligible(event@, old(self).spec_identity()),
            final(self).in_flight() == ledger_after_event(
                old(self).in_flight(),
                event@,
                old(self).spec_identity(),
            ),
    {
        match event.authenticate(&self.identity) {
            Ok(()) => {
                self.active_requests.begin(event.id);
                Ok(Invocation { id: event.id, timeout_secs: REQUEST_TIMEOUT_SECS })
            },
            Err(why) => Err(why),
        }
    }

    /// Clears request `id` from the ledger once its backend invocation has
    /// ended, however it ended, and returns the failure to log, if the
    /// invocation failed.
    pub fn complete_request(&mut self, id: RequestId, outcome: Outcome) -> (failure: Option<Failure>)
        requires
            old(self).wf(),
        ensures
            final(self).wf(),
            final(self).spec_identity() == old(self).spec_identity(),
            final(self).spec_nwc_config() == old(self).spec_nwc_config(),
            final(self).in_flight() == old(self).in_flight().remove(id),
            failure == failure_of(outcome),
    {
        self.active_requests.end(id);
        match outcome {
            Outcome::Success => None,
            Outcome::BackendError => Some(Failure::Backend),
            Outcome::TimedOut => Some(Failure::Timeout),
        }
    }

    /// One look at the ledger while draining: reports whether every request
    /// has completed, or how many are pending and how long to wait before
    /// looking again. The state is not changed.
    pub fn wait_for_active_requests(&self) -> (status: DrainStatus)
        requires
            self.wf(),
        ensures
            status == drain_status_of(self.in_flight()),
            status is Drained <==> self.in_flight() == Set::<RequestId>::empty(),
    {
        if self.active_requests.is_empty() {
            DrainStatus::Drained
        } else {
            DrainStatus::Pending {
                pending: self.active_requests.len(),
                poll_secs: DRAIN_POLL_SECS,
            }
        }
    }
}

} // verus!
