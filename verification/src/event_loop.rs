//! The notification loop as a state machine: one input in, one action out.
//!
//! The caller waits on the termination signal, the transport and the
//! backend, hands each thing that happens to [`EventLoop::step`], and
//! performs the action it gets back.

use crate::event::{Rejection, RequestEvent};
use crate::ledger::RequestId;
use crate::state::{
    dispatch_of, drain_status_of, failure_of, AppState, DrainStatus, Failure, Invocation, Outcome,
};
use vstd::prelude::*;

verus! {

/// Where the loop stands.
#[derive(Clone, Copy, Debug, PartialEq, Eq, Structural)]
pub enum LoopState {
    /// Taking notifications.
    Running,
    /// Terminating: no intake, waiting for the ledger to empty.
    Draining,
    /// Done: the transport is to be disconnected.
    Stopped,
}

/// What the transport delivers.
#[derive(Debug, PartialEq, Eq)]
pub enum Notification {
    /// A protocol event.
    Event(RequestEvent),
    /// The transport has shut down.
    Shutdown,
    /// Any other notice.
    Other,
}

/// One thing that happens to the loop.
#[derive(Debug, PartialEq, Eq)]
pub enum LoopInput {
    /// The operator's termination signal.
    Terminate,
    /// The transport delivered a notification.
    Notification(Notification),
    /// The notification stream reported an error.
    ReceiveError,
    /// The backend invocation for request `id` has ended.
    Completed { id: RequestId, outcome: Outcome },
    /// It is time to look at the ledger.
    DrainPoll,
}

/// What the caller is to do next.
#[derive(Clone, Copy, Debug, PartialEq, Eq)]
pub enum LoopAction {
    /// Invoke the wallet backend for an accepted request, within its bound,
    /// and report back with `LoopInput::Completed`.
    Dispatch(Invocation),
    /// The event failed authentication: log it and go on.
    Reject(Rejection),
    /// Not a protocol event: log it as unhandled and go on.
    Unhandled,
    /// Nothing to do: go on.
    Skip,
    /// A request has left the ledger: log its failure, if any, and go on.
    Settle(Option<Failure>),
    /// Stop taking notifications and look at the ledger.
    BeginDrain,
    /// `pending` requests are in flight: look again after `poll_secs`.
    Wait { pending: usize, poll_secs: u64 },
    /// Disconnect the transport and return.
    Disconnect,
}

/// The outcome of one step: the next state, the next ledger, the action.
pub struct Transition {
    pub phase: LoopState,
    pub ledger: Set<RequestId>,
    pub action: LoopAction,
}

/// The loop's transition function.
///
/// A completion clears its request in every state. Otherwise: while running,
/// an event is authenticated and dispatched or fails and is dropped, a
/// shutdown notice stops the loop at once, the termination signal starts the
/// drain; while draining, only a look at the ledger has any effect, and it
/// stops the loop once the ledger is empty; once stopped, nothing has.
pub open spec fn transition(
    identity: Seq<u8>,
    phase: LoopState,
    ledger: Set<RequestId>,
    input: LoopInput,
) -> Transition {
    match (phase, input) {
        (_, LoopInput::Completed { id, outcome }) => Transition {
            phase,
            ledger: ledger.remove(id),
            action: LoopAction::Settle(failure_of(outcome)),
        },
        (LoopState::Running, LoopInput::Terminate) => Transition {
            phase: LoopState::Draining,
            ledger,
            action: LoopAction::BeginDrain,
        },
        (LoopState::Running, LoopInput::Notification(Notification::Event(ev))) => match dispatch_of(
            ev@,
            identity,
        ) {
            Ok(invocation) => Transition {
                phase,
                ledger: ledger.insert(ev.id),
                action: LoopAction::Dispatch(invocation),
            },
            Err(why) => Transition { phase, ledger, action: LoopAction::Reject(why) },
        },
        (LoopState::Running, LoopInput::Notification(Notification::Shutdown)) => Transition {
            phase: LoopState::Stopped,
            ledger,
            action: LoopAction::Disconnect,
        },
        (LoopState::Running, LoopInput::Notification(Notification::Other)) => Transition {
            phase,
            ledger,
            action: LoopAction::Unhandled,
        },
        (LoopState::Draining, LoopInput::DrainPoll) => match drain_status_of(ledger) {
            DrainStatus::Drained => Transition {
                phase: LoopState::Stopped,
                ledger,
                action: LoopAction::Disconnect,
            },
            DrainStatus::Pending { pending, poll_secs } => Transition {
                phase,
                ledger,
                action: LoopAction::Wait { pending, poll_secs },
            },
        },
        _ => Transition { phase, ledger, action: LoopAction::Skip },
    }
}

/// The notification loop: the gateway's state and where the loop stands.
pub struct EventLoop {
    state: AppState,
    phase: LoopState,
}

impl EventLoop {
    /// Well-formedness: the gateway's state is well-formed.
    pub closed spec fn wf(&self) -> bool {
        self.state.wf()
    }

    /// The gateway's state.
    pub closed spec fn spec_state(&self) -> AppState {
        self.state
    }

    /// Where the loop stands.
    pub closed spec fn spec_phase(&self) -> LoopState {
        self.phase
    }

    /// The identifiers in flight.
    pub open spec fn in_flight(&self) -> Set<RequestId> {
        self.spec_state().in_flight()
    }

    /// In a well-formed loop finitely many requests are in flight.
    pub proof fn lemma_in_flight_finite(self)
        requires
            self.wf(),
        ensures
            self.in_flight().finite(),
    {
        self.state.lemma_in_flight_finite();
    }

    /// A running loop over `state`.
    pub fn new(state: AppState) -> (event_loop: EventLoop)
        requires
            state.wf(),
        ensures
            event_loop.wf(),
            event_loop.spec_state() == state,
            event_loop.spec_phase() == LoopState::Running,
    {
        EventLoop { state, phase: LoopState::Running }
    }

    /// Where the loop stands.
    pub fn phase(&self) -> (phase: LoopState)
        ensures
            phase == self.spec_phase(),
    {
        self.phase
    }

    /// The gateway's state.
    pub fn state(&self) -> (state: &AppState)
        ensures
            *state == self.spec_state(),
    {
        &self.state
    }

    /// Takes one input, moves the loop as [`transition`] says, and returns
    /// the action for the caller to perform.
    pub fn step(&mut self, input: &LoopInput) -> (action: LoopAction)
        requires
            old(self).wf(),
        ensures
            final(self).wf(),
            final(self).spec_state().spec_identity() == old(self).spec_state().spec_identity(),
            final(self).spec_state().spec_nwc_config() == old(self).spec_state().spec_nwc_config(),
            ({
                let t = transition(
                    old(self).spec_state().spec_identity(),
                    old(self).spec_phase(),
                    old(self).in_flight(),
                    *input,
                );
                &&& final(self).spec_phase() == t.phase
                &&& final(self).in_flight() == t.ledger
                &&& action == t.action
            }),
    {
        match input {
            LoopInput::Completed { id, outcome } => {
                LoopAction::Settle(self.state.complete_request(*id, *outcome))
            },
            LoopInput::Terminate => match self.phase {
                LoopState::Running => {
                    self.phase = LoopState::Draining;
                    LoopAction::BeginDrain
                },
                _ => LoopAction::Skip,
            },
            LoopInput::Notification(notification) => match self.phase {
                LoopState::Running => match notification {
                    Notification::Event(event) => match event.authenticate(self.state.identity()) {
                        Ok(()) => match self.state.handle_event(event) {
                            Ok(invocation) => LoopAction::Dispatch(invocation),
                            Err(why) => LoopAction::Reject(why),
                        },
                        Err(why) => LoopAction::Reject(why),
                    },
                    Notification::Shutdown => {
                        self.phase = LoopState::Stopped;
                        LoopAction::Disconnect
                    },
                    Notification::Other => LoopAction::Unhandled,
                },
                _ => LoopAction::Skip,
            },
            LoopInput::ReceiveError => LoopAction::Skip,
            LoopInput::DrainPoll => match self.phase {
                LoopState::Draining => match self.state.wait_for_active_requests() {
                    DrainStatus::Drained => {
                        self.phase = LoopState::Stopped;
                        LoopAction::Disconnect
                    },
                    DrainStatus::Pending { pending, poll_secs } => LoopAction::Wait {
                        pending,
                        poll_secs,
                    },
                },
                _ => LoopAction::Skip,
            },
        }
    }
}

} // verus!
