//! What holds of every request and of every run of the loop.

use crate::event::{eligible, signature_valid, RequestEvent, WALLET_CONNECT_REQUEST_KIND};
use crate::event_loop::{transition, LoopAction, LoopInput, LoopState, Notification};
use crate::ledger::RequestId;
use crate::state::{
    dispatch_of, ledger_after_event, Failure, Invocation, Outcome, REQUEST_TIMEOUT_SECS,
};
use vstd::prelude::*;

verus! {

/// A run of the loop: where it ends and what it asked of the caller.
pub struct Run {
    pub phase: LoopState,
    pub ledger: Set<RequestId>,
    pub actions: Seq<LoopAction>,
}

/// The run that `inputs` drive from the given state, one step for each.
pub open spec fn run(
    identity: Seq<u8>,
    phase: LoopState,
    ledger: Set<RequestId>,
    inputs: Seq<LoopInput>,
) -> Run
    decreases inputs.len(),
{
    if inputs.len() == 0 {
        Run { phase, ledger, actions: Seq::empty() }
    } else {
        let first = transition(identity, phase, ledger, inputs.first());
        let rest = run(identity, first.phase, first.ledger, inputs.drop_first());
        Run { phase: rest.phase, ledger: rest.ledger, actions: seq![first.action] + rest.actions }
    }
}

/// An event of the wrong kind, from another author or with a signature that
/// does not verify is dropped: handling it returns no invocation, and in
/// every state of the loop it leaves the ledger and the state as they were
/// and asks for no dispatch.
pub proof fn lemma_rejected_event_is_dropped(
    identity: Seq<u8>,
    phase: LoopState,
    ledger: Set<RequestId>,
    event: RequestEvent,
)
    requires
        event@.kind != WALLET_CONNECT_REQUEST_KIND || event@.author != identity
            || !signature_valid(event@),
    ensures
        dispatch_of(event@, identity) is Err,
        ledger_after_event(ledger, event@, identity) == ledger,
        ({
            let t = transition(
                identity,
                phase,
                ledger,
                LoopInput::Notification(Notification::Event(event)),
            );
            &&& t.ledger == ledger
            &&& t.phase == phase
            &&& !(t.action is Dispatch)
        }),
{
}

/// An accepted event whose identifier is not yet in flight makes the ledger
/// grow by exactly one and is dispatched under the fixed bound; when its
/// invocation ends, in whatever state of the loop and however it ended, the
/// ledger is back to what it was.
pub proof fn lemma_accepted_event_is_held_until_completion(
    identity: Seq<u8>,
    ledger: Set<RequestId>,
    event: RequestEvent,
    later: LoopState,
    outcome: Outcome,
)
    requires
        ledger.finite(),
        eligible(event@, identity),
        !ledger.contains(event.id),
    ensures
        ({
            let begun = transition(
                identity,
                LoopState::Running,
                ledger,
                LoopInput::Notification(Notification::Event(event)),
            );
            let ended = transition(
                identity,
                later,
                begun.ledger,
                LoopInput::Completed { id: event.id, outcome },
            );
            &&& begun.action == LoopAction::Dispatch(
                Invocation { id: event.id, timeout_secs: REQUEST_TIMEOUT_SECS },
            )
            &&& begun.ledger.contains(event.id)
            &&& begun.ledger.len() == ledger.len() + 1
            &&& ended.ledger.len() == begun.ledger.len() - 1
            &&& ended.ledger == ledger
            &&& ended.phase == later
        }),
{
    assert(ledger.insert(event.id).remove(event.id) =~= ledger);
}

/// The ledger holds an identifier at most once: accepting an event whose
/// identifier is already in flight leaves the ledger as it is, and a single
/// completion then clears the identifier.
pub proof fn lemma_identifier_is_held_once(
    identity: Seq<u8>,
    ledger: Set<RequestId>,
    event: RequestEvent,
    later: LoopState,
    outcome: Outcome,
)
    requires
        ledger.finite(),
        eligible(event@, identity),
    ensures
        ({
            let once = transition(
                identity,
                LoopState::Running,
                ledger,
                LoopInput::Notification(Notification::Event(event)),
            );
            let twice = transition(
                identity,
                LoopState::Running,
                once.ledger,
                LoopInput::Notification(Notification::Event(event)),
            );
            let ended = transition(
                identity,
                later,
                twice.ledger,
                LoopInput::Completed { id: event.id, outcome },
            );
            &&& twice.ledger == once.ledger
            &&& twice.ledger.len() == once.ledger.len()
            &&& !ended.ledger.contains(event.id)
        }),
{
    assert(ledger.insert(event.id).insert(event.id) =~= ledger.insert(event.id));
}

/// A request that timed out was dispatched under the fixed bound, leaves the
/// ledger like any other, and is reported as a timeout.
pub proof fn lemma_timed_out_request_is_cleared(
    identity: Seq<u8>,
    phase: LoopState,
    ledger: Set<RequestId>,
    id: RequestId,
)
    ensures
        ({
            let t = transition(
                identity,
                phase,
                ledger,
                LoopInput::Completed { id, outcome: Outcome::TimedOut },
            );
            &&& !t.ledger.contains(id)
            &&& t.ledger == ledger.remove(id)
            &&& t.action == LoopAction::Settle(Some(Failure::Timeout))
        }),
{
}

/// The termination signal moves a running loop to draining and leaves the
/// ledger as it is.
pub proof fn lemma_termination_starts_drain(identity: Seq<u8>, ledger: Set<RequestId>)
    ensures
        ({
            let t = transition(identity, LoopState::Running, ledger, LoopInput::Terminate);
            &&& t.phase == LoopState::Draining
            &&& t.ledger == ledger
            &&& t.action == LoopAction::BeginDrain
        }),
{
}

/// A draining loop stops exactly on a look at an empty ledger.
pub proof fn lemma_drain_stops_on_empty_ledger(
    identity: Seq<u8>,
    ledger: Set<RequestId>,
    input: LoopInput,
)
    requires
        ledger.finite(),
    ensures
        ({
            let t = transition(identity, LoopState::Draining, ledger, input);
            &&& t.phase == LoopState::Stopped <==> input is DrainPoll && ledger
                == Set::<RequestId>::empty()
            &&& t.phase == LoopState::Stopped || t.phase == LoopState::Draining
            &&& t.phase == LoopState::Stopped ==> t.action == LoopAction::Disconnect
        }),
{
    if ledger.len() == 0 {
        ledger.lemma_len0_is_empty();
    } else {
        assert(ledger != Set::<RequestId>::empty());
    }
}

/// Once the loop has left the running state it accepts nothing more: over
/// any run from there it never runs again, asks for no dispatch, and every
/// identifier in the ledger at the end was in it at the start.
pub proof fn lemma_no_intake_after_termination(
    identity: Seq<u8>,
    phase: LoopState,
    ledger: Set<RequestId>,
    inputs: Seq<LoopInput>,
)
    requires
        phase != LoopState::Running,
    ensures
        run(identity, phase, ledger, inputs).phase != LoopState::Running,
        run(identity, phase, ledger, inputs).ledger.subset_of(ledger),
        run(identity, phase, ledger, inputs).actions.len() == inputs.len(),
        forall|i: int|
            0 <= i < inputs.len() ==> !(#[trigger] run(
                identity,
                phase,
                ledger,
                inputs,
            ).actions[i] is Dispatch),
    decreases inputs.len(),
{
    if inputs.len() > 0 {
        let first = transition(identity, phase, ledger, inputs.first());
        lemma_no_intake_after_termination(identity, first.phase, first.ledger, inputs.drop_first());
        let rest = run(identity, first.phase, first.ledger, inputs.drop_first());
        let whole = run(identity, phase, ledger, inputs);
        assert(whole.actions == seq![first.action] + rest.actions);
        assert forall|i: int| 0 <= i < inputs.len() implies !(#[trigger] whole.actions[i]
            is Dispatch) by {
            if i > 0 {
                assert(whole.actions[i] == rest.actions[i - 1]);
            }
        }
    }
}

/// The loop answers its inputs one by one and in order: a run has one action
/// for each input, and a dispatch stands only where an eligible event came
/// in, and names that event's identifier and the fixed bound.
pub proof fn lemma_dispatches_follow_receipt_order(
    identity: Seq<u8>,
    phase: LoopState,
    ledger: Set<RequestId>,
    inputs: Seq<LoopInput>,
)
    ensures
        run(identity, phase, ledger, inputs).actions.len() == inputs.len(),
        forall|i: int|
            0 <= i < inputs.len() ==> (#[trigger] run(identity, phase, ledger, inputs).actions[i]
                matches LoopAction::Dispatch(invocation) ==> {
                &&& inputs[i] matches LoopInput::Notification(Notification::Event(event))
                &&& eligible(event@, identity)
                &&& invocation == (Invocation { id: event.id, timeout_secs: REQUEST_TIMEOUT_SECS })
            }),
    decreases inputs.len(),
{
    if inputs.len() > 0 {
        let first = transition(identity, phase, ledger, inputs.first());
        let rest_inputs = inputs.drop_first();
        lemma_dispatches_follow_receipt_order(identity, first.phase, first.ledger, rest_inputs);
        let rest = run(identity, first.phase, first.ledger, rest_inputs);
        let whole = run(identity, phase, ledger, inputs);
        assert(whole.actions == seq![first.action] + rest.actions);
        assert forall|i: int| 0 <= i < inputs.len() implies (#[trigger] whole.actions[i]
            matches LoopAction::Dispatch(invocation) ==> {
            &&& inputs[i] matches LoopInput::Notification(Notification::Event(event))
            &&& eligible(event@, identity)
            &&& invocation == (Invocation { id: event.id, timeout_secs: REQUEST_TIMEOUT_SECS })
        }) by {
            if i > 0 {
                assert(whole.actions[i] == rest.actions[i - 1]);
                assert(inputs[i] == rest_inputs[i - 1]);
            } else {
                assert(whole.actions[0] == first.action);
            }
        }
    }
}

/// A draining loop reaches the stopped state only once the ledger is empty:
/// whatever run takes it there, no request is in flight at the end.
pub proof fn lemma_drain_stops_with_empty_ledger(
    identity: Seq<u8>,
    ledger: Set<RequestId>,
    inputs: Seq<LoopInput>,
)
    requires
        ledger.finite(),
    ensures
        run(identity, LoopState::Draining, ledger, inputs).phase == LoopState::Stopped ==> run(
            identity,
            LoopState::Draining,
            ledger,
            inputs,
        ).ledger == Set::<RequestId>::empty(),
    decreases inputs.len(),
{
    if inputs.len() > 0 {
        let first = transition(identity, LoopState::Draining, ledger, inputs.first());
        lemma_drain_stops_on_empty_ledger(identity, ledger, inputs.first());
        if first.phase == LoopState::Stopped {
            lemma_no_intake_after_termination(
                identity,
                first.phase,
                first.ledger,
                inputs.drop_first(),
            );
            let end = run(identity, first.phase, first.ledger, inputs.drop_first());
            assert(end.ledger =~= Set::<RequestId>::empty());
        } else {
            lemma_drain_stops_with_empty_ledger(identity, first.ledger, inputs.drop_first());
        }
    }
}

/// From the termination signal on, the loop takes nothing in and stops only
/// when drained: over any run that begins with the signal it asks for no
/// dispatch, every identifier in the ledger at the end was in it at the
/// start, and if the run ends stopped, the ledger is empty.
pub proof fn lemma_termination_drains(
    identity: Seq<u8>,
    ledger: Set<RequestId>,
    inputs: Seq<LoopInput>,
)
    requires
        ledger.finite(),
        inputs.len() > 0,
        inputs.first() is Terminate,
    ensures
        ({
            let end = run(identity, LoopState::Running, ledger, inputs);
            &&& end.phase != LoopState::Running
            &&& end.ledger.subset_of(ledger)
            &&& end.phase == LoopState::Stopped ==> end.ledger == Set::<RequestId>::empty()
            &&& forall|i: int| 0 <= i < inputs.len() ==> !(#[trigger] end.actions[i] is Dispatch)
        }),
{
    let rest_inputs = inputs.drop_first();
    lemma_termination_starts_drain(identity, ledger);
    lemma_no_intake_after_termination(identity, LoopState::Draining, ledger, rest_inputs);
    lemma_drain_stops_with_empty_ledger(identity, ledger, rest_inputs);
    let rest = run(identity, LoopState::Draining, ledger, rest_inputs);
    let end = run(identity, LoopState::Running, ledger, inputs);
    assert(end.actions == seq![LoopAction::BeginDrain] + rest.actions);
    assert forall|i: int| 0 <= i < inputs.len() implies !(#[trigger] end.actions[i]
        is Dispatch) by {
        if i > 0 {
            assert(end.actions[i] == rest.actions[i - 1]);
        }
    }
}

} // verus!
