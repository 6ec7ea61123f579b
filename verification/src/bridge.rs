//! Re-entry into a grate, as a protocol.
//!
//! A handler's address means something only inside the unit that owns it, so
//! calling it takes that unit's parked execution context: the context is
//! checked out of a registry, the unit's entry point is called with it, and
//! the context is handed back before the call is reported finished. The
//! registry and the runtime are not this library's; it decides the order of
//! the steps. `bridge_step` takes what has just happened and says what to do
//! next, and whoever drives it performs that and reports back.

use vstd::prelude::*;
use crate::consts::GRATE_ERR;

verus! {

/// The call to be made: handler `addr` of unit `unit`, on behalf of `caller`.
#[derive(Clone, Copy, Debug, PartialEq, Eq, Structural)]
pub struct GrateCall {
    pub unit: u64,
    pub addr: u64,
    pub caller: u64,
}

/// How far a re-entry has come.
#[derive(Clone, Copy, Debug, PartialEq, Eq, Structural)]
pub enum BridgeState {
    /// Nothing has been asked of the registry yet.
    Idle,
    /// The target's context has been asked for.
    AwaitingContext,
    /// The context is checked out and the target's entry point is running.
    Entered,
    /// The entry point is through with `status`; the context is on its way
    /// back to the registry.
    Leaving { status: i32 },
    /// The call is over, one way or the other.
    Done,
}

/// What the driver reports.
#[derive(Clone, Copy, Debug, PartialEq, Eq, Structural)]
pub enum BridgeEvent {
    /// The call is to begin.
    Start,
    /// The registry handed the target's context out.
    ContextFound,
    /// The registry holds no context for the target.
    ContextMissing,
    /// The entry point returned `status`.
    Returned { status: i32 },
    /// The entry point could not be called, or trapped.
    Faulted,
    /// The registry has the context back.
    ContextReturned,
}

/// Why a re-entry was given up.
#[derive(Clone, Copy, Debug, PartialEq, Eq, Structural)]
pub enum BridgeError {
    /// The target unit has no parked context: it is not set up, or gone.
    ContextUnavailable,
}

/// What the driver is to do next.
#[derive(Clone, Copy, Debug, PartialEq, Eq, Structural)]
pub enum BridgeAction {
    /// Check the context of `unit` out of the registry.
    Checkout { unit: u64 },
    /// Call the entry point of `unit` for handler `addr` on behalf of
    /// `caller`, with the call's six arguments as they came.
    Invoke { unit: u64, addr: u64, caller: u64 },
    /// Hand the context back to the registry under `unit`.
    GiveBack { unit: u64 },
    /// Report `status` to the caller.
    Finish { status: i32 },
    /// Give the call up.
    Abort { error: BridgeError },
}

/// Whether the target's context is out of the registry in this state.
pub open spec fn holds_context(state: BridgeState) -> bool {
    state is Entered
}

/// The status that a finished entry point leaves: its own where it returned,
/// the boundary-fault status where it did not.
pub open spec fn spec_status_of(event: BridgeEvent) -> i32 {
    match event {
        BridgeEvent::Returned { status } => status,
        _ => GRATE_ERR,
    }
}

/// The protocol: for each state, the events it accepts, and for each of
/// those the state and action that follow. `None` for an event that the
/// state does not accept.
pub open spec fn spec_bridge_step(call: GrateCall, state: BridgeState, event: BridgeEvent) -> Option<
    (BridgeState, BridgeAction),
> {
    match (state, event) {
        (BridgeState::Idle, BridgeEvent::Start) => Some(
            (BridgeState::AwaitingContext, BridgeAction::Checkout { unit: call.unit }),
        ),
        (BridgeState::AwaitingContext, BridgeEvent::ContextFound) => Some(
            (
                BridgeState::Entered,
                BridgeAction::Invoke { unit: call.unit, addr: call.addr, caller: call.caller },
            ),
        ),
        (BridgeState::AwaitingContext, BridgeEvent::ContextMissing) => Some(
            (BridgeState::Done, BridgeAction::Abort { error: BridgeError::ContextUnavailable }),
        ),
        (BridgeState::Entered, BridgeEvent::Returned { .. }) | (
            BridgeState::Entered,
            BridgeEvent::Faulted,
        ) => Some(
            (
                BridgeState::Leaving { status: spec_status_of(event) },
                BridgeAction::GiveBack { unit: call.unit },
            ),
        ),
        (BridgeState::Leaving { status }, BridgeEvent::ContextReturned) => Some(
            (BridgeState::Done, BridgeAction::Finish { status }),
        ),
        _ => None,
    }
}

/// Turns the outcome of the entry point into the status reported to the
/// caller: a returned status as it is, a fault as `GRATE_ERR`.
pub fn status_of(event: BridgeEvent) -> (status: i32)
    ensures
        status == spec_status_of(event),
{
    match event {
        BridgeEvent::Returned { status } => status,
        _ => GRATE_ERR,
    }
}

/// One step of the protocol.
pub fn bridge_step(call: GrateCall, state: BridgeState, event: BridgeEvent) -> (next: Option<
    (BridgeState, BridgeAction),
>)
    ensures
        next == spec_bridge_step(call, state, event),
{
    match state {
        BridgeState::Idle => match event {
            BridgeEvent::Start => Some(
                (BridgeState::AwaitingContext, BridgeAction::Checkout { unit: call.unit }),
            ),
            _ => None,
        },
        BridgeState::AwaitingContext => match event {
            BridgeEvent::ContextFound => Some(
                (
                    BridgeState::Entered,
                    BridgeAction::Invoke { unit: call.unit, addr: call.addr, caller: call.caller },
                ),
            ),
            BridgeEvent::ContextMissing => Some(
                (BridgeState::Done, BridgeAction::Abort { error: BridgeError::ContextUnavailable }),
            ),
            _ => None,
        },
        BridgeState::Entered => match event {
            BridgeEvent::Returned { .. } | BridgeEvent::Faulted => Some(
                (
                    BridgeState::Leaving { status: status_of(event) },
                    BridgeAction::GiveBack { unit: call.unit },
                ),
            ),
            _ => None,
        },
        BridgeState::Leaving { status } => match event {
            BridgeEvent::ContextReturned => Some((BridgeState::Done, BridgeAction::Finish { status })),
            _ => None,
        },
        BridgeState::Done => None,
    }
}

/// The checkout discipline. A context is asked for only from the idle
/// state; the entry point is called only with the context in hand; while
/// the context is out, the one step on offer hands it back under the
/// target's own id, whether the entry point returned or faulted; and a
/// status is reported only after that, so never with the context still out.
pub proof fn law_context_is_returned(call: GrateCall, state: BridgeState, event: BridgeEvent)
    requires
        spec_bridge_step(call, state, event) is Some,
    ensures
        ({
            let (next, action) = spec_bridge_step(call, state, event)->0;
            &&& action is Checkout ==> state is Idle && action == (BridgeAction::Checkout {
                unit: call.unit,
            })
            &&& action is Invoke <==> !holds_context(state) && holds_context(next)
            &&& holds_context(state) ==> !holds_context(next) && action == (BridgeAction::GiveBack {
                unit: call.unit,
            })
            &&& action is Finish ==> state is Leaving && !holds_context(state) && next is Done
            &&& action is Abort ==> !holds_context(state) && next is Done
        }),
{
}

/// The status that reaches the caller is the entry point's own, or
/// `GRATE_ERR` where the call faulted: after the context has come back, the
/// step that finishes reports what the step that left the target recorded.
pub proof fn law_status_is_passed_on(call: GrateCall, outcome: BridgeEvent)
    requires
        outcome is Returned || outcome is Faulted,
    ensures
        ({
            let left = spec_bridge_step(call, BridgeState::Entered, outcome);
            let (leaving, _) = left.unwrap();
            let done = spec_bridge_step(call, leaving, BridgeEvent::ContextReturned);
            &&& left is Some
            &&& done == Some(
                (BridgeState::Done, BridgeAction::Finish { status: spec_status_of(outcome) }),
            )
            &&& outcome matches BridgeEvent::Returned { status } ==> spec_status_of(outcome) == status
            &&& outcome is Faulted ==> spec_status_of(outcome) == GRATE_ERR
        }),
{
}

/// Where a run of events leads from `state`, and the actions it calls for
/// on the way, first to last. `None` where some event comes out of turn.
pub open spec fn spec_run(call: GrateCall, state: BridgeState, events: Seq<BridgeEvent>) -> Option<
    (BridgeState, Seq<BridgeAction>),
>
    decreases events.len(),
{
    if events.len() == 0 {
        Some((state, Seq::empty()))
    } else {
        match spec_bridge_step(call, state, events[0]) {
            None => None,
            Some((next, action)) => match spec_run(call, next, events.drop_first()) {
                None => None,
                Some((last, actions)) => Some((last, seq![action] + actions)),
            },
        }
    }
}

/// Every call that comes to an end took one of two courses. Either the
/// registry had no context for the target, and the call was given up with
/// nothing checked out. Or the context was checked out once, the entry point
/// was called once, the context was handed back once under the target's id,
/// and the status then reported is the entry point's own, or `GRATE_ERR`
/// where it faulted.
pub proof fn law_finished_runs(call: GrateCall, events: Seq<BridgeEvent>)
    requires
        spec_run(call, BridgeState::Idle, events) matches Some((last, _)) && last is Done,
    ensures
        ({
            let actions = spec_run(call, BridgeState::Idle, events).unwrap().1;
            ||| {
                &&& events == seq![BridgeEvent::Start, BridgeEvent::ContextMissing]
                &&& actions == seq![
                    BridgeAction::Checkout { unit: call.unit },
                    BridgeAction::Abort { error: BridgeError::ContextUnavailable },
                ]
            }
            ||| {
                &&& events.len() == 4
                &&& events[0] == BridgeEvent::Start
                &&& events[1] == BridgeEvent::ContextFound
                &&& events[2] is Returned || events[2] is Faulted
                &&& events[3] == BridgeEvent::ContextReturned
                &&& actions == seq![
                    BridgeAction::Checkout { unit: call.unit },
                    BridgeAction::Invoke { unit: call.unit, addr: call.addr, caller: call.caller },
                    BridgeAction::GiveBack { unit: call.unit },
                    BridgeAction::Finish { status: spec_status_of(events[2]) },
                ]
            }
        }),
{
    reveal_with_fuel(spec_run, 6);
    let e1 = events.drop_first();
    let e2 = e1.drop_first();
    let e3 = e2.drop_first();
    let e4 = e3.drop_first();
    assert(events.len() >= 2);
    let s1 = spec_bridge_step(call, BridgeState::Idle, events[0]).unwrap().0;
    assert(s1 is AwaitingContext);
    assert(e1[0] == events[1]);
    if events[1] == BridgeEvent::ContextMissing {
        assert(e2.len() == 0) by {
            if e2.len() > 0 {
                assert(spec_bridge_step(call, BridgeState::Done, e2[0]) is None);
            }
        }
        assert(events =~= seq![BridgeEvent::Start, BridgeEvent::ContextMissing]);
        assert(spec_run(call, BridgeState::Idle, events).unwrap().1 =~= seq![
            BridgeAction::Checkout { unit: call.unit },
            BridgeAction::Abort { error: BridgeError::ContextUnavailable },
        ]);
    } else {
        assert(events[1] == BridgeEvent::ContextFound);
        assert(e2.len() > 0);
        assert(e2[0] == events[2]);
        assert(e3.len() > 0);
        assert(e3[0] == events[3]);
        assert(e4.len() == 0) by {
            if e4.len() > 0 {
                assert(spec_bridge_step(call, BridgeState::Done, e4[0]) is None);
            }
        }
        assert(spec_run(call, BridgeState::Idle, events).unwrap().1 =~= seq![
            BridgeAction::Checkout { unit: call.unit },
            BridgeAction::Invoke { unit: call.unit, addr: call.addr, caller: call.caller },
            BridgeAction::GiveBack { unit: call.unit },
            BridgeAction::Finish { status: spec_status_of(events[2]) },
        ]);
    }
}

} // verus!
