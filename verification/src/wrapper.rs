//! The course of one timed request.
//!
//! The wrapper around a handler does no work of its own while the handler
//! runs. It decides three things: when to take the start time, when to report
//! the metric, and when to leave the outcome alone. Those decisions are made
//! here; taking the time, polling the handler and touching the response are
//! the caller's part.

use vstd::prelude::*;

verus! {

/// Where the timing of one request stands.
#[derive(Debug, Clone, Copy, PartialEq, Eq, Structural)]
pub enum TimingState {
    /// No request has arrived yet.
    Idle,
    /// The start time is taken and the handler is at work.
    Running,
    /// The handler has produced a response.
    Completed,
    /// The handler has failed.
    Failed,
}

/// What the wrapper is told about the request.
#[derive(Debug, Clone, Copy, PartialEq, Eq, Structural)]
pub enum TimingEvent {
    /// A request has arrived.
    Arrived,
    /// The handler was polled and is not done.
    Suspended,
    /// The handler has yielded a response.
    Succeeded,
    /// The handler has yielded an error.
    Failed,
}

/// What the caller is to do next.
#[derive(Debug, Clone, Copy, PartialEq, Eq, Structural)]
pub enum TimingAction {
    /// Take the start time and hand the request to the handler.
    Start,
    /// Pass the suspension on: nothing is waited for or held back.
    Forward,
    /// Take the elapsed time, report the metric in the headers of the
    /// response, and return the response.
    Annotate,
    /// Return the error as it came. No header is read or written.
    Propagate,
}

/// The state and the action that follow from an event, or nothing where the
/// event has no place in the state.
pub open spec fn transition(state: TimingState, event: TimingEvent) -> Option<
    (TimingState, TimingAction),
> {
    match (state, event) {
        (TimingState::Idle, TimingEvent::Arrived) => Some(
            (TimingState::Running, TimingAction::Start),
        ),
        (TimingState::Running, TimingEvent::Suspended) => Some(
            (TimingState::Running, TimingAction::Forward),
        ),
        (TimingState::Running, TimingEvent::Succeeded) => Some(
            (TimingState::Completed, TimingAction::Annotate),
        ),
        (TimingState::Running, TimingEvent::Failed) => Some(
            (TimingState::Failed, TimingAction::Propagate),
        ),
        _ => None,
    }
}

/// Takes one step: from the state and what happened to the next state and what
/// is to be done.
pub fn step(state: TimingState, event: TimingEvent) -> (next: Option<(TimingState, TimingAction)>)
    ensures
        next == transition(state, event),
{
    match state {
        TimingState::Idle => match event {
            TimingEvent::Arrived => Some((TimingState::Running, TimingAction::Start)),
            _ => None,
        },
        TimingState::Running => match event {
            TimingEvent::Arrived => None,
            TimingEvent::Suspended => Some((TimingState::Running, TimingAction::Forward)),
            TimingEvent::Succeeded => Some((TimingState::Completed, TimingAction::Annotate)),
            TimingEvent::Failed => Some((TimingState::Failed, TimingAction::Propagate)),
        },
        _ => None,
    }
}

/// A failure of the handler is never answered by touching the headers: in
/// whatever state it is reported, the only action it can lead to is to pass
/// the error on, and from the running state it does lead to it.
pub proof fn lemma_failure_is_passed_on(state: TimingState)
    ensures
        transition(state, TimingEvent::Failed) matches Some((_, action)) ==> action
            == TimingAction::Propagate,
        transition(TimingState::Running, TimingEvent::Failed) == Some(
            (TimingState::Failed, TimingAction::Propagate),
        ),
{
}

/// The metric is reported exactly when a running handler yields a response.
pub proof fn lemma_annotate_on_success_only(state: TimingState, event: TimingEvent)
    ensures
        (transition(state, event) matches Some((_, action)) && action == TimingAction::Annotate)
            <==> (state == TimingState::Running && event == TimingEvent::Succeeded),
{
}

/// Once the handler is done, with a response or with an error, nothing
/// follows: the wrapper holds nothing that would have to be released.
pub proof fn lemma_done_is_final(state: TimingState, event: TimingEvent)
    requires
        state == TimingState::Completed || state == TimingState::Failed,
    ensures
        transition(state, event) is None,
{
}

} // verus!
