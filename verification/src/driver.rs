//! The life cycle of one benchmark run.
//!
//! A run connects, subscribes, and then works until something ends it. What
//! ends it decides the exit code of the process. Work that is in flight when
//! the run ends is given up: no state flushes it.

use vstd::prelude::*;

verus! {

/// Why a run has ended.
#[derive(Debug, Clone, Copy, PartialEq, Eq, Structural)]
pub enum Termination {
    /// The work came to its own end.
    Completed,
    /// The configuration was refused before the work began.
    ConfigRejected,
    /// Connecting, subscribing, publishing or polling failed.
    TransportFailed,
    /// The deadline of the whole run passed.
    DeadlineElapsed,
}

/// Where a run stands.
#[derive(Debug, Clone, Copy, PartialEq, Eq, Structural)]
pub enum DriverState {
    Connecting,
    Subscribing,
    Running,
    /// Kept for a flush of in-flight work. No run enters it.
    Draining,
    Terminated(Termination),
}

/// What happens to a run.
#[derive(Debug, Clone, Copy, PartialEq, Eq, Structural)]
pub enum DriverEvent {
    /// The transport is connected.
    Connected,
    /// The subscription is acknowledged, or the transport acknowledges none.
    Subscribed,
    /// The work has nothing more to do.
    Finished,
    /// The configuration is refused.
    ConfigRejected,
    /// The transport failed in a way that it does not recover from.
    TransportFailed,
    /// The deadline of the whole run has passed.
    DeadlineElapsed,
}

/// The conditions that a run meets, by the way they are handled.
#[derive(Debug, Clone, Copy, PartialEq, Eq, Structural)]
pub enum Condition {
    /// A payload size that no payload can have.
    Configuration,
    /// A received payload that is malformed or of the wrong size.
    Decode,
    /// An answer of another sender, or to no outstanding probe.
    Correlation,
    /// No answer within the wait for one probe.
    Timeout,
    /// A failure of the transport.
    Transport,
}

/// Whether a condition ends the run. The others are absorbed where they
/// arise: the message is skipped or the probe is counted as lost.
pub open spec fn spec_is_fatal(condition: Condition) -> bool {
    condition is Configuration || condition is Transport
}

/// Whether a condition ends the run.
#[verifier::when_used_as_spec(spec_is_fatal)]
pub fn is_fatal(condition: Condition) -> (fatal: bool)
    ensures
        fatal == spec_is_fatal(condition),
{
    match condition {
        Condition::Configuration => true,
        Condition::Transport => true,
        _ => false,
    }
}

/// The state that follows `state` on `event`. A failure of the transport, a
/// refused configuration and the deadline end a run wherever it stands; the
/// other events move it one step forward from the state that waits for them
/// and are ignored elsewhere. A run that has ended stays as it ended.
pub open spec fn next_state(state: DriverState, event: DriverEvent) -> DriverState {
    match state {
        DriverState::Terminated(_) => state,
        _ => match event {
            DriverEvent::TransportFailed => DriverState::Terminated(Termination::TransportFailed),
            DriverEvent::ConfigRejected => DriverState::Terminated(Termination::ConfigRejected),
            DriverEvent::DeadlineElapsed => DriverState::Terminated(Termination::DeadlineElapsed),
            DriverEvent::Connected => if state is Connecting {
                DriverState::Subscribing
            } else {
                state
            },
            DriverEvent::Subscribed => if state is Subscribing {
                DriverState::Running
            } else {
                state
            },
            DriverEvent::Finished => if state is Running {
                DriverState::Terminated(Termination::Completed)
            } else {
                state
            },
        },
    }
}

/// The state of a run that began by connecting and then met `events` in
/// their order.
pub open spec fn state_after(events: Seq<DriverEvent>) -> DriverState
    decreases events.len(),
{
    if events.len() == 0 {
        DriverState::Connecting
    } else {
        next_state(state_after(events.drop_last()), events.last())
    }
}

/// The exit code of a process whose run ended by `termination`: zero after a
/// run that came to its own end, one after any other.
pub open spec fn spec_exit_code(termination: Termination) -> u8 {
    if termination is Completed {
        0
    } else {
        1
    }
}

/// The state in which every run begins.
pub fn start() -> (state: DriverState)
    ensures
        state == DriverState::Connecting,
{
    DriverState::Connecting
}

/// Moves a run on by one event.
pub fn step(state: DriverState, event: DriverEvent) -> (next: DriverState)
    ensures
        next == next_state(state, event),
{
    match state {
        DriverState::Terminated(_) => state,
        _ => match event {
            DriverEvent::TransportFailed => DriverState::Terminated(Termination::TransportFailed),
            DriverEvent::ConfigRejected => DriverState::Terminated(Termination::ConfigRejected),
            DriverEvent::DeadlineElapsed => DriverState::Terminated(Termination::DeadlineElapsed),
            DriverEvent::Connected => match state {
                DriverState::Connecting => DriverState::Subscribing,
                _ => state,
            },
            DriverEvent::Subscribed => match state {
                DriverState::Subscribing => DriverState::Running,
                _ => state,
            },
            DriverEvent::Finished => match state {
                DriverState::Running => DriverState::Terminated(Termination::Completed),
                _ => state,
            },
        },
    }
}

/// The event by which a condition reaches the run, if it does.
pub fn escalate(condition: Condition) -> (event: Option<DriverEvent>)
    ensures
        event == (match condition {
            Condition::Configuration => Some(DriverEvent::ConfigRejected),
            Condition::Transport => Some(DriverEvent::TransportFailed),
            _ => None::<DriverEvent>,
        }),
        event is Some <==> is_fatal(condition),
{
    match condition {
        Condition::Configuration => Some(DriverEvent::ConfigRejected),
        Condition::Transport => Some(DriverEvent::TransportFailed),
        _ => None,
    }
}

/// The exit code of a process whose run ended by `termination`.
#[verifier::when_used_as_spec(spec_exit_code)]
pub fn exit_code(termination: Termination) -> (code: u8)
    ensures
        code == spec_exit_code(termination),
{
    match termination {
        Termination::Completed => 0,
        _ => 1,
    }
}

/// No event takes a run into the draining state.
pub proof fn lemma_step_never_drains(state: DriverState, event: DriverEvent)
    requires
        !(state is Draining),
    ensures
        !(next_state(state, event) is Draining),
{
}

/// A run that has ended stays as it ended.
pub proof fn lemma_terminated_is_final(termination: Termination, event: DriverEvent)
    ensures
        next_state(DriverState::Terminated(termination), event) == DriverState::Terminated(
            termination,
        ),
{
}

/// Whatever happens to a run, it is never draining.
pub proof fn lemma_run_never_drains(events: Seq<DriverEvent>)
    ensures
        !(state_after(events) is Draining),
    decreases events.len(),
{
    if events.len() > 0 {
        lemma_run_never_drains(events.drop_last());
    }
}

/// A failure of the transport ends a run that has not ended, wherever it
/// stands, and the process then exits with a code other than zero.
pub proof fn lemma_transport_failure_is_fatal(state: DriverState)
    requires
        !(state is Terminated),
    ensures
        next_state(state, DriverEvent::TransportFailed) == DriverState::Terminated(
            Termination::TransportFailed,
        ),
        spec_exit_code(Termination::TransportFailed) != 0,
{
}

} // verus!
