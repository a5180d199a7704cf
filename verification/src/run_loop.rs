//! The run loop's decisions: which application callback, or which
//! socket work, comes next. The driver performs each step and reports
//! back whether an exit was requested and whether a user event or a
//! window event is waiting.
use vstd::prelude::*;

verus! {

/// Where the run loop stands.
#[derive(Debug, Clone, Copy, PartialEq, Eq, Structural)]
pub enum LoopPhase {
    /// Before anything: the application has not been resumed.
    Start,
    /// At the top of an iteration.
    Top,
    /// Handing over queued user events, one at a time.
    UserEvents,
    /// Delivering the window events produced by the last pump.
    Delivering,
    /// `exiting` was called; the loop is over.
    Exited,
}

/// What the driver does next.
#[derive(Debug, Clone, Copy, PartialEq, Eq, Structural)]
pub enum LoopStep {
    /// Call `ApplicationHandler::resumed`.
    CallResumed,
    /// Hand the oldest queued user event to `ApplicationHandler::user_event`.
    CallUserEvent,
    /// Flush requests, serve redraw flags and key repeats, wait for the
    /// socket, and take the window events that came in.
    FlushDrainPump,
    /// Deliver the oldest taken window event to
    /// `ApplicationHandler::window_event`.
    CallWindowEvent,
    /// Call `ApplicationHandler::about_to_wait`.
    CallAboutToWait,
    /// Call `ApplicationHandler::exiting`.
    CallExiting,
    /// Return from the run loop.
    Return,
}

/// The next phase and step of the run loop from `phase`, when an exit
/// was (`exit_requested`) or was not requested, and a user event or a
/// window event is or is not waiting.
pub open spec fn spec_next_step(phase: LoopPhase, exit_requested: bool, user_event_ready: bool, window_event_ready: bool) -> (LoopPhase, LoopStep) {
    match phase {
        LoopPhase::Start => (LoopPhase::Top, LoopStep::CallResumed),
        LoopPhase::Exited => (LoopPhase::Exited, LoopStep::Return),
        _ => if exit_requested {
            (LoopPhase::Exited, LoopStep::CallExiting)
        } else {
            match phase {
                LoopPhase::Delivering => if window_event_ready {
                    (LoopPhase::Delivering, LoopStep::CallWindowEvent)
                } else {
                    (LoopPhase::Top, LoopStep::CallAboutToWait)
                },
                _ => if user_event_ready {
                    (LoopPhase::UserEvents, LoopStep::CallUserEvent)
                } else {
                    (LoopPhase::Delivering, LoopStep::FlushDrainPump)
                },
            }
        },
    }
}

/// The next phase and step of the run loop.
///
/// `resumed` comes first, once. An exit request is honoured before any
/// other step (and so after every callback); then `exiting` is called,
/// and the loop only returns. In an iteration the queued user events
/// are handed over one at a time, then the socket is pumped once, then
/// the window events it produced are delivered one at a time, then
/// `about_to_wait` is called.
pub fn next_step(phase: LoopPhase, exit_requested: bool, user_event_ready: bool, window_event_ready: bool) -> (r: (LoopPhase, LoopStep))
    ensures
        r == spec_next_step(phase, exit_requested, user_event_ready, window_event_ready),
        phase is Start ==> r == (LoopPhase::Top, LoopStep::CallResumed),
        phase is Exited ==> r == (LoopPhase::Exited, LoopStep::Return),
        !(phase is Start) && !(phase is Exited) && exit_requested ==> r == (LoopPhase::Exited, LoopStep::CallExiting),
        (phase is Top || phase is UserEvents) && !exit_requested ==> r == (if user_event_ready {
            (LoopPhase::UserEvents, LoopStep::CallUserEvent)
        } else {
            (LoopPhase::Delivering, LoopStep::FlushDrainPump)
        }),
        phase is Delivering && !exit_requested ==> r == (if window_event_ready {
            (LoopPhase::Delivering, LoopStep::CallWindowEvent)
        } else {
            (LoopPhase::Top, LoopStep::CallAboutToWait)
        }),
{
    match phase {
        LoopPhase::Start => (LoopPhase::Top, LoopStep::CallResumed),
        LoopPhase::Exited => (LoopPhase::Exited, LoopStep::Return),
        LoopPhase::Delivering => {
            if exit_requested {
                (LoopPhase::Exited, LoopStep::CallExiting)
            } else if window_event_ready {
                (LoopPhase::Delivering, LoopStep::CallWindowEvent)
            } else {
                (LoopPhase::Top, LoopStep::CallAboutToWait)
            }
        },
        _ => {
            if exit_requested {
                (LoopPhase::Exited, LoopStep::CallExiting)
            } else if user_event_ready {
                (LoopPhase::UserEvents, LoopStep::CallUserEvent)
            } else {
                (LoopPhase::Delivering, LoopStep::FlushDrainPump)
            }
        },
    }
}

/// What the driver reports before each step: whether an exit was
/// requested, a user event is waiting, a window event is waiting.
pub type LoopInput = (bool, bool, bool);

/// The steps the run loop takes from `phase` on the reports `inputs`.
pub open spec fn spec_trace(phase: LoopPhase, inputs: Seq<LoopInput>) -> Seq<LoopStep>
    decreases inputs.len(),
{
    if inputs.len() == 0 {
        Seq::empty()
    } else {
        let r = spec_next_step(phase, inputs[0].0, inputs[0].1, inputs[0].2);
        seq![r.1] + spec_trace(r.0, inputs.subrange(1, inputs.len() as int))
    }
}

/// From any phase but the start, the loop never calls `resumed`.
proof fn lemma_no_resume_after_start(phase: LoopPhase, inputs: Seq<LoopInput>)
    requires
        !(phase is Start),
    ensures
        spec_trace(phase, inputs).len() == inputs.len(),
        forall|i: int| 0 <= i < inputs.len() ==> !(#[trigger] spec_trace(phase, inputs)[i] is CallResumed),
    decreases inputs.len(),
{
    if inputs.len() > 0 {
        let r = spec_next_step(phase, inputs[0].0, inputs[0].1, inputs[0].2);
        let rest = inputs.subrange(1, inputs.len() as int);
        lemma_no_resume_after_start(r.0, rest);
        let t = spec_trace(phase, inputs);
        assert forall|i: int| 0 <= i < inputs.len() implies !(#[trigger] t[i] is CallResumed) by {
            if i > 0 {
                assert(t[i] == spec_trace(r.0, rest)[i - 1]);
            }
        }
    }
}

/// Once the loop has exited it only returns.
proof fn lemma_exited_only_returns(inputs: Seq<LoopInput>)
    ensures
        spec_trace(LoopPhase::Exited, inputs).len() == inputs.len(),
        forall|i: int| 0 <= i < inputs.len() ==> #[trigger] spec_trace(LoopPhase::Exited, inputs)[i] == LoopStep::Return,
    decreases inputs.len(),
{
    if inputs.len() > 0 {
        let rest = inputs.subrange(1, inputs.len() as int);
        lemma_exited_only_returns(rest);
        let t = spec_trace(LoopPhase::Exited, inputs);
        assert forall|i: int| 0 <= i < inputs.len() implies #[trigger] t[i] == LoopStep::Return by {
            if i > 0 {
                assert(t[i] == spec_trace(LoopPhase::Exited, rest)[i - 1]);
            }
        }
    }
}

/// `resumed` is called exactly once, and first: whatever the loop is
/// told, a run from the start calls `resumed` at its first step and
/// never again.
pub proof fn law_resumed_once_first(inputs: Seq<LoopInput>)
    ensures
        spec_trace(LoopPhase::Start, inputs).len() == inputs.len(),
        inputs.len() > 0 ==> spec_trace(LoopPhase::Start, inputs)[0] == LoopStep::CallResumed,
        forall|i: int| 0 < i < inputs.len() ==> !(#[trigger] spec_trace(LoopPhase::Start, inputs)[i] is CallResumed),
{
    if inputs.len() > 0 {
        let rest = inputs.subrange(1, inputs.len() as int);
        lemma_no_resume_after_start(LoopPhase::Top, rest);
        let t = spec_trace(LoopPhase::Start, inputs);
        assert forall|i: int| 0 < i < inputs.len() implies !(#[trigger] t[i] is CallResumed) by {
            assert(t[i] == spec_trace(LoopPhase::Top, rest)[i - 1]);
        }
    }
}

/// No callback fires after `exiting`: once the loop calls `exiting`,
/// every later step is a return.
pub proof fn law_nothing_after_exiting(phase: LoopPhase, inputs: Seq<LoopInput>)
    ensures
        spec_trace(phase, inputs).len() == inputs.len(),
        forall|i: int, j: int| 0 <= i < j < inputs.len() && #[trigger] spec_trace(phase, inputs)[i] == LoopStep::CallExiting
            ==> #[trigger] spec_trace(phase, inputs)[j] == LoopStep::Return,
    decreases inputs.len(),
{
    if inputs.len() > 0 {
        let r = spec_next_step(phase, inputs[0].0, inputs[0].1, inputs[0].2);
        let rest = inputs.subrange(1, inputs.len() as int);
        law_nothing_after_exiting(r.0, rest);
        let t = spec_trace(phase, inputs);
        assert(t.len() == inputs.len());
        if r.1 == LoopStep::CallExiting {
            lemma_exited_only_returns(rest);
        }
        assert forall|i: int, j: int| 0 <= i < j < inputs.len() && #[trigger] t[i] == LoopStep::CallExiting
            implies #[trigger] t[j] == LoopStep::Return by {
            assert(t[j] == spec_trace(r.0, rest)[j - 1]);
            if i > 0 {
                assert(t[i] == spec_trace(r.0, rest)[i - 1]);
            }
        }
    }
}

/// An exit request ends the loop: at any step after `resumed`, a request
/// makes the loop call `exiting` and then only return.
pub proof fn law_exit_request_ends_loop(phase: LoopPhase, inputs: Seq<LoopInput>)
    requires
        !(phase is Start),
        !(phase is Exited),
        inputs.len() > 0,
        inputs[0].0,
    ensures
        spec_trace(phase, inputs)[0] == LoopStep::CallExiting,
        forall|j: int| 0 < j < inputs.len() ==> #[trigger] spec_trace(phase, inputs)[j] == LoopStep::Return,
{
    law_nothing_after_exiting(phase, inputs);
    let t = spec_trace(phase, inputs);
    assert forall|j: int| 0 < j < inputs.len() implies #[trigger] t[j] == LoopStep::Return by {
        assert(t[0] == LoopStep::CallExiting);
    }
}

/// What `poll` takes next.
#[derive(Debug, Clone, Copy, PartialEq, Eq, Structural)]
pub enum PollStep {
    /// The oldest queued user event.
    TakeUserEvent,
    /// The oldest pending window event, after dispatching what the socket
    /// has.
    TakeProtocolEvent,
}

/// A waiting user event is handed out before any window event.
pub fn poll_step(user_event_ready: bool) -> (s: PollStep)
    ensures
        user_event_ready ==> s == PollStep::TakeUserEvent,
        !user_event_ready ==> s == PollStep::TakeProtocolEvent,
{
    if user_event_ready {
        PollStep::TakeUserEvent
    } else {
        PollStep::TakeProtocolEvent
    }
}

} // verus!
