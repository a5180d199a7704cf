use wayr::run_loop::{next_step, poll_step, LoopPhase, LoopStep, PollStep};

/// Drive the loop on a script of reports and collect its steps.
fn drive(reports: &[(bool, bool, bool)]) -> Vec<LoopStep> {
    let mut phase = LoopPhase::Start;
    let mut steps = Vec::new();
    for &(exit, user, window) in reports {
        let (next, step) = next_step(phase, exit, user, window);
        phase = next;
        steps.push(step);
    }
    steps
}

#[test]
fn resumed_first_then_user_events_pump_and_delivery() {
    let steps = drive(&[
        (false, true, false),
        (false, true, false),
        (false, true, false),
        (false, false, false),
        (false, false, true),
        (false, false, true),
        (false, false, false),
        (false, false, false),
    ]);
    assert_eq!(
        steps,
        vec![
            LoopStep::CallResumed,
            LoopStep::CallUserEvent,
            LoopStep::CallUserEvent,
            LoopStep::FlushDrainPump,
            LoopStep::CallWindowEvent,
            LoopStep::CallWindowEvent,
            LoopStep::CallAboutToWait,
            LoopStep::FlushDrainPump,
        ]
    );
}

#[test]
fn exit_request_calls_exiting_then_returns() {
    let steps = drive(&[(true, true, true), (false, false, true), (true, false, true), (false, true, true), (true, true, true)]);
    assert_eq!(steps, vec![LoopStep::CallResumed, LoopStep::FlushDrainPump, LoopStep::CallExiting, LoopStep::Return, LoopStep::Return]);
    assert_eq!(next_step(LoopPhase::UserEvents, true, true, false), (LoopPhase::Exited, LoopStep::CallExiting));
    assert_eq!(next_step(LoopPhase::Top, true, false, false), (LoopPhase::Exited, LoopStep::CallExiting));
}

#[test]
fn user_event_is_polled_before_window_events() {
    assert_eq!(poll_step(true), PollStep::TakeUserEvent);
    assert_eq!(poll_step(false), PollStep::TakeProtocolEvent);
}
