use app_bootstrap::capability::Capability;
use app_bootstrap::lifecycle::{Action, Event, Lifecycle};
use app_bootstrap::step::{Step, STEP_COUNT};

fn plan() -> Vec<Step> {
    vec![
        Step::CreateBuilder,
        Step::Register(Capability::Dialog),
        Step::Register(Capability::Filesystem),
        Step::Register(Capability::Shell),
        Step::ResolveContext,
        Step::StartEventLoop,
    ]
}

/// A lifecycle in which the first `count` steps of the plan have succeeded.
fn after_successes(count: usize) -> Lifecycle {
    let mut state = Lifecycle::new();
    for _ in 0..count {
        assert!(state.advance(Event::StepSucceeded).is_some());
    }
    state
}

#[test]
fn plan_has_six_steps() {
    assert_eq!(STEP_COUNT, 6);
    assert_eq!(plan().len(), STEP_COUNT);
}

#[test]
fn first_step_creates_the_builder() {
    assert_eq!(Step::first(), Step::CreateBuilder);
}

#[test]
fn successor_walks_the_plan() {
    let steps = plan();
    for i in 0..steps.len() - 1 {
        assert_eq!(steps[i].successor(), Some(steps[i + 1]));
    }
    assert_eq!(Step::StartEventLoop.successor(), None);
}

#[test]
fn successor_of_each_registration() {
    assert_eq!(Step::CreateBuilder.successor(), Some(Step::Register(Capability::Dialog)));
    assert_eq!(
        Step::Register(Capability::Dialog).successor(),
        Some(Step::Register(Capability::Filesystem))
    );
    assert_eq!(
        Step::Register(Capability::Filesystem).successor(),
        Some(Step::Register(Capability::Shell))
    );
    assert_eq!(Step::Register(Capability::Shell).successor(), Some(Step::ResolveContext));
    assert_eq!(Step::ResolveContext.successor(), Some(Step::StartEventLoop));
}

#[test]
fn launch_is_uninitialized_with_builder_pending() {
    let state = Lifecycle::new();
    assert_eq!(state, Lifecycle::Uninitialized { pending: Step::CreateBuilder });
    assert_eq!(state.current_action(), Action::Perform(Step::CreateBuilder));
}

#[test]
fn current_action_of_each_state() {
    assert_eq!(
        Lifecycle::Uninitialized { pending: Step::ResolveContext }.current_action(),
        Action::Perform(Step::ResolveContext)
    );
    assert_eq!(Lifecycle::Running.current_action(), Action::AwaitShutdown);
    assert_eq!(Lifecycle::TerminatedNormal.current_action(), Action::Exit);
    assert_eq!(
        Lifecycle::TerminatedFatal { failed: Step::StartEventLoop }.current_action(),
        Action::Abort
    );
}

#[test]
fn each_success_hands_out_the_next_step() {
    let steps = plan();
    let mut state = Lifecycle::new();
    for i in 1..steps.len() {
        assert_eq!(state.advance(Event::StepSucceeded), Some(Action::Perform(steps[i])));
        assert_eq!(state, Lifecycle::Uninitialized { pending: steps[i] });
    }
}

#[test]
fn clean_startup_reaches_the_event_loop() {
    let mut state = Lifecycle::new();
    let mut handed_out = vec![state.current_action()];
    for _ in 0..STEP_COUNT {
        match state.advance(Event::StepSucceeded) {
            Some(action) => handed_out.push(action),
            None => panic!("a success during startup was not accepted"),
        }
    }
    assert_eq!(state, Lifecycle::Running);
    assert_eq!(state.current_action(), Action::AwaitShutdown);
    assert!(!handed_out.contains(&Action::Abort));
    assert_eq!(handed_out.len(), 7);
    assert_eq!(handed_out[5], Action::Perform(Step::StartEventLoop));
    assert_eq!(handed_out[6], Action::AwaitShutdown);
}

#[test]
fn shutdown_after_running_exits_cleanly() {
    let mut state = after_successes(STEP_COUNT);
    assert_eq!(state.advance(Event::ShutdownSignalled), Some(Action::Exit));
    assert_eq!(state, Lifecycle::TerminatedNormal);
}

#[test]
fn capabilities_are_registered_once_each_in_order() {
    let mut state = Lifecycle::new();
    let mut registered: Vec<Capability> = Vec::new();
    let mut registered_at_loop_start: Option<Vec<Capability>> = None;
    let mut action = state.current_action();
    loop {
        let event = match action {
            Action::Perform(Step::Register(capability)) => {
                registered.push(capability);
                Event::StepSucceeded
            }
            Action::Perform(Step::StartEventLoop) => {
                registered_at_loop_start = Some(registered.clone());
                Event::StepSucceeded
            }
            Action::Perform(_) => Event::StepSucceeded,
            Action::AwaitShutdown => Event::ShutdownSignalled,
            Action::Exit => break,
            Action::Abort => panic!("startup was aborted though nothing failed"),
        };
        action = match state.advance(event) {
            Some(next) => next,
            None => panic!("the report on the current action was not accepted"),
        };
    }
    let expected = vec![Capability::Dialog, Capability::Filesystem, Capability::Shell];
    assert_eq!(registered_at_loop_start, Some(expected.clone()));
    assert_eq!(registered, expected);
}

#[test]
fn context_failure_aborts_without_starting_the_loop() {
    let mut state = after_successes(4);
    assert_eq!(state.current_action(), Action::Perform(Step::ResolveContext));
    assert_eq!(state.advance(Event::StepFailed), Some(Action::Abort));
    assert_eq!(state, Lifecycle::TerminatedFatal { failed: Step::ResolveContext });
    assert_eq!(state.advance(Event::StepSucceeded), None);
    assert_eq!(state.current_action(), Action::Abort);
}

#[test]
fn event_loop_failure_aborts() {
    let mut state = after_successes(5);
    assert_eq!(state.current_action(), Action::Perform(Step::StartEventLoop));
    assert_eq!(state.advance(Event::StepFailed), Some(Action::Abort));
    assert_eq!(state, Lifecycle::TerminatedFatal { failed: Step::StartEventLoop });
}

#[test]
fn failure_of_any_step_is_fatal_on_that_step() {
    let steps = plan();
    for i in 0..steps.len() {
        let mut state = after_successes(i);
        assert_eq!(state.advance(Event::StepFailed), Some(Action::Abort));
        assert_eq!(state, Lifecycle::TerminatedFatal { failed: steps[i] });
    }
}

#[test]
fn shutdown_signal_during_startup_is_not_accepted() {
    for i in 0..STEP_COUNT {
        let mut state = after_successes(i);
        let before = state;
        assert_eq!(state.advance(Event::ShutdownSignalled), None);
        assert_eq!(state, before);
    }
}

#[test]
fn step_reports_while_running_are_not_accepted() {
    let mut state = after_successes(STEP_COUNT);
    assert_eq!(state.advance(Event::StepFailed), None);
    assert_eq!(state, Lifecycle::Running);
    assert_eq!(state.advance(Event::StepSucceeded), None);
    assert_eq!(state, Lifecycle::Running);
}

#[test]
fn terminated_lifecycle_accepts_nothing() {
    let events = [Event::StepSucceeded, Event::StepFailed, Event::ShutdownSignalled];
    let mut clean = after_successes(STEP_COUNT);
    assert_eq!(clean.advance(Event::ShutdownSignalled), Some(Action::Exit));
    let mut fatal = after_successes(2);
    assert_eq!(fatal.advance(Event::StepFailed), Some(Action::Abort));
    for event in events {
        assert_eq!(clean.advance(event), None);
        assert_eq!(clean, Lifecycle::TerminatedNormal);
        assert_eq!(fatal.advance(event), None);
        assert_eq!(fatal, Lifecycle::TerminatedFatal { failed: Step::Register(Capability::Filesystem) });
    }
}
