use vstd::prelude::*;
use crate::capability::{registration_order, Capability};
use crate::lifecycle::{Action, Event, Lifecycle};
use crate::step::{startup_plan, Step, STEP_COUNT};

verus! {

/// The state reached from launch once the given reports have come in, in order.
pub open spec fn replay(events: Seq<Event>) -> Lifecycle
    decreases events.len(),
{
    if events.len() == 0 {
        Lifecycle::initial()
    } else {
        replay(events.drop_last()).after(events.last())
    }
}

/// The actions handed out from launch on: the one at launch, then one for each
/// report that was accepted.
pub open spec fn issued(events: Seq<Event>) -> Seq<Action>
    decreases events.len(),
{
    if events.len() == 0 {
        seq![Lifecycle::initial().action()]
    } else {
        let before = replay(events.drop_last());
        if before.accepts(events.last()) {
            issued(events.drop_last()).push(before.after(events.last()).action())
        } else {
            issued(events.drop_last())
        }
    }
}

/// The capabilities that the given actions attach, in the order of the actions.
pub open spec fn registrations(actions: Seq<Action>) -> Seq<Capability>
    decreases actions.len(),
{
    if actions.len() == 0 {
        Seq::empty()
    } else {
        let earlier = registrations(actions.drop_last());
        match actions.last() {
            Action::Perform(Step::Register(capability)) => earlier.push(capability),
            _ => earlier,
        }
    }
}

/// Runs a lifecycle from launch against a script of reports, as a platform
/// would that answers each action with the next report of the script, and
/// records every action handed out. Returns the state reached and the record.
pub fn rehearse(events: &Vec<Event>) -> (run: (Lifecycle, Vec<Action>))
    ensures
        run.0 == replay(events@),
        run.1@ == issued(events@),
{
    let mut state = Lifecycle::new();
    let mut actions: Vec<Action> = Vec::new();
    actions.push(state.current_action());
    let mut done: usize = 0;
    while done < events.len()
        invariant
            done <= events.len(),
            state == replay(events@.take(done as int)),
            actions@ == issued(events@.take(done as int)),
        decreases events.len() - done,
    {
        let next = state.advance(events[done]);
        match next {
            Some(action) => actions.push(action),
            None => {},
        }
        proof {
            assert(events@.take(done + 1).drop_last() =~= events@.take(done as int));
        }
        done += 1;
    }
    proof {
        assert(events@.take(done as int) =~= events@);
    }
    (state, actions)
}

/// The actions of a run in which every step succeeds and the runtime then
/// shuts down.
pub open spec fn clean_run() -> Seq<Action> {
    seq![
        Action::Perform(Step::CreateBuilder),
        Action::Perform(Step::Register(Capability::Dialog)),
        Action::Perform(Step::Register(Capability::Filesystem)),
        Action::Perform(Step::Register(Capability::Shell)),
        Action::Perform(Step::ResolveContext),
        Action::Perform(Step::StartEventLoop),
        Action::AwaitShutdown,
        Action::Exit,
    ]
}

/// How many actions of the clean run have been handed out when a state is
/// reached.
pub open spec fn reach(state: Lifecycle) -> int {
    match state {
        Lifecycle::Uninitialized { pending } => pending.position() + 1,
        Lifecycle::Running => 7,
        Lifecycle::TerminatedNormal => 8,
        Lifecycle::TerminatedFatal { failed } => failed.position() + 1,
    }
}

/// The actions that lead to a state: the clean run as far as the state has
/// come, closed by `Abort` where a step failed.
pub open spec fn trail(state: Lifecycle) -> Seq<Action> {
    if state is TerminatedFatal {
        clean_run().take(reach(state)).push(Action::Abort)
    } else {
        clean_run().take(reach(state))
    }
}

/// The clean run performs the startup sequence step by step before it waits
/// and exits.
pub proof fn lemma_clean_run_performs_plan()
    ensures
        clean_run().len() == startup_plan().len() + 2,
        forall|i: int|
            0 <= i < startup_plan().len() ==> clean_run()[i] == Action::Perform(startup_plan()[i]),
        clean_run()[startup_plan().len() as int] == Action::AwaitShutdown,
        clean_run()[startup_plan().len() as int + 1] == Action::Exit,
{
}

/// Whatever is reported, the actions handed out are those of the clean run up
/// to the state reached, and `Abort` follows the step that failed. No other
/// order of actions can be observed.
pub proof fn lemma_actions_follow_clean_run(events: Seq<Event>)
    ensures
        issued(events) == trail(replay(events)),
    decreases events.len(),
{
    if events.len() == 0 {
        assert(issued(events) =~= trail(replay(events)));
    } else {
        lemma_actions_follow_clean_run(events.drop_last());
        assert(issued(events) =~= trail(replay(events)));
    }
}

/// What the clean run has attached after its first `count` actions: nothing
/// before the builder exists, then one capability with each action, in
/// registration order, and all three from then on.
proof fn lemma_registrations_of_clean_run(count: int)
    requires
        0 <= count <= clean_run().len(),
    ensures
        count <= 1 ==> registrations(clean_run().take(count)) == Seq::<Capability>::empty(),
        1 <= count <= 4 ==> registrations(clean_run().take(count)) == registration_order().take(
            count - 1,
        ),
        4 <= count ==> registrations(clean_run().take(count)) == registration_order(),
    decreases count,
{
    let actions = clean_run().take(count);
    if count > 0 {
        lemma_registrations_of_clean_run(count - 1);
        assert(actions.drop_last() =~= clean_run().take(count - 1));
        assert(actions.last() == clean_run()[count - 1]);
        if 2 <= count <= 4 {
            assert(registration_order().take(count - 1) =~= registration_order().take(
                count - 2,
            ).push(registration_order()[count - 2]));
        }
        assert(registration_order().take(3) =~= registration_order());
        assert(registration_order().take(0) =~= Seq::<Capability>::empty());
    }
}

/// Asking for an abort attaches nothing: a trail holds the registrations of
/// the part of the clean run that it covers.
proof fn lemma_registrations_of_trail(state: Lifecycle)
    ensures
        registrations(trail(state)) == registrations(clean_run().take(reach(state))),
{
    let reached = clean_run().take(reach(state));
    assert(reached.push(Action::Abort).drop_last() =~= reached);
}

/// The capabilities are attached in registration order and none of them
/// twice: at every moment, what has been attached is a leading part of the
/// registration order.
pub proof fn lemma_registrations_follow_order(events: Seq<Event>)
    ensures
        registrations(issued(events)).is_prefix_of(registration_order()),
{
    lemma_actions_follow_clean_run(events);
    lemma_registrations_of_trail(replay(events));
    lemma_registrations_of_clean_run(reach(replay(events)));
}

/// When the event loop is started, each of the three capabilities has been
/// attached exactly once, in registration order, and none is attached
/// afterwards.
pub proof fn lemma_capabilities_registered_before_loop(events: Seq<Event>, at: int)
    requires
        0 <= at < issued(events).len(),
        issued(events)[at] == Action::Perform(Step::StartEventLoop),
    ensures
        registrations(issued(events).take(at)) == registration_order(),
        registrations(issued(events)) == registration_order(),
        registration_order().no_duplicates(),
        registration_order().len() == 3,
{
    lemma_actions_follow_clean_run(events);
    assert(issued(events).take(at) =~= clean_run().take(5));
    lemma_registrations_of_clean_run(5);
    lemma_registrations_of_trail(replay(events));
    lemma_registrations_of_clean_run(reach(replay(events)));
}

/// As long as every step succeeds, startup moves through the plan one step
/// per report, enters the event loop after the last, and never asks for an
/// abort.
pub proof fn lemma_clean_startup_enters_loop(events: Seq<Event>)
    requires
        forall|i: int| 0 <= i < events.len() ==> events[i] == Event::StepSucceeded,
    ensures
        events.len() < STEP_COUNT ==> replay(events) == (Lifecycle::Uninitialized {
            pending: startup_plan()[events.len() as int],
        }),
        events.len() >= STEP_COUNT ==> replay(events) == Lifecycle::Running,
        !issued(events).contains(Action::Abort),
    decreases events.len(),
{
    if events.len() > 0 {
        lemma_clean_startup_enters_loop(events.drop_last());
    }
    lemma_actions_follow_clean_run(events);
}

/// A step that fails ends startup for good: the lifecycle is terminated as
/// fatal on that step, `Abort` is the last action ever handed out, and no step
/// that the plan puts after the failed one is handed out, whatever is reported
/// later.
pub proof fn lemma_failed_step_ends_startup(events: Seq<Event>, more: Seq<Event>)
    requires
        replay(events) is Uninitialized,
    ensures
        replay(events.push(Event::StepFailed) + more) == (Lifecycle::TerminatedFatal {
            failed: replay(events)->pending,
        }),
        issued(events.push(Event::StepFailed) + more) == issued(events).push(Action::Abort),
        forall|step: Step| #[trigger]
            issued(events.push(Event::StepFailed) + more).contains(Action::Perform(step))
                ==> step.position() <= replay(events)->pending.position(),
{
    let failing = events.push(Event::StepFailed);
    assert(failing.drop_last() =~= events);
    lemma_terminated_is_final(failing, more);
    lemma_actions_follow_clean_run(events);
}

/// A terminated lifecycle is never used again: after a clean exit or a fatal
/// failure no report is accepted, the state stays as it is and no further
/// action is handed out.
pub proof fn lemma_terminated_is_final(events: Seq<Event>, more: Seq<Event>)
    requires
        replay(events).terminated(),
    ensures
        replay(events + more) == replay(events),
        issued(events + more) == issued(events),
    decreases more.len(),
{
    if more.len() == 0 {
        assert(events + more =~= events);
    } else {
        lemma_terminated_is_final(events, more.drop_last());
        assert((events + more).drop_last() =~= events + more.drop_last());
    }
}

} // verus!
