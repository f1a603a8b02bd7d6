use vstd::prelude::*;
use crate::step::{startup_plan, Step};

verus! {

/// What the embedding program reports back after acting on an [`Action`].
#[derive(Clone, Copy, Debug, PartialEq, Eq, Structural, Hash)]
pub enum Event {
    /// The startup step last handed out was performed.
    StepSucceeded,
    /// The startup step last handed out could not be performed.
    StepFailed,
    /// The GUI runtime has signalled shutdown and its event loop has ended.
    ShutdownSignalled,
}

/// What the embedding program is to do next.
#[derive(Clone, Copy, Debug, PartialEq, Eq, Structural, Hash)]
pub enum Action {
    /// Perform this startup step, then report `StepSucceeded` or `StepFailed`.
    Perform(Step),
    /// The event loop is running: block until the runtime signals shutdown,
    /// then report `ShutdownSignalled`.
    AwaitShutdown,
    /// The application has ended cleanly: return to the platform launcher.
    Exit,
    /// Startup has failed: terminate the process with a fatal error. Nothing is
    /// retried and nothing continues with what was set up so far.
    Abort,
}

/// Where the application stands between launch and termination.
///
/// The lifecycle is used once: it leaves `Uninitialized` either for `Running`
/// and then `TerminatedNormal`, or for `TerminatedFatal`, and a terminated
/// lifecycle never leaves its state.
#[derive(Clone, Copy, Debug, PartialEq, Eq, Structural, Hash)]
pub enum Lifecycle {
    /// Startup is under way; `pending` is the step handed out and not yet
    /// reported on.
    Uninitialized { pending: Step },
    /// Every startup step has been performed and the event loop is dispatching.
    Running,
    /// The event loop ended on the runtime's shutdown signal.
    TerminatedNormal,
    /// Startup was abandoned because `failed` could not be performed.
    TerminatedFatal { failed: Step },
}

impl Lifecycle {
    /// The state at launch: nothing is set up and the first step is pending.
    pub open spec fn initial() -> Lifecycle {
        Lifecycle::Uninitialized { pending: startup_plan()[0] }
    }

    /// Whether the application has ended, cleanly or not.
    pub open spec fn terminated(self) -> bool {
        self is TerminatedNormal || self is TerminatedFatal
    }

    /// What the embedding program has to do in this state.
    pub open spec fn action(self) -> Action {
        match self {
            Lifecycle::Uninitialized { pending } => Action::Perform(pending),
            Lifecycle::Running => Action::AwaitShutdown,
            Lifecycle::TerminatedNormal => Action::Exit,
            Lifecycle::TerminatedFatal { .. } => Action::Abort,
        }
    }

    /// Whether `event` answers the action of this state. During startup that is
    /// the outcome of the pending step, while running it is the shutdown
    /// signal, and once terminated nothing is.
    pub open spec fn accepts(self, event: Event) -> bool {
        match self {
            Lifecycle::Uninitialized { .. } => event is StepSucceeded || event is StepFailed,
            Lifecycle::Running => event is ShutdownSignalled,
            Lifecycle::TerminatedNormal | Lifecycle::TerminatedFatal { .. } => false,
        }
    }

    /// The state that `event` leads to. An event that is not accepted changes
    /// nothing.
    pub open spec fn after(self, event: Event) -> Lifecycle {
        match (self, event) {
            (Lifecycle::Uninitialized { pending }, Event::StepSucceeded) => {
                if pending.position() + 1 < startup_plan().len() {
                    Lifecycle::Uninitialized { pending: startup_plan()[pending.position() + 1] }
                } else {
                    Lifecycle::Running
                }
            },
            (Lifecycle::Uninitialized { pending }, Event::StepFailed) => {
                Lifecycle::TerminatedFatal { failed: pending }
            },
            (Lifecycle::Running, Event::ShutdownSignalled) => Lifecycle::TerminatedNormal,
            _ => self,
        }
    }

    /// Starts a lifecycle at launch.
    pub fn new() -> (state: Lifecycle)
        ensures
            state == Lifecycle::initial(),
    {
        Lifecycle::Uninitialized { pending: Step::first() }
    }

    /// The action that this state asks for.
    pub fn current_action(&self) -> (action: Action)
        ensures
            action == self.action(),
    {
        match self {
            Lifecycle::Uninitialized { pending } => Action::Perform(*pending),
            Lifecycle::Running => Action::AwaitShutdown,
            Lifecycle::TerminatedNormal => Action::Exit,
            Lifecycle::TerminatedFatal { .. } => Action::Abort,
        }
    }

    /// Takes in the report on the current action and moves to the next state.
    ///
    /// Returns the action of the new state, or `None` where the event does not
    /// answer the current action; the state is then left as it was.
    pub fn advance(&mut self, event: Event) -> (next: Option<Action>)
        ensures
            *final(self) == old(self).after(event),
            old(self).accepts(event) ==> next == Some(final(self).action()),
            !old(self).accepts(event) ==> next.is_none(),
    {
        match (*self, event) {
            (Lifecycle::Uninitialized { pending }, Event::StepSucceeded) => {
                match pending.successor() {
                    Some(step) => {
                        *self = Lifecycle::Uninitialized { pending: step };
                        Some(Action::Perform(step))
                    },
                    None => {
                        *self = Lifecycle::Running;
                        Some(Action::AwaitShutdown)
                    },
                }
            },
            (Lifecycle::Uninitialized { pending }, Event::StepFailed) => {
                *self = Lifecycle::TerminatedFatal { failed: pending };
                Some(Action::Abort)
            },
            (Lifecycle::Running, Event::ShutdownSignalled) => {
                *self = Lifecycle::TerminatedNormal;
                Some(Action::Exit)
            },
            _ => None,
        }
    }
}

} // verus!
