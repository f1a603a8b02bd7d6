use vstd::prelude::*;
use crate::capability::Capability;

verus! {

/// One operation of the startup sequence, performed against the GUI runtime.
#[derive(Clone, Copy, Debug, PartialEq, Eq, Structural, Hash)]
pub enum Step {
    /// Create the default application builder.
    CreateBuilder,
    /// Attach one capability extension to the builder.
    Register(Capability),
    /// Resolve the startup context: icons, identifiers, window definitions.
    ResolveContext,
    /// Hand the builder and the context to the runtime and enter its event loop.
    StartEventLoop,
}

/// Number of steps in the startup sequence.
pub const STEP_COUNT: usize = 6;

/// The startup sequence. It is fixed: no step is optional and none repeats.
pub open spec fn startup_plan() -> Seq<Step> {
    seq![
        Step::CreateBuilder,
        Step::Register(Capability::Dialog),
        Step::Register(Capability::Filesystem),
        Step::Register(Capability::Shell),
        Step::ResolveContext,
        Step::StartEventLoop,
    ]
}

impl Step {
    /// Where this step stands in the startup sequence, counted from zero.
    pub open spec fn position(self) -> int {
        match self {
            Step::CreateBuilder => 0,
            Step::Register(Capability::Dialog) => 1,
            Step::Register(Capability::Filesystem) => 2,
            Step::Register(Capability::Shell) => 3,
            Step::ResolveContext => 4,
            Step::StartEventLoop => 5,
        }
    }

    /// The first step of the startup sequence.
    pub fn first() -> (step: Step)
        ensures
            step == startup_plan()[0],
    {
        Step::CreateBuilder
    }

    /// The step that follows this one, or `None` after the last.
    pub fn successor(self) -> (next: Option<Step>)
        ensures
            self.position() + 1 < startup_plan().len() ==> next == Some(
                startup_plan()[self.position() + 1],
            ),
            self.position() + 1 >= startup_plan().len() ==> next.is_none(),
    {
        match self {
            Step::CreateBuilder => Some(Step::Register(Capability::Dialog)),
            Step::Register(Capability::Dialog) => Some(Step::Register(Capability::Filesystem)),
            Step::Register(Capability::Filesystem) => Some(Step::Register(Capability::Shell)),
            Step::Register(Capability::Shell) => Some(Step::ResolveContext),
            Step::ResolveContext => Some(Step::StartEventLoop),
            Step::StartEventLoop => None,
        }
    }
}

/// Every step occurs in the startup sequence, at its position and nowhere else.
pub proof fn lemma_plan_holds_each_step_once(step: Step)
    ensures
        startup_plan().len() == STEP_COUNT,
        0 <= step.position() < startup_plan().len(),
        startup_plan()[step.position()] == step,
        forall|i: int| 0 <= i < startup_plan().len() && startup_plan()[i] == step ==> i == step.position(),
{
}

} // verus!
