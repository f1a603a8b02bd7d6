use vstd::prelude::*;

verus! {

/// A restricted operating-system facility that the application asks the GUI
/// runtime to expose to its user-interface layer.
#[derive(Clone, Copy, Debug, PartialEq, Eq, Structural, Hash)]
pub enum Capability {
    /// Native file and message dialogs.
    Dialog,
    /// Scoped file read and write access.
    Filesystem,
    /// Invocation of external processes and URLs.
    Shell,
}

/// The capabilities in the order in which they are attached to the runtime.
/// Extensions may rely on the ones attached before them, so the order is part
/// of the startup contract.
pub open spec fn registration_order() -> Seq<Capability> {
    seq![Capability::Dialog, Capability::Filesystem, Capability::Shell]
}

} // verus!
