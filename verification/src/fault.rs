//! What can go wrong in a run, and which of it ends the run in failure.

use vstd::prelude::*;

verus! {

/// A condition that a run can meet.
#[derive(Clone, Copy, Debug, PartialEq, Eq, Structural)]
pub enum Fault {
    /// Asking the user failed or was interrupted.
    Prompt,
    /// The generator could not be found or started.
    GeneratorLaunch,
    /// The generator ran and reported a failure.
    GeneratorFailure,
    /// A directory could not be created.
    Filesystem,
    /// The editor could not be found or started.
    EditorLaunch,
}

impl Fault {
    /// Whether the fault is fatal: a fatal fault is handed up as the run's
    /// failure, any other is answered with a notice and leaves the run a
    /// success.
    pub open spec fn fatal(self) -> bool {
        self == Fault::Prompt || self == Fault::GeneratorLaunch || self == Fault::Filesystem
    }

    /// Tells whether the fault is fatal.
    pub fn is_fatal(&self) -> (fatal: bool)
        ensures
            fatal == self.fatal(),
    {
        match self {
            Fault::Prompt | Fault::GeneratorLaunch | Fault::Filesystem => true,
            Fault::GeneratorFailure | Fault::EditorLaunch => false,
        }
    }
}

/// How a run ended.
#[derive(Clone, Copy, Debug, PartialEq, Eq, Structural)]
pub enum Outcome {
    /// The run ended as a success.
    Completed,
    /// The run was given up for a fatal fault.
    Failed(Fault),
}

impl Outcome {
    /// How a run ends that met `fault`.
    pub open spec fn after(fault: Fault) -> Outcome {
        if fault.fatal() {
            Outcome::Failed(fault)
        } else {
            Outcome::Completed
        }
    }

    /// The end of a run that met `fault`.
    pub fn of_fault(fault: Fault) -> (outcome: Outcome)
        ensures
            outcome == Outcome::after(fault),
    {
        if fault.is_fatal() {
            Outcome::Failed(fault)
        } else {
            Outcome::Completed
        }
    }

    /// Whether the run ended as a success.
    pub fn is_success(&self) -> (success: bool)
        ensures
            success == (*self == Outcome::Completed),
    {
        match self {
            Outcome::Completed => true,
            Outcome::Failed(_) => false,
        }
    }
}

/// Of the five faults exactly three are fatal, and a run fails only for a
/// fatal one.
pub proof fn law_fatal_faults(fault: Fault)
    ensures
        fault.fatal() <==> fault == Fault::Prompt || fault == Fault::GeneratorLaunch || fault
            == Fault::Filesystem,
        Outcome::after(fault) == Outcome::Completed <==> fault == Fault::GeneratorFailure || fault
            == Fault::EditorLaunch,
        Outcome::after(fault) matches Outcome::Failed(cause) ==> cause == fault && cause.fatal(),
{
}

} // verus!
