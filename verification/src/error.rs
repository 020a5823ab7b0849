//! The kinds of failure the bridge knows, and how far each one reaches.

use vstd::prelude::*;

verus! {

/// What went wrong.
#[derive(Clone, Copy, Debug, PartialEq, Eq, Structural)]
pub enum FailureKind {
    /// A window was asked for with a malformed configuration.
    Configuration,
    /// The windowing system or the content view refused a call.
    NativeCall,
    /// A payload was not valid for the value model.
    Decode,
    /// A window identity named no registered window.
    Identity,
    /// The event loop was reached from a thread that does not own it.
    ThreadAffinity,
    /// The script callback raised an error during dispatch.
    Callback,
}

/// How far a failure reaches.
#[derive(Clone, Copy, Debug, PartialEq, Eq, Structural)]
pub enum Reach {
    /// The failure is returned to the nearest caller. Nothing else is
    /// affected.
    Caller,
    /// The failure ends the task in which it occurred and is handed to
    /// whatever awaits that task.
    Task,
    /// The failure ends the process.
    Process,
}

impl FailureKind {
    /// How far a failure of this kind reaches. Only a callback error and a
    /// thread-affinity violation reach beyond the caller.
    pub open spec fn reach(self) -> Reach {
        match self {
            FailureKind::ThreadAffinity => Reach::Process,
            FailureKind::Callback => Reach::Task,
            _ => Reach::Caller,
        }
    }

    /// How far a failure of this kind reaches.
    pub fn propagation(self) -> (reach: Reach)
        ensures
            reach == self.reach(),
    {
        match self {
            FailureKind::ThreadAffinity => Reach::Process,
            FailureKind::Callback => Reach::Task,
            _ => Reach::Caller,
        }
    }

    /// Whether a failure of this kind is recoverable: it is returned to the
    /// caller and leaves the bridge and all other subscribers running.
    pub fn is_recoverable(self) -> (recoverable: bool)
        ensures
            recoverable == (self.reach() is Caller),
    {
        match self {
            FailureKind::ThreadAffinity | FailureKind::Callback => false,
            _ => true,
        }
    }
}

} // verus!
