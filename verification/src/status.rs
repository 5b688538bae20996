//! The status that every node of a behavior tree reports.
use vstd::prelude::*;

verus! {

/// Represents the status of a given node in the behavior tree.
#[derive(Copy, Clone, PartialEq, Eq, Debug, Structural)]
pub enum Status {
    /// The status of a `Node` which has not been ticked since it was created
    /// or since it was last reset.
    Initialized,
    /// Represents that a `Node` is currently executing its logic.
    Running,
    /// The status of a `Node` which has been ticked to completion and
    /// successfully executed its logic.
    Succeeded,
    /// The status of a `Node` which has been ticked to completion and failed
    /// to execute its logic.
    Failed,
}

/// The name of a status, as it is shown.
pub open spec fn status_text(status: Status) -> Seq<char> {
    match status {
        Status::Initialized => "Initialized"@,
        Status::Running => "Running"@,
        Status::Succeeded => "Succeeded"@,
        Status::Failed => "Failed"@,
    }
}

impl Status {
    /// Execution has finished: the status is either `Succeeded` or `Failed`.
    pub open spec fn done(&self) -> bool {
        *self == Status::Succeeded || *self == Status::Failed
    }

    /// Returns `true` if the `Status` is one where execution has finished.
    ///
    /// Execution is considered to be done if it is either `Succeeded` or
    /// `Failed`.
    #[must_use]
    #[verifier::when_used_as_spec(done)]
    pub fn is_done(&self) -> (b: bool)
        ensures
            b == self.done(),
            b == (*self == Status::Succeeded || *self == Status::Failed),
    {
        *self == Status::Succeeded || *self == Status::Failed
    }

    /// Returns the name of the status.
    pub fn label(&self) -> (r: &'static str)
        ensures
            r@ == status_text(*self),
    {
        match self {
            Status::Initialized => "Initialized",
            Status::Running => "Running",
            Status::Succeeded => "Succeeded",
            Status::Failed => "Failed",
        }
    }
}

} // verus!
