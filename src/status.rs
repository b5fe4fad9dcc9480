use vstd::prelude::*;

verus! {

/// Lifecycle of an extraction task.
///
/// `Starting -> Processing -> {Succeeded | Failed}`; the last two are terminal.
#[derive(Clone, Copy, Debug, PartialEq, Eq, Structural)]
pub enum Status {
    Starting,
    Processing,
    Succeeded,
    Failed,
}

impl Status {
    /// Position of a status in the lifecycle order.
    pub open spec fn rank(self) -> nat {
        match self {
            Status::Starting => 0,
            Status::Processing => 1,
            Status::Succeeded => 2,
            Status::Failed => 2,
        }
    }

    pub open spec fn is_terminal_spec(self) -> bool {
        self.rank() == 2
    }

    /// No transition leaves `Succeeded` or `Failed`.
    pub fn is_terminal(&self) -> (r: bool)
        ensures
            r == self.is_terminal_spec(),
    {
        match self {
            Status::Succeeded | Status::Failed => true,
            _ => false,
        }
    }

    /// The transitions of the lifecycle: each moves exactly one step forward.
    pub open spec fn can_transition_spec(self, next: Status) -> bool {
        match (self, next) {
            (Status::Starting, Status::Processing) => true,
            (Status::Processing, Status::Succeeded) => true,
            (Status::Processing, Status::Failed) => true,
            _ => false,
        }
    }

    pub fn can_transition(&self, next: Status) -> (r: bool)
        ensures
            r == self.can_transition_spec(next),
    {
        match (self, next) {
            (Status::Starting, Status::Processing) => true,
            (Status::Processing, Status::Succeeded) => true,
            (Status::Processing, Status::Failed) => true,
            _ => false,
        }
    }

    /// Name of the status as clients see it.
    pub fn as_str(&self) -> (r: &'static str)
        ensures
            *self == Status::Starting ==> r@ == "Starting"@,
            *self == Status::Processing ==> r@ == "Processing"@,
            *self == Status::Succeeded ==> r@ == "Succeeded"@,
            *self == Status::Failed ==> r@ == "Failed"@,
    {
        match self {
            Status::Starting => "Starting",
            Status::Processing => "Processing",
            Status::Succeeded => "Succeeded",
            Status::Failed => "Failed",
        }
    }
}

/// Every transition strictly advances the rank, so it never repeats a status.
pub proof fn lemma_transition_advances(from: Status, to: Status)
    requires
        from.can_transition_spec(to),
    ensures
        from.rank() < to.rank(),
        from != to,
        !from.is_terminal_spec(),
{
}

} // verus!
