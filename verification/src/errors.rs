use vstd::prelude::*;

verus! {

/// Failure taxonomy of the resolution core.
///
/// Every failure aborts the whole top-level conversion; the variants are kept
/// distinct so that callers can react differently (drop, alert, retry later).
#[derive(Clone, Copy, Debug, PartialEq, Eq, Structural)]
pub enum FedError {
    /// The object failed a structural check: its identifier's authority does
    /// not match the domain the fetch was performed against, or a fetched
    /// payload does not have the expected kind or identifier.
    Validation,
    /// The shared fetch counter reached its ceiling; the reference graph was
    /// too deep, too wide, or malicious.
    BudgetExhausted,
    /// The authoring actor has no standing in the owning community.
    NotPermitted,
    /// The root post is locked against replies.
    ThreadClosed,
    /// The transport collaborator could not produce the referenced object.
    Transport,
    /// A storage read did not find an entity that was expected to exist.
    Storage,
}

impl FedError {
    /// The exact description text of each failure.
    pub open spec fn describe_spec(&self) -> Seq<char> {
        match self {
            FedError::Validation => "domain or payload validation failed"@,
            FedError::BudgetExhausted => "resolution budget exhausted"@,
            FedError::NotPermitted => "actor not permitted in community"@,
            FedError::ThreadClosed => "thread is locked against replies"@,
            FedError::Transport => "remote object could not be fetched"@,
            FedError::Storage => "stored entity not found"@,
        }
    }

    /// A short human-readable description of the failure.
    pub fn describe(&self) -> (r: &'static str)
        ensures
            r@ == self.describe_spec(),
    {
        match self {
            FedError::Validation => "domain or payload validation failed",
            FedError::BudgetExhausted => "resolution budget exhausted",
            FedError::NotPermitted => "actor not permitted in community",
            FedError::ThreadClosed => "thread is locked against replies",
            FedError::Transport => "remote object could not be fetched",
            FedError::Storage => "stored entity not found",
        }
    }
}

} // verus!
