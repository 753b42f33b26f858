//! The failures an analysis can end in.

use vstd::prelude::*;
use vstd::string::*;

verus! {

/// Why a repository lookup failed, as far as the prompt tells failures apart.
#[derive(Clone, Copy, Debug, PartialEq, Eq, Structural)]
pub enum ErrorKind {
    /// What was asked for does not exist.
    NotFound,
    /// HEAD names a branch that has no commit yet.
    UnbornBranch,
    /// Any other failure.
    Other,
}

/// The two analyses of a repository.
#[derive(Clone, Copy, Debug, PartialEq, Eq, Structural)]
pub enum Operation {
    Branch,
    Status,
}

/// A repository query that failed for good.
#[derive(Debug, PartialEq, Eq)]
pub struct AnalysisError {
    /// The analysis that was running.
    pub operation: Operation,
    /// The cause, in the words of the repository backend.
    pub detail: String,
}

/// The words that introduce a failure of `operation`.
pub open spec fn headline(operation: Operation) -> Seq<char> {
    match operation {
        Operation::Branch => "failed to analyze branch: "@,
        Operation::Status => "failed to get status: "@,
    }
}

impl AnalysisError {
    /// The diagnostic for this failure: the failed operation, then the cause.
    pub fn message(&self) -> (text: String)
        ensures
            text@ == headline(self.operation) + self.detail@,
    {
        let mut text = match self.operation {
            Operation::Branch => String::from_str("failed to analyze branch: "),
            Operation::Status => String::from_str("failed to get status: "),
        };
        text.append(self.detail.as_str());
        text
    }
}

} // verus!
