//! The record of what a session did: one entry for each operation that ran
//! and, in a verbose session, one for each operation that was passed over.

use vstd::prelude::*;
use crate::state::Operation;

verus! {

/// How an operation ended.
#[derive(Clone, Copy, Debug, PartialEq, Eq, Structural)]
pub enum Outcome {
    /// The session was in no state from which the operation may run; the
    /// transport was not asked.
    Skipped,
    /// The transport reported success.
    Succeeded,
    /// The remote end refused the credentials.
    Rejected,
    /// The transport reported failure.
    Failed,
    /// The command was started, but its output could not be read.
    Unread,
}

/// How loudly an entry is to be reported.
#[derive(Clone, Copy, Debug, PartialEq, Eq, Structural)]
pub enum Severity {
    Info,
    Warn,
    Error,
}

/// One entry of the journal.
#[derive(Clone, Copy, Debug, PartialEq, Eq, Structural)]
pub struct Event {
    pub operation: Operation,
    pub outcome: Outcome,
}

impl Outcome {
    /// A refusal of the credentials is an expected answer and is reported as
    /// information, like a success; an operation passed over is a warning;
    /// the failures are errors.
    pub open spec fn spec_severity(self) -> Severity {
        match self {
            Outcome::Succeeded | Outcome::Rejected => Severity::Info,
            Outcome::Skipped => Severity::Warn,
            Outcome::Failed | Outcome::Unread => Severity::Error,
        }
    }

    #[verifier::when_used_as_spec(spec_severity)]
    pub fn severity(self) -> (severity: Severity)
        ensures
            severity == self.spec_severity(),
    {
        match self {
            Outcome::Succeeded | Outcome::Rejected => Severity::Info,
            Outcome::Skipped => Severity::Warn,
            Outcome::Failed | Outcome::Unread => Severity::Error,
        }
    }
}

} // verus!
