//! What a session's journal says of its course: how often an operation
//! ended in a given way, whether the session ever authenticated, and what
//! came of a search over candidate passwords.

use vstd::prelude::*;
use crate::journal::{Event, Outcome};
use crate::ssh::Ssh;
use crate::state::Operation;

verus! {

/// How often `event` stands in `journal`.
pub open spec fn occurrences(journal: Seq<Event>, event: Event) -> nat
    decreases journal.len(),
{
    if journal.len() == 0 {
        0
    } else {
        occurrences(journal.drop_last(), event) + if journal.last() == event {
            1nat
        } else {
            0nat
        }
    }
}

/// What came of the authentication attempts of a session.
#[derive(Clone, Copy, Debug, PartialEq, Eq, Structural)]
pub enum ProbeVerdict {
    /// A password was accepted.
    Found,
    /// No password was accepted, and every attempt was refused by the
    /// remote end: the candidates are exhausted.
    Exhausted,
    /// No password was accepted, and at least one attempt failed for a
    /// reason other than a refusal: the candidates it concerns were not
    /// shown to be wrong.
    Disrupted,
    /// The transport was never asked to authenticate.
    NotAttempted,
}

/// The verdict that a journal gives.
pub open spec fn probe_verdict(journal: Seq<Event>) -> ProbeVerdict {
    if occurrences(
        journal,
        Event { operation: Operation::Authentication, outcome: Outcome::Succeeded },
    ) > 0 {
        ProbeVerdict::Found
    } else if occurrences(
        journal,
        Event { operation: Operation::Authentication, outcome: Outcome::Failed },
    ) > 0 {
        ProbeVerdict::Disrupted
    } else if occurrences(
        journal,
        Event { operation: Operation::Authentication, outcome: Outcome::Rejected },
    ) > 0 {
        ProbeVerdict::Exhausted
    } else {
        ProbeVerdict::NotAttempted
    }
}

/// The exit status that a journal gives: 0 if the session authenticated,
/// 1 if it never did.
pub open spec fn exit_status(journal: Seq<Event>) -> i32 {
    if probe_verdict(journal) == ProbeVerdict::Found {
        0
    } else {
        1
    }
}

impl Ssh {
    /// How often `operation` ended with `outcome` in this session.
    pub fn tally(&self, operation: Operation, outcome: Outcome) -> (count: usize)
        ensures
            count == occurrences(self@.journal, Event { operation, outcome }),
    {
        let journal = self.journal();
        let event = Event { operation, outcome };
        let mut count: usize = 0;
        let mut i: usize = 0;
        while i < journal.len()
            invariant
                i <= journal.len(),
                count <= i,
                count == occurrences(journal@.take(i as int), event),
            decreases journal.len() - i,
        {
            assert(journal@.take(i + 1).drop_last() =~= journal@.take(i as int));
            if journal[i] == event {
                count += 1;
            }
            i += 1;
        }
        assert(journal@.take(i as int) =~= journal@);
        count
    }

    /// What came of the authentication attempts of this session.
    pub fn probe_verdict(&self) -> (verdict: ProbeVerdict)
        ensures
            verdict == probe_verdict(self@.journal),
    {
        if self.tally(Operation::Authentication, Outcome::Succeeded) > 0 {
            ProbeVerdict::Found
        } else if self.tally(Operation::Authentication, Outcome::Failed) > 0 {
            ProbeVerdict::Disrupted
        } else if self.tally(Operation::Authentication, Outcome::Rejected) > 0 {
            ProbeVerdict::Exhausted
        } else {
            ProbeVerdict::NotAttempted
        }
    }

    /// The status with which a run over this session exits: 0 if it
    /// authenticated, 1 if it never did. What the enumeration found, and
    /// whether the disconnect succeeded, do not change it.
    pub fn exit_status(&self) -> (status: i32)
        ensures
            status == exit_status(self@.journal),
    {
        match self.probe_verdict() {
            ProbeVerdict::Found => 0,
            _ => 1,
        }
    }
}

} // verus!
