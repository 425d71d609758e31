//! How the journal grows: what each rule of the model adds to it.

use vstd::prelude::*;
use crate::journal::{Event, Outcome};
use crate::model::{Session, Step};
use crate::state::Operation;
use crate::verdict::occurrences;

verus! {

/// An event added to a journal counts once for itself and not at all for
/// any other event.
pub proof fn lemma_push_counts(journal: Seq<Event>, added: Event, event: Event)
    ensures
        occurrences(journal.push(added), event) == occurrences(journal, event) + if added
            == event {
            1nat
        } else {
            0nat
        },
{
    assert(journal.push(added).drop_last() =~= journal);
}

/// An entry added to the journal counts once for its own event and not at
/// all for any other.
pub proof fn lemma_note_counts(s: Session, operation: Operation, outcome: Outcome, event: Event)
    ensures
        occurrences(s.note(operation, outcome).journal, event) == occurrences(s.journal, event)
            + if (Event { operation, outcome }) == event {
            1nat
        } else {
            0nat
        },
{
    assert(s.note(operation, outcome).journal.drop_last() =~= s.journal);
}

/// Advancing records only operations that were passed over: the count of
/// every other event stays as it is.
pub proof fn lemma_advance_counts(s: Session, event: Event)
    requires
        event.outcome != Outcome::Skipped,
    ensures
        occurrences(s.advance().journal, event) == occurrences(s.journal, event),
    decreases s.agenda.len(),
{
    if s.awaiting is None && s.agenda.len() > 0 {
        let rest = Session { agenda: s.agenda.drop_first(), ..s };
        let next = rest.begin(s.agenda[0]);
        match s.agenda[0] {
            Step::Perform(operation) => {
                lemma_note_counts(rest, operation, Outcome::Skipped, event);
            },
            Step::Attempt(_) => {
                lemma_note_counts(rest, Operation::Authentication, Outcome::Skipped, event);
            },
        }
        lemma_advance_counts(next, event);
    }
}

} // verus!
