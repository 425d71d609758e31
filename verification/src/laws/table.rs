//! The table of transitions, as it holds of every session: which state
//! follows which, and what an operation does outside its precondition set.

use vstd::prelude::*;
use crate::journal::Outcome;
use crate::laws::agenda::{lemma_advance_keeps, lemma_single_step};
use crate::model::{Pending, Session, Step};
use crate::state::{Operation, SessionStates};
use crate::transport::{ReplyView, RequestView};

verus! {

/// The state after a reply is decided by the state before it, the operation
/// whose request awaited the reply, and the reply. It is the state the
/// table gives for the operation's success or for its failure; a reply
/// that nothing awaited, and one to a read, leave the state as it is.
pub proof fn lemma_reply_decides_state(s: Session, reply: ReplyView)
    ensures
        s.resolve(reply).state == s.absorb(reply).state,
        s.absorb(reply).state == match s.awaiting {
            None => s.state,
            Some(Pending::Reading(_)) => s.state,
            Some(Pending::Reconnection) => if reply is Done {
                SessionStates::SuccessDisconnection
            } else {
                SessionStates::FailedDisconnection
            },
            Some(Pending::Exchange(operation)) => if operation.spec_verdict(reply)
                == Outcome::Succeeded {
                operation.spec_on_success(s.state)
            } else {
                operation.spec_on_failure(s.state)
            },
        },
{
    lemma_advance_keeps(s.absorb(reply));
}

/// An operation invoked on an idle session, and the reply to its request if
/// it made one, lead to the state that the table gives for the state before,
/// the operation and the reply. A connect on a connected session is the one
/// operation with two requests; `lemma_reconnection` speaks of it.
pub proof fn lemma_state_follows_table(s: Session, operation: Operation, reply: ReplyView)
    requires
        s.wf(),
        s.idle(),
        !(operation == Operation::Connection && s.state == SessionStates::SuccessConnection),
    ensures
        s.begin(Step::Perform(operation)).absorb(reply).state == operation.spec_outcome(
            s.state,
            operation.spec_verdict(reply) == Outcome::Succeeded,
        ),
        operation.spec_admits(s.state) && operation.spec_is_transition() ==> (s.begin(
            Step::Perform(operation),
        ).request() is Some),
{
}

/// A connect on a connected session first asks for a disconnect, whose reply
/// decides the state as for a disconnect, and then for the connect, whose
/// reply decides the state as for a connect.
pub proof fn lemma_reconnection(s: Session, first: ReplyView, second: ReplyView)
    requires
        s.idle(),
        s.state == SessionStates::SuccessConnection,
    ensures
        ({
            let asked = s.begin(Step::Perform(Operation::Connection));
            let disconnected = asked.absorb(first);
            let connected = disconnected.absorb(second);
            &&& asked.request() == Some(RequestView::Disconnect)
            &&& disconnected.state == Operation::Disconnection.spec_outcome(
                s.state,
                first is Done,
            )
            &&& disconnected.request() == Some(
                RequestView::Connect { address: s.address, port: s.port },
            )
            &&& connected.state == Operation::Connection.spec_outcome(
                disconnected.state,
                second is Done,
            )
            &&& connected.idle()
        }),
{
}

/// An operation invoked from a state outside its precondition set asks
/// nothing of the transport and changes nothing: a verbose session records
/// that the operation was passed over, and that is all.
pub proof fn lemma_outside_precondition(s: Session, operation: Operation)
    requires
        s.idle(),
        !operation.spec_admits(s.state),
    ensures
        (s.begin(Step::Perform(operation)).request() is None),
        s.begin(Step::Perform(operation)) == s.pass_over(operation),
        s.pass_over(operation) == (Session { journal: s.pass_over(operation).journal, ..s }),
        !s.verbose ==> s.begin(Step::Perform(operation)) == s,
        s.finished() ==> s.schedule(seq![Step::Perform(operation)]).advance() == s.pass_over(
            operation,
        ),
{
    if s.finished() {
        lemma_single_step(s, Step::Perform(operation));
    }
}

/// An attempt from a state that does not admit authentication asks nothing
/// of the transport and leaves the password as it is.
pub proof fn lemma_attempt_outside_precondition(s: Session, index: usize)
    requires
        s.idle(),
        !Operation::Authentication.spec_admits(s.state),
    ensures
        (s.begin(Step::Attempt(index)).request() is None),
        s.begin(Step::Attempt(index)) == s.pass_over(Operation::Authentication),
{
}

/// Disconnecting is idempotent: on a session that was disconnected, a
/// disconnect, and another one after it, ask nothing of the transport and
/// leave the state at the successful disconnection.
pub proof fn lemma_disconnect_idempotent(s: Session)
    requires
        s.finished(),
        s.state == SessionStates::SuccessDisconnection,
    ensures
        ({
            let step = seq![Step::Perform(Operation::Disconnection)];
            let once = s.schedule(step).advance();
            let twice = once.schedule(step).advance();
            &&& once.request() is None
            &&& once.finished()
            &&& once.state == SessionStates::SuccessDisconnection
            &&& twice.request() is None
            &&& twice.finished()
            &&& twice.state == SessionStates::SuccessDisconnection
            &&& !s.verbose ==> twice == s
        }),
{
    let step = Step::Perform(Operation::Disconnection);
    lemma_single_step(s, step);
    let once = s.schedule(seq![step]).advance();
    lemma_single_step(once, step);
}

} // verus!
