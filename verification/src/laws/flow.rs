//! The top-level flows end with a disconnect: it is asked of the transport
//! once, as the last request, unless the connection was never made.

use vstd::prelude::*;
use crate::journal::{Event, Outcome};
use crate::laws::agenda::lemma_without_attempts;
use crate::laws::counts::lemma_push_counts;
use crate::model::{attempts, reconnaissance_plan, scan_plan, Pending, Session, Step};
use crate::state::{Operation, SessionStates};
use crate::transport::ReplyView;
use crate::verdict::occurrences;

verus! {

/// How often the transport was asked to disconnect, by the journal: a
/// disconnect that was passed over does not count.
pub open spec fn disconnects(journal: Seq<Event>) -> nat {
    occurrences(
        journal,
        Event { operation: Operation::Disconnection, outcome: Outcome::Succeeded },
    ) + occurrences(
        journal,
        Event { operation: Operation::Disconnection, outcome: Outcome::Failed },
    )
}

/// Whether `step` is the last step of a flow, or a step that opens a
/// connection.
pub open spec fn bounds_flow(step: Step) -> bool {
    step == Step::Perform(Operation::Disconnection) || step == Step::Perform(
        Operation::Connection,
    )
}

/// Whether `s` is under way in a flow: the disconnect is the last step on
/// its agenda, no step before it connects or disconnects, and the
/// transport has not been asked to disconnect. Once the first connect has
/// been answered, the state is one that admits the disconnect, or the
/// connection has failed.
pub open spec fn under_way(s: Session) -> bool {
    &&& s.agenda.len() > 0
    &&& s.agenda.last() == Step::Perform(Operation::Disconnection)
    &&& forall|i: int| 0 <= i < s.agenda.len() - 1 ==> !bounds_flow(#[trigger] s.agenda[i])
    &&& match s.awaiting {
        Some(Pending::Exchange(Operation::Connection)) => true,
        Some(Pending::Exchange(Operation::Disconnection)) => false,
        Some(Pending::Reconnection) => false,
        _ => Operation::Disconnection.spec_admits(s.state) || s.state
            == SessionStates::FailedConnection,
    }
    &&& disconnects(s.journal) == 0
}

/// Whether `s` has asked for the disconnect that ends its flow and awaits
/// the reply.
pub open spec fn disconnecting(s: Session) -> bool {
    &&& s.agenda.len() == 0
    &&& s.awaiting == Some(Pending::Exchange(Operation::Disconnection))
    &&& disconnects(s.journal) == 0
}

/// Whether `s` has ended its flow: nothing is left to do, and either the
/// transport was asked to disconnect once and the state is that of a
/// disconnect, or the connection was never made and the transport was
/// not asked to disconnect.
pub open spec fn ended(s: Session) -> bool {
    &&& s.finished()
    &&& if s.state == SessionStates::FailedConnection {
        disconnects(s.journal) == 0
    } else {
        &&& disconnects(s.journal) == 1
        &&& (s.state == SessionStates::SuccessDisconnection || s.state
            == SessionStates::FailedDisconnection)
    }
}

proof fn lemma_flow_advances(s: Session)
    requires
        under_way(s),
    ensures
        under_way(s.advance()) || disconnecting(s.advance()) || ended(s.advance()),
    decreases s.agenda.len(),
{
    if s.awaiting is None {
        let rest = Session { agenda: s.agenda.drop_first(), ..s };
        let step = s.agenda[0];
        let next = rest.begin(step);
        let succeeded = Event {
            operation: Operation::Disconnection,
            outcome: Outcome::Succeeded,
        };
        let failed = Event { operation: Operation::Disconnection, outcome: Outcome::Failed };
        if next.journal != s.journal {
            let added = next.journal.last();
            assert(next.journal =~= s.journal.push(added));
            lemma_push_counts(s.journal, added, succeeded);
            lemma_push_counts(s.journal, added, failed);
        }
        if s.agenda.len() == 1 {
            assert(step == Step::Perform(Operation::Disconnection));
            assert(next.agenda.len() == 0);
            assert(next.advance() == next);
        } else {
            assert(!bounds_flow(s.agenda[0]));
            assert(next.agenda.last() == s.agenda.last());
            assert forall|i: int| 0 <= i < next.agenda.len() - 1 implies !bounds_flow(
                #[trigger] next.agenda[i],
            ) by {
                assert(next.agenda[i] == s.agenda[i + 1]);
            }
            lemma_flow_advances(next);
        }
    }
}

proof fn lemma_flow_step(s: Session, reply: ReplyView)
    requires
        under_way(s) || disconnecting(s) || ended(s),
    ensures
        under_way(s.resolve(reply)) || disconnecting(s.resolve(reply)) || ended(
            s.resolve(reply),
        ),
{
    let v = s.absorb(reply);
    let succeeded = Event { operation: Operation::Disconnection, outcome: Outcome::Succeeded };
    let failed = Event { operation: Operation::Disconnection, outcome: Outcome::Failed };
    if v.journal != s.journal {
        let added = v.journal.last();
        assert(v.journal =~= s.journal.push(added));
        lemma_push_counts(s.journal, added, succeeded);
        lemma_push_counts(s.journal, added, failed);
    }
    if under_way(s) {
        let dropped = lemma_without_attempts(s.agenda);
        if v.agenda != s.agenda {
            assert(v.agenda == s.agenda.skip(dropped as int));
            assert(dropped < s.agenda.len());
            assert(v.agenda.last() == s.agenda.last());
            assert forall|i: int| 0 <= i < v.agenda.len() - 1 implies !bounds_flow(
                #[trigger] v.agenda[i],
            ) by {
                assert(v.agenda[i] == s.agenda[i + dropped]);
            }
        }
        assert(under_way(v));
        lemma_flow_advances(v);
    } else if disconnecting(s) {
        assert(ended(v));
        assert(v.advance() == v);
    } else {
        assert(v == s);
        assert(v.advance() == v);
    }
}

proof fn lemma_flow_runs(s: Session, replies: Seq<ReplyView>)
    requires
        under_way(s) || disconnecting(s) || ended(s),
    ensures
        under_way(s.feed(replies)) || disconnecting(s.feed(replies)) || ended(s.feed(replies)),
    decreases replies.len(),
{
    if replies.len() > 0 {
        lemma_flow_step(s, replies[0]);
        lemma_flow_runs(s.resolve(replies[0]), replies.drop_first());
    }
}

/// A reconnaissance ends with a disconnect, whatever the transport answers
/// on the way. The transport is never asked to disconnect more than once.
/// When nothing is left to do, it was asked exactly once and the state is
/// that of a disconnect, or the connection was never made and it was not
/// asked at all.
pub proof fn lemma_reconnaissance_disconnects_once(
    username: Seq<char>,
    password: Seq<char>,
    address: Seq<char>,
    port: u32,
    verbose: bool,
    replies: Seq<ReplyView>,
)
    ensures
        ({
            let end = Session::reconnaissance(username, password, address, port, verbose).feed(
                replies,
            );
            &&& disconnects(end.journal) <= 1
            &&& end.finished() ==> ended(end)
        }),
{
    let fresh = Session::initial(username, password, address, port, verbose);
    let planned = fresh.schedule(reconnaissance_plan());
    assert(planned.agenda =~= reconnaissance_plan());
    let rest = Session { agenda: planned.agenda.drop_first(), ..planned };
    let start = rest.begin(planned.agenda[0]);
    assert(start.advance() == start);
    assert(planned.advance() == start);
    assert(under_way(start));
    lemma_flow_runs(start, replies);
}

/// A search ends with a disconnect, whatever the transport answers on the
/// way and whether or not a candidate is accepted. The transport is never
/// asked to disconnect more than once. When nothing is left to do, it was
/// asked exactly once and the state is that of a disconnect, or the
/// connection was never made and it was not asked at all.
pub proof fn lemma_search_disconnects_once(
    username: Seq<char>,
    address: Seq<char>,
    port: u32,
    candidates: Seq<Seq<char>>,
    verbose: bool,
    replies: Seq<ReplyView>,
)
    ensures
        ({
            let end = Session::search(username, address, port, candidates, verbose).feed(replies);
            &&& disconnects(end.journal) <= 1
            &&& end.finished() ==> ended(end)
        }),
{
    let fresh = Session::initial(username, "default"@, address, port, verbose);
    let planned = fresh.schedule(
        seq![Step::Perform(Operation::Connection), Step::Perform(Operation::Handshake)],
    ).enlist(candidates).schedule(scan_plan() + seq![Step::Perform(Operation::Disconnection)]);
    let rest = Session { agenda: planned.agenda.drop_first(), ..planned };
    let start = rest.begin(planned.agenda[0]);
    assert(planned.agenda[0] == Step::Perform(Operation::Connection));
    assert(start.advance() == start);
    assert(planned.advance() == start);
    assert(start.agenda.last() == Step::Perform(Operation::Disconnection));
    assert forall|i: int| 0 <= i < start.agenda.len() - 1 implies !bounds_flow(
        #[trigger] start.agenda[i],
    ) by {
        assert(start.agenda[i] == planned.agenda[i + 1]);
        if i + 1 < 2 {
        } else if i + 1 < 2 + candidates.len() {
            assert(planned.agenda[i + 1] == attempts(0, candidates.len())[i + 1 - 2]);
        } else {
            assert(planned.agenda[i + 1] == scan_plan()[i + 1 - 2 - candidates.len()]);
        }
    }
    assert(under_way(start));
    lemma_flow_runs(start, replies);
}

} // verus!
