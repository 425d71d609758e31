//! The search over candidate passwords: which requests it makes, where it
//! stops, and what the journal says of it afterwards.

use vstd::prelude::*;
use crate::journal::{Event, Outcome};
use crate::laws::agenda::{
    lemma_advance_keeps, lemma_passes_over_all, lemma_without_attempts,
};
use crate::laws::counts::{lemma_advance_counts, lemma_note_counts};
use crate::model::{attempts, authentications, Pending, Session, Step};
use crate::state::{Operation, SessionStates};
use crate::transport::{ReplyView, RequestView};
use crate::verdict::{occurrences, probe_verdict, ProbeVerdict};

verus! {

/// The event that records how an authentication ended.
pub open spec fn authentication(outcome: Outcome) -> Event {
    Event { operation: Operation::Authentication, outcome }
}

/// The reply to an authentication request is recorded once, with the
/// outcome that the reply stands for.
pub proof fn lemma_authentication_recorded(s: Session, reply: ReplyView, outcome: Outcome)
    requires
        s.awaiting == Some(Pending::Exchange(Operation::Authentication)),
        outcome != Outcome::Skipped,
    ensures
        occurrences(s.resolve(reply).journal, authentication(outcome)) == occurrences(
            s.journal,
            authentication(outcome),
        ) + if Operation::Authentication.spec_verdict(reply) == outcome {
            1nat
        } else {
            0nat
        },
{
    lemma_note_counts(
        Session { state: s.absorb(reply).state, awaiting: None, ..s },
        Operation::Authentication,
        Operation::Authentication.spec_verdict(reply),
        authentication(outcome),
    );
    lemma_advance_counts(s.absorb(reply), authentication(outcome));
}

/// Whether `t` is a session in the middle of a probe over `candidates`,
/// which stand in its list from index `base` on: the attempt with candidate
/// `j` awaits its reply, and the attempts for the candidates after it are
/// all that is left on the agenda.
pub open spec fn probing(t: Session, base: nat, candidates: Seq<Seq<char>>, j: int) -> bool {
    &&& 0 <= j < candidates.len()
    &&& base + candidates.len() <= usize::MAX
    &&& t.awaiting == Some(Pending::Exchange(Operation::Authentication))
    &&& t.password == candidates[j]
    &&& t.candidates.len() == base + candidates.len()
    &&& t.candidates.subrange(base as int, t.candidates.len() as int) == candidates
    &&& t.agenda == attempts((base + j + 1) as nat, (candidates.len() - j - 1) as nat)
}

proof fn lemma_probe_starts(s: Session, candidates: Seq<Seq<char>>)
    requires
        s.finished(),
        Operation::Authentication.spec_admits(s.state),
        candidates.len() > 0,
        s.candidates.len() + candidates.len() <= usize::MAX,
    ensures
        probing(s.enlist(candidates).advance(), s.candidates.len(), candidates, 0),
        s.enlist(candidates).advance().username == s.username,
        s.enlist(candidates).advance().journal == s.journal,
{
    let base = s.candidates.len();
    let listed = s.enlist(candidates);
    let rest = Session { agenda: listed.agenda.drop_first(), ..listed };
    let t = rest.begin(listed.agenda[0]);
    assert(listed.agenda =~= attempts(base, candidates.len()));
    assert(listed.agenda[0] == Step::Attempt(base as usize));
    assert(t.advance() == t);
    assert(listed.advance() == t);
    assert(t.agenda =~= attempts((base + 1) as nat, (candidates.len() - 1) as nat));
    assert(t.candidates.subrange(base as int, t.candidates.len() as int) =~= candidates);
}

proof fn lemma_probe_continues(
    t: Session,
    base: nat,
    candidates: Seq<Seq<char>>,
    j: int,
    reply: ReplyView,
)
    requires
        probing(t, base, candidates, j),
    ensures
        t.request() == Some(
            RequestView::Authenticate { username: t.username, password: candidates[j] },
        ),
        t.resolve(reply).username == t.username,
        (reply is Done) ==> {
            &&& t.resolve(reply).finished()
            &&& t.resolve(reply).state == SessionStates::SuccessAuthentication
            &&& t.resolve(reply).password == candidates[j]
        },
        !(reply is Done) && j + 1 == candidates.len() ==> {
            &&& t.resolve(reply).finished()
            &&& t.resolve(reply).state == SessionStates::FailedAuthentication
            &&& t.resolve(reply).password == candidates[j]
        },
        !(reply is Done) && j + 1 < candidates.len() ==> probing(
            t.resolve(reply),
            base,
            candidates,
            j + 1,
        ),
{
    let v = t.absorb(reply);
    lemma_advance_keeps(v);
    if reply is Done {
        let dropped = lemma_without_attempts(t.agenda);
        assert(dropped == t.agenda.len());
        assert(v.agenda.len() == 0);
    } else if j + 1 == candidates.len() {
        assert(v.agenda.len() == 0);
    } else {
        let rest = Session { agenda: v.agenda.drop_first(), ..v };
        let next = rest.begin(v.agenda[0]);
        assert(v.agenda[0] == Step::Attempt((base + j + 1) as usize));
        assert(v.candidates[base + j + 1] == v.candidates.subrange(
            base as int,
            v.candidates.len() as int,
        )[j + 1]);
        assert(next.advance() == next);
        assert(v.advance() == next);
        assert(next.agenda =~= attempts((base + j + 2) as nat, (candidates.len() - j - 2) as nat));
    }
}

proof fn lemma_probe_progress(
    t: Session,
    base: nat,
    candidates: Seq<Seq<char>>,
    j: int,
    replies: Seq<ReplyView>,
)
    requires
        probing(t, base, candidates, j),
        1 <= replies.len() <= candidates.len() - j,
        forall|i: int| 0 <= i < replies.len() - 1 ==> !(replies[i] is Done),
    ensures
        t.requests(replies) == authentications(
            t.username,
            candidates.subrange(j, j + replies.len()),
        ),
        (replies.last() is Done) ==> {
            &&& t.feed(replies).finished()
            &&& t.feed(replies).state == SessionStates::SuccessAuthentication
            &&& t.feed(replies).password == candidates[j + replies.len() - 1]
        },
        !(replies.last() is Done) && j + replies.len() == candidates.len() ==> {
            &&& t.feed(replies).finished()
            &&& t.feed(replies).state == SessionStates::FailedAuthentication
            &&& t.feed(replies).password == candidates.last()
        },
        (replies.last() is Done) ==> occurrences(
            t.feed(replies).journal,
            authentication(Outcome::Succeeded),
        ) > 0,
        !(replies.last() is Done) ==> occurrences(
            t.feed(replies).journal,
            authentication(Outcome::Succeeded),
        ) == occurrences(t.journal, authentication(Outcome::Succeeded)),
        (forall|i: int| 0 <= i < replies.len() ==> replies[i] is Rejected) ==> {
            &&& occurrences(t.feed(replies).journal, authentication(Outcome::Failed))
                == occurrences(t.journal, authentication(Outcome::Failed))
            &&& occurrences(t.feed(replies).journal, authentication(Outcome::Rejected))
                == occurrences(t.journal, authentication(Outcome::Rejected)) + replies.len()
        },
        occurrences(t.feed(replies).journal, authentication(Outcome::Failed)) >= occurrences(
            t.journal,
            authentication(Outcome::Failed),
        ),
        (exists|i: int| 0 <= i < replies.len() && !(replies[i] is Done) && !(replies[i] is Rejected))
            ==> occurrences(t.feed(replies).journal, authentication(Outcome::Failed)) > 0,
    decreases replies.len(),
{
    let reply = replies[0];
    let rest = replies.drop_first();
    let u = t.resolve(reply);
    lemma_probe_continues(t, base, candidates, j, reply);
    lemma_authentication_recorded(t, reply, Outcome::Succeeded);
    lemma_authentication_recorded(t, reply, Outcome::Failed);
    lemma_authentication_recorded(t, reply, Outcome::Rejected);
    if replies.len() == 1 {
        assert(u.feed(rest) == u);
        assert(u.requests(rest) =~= Seq::<RequestView>::empty());
        assert(t.requests(replies) =~= authentications(
            t.username,
            candidates.subrange(j, j + 1),
        ));
    } else {
        assert(!(replies[0] is Done));
        assert forall|i: int| 0 <= i < rest.len() - 1 implies !(rest[i] is Done) by {
            assert(rest[i] == replies[i + 1]);
        }
        lemma_probe_progress(u, base, candidates, j + 1, rest);
        assert(rest.last() == replies.last());
        if forall|i: int| 0 <= i < replies.len() ==> replies[i] is Rejected {
            assert forall|i: int| 0 <= i < rest.len() implies rest[i] is Rejected by {
                assert(rest[i] == replies[i + 1]);
            }
        }
        if exists|i: int|
            0 <= i < replies.len() && !(replies[i] is Done) && !(replies[i] is Rejected) {
            let i = choose|i: int|
                0 <= i < replies.len() && !(replies[i] is Done) && !(replies[i] is Rejected);
            if i > 0 {
                assert(rest[i - 1] == replies[i]);
            }
        }
        assert(t.requests(replies) =~= authentications(
            t.username,
            candidates.subrange(j, j + replies.len()),
        ));
    }
}

/// The probe stops at the first candidate that is accepted. On a session
/// with nothing left to do, in a state that admits authentication, let the
/// transport refuse or fail the first `k` candidates and accept the next.
/// Then the transport is asked to authenticate exactly `k + 1` times, with
/// the candidates in their order; the session ends authenticated, with the
/// accepted candidate as its password and nothing left to do. The
/// candidates after it are never tried.
pub proof fn lemma_probe_stops_at_first_accepted(
    s: Session,
    candidates: Seq<Seq<char>>,
    replies: Seq<ReplyView>,
)
    requires
        s.finished(),
        Operation::Authentication.spec_admits(s.state),
        s.candidates.len() + candidates.len() <= usize::MAX,
        1 <= replies.len() <= candidates.len(),
        (replies.last() is Done),
        forall|i: int| 0 <= i < replies.len() - 1 ==> !(replies[i] is Done),
    ensures
        ({
            let probe = s.enlist(candidates).advance();
            let end = probe.feed(replies);
            &&& probe.requests(replies) == authentications(
                s.username,
                candidates.take(replies.len() as int),
            )
            &&& end.finished()
            &&& end.state == SessionStates::SuccessAuthentication
            &&& end.password == candidates[replies.len() - 1]
            &&& probe_verdict(end.journal) == ProbeVerdict::Found
        }),
{
    lemma_probe_starts(s, candidates);
    let probe = s.enlist(candidates).advance();
    lemma_probe_progress(probe, s.candidates.len(), candidates, 0, replies);
    assert(candidates.subrange(0, replies.len() as int) =~= candidates.take(replies.len() as int));
}

/// The probe exhausts its candidates when none is accepted. On a session
/// with nothing left to do, in a state that admits authentication, let the
/// transport refuse or fail every candidate. Then the transport is asked to
/// authenticate once for each candidate, in their order, and the session
/// ends with authentication failed and nothing left to do. If the session
/// never authenticated before, its verdict tells a refusal of every
/// candidate from a course in which the transport failed: it is `Exhausted`
/// after refusals alone, and `Disrupted` as soon as one reply was a failure.
pub proof fn lemma_probe_exhausts(
    s: Session,
    candidates: Seq<Seq<char>>,
    replies: Seq<ReplyView>,
)
    requires
        s.finished(),
        Operation::Authentication.spec_admits(s.state),
        s.candidates.len() + candidates.len() <= usize::MAX,
        candidates.len() > 0,
        replies.len() == candidates.len(),
        forall|i: int| 0 <= i < replies.len() ==> !(replies[i] is Done),
    ensures
        ({
            let probe = s.enlist(candidates).advance();
            let end = probe.feed(replies);
            &&& probe.requests(replies) == authentications(s.username, candidates)
            &&& end.finished()
            &&& end.state == SessionStates::FailedAuthentication
            &&& end.password == candidates.last()
            &&& occurrences(s.journal, authentication(Outcome::Succeeded)) == 0 ==> {
                &&& (forall|i: int| 0 <= i < replies.len() ==> replies[i] is Rejected)
                    && occurrences(s.journal, authentication(Outcome::Failed)) == 0
                    ==> probe_verdict(end.journal) == ProbeVerdict::Exhausted
                &&& (exists|i: int| 0 <= i < replies.len() && !(replies[i] is Rejected))
                    ==> probe_verdict(end.journal) == ProbeVerdict::Disrupted
            }
        }),
{
    lemma_probe_starts(s, candidates);
    let probe = s.enlist(candidates).advance();
    lemma_probe_progress(probe, s.candidates.len(), candidates, 0, replies);
    assert(candidates.subrange(0, replies.len() as int) =~= candidates);
}

/// From a state that does not admit authentication the probe asks nothing
/// of the transport: every attempt is passed over, and the state and the
/// password stay as they are.
pub proof fn lemma_probe_outside_precondition(s: Session, candidates: Seq<Seq<char>>)
    requires
        s.finished(),
        !Operation::Authentication.spec_admits(s.state),
    ensures
        s.enlist(candidates).advance().finished(),
        s.enlist(candidates).advance().state == s.state,
        s.enlist(candidates).advance().password == s.password,
{
    let listed = s.enlist(candidates);
    assert(listed.agenda =~= attempts(s.candidates.len(), candidates.len()));
    lemma_passes_over_all(listed);
}

} // verus!
