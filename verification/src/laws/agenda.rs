//! How a session works through its agenda.

use vstd::prelude::*;
use crate::model::{attempts, without_attempts, Session, Step};
use crate::transport::ReplyView;

verus! {

/// On a session with nothing left to do, a step that is put on the agenda
/// is taken up at once, and nothing else happens.
pub proof fn lemma_single_step(s: Session, step: Step)
    requires
        s.finished(),
    ensures
        s.schedule(seq![step]).advance() == s.begin(step),
{
    let scheduled = s.schedule(seq![step]);
    assert(scheduled.agenda =~= seq![step]);
    let rest = Session { agenda: scheduled.agenda.drop_first(), ..scheduled };
    assert(rest.agenda =~= s.agenda);
    assert(rest == s);
    assert(rest.begin(step).agenda.len() == 0);
    assert(rest.begin(step).advance() == rest.begin(step));
}

/// Advancing twice is advancing once.
pub proof fn lemma_advance_settles(s: Session)
    ensures
        s.advance().advance() == s.advance(),
    decreases s.agenda.len(),
{
    if s.awaiting is None && s.agenda.len() > 0 {
        let rest = Session { agenda: s.agenda.drop_first(), ..s };
        lemma_advance_settles(rest.begin(s.agenda[0]));
    }
}

/// Steps that are put on the agenda while the session advances are taken
/// in the same order as steps that were all there from the start.
pub proof fn lemma_schedule_later(s: Session, steps: Seq<Step>)
    ensures
        s.advance().schedule(steps).advance() == s.schedule(steps).advance(),
    decreases s.agenda.len(),
{
    if s.awaiting is None && s.agenda.len() > 0 {
        let rest = Session { agenda: s.agenda.drop_first(), ..s };
        let next = rest.begin(s.agenda[0]);
        lemma_schedule_later(next, steps);
        let scheduled = s.schedule(steps);
        let after = Session { agenda: scheduled.agenda.drop_first(), ..scheduled };
        assert(after.agenda =~= rest.agenda + steps);
        assert(after.begin(scheduled.agenda[0]) == next.schedule(steps));
    }
}

/// Candidates that are put on the agenda while the session advances are
/// tried as if their attempts had been there from the start, provided that
/// the attempts already on the agenda refer to candidates that the session
/// holds.
pub proof fn lemma_enlist_later(s: Session, candidates: Seq<Seq<char>>)
    requires
        forall|i: int|
            0 <= i < s.agenda.len() ==> (#[trigger] s.agenda[i] matches Step::Attempt(index)
                ==> index < s.candidates.len()),
    ensures
        s.advance().enlist(candidates).advance() == s.enlist(candidates).advance(),
    decreases s.agenda.len(),
{
    if s.awaiting is None && s.agenda.len() > 0 {
        let rest = Session { agenda: s.agenda.drop_first(), ..s };
        let next = rest.begin(s.agenda[0]);
        assert forall|i: int| 0 <= i < next.agenda.len() implies (
        #[trigger] next.agenda[i] matches Step::Attempt(index) ==> index
            < next.candidates.len()) by {
            assert(next.agenda[i] == s.agenda[i + 1]);
        }
        lemma_enlist_later(next, candidates);
        let listed = s.enlist(candidates);
        let after = Session { agenda: listed.agenda.drop_first(), ..listed };
        assert(after.agenda =~= rest.agenda + attempts(s.candidates.len(), candidates.len()));
        assert(after.begin(listed.agenda[0]) == next.enlist(candidates));
    }
}

/// Taking up a step leaves the state, the channel handle and the findings
/// as they are.
pub proof fn lemma_begin_keeps(s: Session, step: Step)
    ensures
        s.begin(step).state == s.state,
        s.begin(step).channel == s.channel,
        s.begin(step).lookup == s.lookup,
        s.begin(step).agenda == s.agenda,
        s.begin(step).candidates == s.candidates,
        s.begin(step).username == s.username,
{
}

/// Advancing leaves the state, the channel handle and the findings as they
/// are: only a reply changes them.
pub proof fn lemma_advance_keeps(s: Session)
    ensures
        s.advance().state == s.state,
        s.advance().channel == s.channel,
        s.advance().lookup == s.lookup,
        s.advance().candidates == s.candidates,
        s.advance().username == s.username,
    decreases s.agenda.len(),
{
    if s.awaiting is None && s.agenda.len() > 0 {
        let rest = Session { agenda: s.agenda.drop_first(), ..s };
        lemma_advance_keeps(rest.begin(s.agenda[0]));
    }
}

/// A session with nothing on its agenda but steps that it does not take up
/// advances to the end of the agenda without a request. Its state, its
/// password, its channel handle and its findings stay as they are.
pub proof fn lemma_passes_over_all(u: Session)
    requires
        u.idle(),
        forall|i: int| 0 <= i < u.agenda.len() ==> !u.takes_up(#[trigger] u.agenda[i]),
    ensures
        u.advance().finished(),
        u.advance().state == u.state,
        u.advance().password == u.password,
        u.advance().channel == u.channel,
        u.advance().lookup == u.lookup,
        !u.verbose ==> u.advance().journal == u.journal,
    decreases u.agenda.len(),
{
    if u.agenda.len() > 0 {
        let rest = Session { agenda: u.agenda.drop_first(), ..u };
        let next = rest.begin(u.agenda[0]);
        assert(!u.takes_up(u.agenda[0]));
        assert(next.idle());
        assert forall|i: int| 0 <= i < next.agenda.len() implies !next.takes_up(
            #[trigger] next.agenda[i],
        ) by {
            assert(next.agenda[i] == u.agenda[i + 1]);
            assert(!u.takes_up(u.agenda[i + 1]));
        }
        lemma_passes_over_all(next);
    }
}

/// The agenda without the attempts at its front is the agenda from some
/// index on: every step before that index is an attempt, and the step at
/// the index, if there is one, is none.
pub proof fn lemma_without_attempts(agenda: Seq<Step>) -> (k: nat)
    ensures
        k <= agenda.len(),
        without_attempts(agenda) == agenda.skip(k as int),
        forall|i: int| 0 <= i < k ==> agenda[i] is Attempt,
        k < agenda.len() ==> !(agenda[k as int] is Attempt),
    decreases agenda.len(),
{
    if agenda.len() > 0 && agenda[0] is Attempt {
        let rest = agenda.drop_first();
        let k = lemma_without_attempts(rest);
        assert(rest.skip(k as int) =~= agenda.skip(k as int + 1));
        assert forall|i: int| 0 <= i < k + 1 implies agenda[i] is Attempt by {
            if i > 0 {
                assert(agenda[i] == rest[i - 1]);
            }
        }
        k + 1
    } else {
        assert(agenda.skip(0) =~= agenda);
        0
    }
}

/// Advancing never adds to what the session can still ask, and it ends with
/// a request that awaits its reply or with nothing left to do.
pub proof fn lemma_advance_bounded(s: Session)
    ensures
        s.advance().remaining() <= s.remaining(),
        s.advance().awaiting is Some || s.advance().finished(),
    decreases s.agenda.len(),
{
    if s.awaiting is None && s.agenda.len() > 0 {
        let rest = Session { agenda: s.agenda.drop_first(), ..s };
        lemma_advance_bounded(rest.begin(s.agenda[0]));
    }
}

/// Every reply to a request brings the session nearer to its end: what it
/// can still ask grows smaller. No operation is retried unless it is put on
/// the agenda again.
pub proof fn lemma_reply_makes_progress(s: Session, reply: ReplyView)
    requires
        s.awaiting is Some,
    ensures
        s.resolve(reply).remaining() < s.remaining(),
{
    let dropped = lemma_without_attempts(s.agenda);
    lemma_advance_bounded(s.absorb(reply));
}

/// A run ends: once the transport has answered as many requests as the
/// session could still make, the session has nothing left to do.
pub proof fn lemma_run_ends(s: Session, replies: Seq<ReplyView>)
    requires
        s.awaiting is Some || s.finished(),
        replies.len() >= s.remaining(),
    ensures
        s.feed(replies).finished(),
    decreases replies.len(),
{
    if replies.len() > 0 {
        let next = s.resolve(replies[0]);
        let dropped = lemma_without_attempts(s.agenda);
        lemma_advance_bounded(s.absorb(replies[0]));
        if s.awaiting is Some {
            lemma_reply_makes_progress(s, replies[0]);
        } else {
            assert(s.absorb(replies[0]) == s);
        }
        lemma_run_ends(next, replies.drop_first());
    }
}

} // verus!
