//! The invariant of a session: it holds of a fresh session, and every rule
//! of the model keeps it.

use vstd::prelude::*;
use crate::model::{Session, Step};
use crate::transport::ReplyView;

verus! {

/// A fresh session is well formed.
pub proof fn lemma_initial_wf(
    username: Seq<char>,
    password: Seq<char>,
    address: Seq<char>,
    port: u32,
    verbose: bool,
)
    ensures
        Session::initial(username, password, address, port, verbose).wf(),
{
}

/// Taking up a step keeps an idle session well formed.
pub proof fn lemma_begin_wf(s: Session, step: Step)
    requires
        s.wf(),
        s.idle(),
    ensures
        s.begin(step).wf(),
{
}

/// A reply keeps a session well formed.
pub proof fn lemma_absorb_wf(s: Session, reply: ReplyView)
    requires
        s.wf(),
    ensures
        s.absorb(reply).wf(),
{
}

/// Putting steps on the agenda keeps a session well formed.
pub proof fn lemma_schedule_wf(s: Session, steps: Seq<Step>)
    requires
        s.wf(),
    ensures
        s.schedule(steps).wf(),
{
}

/// Putting candidates and their attempts on the agenda keeps a session well
/// formed.
pub proof fn lemma_enlist_wf(s: Session, candidates: Seq<Seq<char>>)
    requires
        s.wf(),
    ensures
        s.enlist(candidates).wf(),
{
}

/// Advancing keeps a session well formed, and ends with a request that
/// awaits its reply or with an empty agenda.
pub proof fn lemma_advance_wf(s: Session)
    requires
        s.wf(),
    ensures
        s.advance().wf(),
        s.advance().awaiting is Some || s.advance().agenda.len() == 0,
    decreases s.agenda.len(),
{
    if s.awaiting is None && s.agenda.len() > 0 {
        let rest = Session { agenda: s.agenda.drop_first(), ..s };
        lemma_begin_wf(rest, s.agenda[0]);
        lemma_advance_wf(rest.begin(s.agenda[0]));
    }
}

/// A reply, and the advance that follows it, keep a session well formed.
pub proof fn lemma_resolve_wf(s: Session, reply: ReplyView)
    requires
        s.wf(),
    ensures
        s.resolve(reply).wf(),
{
    lemma_absorb_wf(s, reply);
    lemma_advance_wf(s.absorb(reply));
}

/// Whatever the transport answers, and however often, the session stays
/// well formed.
pub proof fn lemma_feed_wf(s: Session, replies: Seq<ReplyView>)
    requires
        s.wf(),
    ensures
        s.feed(replies).wf(),
    decreases replies.len(),
{
    if replies.len() > 0 {
        lemma_resolve_wf(s, replies[0]);
        lemma_feed_wf(s.resolve(replies[0]), replies.drop_first());
    }
}

} // verus!
