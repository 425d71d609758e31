//! What the enumeration finds, and what it leaves absent.

use vstd::prelude::*;
use crate::laws::agenda::{lemma_advance_keeps, lemma_passes_over_all};
use crate::model::{scan_plan, Pending, Session};
use crate::state::{Artifact, Operation, SessionStates};
use crate::transport::{ReplyView, RequestView};

verus! {

/// Each finding is written once: a reply never changes a field that holds a
/// value.
pub proof fn lemma_write_once(s: Session, reply: ReplyView, artifact: Artifact)
    requires
        (s.lookup.get(artifact) is Some),
    ensures
        s.resolve(reply).lookup.get(artifact) == s.lookup.get(artifact),
{
    lemma_advance_keeps(s.absorb(reply));
}

/// A finding appears only as the text of a reply to the request that
/// retrieves it: a field that is absent after a reply was absent before, or
/// the reply to its retrieval carried its text.
pub proof fn lemma_findings_come_from_replies(s: Session, reply: ReplyView, artifact: Artifact)
    requires
        (s.lookup.get(artifact) is None),
        (s.resolve(reply).lookup.get(artifact) is Some),
    ensures
        (reply is Text),
        s.resolve(reply).lookup.get(artifact) == Some(reply->Text_0),
        s.awaiting == Some(Pending::Exchange(Operation::Retrieval(Artifact::Banner)))
            || s.awaiting == Some(Pending::Reading(artifact)),
        s.awaiting == Some(Pending::Exchange(Operation::Retrieval(Artifact::Banner)))
            ==> artifact == Artifact::Banner,
{
    lemma_advance_keeps(s.absorb(reply));
}

/// An enumeration whose channel cannot be opened retrieves the banner and
/// nothing else. On an authenticated session with nothing left to do, the
/// scan asks for the banner and then for a channel; when the channel is
/// refused, every step that depends on it is passed over, the transport is
/// asked nothing more, and the environment, the shell configuration and the
/// shell history stay as they were. The banner is the text of the first
/// reply, if it carried one.
pub proof fn lemma_scan_without_channel(s: Session, banner: ReplyView, channel: ReplyView)
    requires
        s.finished(),
        s.state == SessionStates::SuccessAuthentication,
        !(channel is Done),
    ensures
        ({
            let asked = s.schedule(scan_plan()).advance();
            let opening = asked.resolve(banner);
            let end = opening.resolve(channel);
            &&& asked.request() == Some(RequestView::Banner)
            &&& opening.request() == Some(RequestView::OpenChannel)
            &&& end.finished()
            &&& end.state == SessionStates::FailedChannelCreation
            &&& end.lookup.banner == match banner {
                ReplyView::Text(text) => s.lookup.record(Artifact::Banner, text).banner,
                _ => s.lookup.banner,
            }
            &&& end.lookup.environment == s.lookup.environment
            &&& end.lookup.shell_configuration == s.lookup.shell_configuration
            &&& end.lookup.shell_history == s.lookup.shell_history
        }),
{
    let plan = scan_plan();
    let scheduled = s.schedule(plan);
    assert(scheduled.agenda =~= plan);
    let first = Session { agenda: scheduled.agenda.drop_first(), ..scheduled };
    let asked = first.begin(plan[0]);
    assert(asked.advance() == asked);
    assert(scheduled.advance() == asked);
    let read = asked.absorb(banner);
    let second = Session { agenda: read.agenda.drop_first(), ..read };
    assert(read.agenda[0] == plan[1]);
    let opening = second.begin(plan[1]);
    assert(opening.advance() == opening);
    assert(read.advance() == opening);
    let refused = opening.absorb(channel);
    assert forall|i: int| 0 <= i < refused.agenda.len() implies !refused.takes_up(
        #[trigger] refused.agenda[i],
    ) by {
        assert(refused.agenda[i] == plan[i + 2]);
    }
    lemma_passes_over_all(refused);
}

} // verus!
