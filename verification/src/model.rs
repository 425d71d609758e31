//! The session as a mathematical value, and the rules by which it moves.
//!
//! A session holds an agenda of steps. Advancing takes steps from the front
//! of the agenda until one of them needs the transport; the request then
//! awaits its reply, and the reply decides the next state. A step whose
//! operation may not run from the current state is passed over: the
//! transport is not asked and nothing but the journal changes. A search for
//! a password is a run of attempts on the agenda; it stops at the first
//! authentication that succeeds.

use vstd::prelude::*;
use crate::journal::{Event, Outcome};
use crate::lookup::LookupView;
use crate::state::{Artifact, Operation, SessionStates};
use crate::transport::{Reply, ReplyView, Request, RequestView};

verus! {

/// One entry of the agenda.
#[derive(Clone, Copy, Debug, PartialEq, Eq, Structural)]
pub enum Step {
    /// Run the operation with the session's current credentials.
    Perform(Operation),
    /// Authenticate with the candidate password at this index.
    Attempt(usize),
}

/// The request that awaits its reply.
#[derive(Clone, Copy, Debug, PartialEq, Eq, Structural)]
pub enum Pending {
    /// The request that belongs to the operation itself.
    Exchange(Operation),
    /// The disconnect that precedes a connect on a connected session.
    Reconnection,
    /// The read that follows a command started for the artifact.
    Reading(Artifact),
}

/// The session as a mathematical value.
pub struct Session {
    pub username: Seq<char>,
    pub password: Seq<char>,
    pub address: Seq<char>,
    pub port: u32,
    pub verbose: bool,
    pub state: SessionStates,
    /// Whether the transport holds a channel handle for this session.
    pub channel: bool,
    pub lookup: LookupView,
    /// The candidate passwords that `Step::Attempt` refers to.
    pub candidates: Seq<Seq<char>>,
    /// The steps still to be taken, the next one first.
    pub agenda: Seq<Step>,
    pub awaiting: Option<Pending>,
    pub journal: Seq<Event>,
}

impl Artifact {
    /// The request that retrieves the artifact: the banner is read from the
    /// session, the others by a command on the channel.
    pub open spec fn spec_request(self) -> RequestView {
        match self {
            Artifact::Banner => RequestView::Banner,
            Artifact::Environment => RequestView::Exec { command: "env"@ },
            Artifact::ShellConfiguration => RequestView::Exec { command: "cat ~/.bashrc"@ },
            Artifact::ShellHistory => RequestView::Exec { command: "cat ~/.bash_history"@ },
        }
    }

    /// The request that retrieves the artifact.
    pub fn request(self) -> (request: Request)
        ensures
            request@ == self.spec_request(),
    {
        match self {
            Artifact::Banner => Request::Banner,
            Artifact::Environment => Request::Exec { command: "env".to_owned() },
            Artifact::ShellConfiguration => Request::Exec { command: "cat ~/.bashrc".to_owned() },
            Artifact::ShellHistory => Request::Exec { command: "cat ~/.bash_history".to_owned() },
        }
    }
}

impl Operation {
    /// Whether the operation works on the channel handle.
    pub open spec fn spec_needs_channel(self) -> bool {
        match self {
            Operation::ChannelClosure | Operation::WaitClosure => true,
            Operation::Retrieval(artifact) => artifact != Artifact::Banner,
            _ => false,
        }
    }

    /// How the operation ended, given the reply to its own request.
    /// Authentication alone tells a refusal from a failure. The banner is
    /// retrieved only by a reply with text; every other operation succeeds
    /// only with `Done`, which for a retrieval over the channel means that
    /// its command was started.
    pub open spec fn spec_verdict(self, reply: ReplyView) -> Outcome {
        match self {
            Operation::Authentication => match reply {
                ReplyView::Done => Outcome::Succeeded,
                ReplyView::Rejected => Outcome::Rejected,
                _ => Outcome::Failed,
            },
            Operation::Retrieval(Artifact::Banner) => if reply is Text {
                Outcome::Succeeded
            } else {
                Outcome::Failed
            },
            _ => if reply is Done {
                Outcome::Succeeded
            } else {
                Outcome::Failed
            },
        }
    }

    #[verifier::when_used_as_spec(spec_needs_channel)]
    pub fn needs_channel(self) -> (needed: bool)
        ensures
            needed == self.spec_needs_channel(),
    {
        match self {
            Operation::ChannelClosure | Operation::WaitClosure => true,
            Operation::Retrieval(artifact) => !matches!(artifact, Artifact::Banner),
            _ => false,
        }
    }

    /// How the operation ended, given the reply to its own request.
    pub fn verdict(self, reply: &Reply) -> (outcome: Outcome)
        ensures
            outcome == self.spec_verdict(reply@),
    {
        match self {
            Operation::Authentication => match reply {
                Reply::Done => Outcome::Succeeded,
                Reply::Rejected => Outcome::Rejected,
                _ => Outcome::Failed,
            },
            Operation::Retrieval(Artifact::Banner) => match reply {
                Reply::Text(_) => Outcome::Succeeded,
                _ => Outcome::Failed,
            },
            _ => match reply {
                Reply::Done => Outcome::Succeeded,
                _ => Outcome::Failed,
            },
        }
    }
}

/// The steps of `connect`: the connection is opened, the handshake is run,
/// the session authenticates.
pub open spec fn connect_plan() -> Seq<Step> {
    seq![
        Step::Perform(Operation::Connection),
        Step::Perform(Operation::Handshake),
        Step::Perform(Operation::Authentication),
    ]
}

/// The steps of `scan`: the banner is read, a channel is opened, the three
/// remote reads run over it, the channel is closed and its closure awaited.
pub open spec fn scan_plan() -> Seq<Step> {
    seq![
        Step::Perform(Operation::Retrieval(Artifact::Banner)),
        Step::Perform(Operation::ChannelCreation),
        Step::Perform(Operation::Retrieval(Artifact::Environment)),
        Step::Perform(Operation::Retrieval(Artifact::ShellConfiguration)),
        Step::Perform(Operation::Retrieval(Artifact::ShellHistory)),
        Step::Perform(Operation::ChannelClosure),
        Step::Perform(Operation::WaitClosure),
    ]
}

/// The steps of a whole reconnaissance with one password: connect,
/// enumerate, and disconnect whatever came of the steps before.
pub open spec fn reconnaissance_plan() -> Seq<Step> {
    connect_plan() + scan_plan() + seq![Step::Perform(Operation::Disconnection)]
}

/// One attempt for each of `count` candidates, the first of them at index
/// `base` of the session's candidates.
pub open spec fn attempts(base: nat, count: nat) -> Seq<Step> {
    Seq::new(count, |i: int| Step::Attempt((base + i) as usize))
}

/// `agenda` without the attempts at its front.
pub open spec fn without_attempts(agenda: Seq<Step>) -> Seq<Step>
    decreases agenda.len(),
{
    if agenda.len() > 0 && agenda[0] is Attempt {
        without_attempts(agenda.drop_first())
    } else {
        agenda
    }
}

/// One authentication request for each of `passwords`, in their order.
pub open spec fn authentications(username: Seq<char>, passwords: Seq<Seq<char>>) -> Seq<
    RequestView,
> {
    Seq::new(
        passwords.len(),
        |i: int| RequestView::Authenticate { username, password: passwords[i] },
    )
}

impl Session {
    /// A fresh session: disconnected, nothing found, nothing to do.
    pub open spec fn initial(
        username: Seq<char>,
        password: Seq<char>,
        address: Seq<char>,
        port: u32,
        verbose: bool,
    ) -> Session {
        Session {
            username,
            password,
            address,
            port,
            verbose,
            state: SessionStates::Disconnected,
            channel: false,
            lookup: LookupView::empty(),
            candidates: Seq::empty(),
            agenda: Seq::empty(),
            awaiting: None,
            journal: Seq::empty(),
        }
    }

    /// What every session that the library hands out satisfies. While the
    /// state says that a channel is open, or that closing it failed, the
    /// handle is held; and a request awaits its reply only while its
    /// operation may run.
    pub open spec fn wf(self) -> bool {
        &&& (self.state == SessionStates::SuccessChannelCreation || self.state
            == SessionStates::FailedChannelClosure) ==> self.channel
        &&& match self.awaiting {
            None => true,
            Some(Pending::Exchange(operation)) => self.ready(operation),
            Some(Pending::Reconnection) => self.state == SessionStates::SuccessConnection,
            Some(Pending::Reading(artifact)) => artifact != Artifact::Banner && self.ready(
                Operation::Retrieval(artifact),
            ),
        }
    }

    /// Whether no request awaits its reply.
    pub open spec fn idle(self) -> bool {
        self.awaiting is None
    }

    /// Whether the session has nothing left to do.
    pub open spec fn finished(self) -> bool {
        self.awaiting is None && self.agenda.len() == 0
    }

    /// Whether `operation` may run now: the state admits it and the handle
    /// it works on, if any, is held.
    pub open spec fn ready(self, operation: Operation) -> bool {
        operation.spec_admits(self.state) && (operation.spec_needs_channel() ==> self.channel)
    }

    /// The request that the transport is asked for while `pending` awaits
    /// its reply.
    pub open spec fn request_for(self, pending: Pending) -> RequestView {
        match pending {
            Pending::Reconnection => RequestView::Disconnect,
            Pending::Reading(_) => RequestView::ReadAll,
            Pending::Exchange(operation) => match operation {
                Operation::Connection => RequestView::Connect {
                    address: self.address,
                    port: self.port,
                },
                Operation::Handshake => RequestView::Handshake,
                Operation::Authentication => RequestView::Authenticate {
                    username: self.username,
                    password: self.password,
                },
                Operation::ChannelCreation => RequestView::OpenChannel,
                Operation::ChannelClosure => RequestView::Close,
                Operation::Disconnection => RequestView::Disconnect,
                Operation::WaitClosure => RequestView::WaitClosed,
                Operation::Retrieval(artifact) => artifact.spec_request(),
            },
        }
    }

    /// The request that awaits its reply, if there is one.
    pub open spec fn request(self) -> Option<RequestView> {
        match self.awaiting {
            Some(pending) => Some(self.request_for(pending)),
            None => None,
        }
    }

    /// The session with `event` added to its journal.
    pub open spec fn note(self, operation: Operation, outcome: Outcome) -> Session {
        Session { journal: self.journal.push(Event { operation, outcome }), ..self }
    }

    /// The session after `operation` was passed over: only a verbose
    /// session records it.
    pub open spec fn pass_over(self, operation: Operation) -> Session {
        if self.verbose {
            self.note(operation, Outcome::Skipped)
        } else {
            self
        }
    }

    /// The first request of `operation`. A connect on a connected session
    /// starts with a disconnect.
    pub open spec fn opening(self, operation: Operation) -> Pending {
        if operation == Operation::Connection && self.state == SessionStates::SuccessConnection {
            Pending::Reconnection
        } else {
            Pending::Exchange(operation)
        }
    }

    /// Whether `step` leads to a request: its operation may run now, and an
    /// attempt refers to a candidate that the session holds.
    pub open spec fn takes_up(self, step: Step) -> bool {
        match step {
            Step::Perform(operation) => self.ready(operation),
            Step::Attempt(index) => index < self.candidates.len() && self.ready(
                Operation::Authentication,
            ),
        }
    }

    /// The session after `step` was taken up.
    pub open spec fn begin(self, step: Step) -> Session {
        match step {
            Step::Perform(operation) => if self.ready(operation) {
                Session { awaiting: Some(self.opening(operation)), ..self }
            } else {
                self.pass_over(operation)
            },
            Step::Attempt(index) => if index < self.candidates.len() && self.ready(
                Operation::Authentication,
            ) {
                Session {
                    password: self.candidates[index as int],
                    awaiting: Some(Pending::Exchange(Operation::Authentication)),
                    ..self
                }
            } else {
                self.pass_over(Operation::Authentication)
            },
        }
    }

    /// The session after the reply to the request of `operation` itself. An
    /// authentication that succeeds ends the search for a password: the
    /// attempts that follow it on the agenda are dropped.
    pub open spec fn conclude(self, operation: Operation, reply: ReplyView) -> Session {
        let outcome = operation.spec_verdict(reply);
        let succeeded = outcome == Outcome::Succeeded;
        match operation {
            Operation::Retrieval(artifact) => match reply {
                ReplyView::Text(text) if artifact == Artifact::Banner => Session {
                    lookup: self.lookup.record(artifact, text),
                    awaiting: None,
                    ..self
                }.note(operation, Outcome::Succeeded),
                ReplyView::Done if artifact != Artifact::Banner => Session {
                    awaiting: Some(Pending::Reading(artifact)),
                    ..self
                },
                _ => Session { awaiting: None, ..self }.note(operation, Outcome::Failed),
            },
            Operation::WaitClosure => Session {
                channel: self.channel && !succeeded,
                awaiting: None,
                ..self
            }.note(operation, outcome),
            _ => Session {
                state: if succeeded {
                    operation.spec_on_success(self.state)
                } else {
                    operation.spec_on_failure(self.state)
                },
                channel: self.channel || (operation == Operation::ChannelCreation && succeeded),
                agenda: if operation == Operation::Authentication && succeeded {
                    without_attempts(self.agenda)
                } else {
                    self.agenda
                },
                awaiting: None,
                ..self
            }.note(operation, outcome),
        }
    }

    /// The session after the reply to the request that awaited one. A reply
    /// that nothing awaited changes nothing.
    pub open spec fn absorb(self, reply: ReplyView) -> Session {
        match self.awaiting {
            None => self,
            Some(Pending::Exchange(operation)) => self.conclude(operation, reply),
            Some(Pending::Reconnection) => {
                let outcome = Operation::Disconnection.spec_verdict(reply);
                Session {
                    state: if outcome == Outcome::Succeeded {
                        SessionStates::SuccessDisconnection
                    } else {
                        SessionStates::FailedDisconnection
                    },
                    awaiting: Some(Pending::Exchange(Operation::Connection)),
                    ..self
                }.note(Operation::Disconnection, outcome)
            },
            Some(Pending::Reading(artifact)) => match reply {
                ReplyView::Text(text) => Session {
                    lookup: self.lookup.record(artifact, text),
                    awaiting: None,
                    ..self
                }.note(Operation::Retrieval(artifact), Outcome::Succeeded),
                _ => Session { awaiting: None, ..self }.note(
                    Operation::Retrieval(artifact),
                    Outcome::Unread,
                ),
            },
        }
    }

    /// The session with `steps` added at the end of its agenda.
    pub open spec fn schedule(self, steps: Seq<Step>) -> Session {
        Session { agenda: self.agenda + steps, ..self }
    }

    /// The session with `candidates` added to its candidates, and one
    /// attempt for each of them, in their order, at the end of its agenda.
    pub open spec fn enlist(self, candidates: Seq<Seq<char>>) -> Session {
        Session {
            candidates: self.candidates + candidates,
            agenda: self.agenda + attempts(self.candidates.len(), candidates.len()),
            ..self
        }
    }

    /// The session after it took steps from its agenda until a request
    /// awaits its reply or the agenda is empty.
    pub open spec fn advance(self) -> Session
        decreases self.agenda.len(),
    {
        if self.awaiting is Some || self.agenda.len() == 0 {
            self
        } else {
            Session { agenda: self.agenda.drop_first(), ..self }.begin(self.agenda[0]).advance()
        }
    }

    /// The session after a reply: the reply is absorbed, then the agenda is
    /// advanced to the next request.
    pub open spec fn resolve(self, reply: ReplyView) -> Session {
        self.absorb(reply).advance()
    }

    /// A bound on the requests that the session can still make: at most two
    /// for each step on the agenda, and what the request that awaits its
    /// reply can lead to. A connect on a connected session and a retrieval
    /// over the channel take two requests, everything else one.
    pub open spec fn remaining(self) -> nat {
        2 * self.agenda.len() + match self.awaiting {
            None => 0nat,
            Some(Pending::Reconnection) => 2nat,
            Some(Pending::Reading(_)) => 1nat,
            Some(Pending::Exchange(Operation::Retrieval(artifact))) => if artifact
                == Artifact::Banner {
                1nat
            } else {
                2nat
            },
            Some(Pending::Exchange(_)) => 1nat,
        }
    }

    /// The session after the transport answered its requests, one after the
    /// other, with `replies`.
    pub open spec fn feed(self, replies: Seq<ReplyView>) -> Session
        decreases replies.len(),
    {
        if replies.len() == 0 {
            self
        } else {
            self.resolve(replies[0]).feed(replies.drop_first())
        }
    }

    /// The requests that the transport performs while it answers with
    /// `replies`: the one that awaits its reply now, then the ones that the
    /// replies lead to. It ends where no request awaits a reply.
    pub open spec fn requests(self, replies: Seq<ReplyView>) -> Seq<RequestView>
        decreases replies.len(),
    {
        if replies.len() == 0 || self.awaiting is None {
            Seq::empty()
        } else {
            seq![self.request_for(self.awaiting->0)] + self.resolve(replies[0]).requests(
                replies.drop_first(),
            )
        }
    }

    /// The session that `connect` hands out: a fresh session that has taken
    /// up the whole reconnaissance and asks for its first request.
    pub open spec fn reconnaissance(
        username: Seq<char>,
        password: Seq<char>,
        address: Seq<char>,
        port: u32,
        verbose: bool,
    ) -> Session {
        Session::initial(username, password, address, port, verbose).schedule(
            reconnaissance_plan(),
        ).advance()
    }

    /// The session that `search` hands out: a fresh session that connects,
    /// runs the handshake, tries the candidates in their order, enumerates
    /// and disconnects, and asks for its first request. Until the first
    /// attempt its password is a placeholder.
    pub open spec fn search(
        username: Seq<char>,
        address: Seq<char>,
        port: u32,
        candidates: Seq<Seq<char>>,
        verbose: bool,
    ) -> Session {
        Session::initial(username, "default"@, address, port, verbose).schedule(
            seq![Step::Perform(Operation::Connection), Step::Perform(Operation::Handshake)],
        ).enlist(candidates).schedule(
            scan_plan() + seq![Step::Perform(Operation::Disconnection)],
        ).advance()
    }
}

} // verus!
