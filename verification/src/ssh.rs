//! The session: identity, state, findings, and the agenda that drives it.

use std::collections::VecDeque;
use vstd::prelude::*;
use crate::journal::{Event, Outcome};
use crate::lookup::Lookup;
use crate::model::{
    attempts, connect_plan, scan_plan, without_attempts, Pending, Session, Step,
};
use crate::laws::agenda::lemma_single_step;
use crate::laws::wellformed::{
    lemma_advance_wf, lemma_enlist_wf, lemma_resolve_wf, lemma_schedule_wf,
};
use crate::state::{Artifact, Operation, SessionStates};
use crate::transport::{Reply, Request, RequestView};

verus! {

/// The candidate passwords as sequences of characters.
pub open spec fn texts(strings: Seq<String>) -> Seq<Seq<char>> {
    Seq::new(strings.len(), |i: int| strings[i]@)
}

/// An optional request with its strings as sequences of characters.
pub open spec fn request_view(request: Option<Request>) -> Option<RequestView> {
    match request {
        Some(r) => Some(r@),
        None => None,
    }
}

/// One reconnaissance session against one target.
///
/// The session owns no connection. Its methods put steps on the agenda and
/// return the request that the transport is to perform next, if there is
/// one; `resolve` takes the reply and returns the request after that.
pub struct Ssh {
    username: String,
    password: String,
    address: String,
    port: u32,
    lookup: Lookup,
    session_state: SessionStates,
    session_channel: bool,
    verbose: bool,
    candidates: Vec<String>,
    agenda: VecDeque<Step>,
    awaiting: Option<Pending>,
    journal: Vec<Event>,
}

impl View for Ssh {
    type V = Session;

    closed spec fn view(&self) -> Session {
        Session {
            username: self.username@,
            password: self.password@,
            address: self.address@,
            port: self.port,
            verbose: self.verbose,
            state: self.session_state,
            channel: self.session_channel,
            lookup: self.lookup@,
            candidates: texts(self.candidates@),
            agenda: self.agenda@,
            awaiting: self.awaiting,
            journal: self.journal@,
        }
    }
}

impl Ssh {
    /// A fresh session for `username` at `address:port`: disconnected, with
    /// nothing found and nothing to do.
    pub fn new(
        username: String,
        password: String,
        address: String,
        port: u32,
        verbose: bool,
    ) -> (ssh: Ssh)
        ensures
            ssh@ == Session::initial(username@, password@, address@, port, verbose),
            ssh@.wf(),
    {
        let ssh = Ssh {
            username,
            password,
            address,
            port,
            lookup: Lookup::new(),
            session_state: SessionStates::Disconnected,
            session_channel: false,
            verbose,
            candidates: Vec::new(),
            agenda: VecDeque::new(),
            awaiting: None,
            journal: Vec::new(),
        };
        assert(ssh@.candidates =~= Seq::<Seq<char>>::empty());
        ssh
    }

    pub fn username(&self) -> (username: &String)
        ensures
            username@ == self@.username,
    {
        &self.username
    }

    /// The password of the last authentication that was asked for, or the
    /// one the session was made with.
    pub fn password(&self) -> (password: &String)
        ensures
            password@ == self@.password,
    {
        &self.password
    }

    pub fn address(&self) -> (address: &String)
        ensures
            address@ == self@.address,
    {
        &self.address
    }

    pub fn port(&self) -> (port: u32)
        ensures
            port == self@.port,
    {
        self.port
    }

    pub fn verbose(&self) -> (verbose: bool)
        ensures
            verbose == self@.verbose,
    {
        self.verbose
    }

    pub fn session_state(&self) -> (state: SessionStates)
        ensures
            state == self@.state,
    {
        self.session_state
    }

    /// Whether the transport holds a channel handle for this session.
    pub fn has_channel(&self) -> (held: bool)
        ensures
            held == self@.channel,
    {
        self.session_channel
    }

    pub fn lookup(&self) -> (lookup: &Lookup)
        ensures
            lookup@ == self@.lookup,
    {
        &self.lookup
    }

    pub fn journal(&self) -> (journal: &Vec<Event>)
        ensures
            journal@ == self@.journal,
    {
        &self.journal
    }

    /// Whether the session has nothing left to do: no request awaits its
    /// reply and the agenda is empty.
    pub fn is_finished(&self) -> (finished: bool)
        ensures
            finished == self@.finished(),
    {
        self.awaiting.is_none() && self.agenda.len() == 0
    }

    fn ready(&self, operation: Operation) -> (ready: bool)
        ensures
            ready == self@.ready(operation),
    {
        operation.admits(self.session_state) && (!operation.needs_channel()
            || self.session_channel)
    }

    fn request_for(&self, pending: Pending) -> (request: Request)
        ensures
            request@ == self@.request_for(pending),
    {
        match pending {
            Pending::Reconnection => Request::Disconnect,
            Pending::Reading(_) => Request::ReadAll,
            Pending::Exchange(operation) => match operation {
                Operation::Connection => Request::Connect {
                    address: self.address.clone(),
                    port: self.port,
                },
                Operation::Handshake => Request::Handshake,
                Operation::Authentication => Request::Authenticate {
                    username: self.username.clone(),
                    password: self.password.clone(),
                },
                Operation::ChannelCreation => Request::OpenChannel,
                Operation::ChannelClosure => Request::Close,
                Operation::Disconnection => Request::Disconnect,
                Operation::WaitClosure => Request::WaitClosed,
                Operation::Retrieval(artifact) => artifact.request(),
            },
        }
    }

    /// The request that awaits its reply, if there is one. Asking again
    /// gives the same request and changes nothing.
    pub fn request(&self) -> (request: Option<Request>)
        ensures
            request_view(request) == self@.request(),
    {
        match self.awaiting {
            Some(pending) => Some(self.request_for(pending)),
            None => None,
        }
    }

    fn note(&mut self, operation: Operation, outcome: Outcome)
        ensures
            final(self)@ == old(self)@.note(operation, outcome),
    {
        self.journal.push(Event { operation, outcome });
    }

    fn pass_over(&mut self, operation: Operation)
        ensures
            final(self)@ == old(self)@.pass_over(operation),
    {
        if self.verbose {
            self.note(operation, Outcome::Skipped);
        }
    }

    fn begin(&mut self, step: Step)
        ensures
            final(self)@ == old(self)@.begin(step),
    {
        match step {
            Step::Perform(operation) => {
                if self.ready(operation) {
                    let reconnect = matches!(operation, Operation::Connection) && matches!(
                        self.session_state,
                        SessionStates::SuccessConnection
                    );
                    self.awaiting = Some(
                        if reconnect {
                            Pending::Reconnection
                        } else {
                            Pending::Exchange(operation)
                        },
                    );
                } else {
                    self.pass_over(operation);
                }
            },
            Step::Attempt(index) => {
                if index < self.candidates.len() && self.ready(Operation::Authentication) {
                    self.password = self.candidates[index].clone();
                    self.awaiting = Some(Pending::Exchange(Operation::Authentication));
                } else {
                    self.pass_over(Operation::Authentication);
                }
            },
        }
    }

    fn attempt_is_next(&self) -> (next: bool)
        ensures
            next == (self@.agenda.len() > 0 && self@.agenda[0] is Attempt),
    {
        self.agenda.len() > 0 && matches!(self.agenda[0], Step::Attempt(_))
    }

    fn drop_attempts(&mut self)
        ensures
            final(self)@ == (Session { agenda: without_attempts(old(self)@.agenda), ..old(self)@ }),
    {
        while self.attempt_is_next()
            invariant
                without_attempts(self@.agenda) == without_attempts(old(self)@.agenda),
                self@ == (Session { agenda: self@.agenda, ..old(self)@ }),
            decreases self.agenda.len(),
        {
            let _ = self.agenda.pop_front();
        }
    }

    fn conclude(&mut self, operation: Operation, reply: Reply)
        ensures
            final(self)@ == old(self)@.conclude(operation, reply@),
    {
        let outcome = operation.verdict(&reply);
        let succeeded = matches!(outcome, Outcome::Succeeded);
        self.awaiting = None;
        match operation {
            Operation::Retrieval(artifact) => {
                let banner = matches!(artifact, Artifact::Banner);
                match reply {
                    Reply::Text(text) if banner => {
                        self.lookup.record(artifact, text);
                        self.note(operation, Outcome::Succeeded);
                    },
                    Reply::Done if !banner => {
                        self.awaiting = Some(Pending::Reading(artifact));
                    },
                    _ => {
                        self.note(operation, Outcome::Failed);
                    },
                }
            },
            Operation::WaitClosure => {
                self.session_channel = self.session_channel && !succeeded;
                self.note(operation, outcome);
            },
            _ => {
                self.session_channel = self.session_channel || (matches!(
                    operation,
                    Operation::ChannelCreation
                ) && succeeded);
                self.session_state = if succeeded {
                    operation.on_success(self.session_state)
                } else {
                    operation.on_failure(self.session_state)
                };
                if matches!(operation, Operation::Authentication) && succeeded {
                    self.drop_attempts();
                }
                self.note(operation, outcome);
            },
        }
    }

    fn absorb(&mut self, reply: Reply)
        ensures
            final(self)@ == old(self)@.absorb(reply@),
    {
        match self.awaiting {
            None => {},
            Some(Pending::Exchange(operation)) => {
                self.conclude(operation, reply);
            },
            Some(Pending::Reconnection) => {
                let outcome = Operation::Disconnection.verdict(&reply);
                self.awaiting = Some(Pending::Exchange(Operation::Connection));
                self.session_state = if matches!(outcome, Outcome::Succeeded) {
                    SessionStates::SuccessDisconnection
                } else {
                    SessionStates::FailedDisconnection
                };
                self.note(Operation::Disconnection, outcome);
            },
            Some(Pending::Reading(artifact)) => {
                self.awaiting = None;
                match reply {
                    Reply::Text(text) => {
                        self.lookup.record(artifact, text);
                        self.note(Operation::Retrieval(artifact), Outcome::Succeeded);
                    },
                    _ => {
                        self.note(Operation::Retrieval(artifact), Outcome::Unread);
                    },
                }
            },
        }
    }

    fn advance(&mut self)
        ensures
            final(self)@ == old(self)@.advance(),
    {
        while self.awaiting.is_none() && self.agenda.len() > 0
            invariant
                self@.advance() == old(self)@.advance(),
            decreases self.agenda.len(),
        {
            let ghost before = self@;
            let next = self.agenda.pop_front();
            if let Some(step) = next {
                assert(self@ == Session { agenda: before.agenda.drop_first(), ..before });
                self.begin(step);
            }
        }
    }

    fn enqueue(&mut self, step: Step)
        ensures
            final(self)@ == old(self)@.schedule(seq![step]),
    {
        self.agenda.push_back(step);
        assert(self@.agenda =~= old(self)@.agenda + seq![step]);
    }

    /// Takes the transport's reply to the request that awaited one, and
    /// returns the next request, if the agenda leads to one. A reply that
    /// nothing awaited is dropped, and the agenda is advanced all the same.
    pub fn resolve(&mut self, reply: Reply) -> (request: Option<Request>)
        ensures
            final(self)@ == old(self)@.resolve(reply@),
            request_view(request) == final(self)@.request(),
            old(self)@.wf() ==> final(self)@.wf(),
    {
        proof {
            if self@.wf() {
                lemma_resolve_wf(self@, reply@);
            }
        }
        self.absorb(reply);
        self.advance();
        self.request()
    }

    /// Puts `operation` at the end of the agenda and returns the request
    /// that the transport is to perform now, if there is one.
    pub fn perform(&mut self, operation: Operation) -> (request: Option<Request>)
        ensures
            final(self)@ == old(self)@.schedule(
                seq![Step::Perform(operation)],
            ).advance(),
            old(self)@.finished() ==> final(self)@ == old(self)@.begin(
                Step::Perform(operation),
            ),
            request_view(request) == final(self)@.request(),
            old(self)@.wf() ==> final(self)@.wf(),
    {
        proof {
            if self@.wf() {
                lemma_schedule_wf(self@, seq![Step::Perform(operation)]);
                lemma_advance_wf(self@.schedule(seq![Step::Perform(operation)]));
            }
            if self@.finished() {
                lemma_single_step(self@, Step::Perform(operation));
            }
        }
        self.enqueue(Step::Perform(operation));
        self.advance();
        self.request()
    }

    /// Opens the network connection. It runs from every state; a session
    /// that is connected is disconnected first.
    pub fn establish_connection(&mut self) -> (request: Option<Request>)
        ensures
            final(self)@ == old(self)@.schedule(
                seq![Step::Perform(Operation::Connection)],
            ).advance(),
            old(self)@.finished() ==> final(self)@ == old(self)@.begin(
                Step::Perform(Operation::Connection),
            ),
            request_view(request) == final(self)@.request(),
            old(self)@.wf() ==> final(self)@.wf(),
    {
        self.perform(Operation::Connection)
    }

    /// Runs the cryptographic handshake, from a fresh connection or after a
    /// failed handshake.
    pub fn perform_handshake(&mut self) -> (request: Option<Request>)
        ensures
            final(self)@ == old(self)@.schedule(
                seq![Step::Perform(Operation::Handshake)],
            ).advance(),
            old(self)@.finished() ==> final(self)@ == old(self)@.begin(
                Step::Perform(Operation::Handshake),
            ),
            request_view(request) == final(self)@.request(),
            old(self)@.wf() ==> final(self)@.wf(),
    {
        self.perform(Operation::Handshake)
    }

    /// Authenticates with the session's password, after the handshake, after
    /// a failed authentication, or while a channel is open.
    pub fn authenticate(&mut self) -> (request: Option<Request>)
        ensures
            final(self)@ == old(self)@.schedule(
                seq![Step::Perform(Operation::Authentication)],
            ).advance(),
            old(self)@.finished() ==> final(self)@ == old(self)@.begin(
                Step::Perform(Operation::Authentication),
            ),
            request_view(request) == final(self)@.request(),
            old(self)@.wf() ==> final(self)@.wf(),
    {
        self.perform(Operation::Authentication)
    }

    /// Opens a channel on the authenticated session, or after a failed
    /// attempt to open one.
    pub fn create_channel(&mut self) -> (request: Option<Request>)
        ensures
            final(self)@ == old(self)@.schedule(
                seq![Step::Perform(Operation::ChannelCreation)],
            ).advance(),
            old(self)@.finished() ==> final(self)@ == old(self)@.begin(
                Step::Perform(Operation::ChannelCreation),
            ),
            request_view(request) == final(self)@.request(),
            old(self)@.wf() ==> final(self)@.wf(),
    {
        self.perform(Operation::ChannelCreation)
    }

    /// Closes the open channel, or tries again after a failed closure.
    pub fn close_channel(&mut self) -> (request: Option<Request>)
        ensures
            final(self)@ == old(self)@.schedule(
                seq![Step::Perform(Operation::ChannelClosure)],
            ).advance(),
            old(self)@.finished() ==> final(self)@ == old(self)@.begin(
                Step::Perform(Operation::ChannelClosure),
            ),
            request_view(request) == final(self)@.request(),
            old(self)@.wf() ==> final(self)@.wf(),
    {
        self.perform(Operation::ChannelClosure)
    }

    /// Waits until the remote end has closed the channel. Success gives up
    /// the channel handle; the state stays as it is either way.
    pub fn wait_closure(&mut self) -> (request: Option<Request>)
        ensures
            final(self)@ == old(self)@.schedule(
                seq![Step::Perform(Operation::WaitClosure)],
            ).advance(),
            old(self)@.finished() ==> final(self)@ == old(self)@.begin(
                Step::Perform(Operation::WaitClosure),
            ),
            request_view(request) == final(self)@.request(),
            old(self)@.wf() ==> final(self)@.wf(),
    {
        self.perform(Operation::WaitClosure)
    }

    /// Disconnects the session. It runs from every state but the pristine
    /// one, a failed connection, and the two that a disconnect ends in.
    pub fn disconnect(&mut self) -> (request: Option<Request>)
        ensures
            final(self)@ == old(self)@.schedule(
                seq![Step::Perform(Operation::Disconnection)],
            ).advance(),
            old(self)@.finished() ==> final(self)@ == old(self)@.begin(
                Step::Perform(Operation::Disconnection),
            ),
            request_view(request) == final(self)@.request(),
            old(self)@.wf() ==> final(self)@.wf(),
    {
        self.perform(Operation::Disconnection)
    }

    /// Reads the banner of the authenticated session. The state stays as it
    /// is, whatever the answer.
    pub fn retrieve_banner(&mut self) -> (request: Option<Request>)
        ensures
            final(self)@ == old(self)@.schedule(
                seq![Step::Perform(Operation::Retrieval(Artifact::Banner))],
            ).advance(),
            old(self)@.finished() ==> final(self)@ == old(self)@.begin(
                Step::Perform(Operation::Retrieval(Artifact::Banner)),
            ),
            request_view(request) == final(self)@.request(),
            old(self)@.wf() ==> final(self)@.wf(),
    {
        self.perform(Operation::Retrieval(Artifact::Banner))
    }

    /// Reads the environment variables of the target over the open channel.
    pub fn retrieve_env(&mut self) -> (request: Option<Request>)
        ensures
            final(self)@ == old(self)@.schedule(
                seq![Step::Perform(Operation::Retrieval(Artifact::Environment))],
            ).advance(),
            old(self)@.finished() ==> final(self)@ == old(self)@.begin(
                Step::Perform(Operation::Retrieval(Artifact::Environment)),
            ),
            request_view(request) == final(self)@.request(),
            old(self)@.wf() ==> final(self)@.wf(),
    {
        self.perform(Operation::Retrieval(Artifact::Environment))
    }

    /// Reads the shell configuration of the target over the open channel.
    pub fn retrieve_bashrc(&mut self) -> (request: Option<Request>)
        ensures
            final(self)@ == old(self)@.schedule(
                seq![Step::Perform(Operation::Retrieval(Artifact::ShellConfiguration))],
            ).advance(),
            old(self)@.finished() ==> final(self)@ == old(self)@.begin(
                Step::Perform(Operation::Retrieval(Artifact::ShellConfiguration)),
            ),
            request_view(request) == final(self)@.request(),
            old(self)@.wf() ==> final(self)@.wf(),
    {
        self.perform(Operation::Retrieval(Artifact::ShellConfiguration))
    }

    /// Reads the shell history of the target over the open channel.
    pub fn retrieve_bash_history(&mut self) -> (request: Option<Request>)
        ensures
            final(self)@ == old(self)@.schedule(
                seq![Step::Perform(Operation::Retrieval(Artifact::ShellHistory))],
            ).advance(),
            old(self)@.finished() ==> final(self)@ == old(self)@.begin(
                Step::Perform(Operation::Retrieval(Artifact::ShellHistory)),
            ),
            request_view(request) == final(self)@.request(),
            old(self)@.wf() ==> final(self)@.wf(),
    {
        self.perform(Operation::Retrieval(Artifact::ShellHistory))
    }

    /// Connects, runs the handshake and authenticates, each step only if
    /// the one before it left the session in a state that admits it.
    pub fn connect(&mut self) -> (request: Option<Request>)
        ensures
            final(self)@ == old(self)@.schedule(connect_plan()).advance(),
            request_view(request) == final(self)@.request(),
            old(self)@.wf() ==> final(self)@.wf(),
    {
        proof {
            if self@.wf() {
                lemma_schedule_wf(self@, connect_plan());
                lemma_advance_wf(self@.schedule(connect_plan()));
            }
        }
        self.enqueue(Step::Perform(Operation::Connection));
        self.enqueue(Step::Perform(Operation::Handshake));
        self.enqueue(Step::Perform(Operation::Authentication));
        assert(self@.agenda =~= old(self)@.agenda + connect_plan());
        self.advance();
        self.request()
    }

    /// Enumerates the target: banner, channel, the three remote reads,
    /// closure of the channel. A step that fails passes over only the steps
    /// that depend on it.
    pub fn scan(&mut self) -> (request: Option<Request>)
        ensures
            final(self)@ == old(self)@.schedule(scan_plan()).advance(),
            request_view(request) == final(self)@.request(),
            old(self)@.wf() ==> final(self)@.wf(),
    {
        proof {
            if self@.wf() {
                lemma_schedule_wf(self@, scan_plan());
                lemma_advance_wf(self@.schedule(scan_plan()));
            }
        }
        self.enqueue(Step::Perform(Operation::Retrieval(Artifact::Banner)));
        self.enqueue(Step::Perform(Operation::ChannelCreation));
        self.enqueue(Step::Perform(Operation::Retrieval(Artifact::Environment)));
        self.enqueue(Step::Perform(Operation::Retrieval(Artifact::ShellConfiguration)));
        self.enqueue(Step::Perform(Operation::Retrieval(Artifact::ShellHistory)));
        self.enqueue(Step::Perform(Operation::ChannelClosure));
        self.enqueue(Step::Perform(Operation::WaitClosure));
        assert(self@.agenda =~= old(self)@.agenda + scan_plan());
        self.advance();
        self.request()
    }

    /// Tries the candidate passwords in their order over the one connection.
    /// Each attempt sets the candidate as the session's password and
    /// authenticates with it. Once a candidate is accepted the session is
    /// authenticated, and the attempts that remain are dropped. From a state
    /// that does not admit authentication every attempt is passed over.
    pub fn probe(&mut self, candidates: &Vec<String>) -> (request: Option<Request>)
        ensures
            final(self)@ == old(self)@.enlist(texts(candidates@)).advance(),
            request_view(request) == final(self)@.request(),
            old(self)@.wf() ==> final(self)@.wf(),
    {
        proof {
            if self@.wf() {
                lemma_enlist_wf(self@, texts(candidates@));
                lemma_advance_wf(self@.enlist(texts(candidates@)));
            }
        }
        let ghost before = self@;
        let mut i: usize = 0;
        while i < candidates.len()
            invariant
                i <= candidates.len(),
                self@ == before.enlist(texts(candidates@).take(i as int)),
            decreases candidates.len() - i,
        {
            let ghost held = self.candidates@;
            let index = self.candidates.len();
            self.candidates.push(candidates[i].clone());
            self.agenda.push_back(Step::Attempt(index));
            proof {
                let taken = texts(candidates@).take(i as int);
                let more = texts(candidates@).take(i + 1);
                assert(more =~= taken.push(candidates@[i as int]@));
                assert(texts(self.candidates@) =~= texts(held).push(candidates@[i as int]@));
                assert(self@.candidates =~= before.candidates + more);
                assert(self@.agenda =~= before.agenda + attempts(
                    before.candidates.len(),
                    more.len(),
                ));
            }
            i += 1;
        }
        assert(texts(candidates@).take(i as int) =~= texts(candidates@));
        self.advance();
        self.request()
    }
}

} // verus!
