//! The two top-level flows: a reconnaissance with one password, and a search
//! over candidate passwords.
//!
//! Each hands out a session that has its whole course on the agenda. The
//! caller performs the request that the session asks for, hands the reply to
//! `Ssh::resolve`, and goes on until no request is left.

use vstd::prelude::*;
use crate::laws::agenda::{lemma_enlist_later, lemma_schedule_later};
use crate::model::{connect_plan, reconnaissance_plan, scan_plan, Session, Step};
use crate::ssh::{texts, Ssh};
use crate::state::Operation;

verus! {

/// The passwords of a run: one password, or candidates to be tried in their
/// order. The order of the candidates is the order of the attempts, and a
/// candidate that occurs twice is tried twice.
#[derive(Clone, Debug, PartialEq, Eq)]
pub enum Credential {
    Single(String),
    Candidates(Vec<String>),
}

/// A reconnaissance of `host:port` as `username` with one password: the
/// session connects, runs the handshake, authenticates, enumerates the
/// target and disconnects. Each step runs only from a state that admits it,
/// so a failure passes over what depends on it and still leads to the
/// disconnect.
pub fn connect(
    username: String,
    host: String,
    port: u32,
    password: String,
    verbose: bool,
) -> (ssh: Ssh)
    ensures
        ssh@ == Session::reconnaissance(username@, password@, host@, port, verbose),
        ssh@.wf(),
{
    let mut ssh = Ssh::new(username, password, host, port, verbose);
    let ghost fresh = ssh@;
    let _ = ssh.connect();
    let _ = ssh.scan();
    let _ = ssh.disconnect();
    proof {
        let last = seq![Step::Perform(Operation::Disconnection)];
        lemma_schedule_later(fresh.schedule(connect_plan()), scan_plan());
        lemma_schedule_later(fresh.schedule(connect_plan()).schedule(scan_plan()), last);
        assert(fresh.schedule(connect_plan()).schedule(scan_plan()).schedule(last).agenda
            =~= fresh.schedule(reconnaissance_plan()).agenda);
    }
    ssh
}

/// A search for the password of `username` at `host:port` among `lines`:
/// the session connects, runs the handshake, tries the candidates in their
/// order until one is accepted, enumerates the target and disconnects.
pub fn search(
    username: String,
    host: String,
    port: u32,
    lines: Vec<String>,
    verbose: bool,
) -> (ssh: Ssh)
    ensures
        ssh@ == Session::search(username@, host@, port, texts(lines@), verbose),
        ssh@.wf(),
{
    let mut ssh = Ssh::new(username, "default".to_owned(), host, port, verbose);
    let ghost fresh = ssh@;
    let _ = ssh.establish_connection();
    let _ = ssh.perform_handshake();
    let _ = ssh.probe(&lines);
    let _ = ssh.scan();
    let _ = ssh.disconnect();
    proof {
        let opening = seq![Step::Perform(Operation::Connection)];
        let handshake = seq![Step::Perform(Operation::Handshake)];
        let last = seq![Step::Perform(Operation::Disconnection)];
        let candidates = texts(lines@);
        let ready = fresh.schedule(
            seq![Step::Perform(Operation::Connection), Step::Perform(Operation::Handshake)],
        );
        lemma_schedule_later(fresh.schedule(opening), handshake);
        assert(fresh.schedule(opening).schedule(handshake).agenda =~= ready.agenda);
        lemma_enlist_later(ready, candidates);
        lemma_schedule_later(ready.enlist(candidates), scan_plan());
        lemma_schedule_later(ready.enlist(candidates).schedule(scan_plan()), last);
        assert(ready.enlist(candidates).schedule(scan_plan()).schedule(last).agenda
            =~= ready.enlist(candidates).schedule(scan_plan() + last).agenda);
    }
    ssh
}

/// A search that keeps no record of the operations it passes over.
pub fn run(username: String, host: String, port: u32, lines: Vec<String>) -> (ssh: Ssh)
    ensures
        ssh@ == Session::search(username@, host@, port, texts(lines@), false),
        ssh@.wf(),
{
    search(username, host, port, lines, false)
}

/// The session for a run with `credential`: a reconnaissance with the one
/// password, or a search over the candidates.
pub fn launch(
    username: String,
    host: String,
    port: u32,
    credential: Credential,
    verbose: bool,
) -> (ssh: Ssh)
    ensures
        ssh@ == match credential {
            Credential::Single(password) => Session::reconnaissance(
                username@,
                password@,
                host@,
                port,
                verbose,
            ),
            Credential::Candidates(lines) => Session::search(
                username@,
                host@,
                port,
                texts(lines@),
                verbose,
            ),
        },
        ssh@.wf(),
{
    match credential {
        Credential::Single(password) => connect(username, host, port, password, verbose),
        Credential::Candidates(lines) => search(username, host, port, lines, verbose),
    }
}

} // verus!
