use siet::journal::{Event, Outcome, Severity};
use siet::ssh::Ssh;
use siet::state::{Artifact, Operation, SessionStates};
use siet::transport::{Reply, Request};

const ALL_STATES: [SessionStates; 13] = [
    SessionStates::Disconnected,
    SessionStates::SuccessConnection,
    SessionStates::FailedConnection,
    SessionStates::SuccessHandshake,
    SessionStates::FailedHandshake,
    SessionStates::SuccessAuthentication,
    SessionStates::FailedAuthentication,
    SessionStates::SuccessDisconnection,
    SessionStates::FailedDisconnection,
    SessionStates::SuccessChannelCreation,
    SessionStates::FailedChannelCreation,
    SessionStates::SuccessChannelClosure,
    SessionStates::FailedChannelClosure,
];

fn fresh(verbose: bool) -> Ssh {
    Ssh::new(
        String::from("svc"),
        String::from("correct-horse"),
        String::from("10.0.0.5"),
        22,
        verbose,
    )
}

/// Answers the session's requests with `replies`, in their order, and
/// returns the requests that were made.
fn answer(ssh: &mut Ssh, first: Option<Request>, replies: Vec<Reply>) -> Vec<Request> {
    let mut made = Vec::new();
    let mut next = first;
    let mut replies = replies.into_iter();
    while let Some(request) = next {
        made.push(request);
        match replies.next() {
            Some(reply) => next = ssh.resolve(reply),
            None => break,
        }
    }
    made
}

fn handshaken() -> Ssh {
    let mut ssh = fresh(false);
    let first = ssh.establish_connection();
    answer(&mut ssh, first, vec![Reply::Done]);
    let first = ssh.perform_handshake();
    answer(&mut ssh, first, vec![Reply::Done]);
    assert_eq!(ssh.session_state(), SessionStates::SuccessHandshake);
    ssh
}

fn authenticated() -> Ssh {
    let mut ssh = handshaken();
    let first = ssh.authenticate();
    answer(&mut ssh, first, vec![Reply::Done]);
    assert_eq!(ssh.session_state(), SessionStates::SuccessAuthentication);
    ssh
}

fn with_channel() -> Ssh {
    let mut ssh = authenticated();
    let first = ssh.create_channel();
    answer(&mut ssh, first, vec![Reply::Done]);
    assert_eq!(ssh.session_state(), SessionStates::SuccessChannelCreation);
    ssh
}

#[test]
fn new_session_is_pristine() {
    let ssh = fresh(true);
    assert_eq!(ssh.session_state(), SessionStates::Disconnected);
    assert_eq!(ssh.username(), "svc");
    assert_eq!(ssh.password(), "correct-horse");
    assert_eq!(ssh.address(), "10.0.0.5");
    assert_eq!(ssh.port(), 22);
    assert!(ssh.verbose());
    assert!(!ssh.has_channel());
    assert!(ssh.is_finished());
    assert!(ssh.request().is_none());
    assert!(ssh.journal().is_empty());
    assert_eq!(ssh.lookup().server_ssh_banner, None);
    assert_eq!(ssh.lookup().server_env_variables, None);
    assert_eq!(ssh.lookup().server_bashrc, None);
    assert_eq!(ssh.lookup().server_bash_history, None);
}

#[test]
fn connection_is_admitted_from_every_state() {
    for state in ALL_STATES {
        assert!(Operation::Connection.admits(state));
    }
}

#[test]
fn handshake_precondition_set() {
    for state in ALL_STATES {
        let expected = matches!(
            state,
            SessionStates::FailedHandshake | SessionStates::SuccessConnection
        );
        assert_eq!(Operation::Handshake.admits(state), expected);
    }
}

#[test]
fn authentication_precondition_set() {
    for state in ALL_STATES {
        let expected = matches!(
            state,
            SessionStates::FailedAuthentication
                | SessionStates::SuccessChannelCreation
                | SessionStates::SuccessHandshake
        );
        assert_eq!(Operation::Authentication.admits(state), expected);
    }
}

#[test]
fn channel_creation_precondition_set() {
    for state in ALL_STATES {
        let expected = matches!(
            state,
            SessionStates::SuccessAuthentication | SessionStates::FailedChannelCreation
        );
        assert_eq!(Operation::ChannelCreation.admits(state), expected);
    }
}

#[test]
fn channel_closure_precondition_set() {
    for state in ALL_STATES {
        let expected = matches!(
            state,
            SessionStates::FailedChannelClosure | SessionStates::SuccessChannelCreation
        );
        assert_eq!(Operation::ChannelClosure.admits(state), expected);
    }
}

#[test]
fn wait_closure_precondition_set() {
    for state in ALL_STATES {
        let expected = matches!(state, SessionStates::SuccessChannelClosure);
        assert_eq!(Operation::WaitClosure.admits(state), expected);
    }
}

#[test]
fn disconnection_precondition_set() {
    for state in ALL_STATES {
        let expected = !matches!(
            state,
            SessionStates::Disconnected
                | SessionStates::FailedConnection
                | SessionStates::SuccessDisconnection
                | SessionStates::FailedDisconnection
        );
        assert_eq!(Operation::Disconnection.admits(state), expected);
    }
}

#[test]
fn retrieval_precondition_sets() {
    for state in ALL_STATES {
        assert_eq!(
            Operation::Retrieval(Artifact::Banner).admits(state),
            state == SessionStates::SuccessAuthentication
        );
        for artifact in [
            Artifact::Environment,
            Artifact::ShellConfiguration,
            Artifact::ShellHistory,
        ] {
            assert_eq!(
                Operation::Retrieval(artifact).admits(state),
                state == SessionStates::SuccessChannelCreation
            );
        }
    }
}

#[test]
fn success_and_failure_states_of_the_table() {
    let any = SessionStates::Disconnected;
    let table = [
        (
            Operation::Connection,
            SessionStates::SuccessConnection,
            SessionStates::FailedConnection,
        ),
        (
            Operation::Handshake,
            SessionStates::SuccessHandshake,
            SessionStates::FailedHandshake,
        ),
        (
            Operation::Authentication,
            SessionStates::SuccessAuthentication,
            SessionStates::FailedAuthentication,
        ),
        (
            Operation::ChannelCreation,
            SessionStates::SuccessChannelCreation,
            SessionStates::FailedChannelCreation,
        ),
        (
            Operation::ChannelClosure,
            SessionStates::SuccessChannelClosure,
            SessionStates::FailedChannelClosure,
        ),
        (
            Operation::Disconnection,
            SessionStates::SuccessDisconnection,
            SessionStates::FailedDisconnection,
        ),
    ];
    for (operation, success, failure) in table {
        assert_eq!(operation.on_success(any), success);
        assert_eq!(operation.on_failure(any), failure);
    }
}

#[test]
fn operations_that_are_no_transitions_keep_the_state() {
    for state in ALL_STATES {
        for operation in [
            Operation::WaitClosure,
            Operation::Retrieval(Artifact::Banner),
            Operation::Retrieval(Artifact::Environment),
        ] {
            assert_eq!(operation.on_success(state), state);
            assert_eq!(operation.on_failure(state), state);
        }
    }
}

#[test]
fn connect_asks_for_the_target() {
    let mut ssh = fresh(false);
    let request = ssh.establish_connection();
    assert_eq!(
        request,
        Some(Request::Connect {
            address: String::from("10.0.0.5"),
            port: 22
        })
    );
    assert_eq!(ssh.request(), request);
    assert!(!ssh.is_finished());
    assert_eq!(ssh.session_state(), SessionStates::Disconnected);
}

#[test]
fn connect_success_and_failure() {
    let mut ssh = fresh(false);
    let first = ssh.establish_connection();
    assert_eq!(ssh.resolve(Reply::Done), None);
    assert!(first.is_some());
    assert_eq!(ssh.session_state(), SessionStates::SuccessConnection);

    let mut ssh = fresh(false);
    ssh.establish_connection();
    assert_eq!(ssh.resolve(Reply::Failed), None);
    assert_eq!(ssh.session_state(), SessionStates::FailedConnection);
    assert!(ssh.is_finished());
}

#[test]
fn connect_on_a_connected_session_disconnects_first() {
    let mut ssh = fresh(false);
    let first = ssh.establish_connection();
    answer(&mut ssh, first, vec![Reply::Done]);
    let request = ssh.establish_connection();
    assert_eq!(request, Some(Request::Disconnect));
    let request = ssh.resolve(Reply::Done);
    assert_eq!(ssh.session_state(), SessionStates::SuccessDisconnection);
    assert_eq!(
        request,
        Some(Request::Connect {
            address: String::from("10.0.0.5"),
            port: 22
        })
    );
    assert_eq!(ssh.resolve(Reply::Done), None);
    assert_eq!(ssh.session_state(), SessionStates::SuccessConnection);
    assert_eq!(
        ssh.journal().as_slice(),
        [
            Event {
                operation: Operation::Connection,
                outcome: Outcome::Succeeded
            },
            Event {
                operation: Operation::Disconnection,
                outcome: Outcome::Succeeded
            },
            Event {
                operation: Operation::Connection,
                outcome: Outcome::Succeeded
            },
        ]
    );
}

#[test]
fn reconnect_goes_on_after_a_failed_disconnect() {
    let mut ssh = fresh(false);
    let first = ssh.establish_connection();
    answer(&mut ssh, first, vec![Reply::Done]);
    let first = ssh.establish_connection();
    let made = answer(&mut ssh, first, vec![Reply::Failed, Reply::Failed]);
    assert_eq!(made.len(), 2);
    assert_eq!(made[0], Request::Disconnect);
    assert_eq!(ssh.session_state(), SessionStates::FailedConnection);
}

#[test]
fn handshake_outside_its_precondition_is_a_no_op() {
    let mut ssh = fresh(false);
    assert_eq!(ssh.perform_handshake(), None);
    assert_eq!(ssh.session_state(), SessionStates::Disconnected);
    assert!(ssh.journal().is_empty());
    assert!(ssh.is_finished());
}

#[test]
fn verbose_session_records_what_it_passes_over() {
    let mut ssh = fresh(true);
    assert_eq!(ssh.perform_handshake(), None);
    assert_eq!(ssh.authenticate(), None);
    assert_eq!(ssh.session_state(), SessionStates::Disconnected);
    assert_eq!(
        ssh.journal().as_slice(),
        [
            Event {
                operation: Operation::Handshake,
                outcome: Outcome::Skipped
            },
            Event {
                operation: Operation::Authentication,
                outcome: Outcome::Skipped
            },
        ]
    );
}

#[test]
fn every_operation_outside_its_precondition_asks_nothing() {
    let operations = [
        Operation::Handshake,
        Operation::Authentication,
        Operation::ChannelCreation,
        Operation::ChannelClosure,
        Operation::WaitClosure,
        Operation::Disconnection,
        Operation::Retrieval(Artifact::Banner),
        Operation::Retrieval(Artifact::Environment),
        Operation::Retrieval(Artifact::ShellConfiguration),
        Operation::Retrieval(Artifact::ShellHistory),
    ];
    for operation in operations {
        let mut ssh = fresh(false);
        assert_eq!(ssh.perform(operation), None);
        assert_eq!(ssh.session_state(), SessionStates::Disconnected);
        assert_eq!(ssh.password(), "correct-horse");
        assert!(!ssh.has_channel());
        assert!(ssh.journal().is_empty());
        assert_eq!(ssh.lookup().server_ssh_banner, None);
    }
}

#[test]
fn handshake_success_failure_and_retry() {
    let mut ssh = fresh(false);
    let first = ssh.establish_connection();
    answer(&mut ssh, first, vec![Reply::Done]);
    assert_eq!(ssh.perform_handshake(), Some(Request::Handshake));
    assert_eq!(ssh.resolve(Reply::Failed), None);
    assert_eq!(ssh.session_state(), SessionStates::FailedHandshake);
    assert_eq!(ssh.perform_handshake(), Some(Request::Handshake));
    assert_eq!(ssh.resolve(Reply::Done), None);
    assert_eq!(ssh.session_state(), SessionStates::SuccessHandshake);
    assert_eq!(ssh.perform_handshake(), None);
    assert_eq!(ssh.session_state(), SessionStates::SuccessHandshake);
}

#[test]
fn authenticate_sends_the_credentials() {
    let mut ssh = handshaken();
    assert_eq!(
        ssh.authenticate(),
        Some(Request::Authenticate {
            username: String::from("svc"),
            password: String::from("correct-horse")
        })
    );
    assert_eq!(ssh.resolve(Reply::Done), None);
    assert_eq!(ssh.session_state(), SessionStates::SuccessAuthentication);
}

#[test]
fn authenticate_rejected_and_failed_both_end_in_failed_authentication() {
    let mut ssh = handshaken();
    ssh.authenticate();
    ssh.resolve(Reply::Rejected);
    assert_eq!(ssh.session_state(), SessionStates::FailedAuthentication);
    ssh.authenticate();
    ssh.resolve(Reply::Failed);
    assert_eq!(ssh.session_state(), SessionStates::FailedAuthentication);
    assert_eq!(
        ssh.tally(Operation::Authentication, Outcome::Rejected),
        1
    );
    assert_eq!(ssh.tally(Operation::Authentication, Outcome::Failed), 1);
    assert_eq!(
        ssh.tally(Operation::Authentication, Outcome::Succeeded),
        0
    );
}

#[test]
fn authenticate_runs_while_a_channel_is_open() {
    let mut ssh = with_channel();
    assert!(ssh.authenticate().is_some());
    ssh.resolve(Reply::Done);
    assert_eq!(ssh.session_state(), SessionStates::SuccessAuthentication);
    assert!(ssh.has_channel());
}

#[test]
fn channel_opens_and_closes() {
    let mut ssh = authenticated();
    assert_eq!(ssh.create_channel(), Some(Request::OpenChannel));
    assert!(!ssh.has_channel());
    ssh.resolve(Reply::Done);
    assert_eq!(ssh.session_state(), SessionStates::SuccessChannelCreation);
    assert!(ssh.has_channel());
    assert_eq!(ssh.close_channel(), Some(Request::Close));
    ssh.resolve(Reply::Done);
    assert_eq!(ssh.session_state(), SessionStates::SuccessChannelClosure);
    assert!(ssh.has_channel());
    assert_eq!(ssh.wait_closure(), Some(Request::WaitClosed));
    ssh.resolve(Reply::Done);
    assert_eq!(ssh.session_state(), SessionStates::SuccessChannelClosure);
    assert!(!ssh.has_channel());
}

#[test]
fn channel_creation_failure_and_retry() {
    let mut ssh = authenticated();
    ssh.create_channel();
    ssh.resolve(Reply::Failed);
    assert_eq!(ssh.session_state(), SessionStates::FailedChannelCreation);
    assert!(!ssh.has_channel());
    assert_eq!(ssh.create_channel(), Some(Request::OpenChannel));
    ssh.resolve(Reply::Done);
    assert_eq!(ssh.session_state(), SessionStates::SuccessChannelCreation);
}

#[test]
fn channel_closure_failure_and_retry() {
    let mut ssh = with_channel();
    ssh.close_channel();
    ssh.resolve(Reply::Failed);
    assert_eq!(ssh.session_state(), SessionStates::FailedChannelClosure);
    assert!(ssh.has_channel());
    assert_eq!(ssh.wait_closure(), None);
    assert_eq!(ssh.close_channel(), Some(Request::Close));
    ssh.resolve(Reply::Done);
    assert_eq!(ssh.session_state(), SessionStates::SuccessChannelClosure);
}

#[test]
fn failed_wait_keeps_the_handle_and_the_state() {
    let mut ssh = with_channel();
    ssh.close_channel();
    ssh.resolve(Reply::Done);
    ssh.wait_closure();
    ssh.resolve(Reply::Failed);
    assert_eq!(ssh.session_state(), SessionStates::SuccessChannelClosure);
    assert!(ssh.has_channel());
    assert_eq!(ssh.wait_closure(), Some(Request::WaitClosed));
    ssh.resolve(Reply::Done);
    assert!(!ssh.has_channel());
    assert_eq!(ssh.wait_closure(), None);
    assert_eq!(ssh.tally(Operation::WaitClosure, Outcome::Failed), 1);
    assert_eq!(ssh.tally(Operation::WaitClosure, Outcome::Succeeded), 1);
}

#[test]
fn disconnect_from_each_admitted_state() {
    let mut ssh = with_channel();
    assert_eq!(ssh.disconnect(), Some(Request::Disconnect));
    ssh.resolve(Reply::Done);
    assert_eq!(ssh.session_state(), SessionStates::SuccessDisconnection);

    let mut ssh = handshaken();
    ssh.authenticate();
    ssh.resolve(Reply::Rejected);
    assert_eq!(ssh.disconnect(), Some(Request::Disconnect));
    ssh.resolve(Reply::Failed);
    assert_eq!(ssh.session_state(), SessionStates::FailedDisconnection);
}

#[test]
fn disconnect_is_idempotent() {
    let mut ssh = authenticated();
    ssh.disconnect();
    ssh.resolve(Reply::Done);
    assert_eq!(ssh.session_state(), SessionStates::SuccessDisconnection);
    let entries = ssh.journal().len();
    assert_eq!(ssh.disconnect(), None);
    assert_eq!(ssh.session_state(), SessionStates::SuccessDisconnection);
    assert_eq!(ssh.disconnect(), None);
    assert_eq!(ssh.session_state(), SessionStates::SuccessDisconnection);
    assert_eq!(ssh.journal().len(), entries);
    assert!(ssh.is_finished());
}

#[test]
fn disconnect_is_passed_over_on_a_pristine_session() {
    let mut ssh = fresh(false);
    assert_eq!(ssh.disconnect(), None);
    assert_eq!(ssh.session_state(), SessionStates::Disconnected);
    let mut ssh = fresh(false);
    ssh.establish_connection();
    ssh.resolve(Reply::Failed);
    assert_eq!(ssh.disconnect(), None);
    assert_eq!(ssh.session_state(), SessionStates::FailedConnection);
}

#[test]
fn connect_runs_three_phases_in_order() {
    let mut ssh = fresh(false);
    let first = ssh.connect();
    let made = answer(&mut ssh, first, vec![Reply::Done, Reply::Done, Reply::Done]);
    assert_eq!(
        made,
        vec![
            Request::Connect {
                address: String::from("10.0.0.5"),
                port: 22
            },
            Request::Handshake,
            Request::Authenticate {
                username: String::from("svc"),
                password: String::from("correct-horse")
            },
        ]
    );
    assert_eq!(ssh.session_state(), SessionStates::SuccessAuthentication);
    assert!(ssh.is_finished());
}

#[test]
fn connect_stops_asking_after_a_failed_handshake() {
    let mut ssh = fresh(true);
    let first = ssh.connect();
    let made = answer(&mut ssh, first, vec![Reply::Done, Reply::Failed, Reply::Done]);
    assert_eq!(made.len(), 2);
    assert_eq!(ssh.session_state(), SessionStates::FailedHandshake);
    assert!(ssh.is_finished());
    assert_eq!(
        ssh.journal().last(),
        Some(&Event {
            operation: Operation::Authentication,
            outcome: Outcome::Skipped
        })
    );
}

#[test]
fn connect_stops_asking_after_a_failed_connection() {
    let mut ssh = fresh(false);
    let first = ssh.connect();
    let made = answer(&mut ssh, first, vec![Reply::Failed, Reply::Done, Reply::Done]);
    assert_eq!(made.len(), 1);
    assert_eq!(ssh.session_state(), SessionStates::FailedConnection);
    assert!(ssh.is_finished());
    assert!(ssh.request().is_none());
}

#[test]
fn a_reply_that_nothing_awaited_is_dropped() {
    let mut ssh = fresh(true);
    assert_eq!(ssh.resolve(Reply::Done), None);
    assert_eq!(ssh.resolve(Reply::Text(String::from("x"))), None);
    assert_eq!(ssh.session_state(), SessionStates::Disconnected);
    assert!(ssh.journal().is_empty());
    assert_eq!(ssh.lookup().server_ssh_banner, None);
}

#[test]
fn operations_called_while_a_reply_is_owed_wait_their_turn() {
    let mut ssh = fresh(false);
    let first = ssh.establish_connection();
    assert_eq!(ssh.perform_handshake(), first);
    assert_eq!(ssh.authenticate(), first);
    assert_eq!(ssh.resolve(Reply::Done), Some(Request::Handshake));
    assert!(ssh.resolve(Reply::Done).is_some());
    assert_eq!(ssh.resolve(Reply::Done), None);
    assert_eq!(ssh.session_state(), SessionStates::SuccessAuthentication);
}

#[test]
fn text_is_no_success_for_a_phase() {
    let mut ssh = fresh(false);
    ssh.establish_connection();
    ssh.resolve(Reply::Text(String::from("hello")));
    assert_eq!(ssh.session_state(), SessionStates::FailedConnection);
}

#[test]
fn severity_of_each_outcome() {
    assert_eq!(Outcome::Succeeded.severity(), Severity::Info);
    assert_eq!(Outcome::Rejected.severity(), Severity::Info);
    assert_eq!(Outcome::Skipped.severity(), Severity::Warn);
    assert_eq!(Outcome::Failed.severity(), Severity::Error);
    assert_eq!(Outcome::Unread.severity(), Severity::Error);
}

#[test]
fn replies_from_authentication_results() {
    assert_eq!(Reply::from_authentication(Ok(true)), Reply::Done);
    assert_eq!(Reply::from_authentication(Ok(false)), Reply::Rejected);
    assert_eq!(Reply::from_authentication(Err(-18)), Reply::Rejected);
    assert_eq!(Reply::from_authentication(Err(-13)), Reply::Failed);
    assert_eq!(Reply::from_authentication(Err(0)), Reply::Failed);
}

#[test]
fn replies_from_status_and_text() {
    assert_eq!(Reply::from_status(true), Reply::Done);
    assert_eq!(Reply::from_status(false), Reply::Failed);
    assert_eq!(
        Reply::from_text(Some(String::from("SSH-2.0"))),
        Reply::Text(String::from("SSH-2.0"))
    );
    assert_eq!(Reply::from_text(Some(String::new())), Reply::Text(String::new()));
    assert_eq!(Reply::from_text(None), Reply::Failed);
}
