//! What the session asks of the transport, and what the transport answers.
//!
//! The session performs no input or output. It hands out a `Request`, the
//! caller performs it on the connection it owns, and hands back a `Reply`.

use vstd::prelude::*;

verus! {

/// One call on the transport.
#[derive(Clone, Debug, PartialEq, Eq)]
pub enum Request {
    /// Open the network connection to `address:port`.
    Connect { address: String, port: u32 },
    /// Run the cryptographic handshake over the connection.
    Handshake,
    /// Try password authentication.
    Authenticate { username: String, password: String },
    /// Open a session channel.
    OpenChannel,
    /// Start `command` on the open channel.
    Exec { command: String },
    /// Read the channel's output to its end.
    ReadAll,
    /// Close the channel.
    Close,
    /// Wait until the remote end has closed the channel.
    WaitClosed,
    /// Read the banner that the handshake negotiated.
    Banner,
    /// Disconnect the session.
    Disconnect,
}

/// `Request` with its strings as sequences of characters.
pub enum RequestView {
    Connect { address: Seq<char>, port: u32 },
    Handshake,
    Authenticate { username: Seq<char>, password: Seq<char> },
    OpenChannel,
    Exec { command: Seq<char> },
    ReadAll,
    Close,
    WaitClosed,
    Banner,
    Disconnect,
}

impl View for Request {
    type V = RequestView;

    open spec fn view(&self) -> RequestView {
        match *self {
            Request::Connect { address, port } => RequestView::Connect { address: address@, port },
            Request::Handshake => RequestView::Handshake,
            Request::Authenticate { username, password } => RequestView::Authenticate {
                username: username@,
                password: password@,
            },
            Request::OpenChannel => RequestView::OpenChannel,
            Request::Exec { command } => RequestView::Exec { command: command@ },
            Request::ReadAll => RequestView::ReadAll,
            Request::Close => RequestView::Close,
            Request::WaitClosed => RequestView::WaitClosed,
            Request::Banner => RequestView::Banner,
            Request::Disconnect => RequestView::Disconnect,
        }
    }
}

/// The transport's answer to one request.
#[derive(Clone, Debug, PartialEq, Eq)]
pub enum Reply {
    /// The call succeeded and carries no data.
    Done,
    /// The call succeeded and returned text (a banner, a command's output).
    Text(String),
    /// The remote end refused the credentials. Only authentication gives it.
    Rejected,
    /// The call failed.
    Failed,
}

/// `Reply` with its text as a sequence of characters.
pub enum ReplyView {
    Done,
    Text(Seq<char>),
    Rejected,
    Failed,
}

impl View for Reply {
    type V = ReplyView;

    open spec fn view(&self) -> ReplyView {
        match *self {
            Reply::Done => ReplyView::Done,
            Reply::Text(text) => ReplyView::Text(text@),
            Reply::Rejected => ReplyView::Rejected,
            Reply::Failed => ReplyView::Failed,
        }
    }
}

/// The code with which the transport reports that the remote end refused
/// the credentials.
pub const AUTHENTICATION_FAILED: i32 = -18;

impl Reply {
    /// The reply that stands for what came of one authentication call.
    /// `Ok` holds whether the session counts as authenticated after a call
    /// that returned without error; `Err` holds the transport's error code.
    /// The call succeeded only if the session is authenticated after it. A
    /// call that left it unauthenticated, and the error code that reports a
    /// refusal, are a rejection of the credentials; every other error code
    /// is a failure of the transport.
    pub fn from_authentication(result: Result<bool, i32>) -> (reply: Reply)
        ensures
            reply@ == match result {
                Ok(authenticated) => if authenticated {
                    ReplyView::Done
                } else {
                    ReplyView::Rejected
                },
                Err(code) => if code == AUTHENTICATION_FAILED {
                    ReplyView::Rejected
                } else {
                    ReplyView::Failed
                },
            },
    {
        match result {
            Ok(true) => Reply::Done,
            Ok(false) => Reply::Rejected,
            Err(code) => if code == AUTHENTICATION_FAILED {
                Reply::Rejected
            } else {
                Reply::Failed
            },
        }
    }

    /// The reply that stands for a call that returns no data: `Done` if it
    /// succeeded, `Failed` if it did not.
    pub fn from_status(succeeded: bool) -> (reply: Reply)
        ensures
            reply@ == if succeeded {
                ReplyView::Done
            } else {
                ReplyView::Failed
            },
    {
        if succeeded {
            Reply::Done
        } else {
            Reply::Failed
        }
    }

    /// The reply that stands for a call that returns text: the text if
    /// there is one, `Failed` if there is none.
    pub fn from_text(text: Option<String>) -> (reply: Reply)
        ensures
            reply@ == match text {
                Some(t) => ReplyView::Text(t@),
                None => ReplyView::Failed,
            },
    {
        match text {
            Some(t) => Reply::Text(t),
            None => Reply::Failed,
        }
    }
}

} // verus!
