//! A sans-I/O core for an SSH reconnaissance client.
//!
//! The crate holds the session state machine, the credential probe and the
//! post-authentication enumeration as pure decisions: the session hands out
//! the next transport request, the caller performs it on a real connection
//! and hands the reply back. Every decision is stated in a contract and
//! proved.

pub mod state;
pub mod transport;
pub mod lookup;
pub mod journal;
pub mod model;
pub mod ssh;
pub mod laws;
pub mod flow;
pub mod verdict;
pub mod io;
pub mod report;
pub mod arguments;
