//! The arguments of a run.

use vstd::prelude::*;

verus! {

/// The arguments of a run: the target, the user, and either one password or
/// the path of a file of candidate passwords.
#[derive(Clone, Debug, PartialEq, Eq)]
pub struct Arguments {
    pub host: String,
    pub port: u32,
    pub username: String,
    pub password: Option<String>,
    pub passwords: Option<String>,
    pub verbose: bool,
    pub output: String,
}

/// Where the passwords of a run come from.
#[derive(Clone, Copy, Debug, PartialEq, Eq, Structural)]
pub enum Source {
    /// One password, given on the command line.
    Password,
    /// The lines of a file of candidates.
    CandidateFile,
    /// Neither was given.
    Missing,
}

impl Arguments {
    /// Where the passwords come from. One password given on the command
    /// line takes precedence over a file of candidates.
    pub open spec fn spec_source(&self) -> Source {
        if self.password is Some {
            Source::Password
        } else if self.passwords is Some {
            Source::CandidateFile
        } else {
            Source::Missing
        }
    }

    #[verifier::when_used_as_spec(spec_source)]
    pub fn source(&self) -> (source: Source)
        ensures
            source == self.spec_source(),
    {
        if self.password.is_some() {
            Source::Password
        } else if self.passwords.is_some() {
            Source::CandidateFile
        } else {
            Source::Missing
        }
    }
}

} // verus!
