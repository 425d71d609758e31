//! What the enumeration has found on the target.

use vstd::prelude::*;
use crate::state::Artifact;

verus! {

/// The artifacts retrieved from the target. A field is `Some` only if its
/// retrieval ran and succeeded; `None` means that it was not attempted or
/// that it failed, never that the target had nothing to say.
#[derive(Clone, Debug, PartialEq, Eq)]
pub struct Lookup {
    pub server_ssh_banner: Option<String>,
    pub server_env_variables: Option<String>,
    pub server_bashrc: Option<String>,
    pub server_bash_history: Option<String>,
}

/// `Lookup` with its strings as sequences of characters.
pub struct LookupView {
    pub banner: Option<Seq<char>>,
    pub environment: Option<Seq<char>>,
    pub shell_configuration: Option<Seq<char>>,
    pub shell_history: Option<Seq<char>>,
}

/// An optional string as an optional sequence of characters.
pub open spec fn text_view(text: Option<String>) -> Option<Seq<char>> {
    match text {
        Some(t) => Some(t@),
        None => None,
    }
}

impl LookupView {
    /// The result with nothing in it.
    pub open spec fn empty() -> LookupView {
        LookupView {
            banner: None,
            environment: None,
            shell_configuration: None,
            shell_history: None,
        }
    }

    /// The field that holds `artifact`.
    pub open spec fn get(self, artifact: Artifact) -> Option<Seq<char>> {
        match artifact {
            Artifact::Banner => self.banner,
            Artifact::Environment => self.environment,
            Artifact::ShellConfiguration => self.shell_configuration,
            Artifact::ShellHistory => self.shell_history,
        }
    }

    /// The result after `text` was retrieved for `artifact`. Each field is
    /// written once: a field that holds a value keeps it.
    pub open spec fn record(self, artifact: Artifact, text: Seq<char>) -> LookupView {
        if self.get(artifact) is Some {
            self
        } else {
            match artifact {
                Artifact::Banner => LookupView { banner: Some(text), ..self },
                Artifact::Environment => LookupView { environment: Some(text), ..self },
                Artifact::ShellConfiguration => LookupView {
                    shell_configuration: Some(text),
                    ..self
                },
                Artifact::ShellHistory => LookupView { shell_history: Some(text), ..self },
            }
        }
    }
}

impl View for Lookup {
    type V = LookupView;

    open spec fn view(&self) -> LookupView {
        LookupView {
            banner: text_view(self.server_ssh_banner),
            environment: text_view(self.server_env_variables),
            shell_configuration: text_view(self.server_bashrc),
            shell_history: text_view(self.server_bash_history),
        }
    }
}

impl Lookup {
    /// A result with every field absent.
    pub fn new() -> (lookup: Lookup)
        ensures
            lookup@ == LookupView::empty(),
    {
        Lookup {
            server_ssh_banner: None,
            server_env_variables: None,
            server_bashrc: None,
            server_bash_history: None,
        }
    }

    /// Whether the field for `artifact` holds a value.
    pub fn holds(&self, artifact: Artifact) -> (held: bool)
        ensures
            held == (self@.get(artifact) is Some),
    {
        match artifact {
            Artifact::Banner => self.server_ssh_banner.is_some(),
            Artifact::Environment => self.server_env_variables.is_some(),
            Artifact::ShellConfiguration => self.server_bashrc.is_some(),
            Artifact::ShellHistory => self.server_bash_history.is_some(),
        }
    }

    /// Stores `text` as the value retrieved for `artifact`, unless the field
    /// already holds one.
    pub fn record(&mut self, artifact: Artifact, text: String)
        ensures
            final(self)@ == old(self)@.record(artifact, text@),
    {
        if !self.holds(artifact) {
            match artifact {
                Artifact::Banner => {
                    self.server_ssh_banner = Some(text);
                },
                Artifact::Environment => {
                    self.server_env_variables = Some(text);
                },
                Artifact::ShellConfiguration => {
                    self.server_bashrc = Some(text);
                },
                Artifact::ShellHistory => {
                    self.server_bash_history = Some(text);
                },
            }
        }
    }
}

} // verus!
