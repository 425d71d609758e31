//! The report: one file for each artifact that was retrieved.

use vstd::prelude::*;
use vstd::string::StringExecFns;
use crate::lookup::{Lookup, LookupView};
use crate::ssh::Ssh;
use crate::state::Artifact;

verus! {

/// One file of the report: where it goes and what it holds.
#[derive(Clone, Debug, PartialEq, Eq)]
pub struct ReportFile {
    pub path: String,
    pub content: String,
}

impl View for ReportFile {
    type V = (Seq<char>, Seq<char>);

    open spec fn view(&self) -> (Seq<char>, Seq<char>) {
        (self.path@, self.content@)
    }
}

/// The files of a report as pairs of path and content.
pub open spec fn files_view(files: Seq<ReportFile>) -> Seq<(Seq<char>, Seq<char>)> {
    Seq::new(files.len(), |i: int| files[i]@)
}

impl Artifact {
    /// The path of the file that holds the artifact.
    pub open spec fn spec_report_path(self) -> Seq<char> {
        match self {
            Artifact::Banner => "report/ssh_banner.txt"@,
            Artifact::Environment => "report/env_variables.txt"@,
            Artifact::ShellConfiguration => "report/bashrc.txt"@,
            Artifact::ShellHistory => "report/bash_history.txt"@,
        }
    }

    /// The path of the file that holds the artifact.
    pub fn report_path(self) -> (path: String)
        ensures
            path@ == self.spec_report_path(),
    {
        match self {
            Artifact::Banner => "report/ssh_banner.txt".to_owned(),
            Artifact::Environment => "report/env_variables.txt".to_owned(),
            Artifact::ShellConfiguration => "report/bashrc.txt".to_owned(),
            Artifact::ShellHistory => "report/bash_history.txt".to_owned(),
        }
    }
}

/// The file for `artifact`, if it was retrieved.
pub open spec fn report_entry(lookup: LookupView, artifact: Artifact) -> Seq<
    (Seq<char>, Seq<char>),
> {
    match lookup.get(artifact) {
        Some(text) => seq![(artifact.spec_report_path(), text)],
        None => Seq::empty(),
    }
}

/// The files of the report for `lookup`: one for each artifact that was
/// retrieved, in the order banner, environment, shell configuration, shell
/// history. An artifact that is absent gets no file, and one that is
/// present gets its file even if its text is empty.
pub open spec fn report_of(lookup: LookupView) -> Seq<(Seq<char>, Seq<char>)> {
    report_entry(lookup, Artifact::Banner) + report_entry(lookup, Artifact::Environment)
        + report_entry(lookup, Artifact::ShellConfiguration) + report_entry(
        lookup,
        Artifact::ShellHistory,
    )
}

fn add_entry(files: &mut Vec<ReportFile>, artifact: Artifact, text: &Option<String>)
    ensures
        files_view(final(files)@) == files_view(old(files)@) + match *text {
            Some(content) => seq![(artifact.spec_report_path(), content@)],
            None => Seq::empty(),
        },
{
    if let Some(content) = text {
        files.push(ReportFile { path: artifact.report_path(), content: content.clone() });
        assert(files_view(files@) =~= files_view(old(files)@) + seq![
            (artifact.spec_report_path(), content@),
        ]);
    } else {
        assert(files_view(files@) =~= files_view(old(files)@) + Seq::empty());
    }
}

/// The files of the report for what the session has found.
pub fn build_report(ssh: &Ssh) -> (files: Vec<ReportFile>)
    ensures
        files_view(files@) == report_of(ssh@.lookup),
{
    let lookup: &Lookup = ssh.lookup();
    let mut files: Vec<ReportFile> = Vec::new();
    assert(files_view(files@) =~= Seq::empty());
    add_entry(&mut files, Artifact::Banner, &lookup.server_ssh_banner);
    add_entry(&mut files, Artifact::Environment, &lookup.server_env_variables);
    add_entry(&mut files, Artifact::ShellConfiguration, &lookup.server_bashrc);
    add_entry(&mut files, Artifact::ShellHistory, &lookup.server_bash_history);
    assert(files_view(files@) =~= report_of(ssh@.lookup));
    files
}

/// The verdict on one file of the report, given what came of writing it: a
/// write that succeeded is passed on, and a write that failed gives the
/// message to report, which is the error's text behind a fixed prefix.
pub fn save(path: &str, written: Result<(), String>) -> (saved: Result<(), String>)
    ensures
        match written {
            Ok(_) => saved is Ok,
            Err(error) => saved is Err && saved->Err_0@ == "Failed to write to file: "@ + error@,
        },
{
    match written {
        Ok(_) => Ok(()),
        Err(error) => Err("Failed to write to file: ".to_owned().concat(error.as_str())),
    }
}

} // verus!
