//! Mutation run configuration.

use vstd::prelude::*;
use vstd::string::StringExecFns;

verus! {

/// Ghost mirror of [`MutationConfig`].
#[verifier::ext_equal]
pub ghost struct MutationConfigView {
    /// Project directory.
    pub project_dir: Seq<char>,
    /// Run-state root directory.
    pub run_root: Seq<char>,
    /// Optional substring filter.
    pub filter: Option<Seq<char>>,
    /// Optional per-mutant timeout hint in seconds.
    pub timeout_secs: Option<u64>,
}

/// Configuration for a mutation run.  Directories are carried as plain
/// path strings; the caller owning the filesystem resolves them.
#[derive(Debug, PartialEq)]
pub struct MutationConfig {
    /// Project directory where engine commands are executed.
    pub project_dir: String,
    /// Root directory where run state is persisted.
    pub run_root: String,
    /// Optional substring filter for mutant selection.
    pub filter: Option<String>,
    /// Optional per-mutant timeout hint in seconds.
    pub timeout_secs: Option<u64>,
}

impl View for MutationConfig {
    type V = MutationConfigView;

    open spec fn view(&self) -> MutationConfigView {
        MutationConfigView {
            project_dir: self.project_dir@,
            run_root: self.run_root@,
            filter: match self.filter {
                Some(f) => Some(f@),
                None => None,
            },
            timeout_secs: self.timeout_secs,
        }
    }
}

impl Clone for MutationConfig {
    /// Clones every field; the copy equals the original.
    fn clone(&self) -> (r: Self)
        ensures
            r == *self,
    {
        MutationConfig {
            project_dir: self.project_dir.clone(),
            run_root: self.run_root.clone(),
            filter: match &self.filter {
                Some(f) => Some(f.clone()),
                None => None,
            },
            timeout_secs: self.timeout_secs,
        }
    }
}

impl Default for MutationConfig {
    /// The default configuration: the current directory as the project,
    /// with run state under a dotfile-style root inside it, no filter and
    /// no timeout.
    fn default() -> (r: Self)
        ensures
            r.project_dir@ == "."@,
            r.run_root@ == "./.kitchensink-testing/mutation/runs"@,
            r.filter is None,
            r.timeout_secs is None,
    {
        MutationConfig {
            project_dir: String::from_str("."),
            run_root: String::from_str("./.kitchensink-testing/mutation/runs"),
            filter: None,
            timeout_secs: None,
        }
    }
}

impl MutationConfig {
    /// Set the project directory.
    pub fn with_project_dir(self, project_dir: &str) -> (r: Self)
        ensures
            r.project_dir@ == project_dir@,
            r.run_root == self.run_root,
            r.filter == self.filter,
            r.timeout_secs == self.timeout_secs,
    {
        MutationConfig { project_dir: project_dir.to_owned(), ..self }
    }

    /// Set the run-state root directory.
    pub fn with_run_root(self, run_root: &str) -> (r: Self)
        ensures
            r.run_root@ == run_root@,
            r.project_dir == self.project_dir,
            r.filter == self.filter,
            r.timeout_secs == self.timeout_secs,
    {
        MutationConfig { run_root: run_root.to_owned(), ..self }
    }

    /// Set the selector filter.
    pub fn with_filter(self, filter: &str) -> (r: Self)
        ensures
            r.filter matches Some(f) && f@ == filter@,
            r.project_dir == self.project_dir,
            r.run_root == self.run_root,
            r.timeout_secs == self.timeout_secs,
    {
        MutationConfig { filter: Some(filter.to_owned()), ..self }
    }

    /// Set the timeout hint in seconds.
    pub fn with_timeout_secs(self, timeout_secs: u64) -> (r: Self)
        ensures
            r.timeout_secs == Some(timeout_secs),
            r.project_dir == self.project_dir,
            r.run_root == self.run_root,
            r.filter == self.filter,
    {
        MutationConfig { timeout_secs: Some(timeout_secs), ..self }
    }
}

} // verus!
