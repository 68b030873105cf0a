//! Fixed-shape records for the remote data the locators cross-reference:
//! pull requests, CI workflow runs and their build artifacts.

use vstd::prelude::*;

verus! {

/// One pull request, as taken from a fetched pull-request list.
#[derive(Clone, Debug)]
pub struct PullRequest {
    /// The number identifying the pull request within its repository.
    pub number: i64,
    /// Name of the head branch.
    pub head_ref: String,
    /// Full name (`owner/repo`) of the repository holding the head branch.
    pub head_repo_full_name: String,
    /// SHA of the head commit.
    pub head_sha: String,
    /// SHA of the merge commit, where one exists.
    pub merge_commit_sha: Option<String>,
}

/// One continuous-integration execution.
#[derive(Clone, Debug)]
pub struct WorkflowRun {
    pub id: u64,
    /// SHA of the commit the run was started for.
    pub head_sha: String,
}

/// One downloadable build output of a workflow run.
#[derive(Clone, Debug)]
pub struct Artifact {
    pub id: u64,
    /// Head SHA of the workflow run that produced the artifact.
    pub run_head_sha: String,
}

/// Which of the two installable products an apply operation concerns.
#[derive(Clone, Copy, Debug, PartialEq, Eq, Structural)]
pub enum TargetKind {
    Mods,
    Launcher,
}

} // verus!
