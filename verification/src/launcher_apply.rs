//! The apply operation for the launcher target, as a state machine.
//! Launcher builds come from CI, so resolution is a cross-reference:
//! validate the game path, fetch the workflow-run listing, find the pull
//! request's head commit, walk the runs carrying that commit and fetch
//! each one's artifact listing until an artifact of the same commit is
//! found, download it after the status check, extract the allow-listed
//! files into the staging directory, delete the temporary archive, copy
//! the staged files directly into the game path — overwriting, with no
//! backup — and delete the staging tree.

use vstd::prelude::*;

use crate::download::{check_download_status, status_is_success, temp_zip_name, temp_zip_name_spec};
use crate::errors::{ApplyError, FetchError};
use crate::extract::{
    archive_contents, archive_readable, launcher_staging_dir, launcher_staging_dir_spec,
    plan_selective_extract, read_archive_entries, selective_plan_spec, ExtractAction,
};
use crate::install::marker_path_spec;
use crate::locate::{
    find_artifact_from_spec, find_artifact_index, find_pull, find_run_from_spec,
    find_run_index_from, pull_head_sha,
};
use crate::model::{PullRequest, WorkflowRun};
use crate::pipeline::{action_mutates_fs, Action, Event};
use crate::urls::{
    artifact_download_url, artifact_download_url_spec, artifacts_api_url, artifacts_api_url_spec,
    runs_api_url, runs_api_url_spec,
};

verus! {

/// Where a launcher apply operation stands.
pub enum LauncherStage {
    /// Not started.
    Idle,
    /// The marker check was issued.
    AwaitingMarker,
    /// The path is valid; fetching the workflow-run listing was issued.
    AwaitingRuns,
    /// A run carrying the pull request's head commit `sha` was found;
    /// fetching its artifact listing was issued. `next_run` is where the
    /// scan over `runs` resumes if that listing holds no artifact of the
    /// commit.
    AwaitingArtifacts { sha: String, runs: Vec<WorkflowRun>, next_run: usize },
    /// An artifact was resolved; the GET was issued.
    AwaitingStatus,
    /// The status was a success; saving the body was issued.
    AwaitingBody,
    /// The download is on disk; reading it back was issued.
    AwaitingArchive,
    /// Writing the allow-listed files into the staging directory was
    /// issued.
    AwaitingStagingWrite,
    /// Removal of the temporary archive was issued.
    AwaitingTempRemove,
    /// Copying the staged files into the game path was issued.
    AwaitingCopy,
    /// Removal of the staging tree was issued.
    AwaitingStagingRemove,
    /// Terminal success.
    Completed,
    /// Terminal failure; nothing further is done.
    Failed { error: ApplyError },
}

/// One launcher apply operation.
pub struct LauncherApply {
    /// The pull request to apply.
    pub pr_number: i64,
    /// The validated-or-rejected game installation path.
    pub game_path: String,
    /// The already-fetched pull-request list the head commit is taken
    /// from.
    pub pulls: Vec<PullRequest>,
    /// Where the operation stands.
    pub stage: LauncherStage,
}

/// The operation failed on a file-system step with the given operation
/// name and the driver's cause, and asks for nothing further.
pub open spec fn launcher_failed_fs(
    stage: LauncherStage,
    op: Seq<char>,
    cause: Seq<char>,
    a: Option<Action>,
) -> bool {
    &&& stage matches LauncherStage::Failed { error }
    &&& error matches ApplyError::Filesystem { operation, cause: c }
    &&& operation@ == op
    &&& c@ == cause
    &&& a is None
}

/// A fetch failed; the operation fails with the corresponding typed
/// error.
pub open spec fn launcher_failed_fetch(
    stage: LauncherStage,
    err: FetchError,
    a: Option<Action>,
) -> bool {
    &&& match err {
        FetchError::Network(cause) => {
            &&& stage matches LauncherStage::Failed { error }
            &&& error matches ApplyError::Network { cause: c }
            &&& c@ == cause@
        },
        FetchError::Parse(cause) => {
            &&& stage matches LauncherStage::Failed { error }
            &&& error matches ApplyError::Parse { cause: c }
            &&& c@ == cause@
        },
    }
    &&& a is None
}

impl LauncherApply {
    /// A fresh operation, not yet started.
    pub fn new(pr_number: i64, game_path: String, pulls: Vec<PullRequest>) -> (m: LauncherApply)
        ensures
            m.pr_number == pr_number,
            m.game_path == game_path,
            m.pulls == pulls,
            m.stage is Idle,
    {
        LauncherApply { pr_number, game_path, pulls, stage: LauncherStage::Idle }
    }

    /// Starts the operation: the first action checks for the marker
    /// executable under the game path. Started operations are left as
    /// they are.
    pub fn start(self) -> (r: (LauncherApply, Option<Action>))
        ensures
            r.0.pr_number == self.pr_number,
            r.0.game_path == self.game_path,
            r.0.pulls == self.pulls,
            self.stage is Idle ==> {
                &&& r.0.stage is AwaitingMarker
                &&& r.1 matches Some(Action::CheckMarker { path })
                &&& path@ == marker_path_spec(self.game_path@)
            },
            !(self.stage is Idle) ==> r.0.stage == self.stage && r.1 is None,
    {
        let LauncherApply { pr_number, game_path, pulls, stage } = self;
        match stage {
            LauncherStage::Idle => {
                let path = crate::install::marker_path(&game_path);
                (
                    LauncherApply {
                        pr_number,
                        game_path,
                        pulls,
                        stage: LauncherStage::AwaitingMarker,
                    },
                    Some(Action::CheckMarker { path }),
                )
            },
            st => (LauncherApply { pr_number, game_path, pulls, stage: st }, None),
        }
    }

    /// Consumes the outcome of the pending action and decides the next
    /// one. An event that does not answer the pending action leaves the
    /// operation as it is; terminal stages absorb every event.
    pub fn step(self, event: Event) -> (r: (LauncherApply, Option<Action>))
        ensures
            r.0.pr_number == self.pr_number,
            r.0.game_path == self.game_path,
            r.0.pulls == self.pulls,
            (self.stage is Idle || self.stage is AwaitingMarker || self.stage is AwaitingRuns
                || self.stage is AwaitingArtifacts) ==> (r.1 matches Some(act)
                ==> !action_mutates_fs(act)),
            ({
                &&& self.stage is AwaitingStatus
                &&& r.1 matches Some(act)
                &&& action_mutates_fs(act)
            }) ==> ({
                &&& event matches Event::GotStatus { result }
                &&& result matches Ok(code)
                &&& status_is_success(code as int)
            }),
            match self.stage {
                LauncherStage::AwaitingMarker => match event {
                    Event::MarkerChecked { exists } => {
                        if !exists {
                            {
                                &&& r.0.stage matches LauncherStage::Failed { error }
                                &&& error is InvalidGamePath
                                &&& r.1 is None
                            }
                        } else {
                            {
                                &&& r.0.stage is AwaitingRuns
                                &&& r.1 matches Some(Action::FetchRuns { url })
                                &&& url@ == runs_api_url_spec()
                            }
                        }
                    },
                    _ => r.0.stage == self.stage && r.1 is None,
                },
                LauncherStage::AwaitingRuns => match event {
                    Event::RunsFetched { result } => match result {
                        Ok(runs) => match find_pull(self.pulls@, self.pr_number as int) {
                            Some(p) => match find_run_from_spec(runs@, p.head_sha@, 0) {
                                Some(i) => {
                                    &&& r.0.stage matches LauncherStage::AwaitingArtifacts {
                                        sha,
                                        runs: kept,
                                        next_run,
                                    }
                                    &&& sha@ == p.head_sha@
                                    &&& kept == runs
                                    &&& next_run == i + 1
                                    &&& r.1 matches Some(Action::FetchArtifacts { url })
                                    &&& url@ == artifacts_api_url_spec(runs@[i].id as int)
                                },
                                None => {
                                    &&& r.0.stage matches LauncherStage::Failed { error }
                                    &&& error is NotFound
                                    &&& r.1 is None
                                },
                            },
                            None => {
                                &&& r.0.stage matches LauncherStage::Failed { error }
                                &&& error is NotFound
                                &&& r.1 is None
                            },
                        },
                        Err(err) => launcher_failed_fetch(r.0.stage, err, r.1),
                    },
                    _ => r.0.stage == self.stage && r.1 is None,
                },
                LauncherStage::AwaitingArtifacts { sha, runs, next_run } => match event {
                    Event::ArtifactsFetched { result } => match result {
                        Ok(artifacts) => match find_artifact_from_spec(artifacts@, sha@, 0) {
                            Some(k) => {
                                &&& r.0.stage is AwaitingStatus
                                &&& r.1 matches Some(Action::HttpGet { url })
                                &&& url@ == artifact_download_url_spec(artifacts@[k].id as int)
                            },
                            None => match find_run_from_spec(runs@, sha@, next_run as int) {
                                Some(j) => {
                                    &&& r.0.stage matches LauncherStage::AwaitingArtifacts {
                                        sha: s2,
                                        runs: kept,
                                        next_run: n2,
                                    }
                                    &&& s2 == sha
                                    &&& kept == runs
                                    &&& n2 == j + 1
                                    &&& r.1 matches Some(Action::FetchArtifacts { url })
                                    &&& url@ == artifacts_api_url_spec(runs@[j].id as int)
                                },
                                None => {
                                    &&& r.0.stage matches LauncherStage::Failed { error }
                                    &&& error is NotFound
                                    &&& r.1 is None
                                },
                            },
                        },
                        Err(err) => launcher_failed_fetch(r.0.stage, err, r.1),
                    },
                    _ => r.0.stage == self.stage && r.1 is None,
                },
                LauncherStage::AwaitingStatus => match event {
                    Event::GotStatus { result } => match result {
                        Ok(code) => {
                            if status_is_success(code as int) {
                                {
                                    &&& r.0.stage is AwaitingBody
                                    &&& r.1 matches Some(Action::SaveBody { dest })
                                    &&& dest@ == temp_zip_name_spec()
                                }
                            } else {
                                {
                                    &&& r.0.stage matches LauncherStage::Failed { error }
                                    &&& error matches ApplyError::HttpStatus { code: c }
                                    &&& c == code
                                    &&& r.1 is None
                                }
                            }
                        },
                        Err(cause) => {
                            &&& r.0.stage matches LauncherStage::Failed { error }
                            &&& error matches ApplyError::Network { cause: c }
                            &&& c@ == cause@
                            &&& r.1 is None
                        },
                    },
                    _ => r.0.stage == self.stage && r.1 is None,
                },
                LauncherStage::AwaitingBody => match event {
                    Event::BodySaved { result } => match result {
                        Ok(_) => {
                            &&& r.0.stage is AwaitingArchive
                            &&& r.1 matches Some(Action::ReadFile { path })
                            &&& path@ == temp_zip_name_spec()
                        },
                        Err(cause) => launcher_failed_fs(r.0.stage, "save-download"@, cause@, r.1),
                    },
                    _ => r.0.stage == self.stage && r.1 is None,
                },
                LauncherStage::AwaitingArchive => match event {
                    Event::FileRead { result } => match result {
                        Ok(bytes) => {
                            if !archive_readable(bytes@) {
                                {
                                    &&& r.0.stage matches LauncherStage::Failed { error }
                                    &&& error is Parse
                                    &&& r.1 is None
                                }
                            } else {
                                {
                                    &&& r.0.stage is AwaitingStagingWrite
                                    &&& r.1 matches Some(Action::WriteTree { base, items })
                                    &&& base@ == launcher_staging_dir_spec()
                                    &&& items@.map_values(|a: ExtractAction| a@)
                                        == selective_plan_spec(archive_contents(bytes@))
                                }
                            }
                        },
                        Err(cause) => launcher_failed_fs(r.0.stage, "read-archive"@, cause@, r.1),
                    },
                    _ => r.0.stage == self.stage && r.1 is None,
                },
                LauncherStage::AwaitingStagingWrite => match event {
                    Event::TreeWritten { result } => match result {
                        Ok(_) => {
                            &&& r.0.stage is AwaitingTempRemove
                            &&& r.1 matches Some(Action::RemoveFile { path })
                            &&& path@ == temp_zip_name_spec()
                        },
                        Err(cause) => launcher_failed_fs(r.0.stage, "write-tree"@, cause@, r.1),
                    },
                    _ => r.0.stage == self.stage && r.1 is None,
                },
                LauncherStage::AwaitingTempRemove => match event {
                    Event::FileRemoved { result } => match result {
                        Ok(_) => {
                            &&& r.0.stage is AwaitingCopy
                            &&& r.1 matches Some(Action::CopyTree { from, to })
                            &&& from@ == launcher_staging_dir_spec()
                            &&& to@ == self.game_path@
                        },
                        Err(cause) => launcher_failed_fs(r.0.stage, "remove-file"@, cause@, r.1),
                    },
                    _ => r.0.stage == self.stage && r.1 is None,
                },
                LauncherStage::AwaitingCopy => match event {
                    Event::TreeCopied { result } => match result {
                        Ok(_) => {
                            &&& r.0.stage is AwaitingStagingRemove
                            &&& r.1 matches Some(Action::RemoveDir { path })
                            &&& path@ == launcher_staging_dir_spec()
                        },
                        Err(cause) => launcher_failed_fs(r.0.stage, "copy-tree"@, cause@, r.1),
                    },
                    _ => r.0.stage == self.stage && r.1 is None,
                },
                LauncherStage::AwaitingStagingRemove => match event {
                    Event::DirRemoved { result, still_exists: _ } => match result {
                        Ok(_) => r.0.stage is Completed && r.1 is None,
                        Err(cause) => launcher_failed_fs(r.0.stage, "remove-dir"@, cause@, r.1),
                    },
                    _ => r.0.stage == self.stage && r.1 is None,
                },
                _ => r.0.stage == self.stage && r.1 is None,
            },
    {
        let LauncherApply { pr_number, game_path, pulls, stage } = self;
        match (stage, event) {
            (LauncherStage::AwaitingMarker, Event::MarkerChecked { exists }) => {
                if let Err(error) = crate::install::validate_game_path(exists) {
                    let stage = LauncherStage::Failed { error };
                    (LauncherApply { pr_number, game_path, pulls, stage }, None)
                } else {
                    let url = runs_api_url();
                    (
                        LauncherApply {
                            pr_number,
                            game_path,
                            pulls,
                            stage: LauncherStage::AwaitingRuns,
                        },
                        Some(Action::FetchRuns { url }),
                    )
                }
            },
            (LauncherStage::AwaitingRuns, Event::RunsFetched { result }) => match result {
                Ok(runs) => match pull_head_sha(pr_number, &pulls) {
                    Ok(sha) => match find_run_index_from(&runs, &sha, 0) {
                        Some(i) => {
                            let run_count = runs.len();
                            proof {
                                assert(i < run_count);
                            }
                            let url = artifacts_api_url(runs[i].id);
                            let next_run = i + 1;
                            (
                                LauncherApply {
                                    pr_number,
                                    game_path,
                                    pulls,
                                    stage: LauncherStage::AwaitingArtifacts { sha, runs, next_run },
                                },
                                Some(Action::FetchArtifacts { url }),
                            )
                        },
                        None => (
                            LauncherApply {
                                pr_number,
                                game_path,
                                pulls,
                                stage: LauncherStage::Failed { error: ApplyError::NotFound },
                            },
                            None,
                        ),
                    },
                    Err(error) => (
                        LauncherApply {
                            pr_number,
                            game_path,
                            pulls,
                            stage: LauncherStage::Failed { error },
                        },
                        None,
                    ),
                },
                Err(err) => (
                    LauncherApply {
                        pr_number,
                        game_path,
                        pulls,
                        stage: LauncherStage::Failed { error: fetch_to_apply_error(err) },
                    },
                    None,
                ),
            },
            (
                LauncherStage::AwaitingArtifacts { sha, runs, next_run },
                Event::ArtifactsFetched { result },
            ) => match result {
                Ok(artifacts) => match find_artifact_index(&artifacts, &sha) {
                    Some(k) => {
                        let url = artifact_download_url(artifacts[k].id);
                        (
                            LauncherApply {
                                pr_number,
                                game_path,
                                pulls,
                                stage: LauncherStage::AwaitingStatus,
                            },
                            Some(Action::HttpGet { url }),
                        )
                    },
                    None => match find_run_index_from(&runs, &sha, next_run) {
                        Some(j) => {
                            let run_count = runs.len();
                            proof {
                                assert(j < run_count);
                            }
                            let url = artifacts_api_url(runs[j].id);
                            let next_run = j + 1;
                            (
                                LauncherApply {
                                    pr_number,
                                    game_path,
                                    pulls,
                                    stage: LauncherStage::AwaitingArtifacts { sha, runs, next_run },
                                },
                                Some(Action::FetchArtifacts { url }),
                            )
                        },
                        None => (
                            LauncherApply {
                                pr_number,
                                game_path,
                                pulls,
                                stage: LauncherStage::Failed { error: ApplyError::NotFound },
                            },
                            None,
                        ),
                    },
                },
                Err(err) => (
                    LauncherApply {
                        pr_number,
                        game_path,
                        pulls,
                        stage: LauncherStage::Failed { error: fetch_to_apply_error(err) },
                    },
                    None,
                ),
            },
            (LauncherStage::AwaitingStatus, Event::GotStatus { result }) => match result {
                Ok(code) => match check_download_status(code) {
                    Ok(_) => (
                        LauncherApply {
                            pr_number,
                            game_path,
                            pulls,
                            stage: LauncherStage::AwaitingBody,
                        },
                        Some(Action::SaveBody { dest: temp_zip_name() }),
                    ),
                    Err(error) => (
                        LauncherApply {
                            pr_number,
                            game_path,
                            pulls,
                            stage: LauncherStage::Failed { error },
                        },
                        None,
                    ),
                },
                Err(cause) => (
                    LauncherApply {
                        pr_number,
                        game_path,
                        pulls,
                        stage: LauncherStage::Failed { error: ApplyError::Network { cause } },
                    },
                    None,
                ),
            },
            (LauncherStage::AwaitingBody, Event::BodySaved { result }) => match result {
                Ok(_) => (
                    LauncherApply {
                        pr_number,
                        game_path,
                        pulls,
                        stage: LauncherStage::AwaitingArchive,
                    },
                    Some(Action::ReadFile { path: temp_zip_name() }),
                ),
                Err(cause) => (
                    LauncherApply {
                        pr_number,
                        game_path,
                        pulls,
                        stage: LauncherStage::Failed {
                            error: ApplyError::Filesystem {
                                operation: String::from_str("save-download"),
                                cause,
                            },
                        },
                    },
                    None,
                ),
            },
            (LauncherStage::AwaitingArchive, Event::FileRead { result }) => match result {
                Ok(bytes) => match read_archive_entries(&bytes) {
                    Ok(entries) => {
                        let items = plan_selective_extract(&entries);
                        let base = launcher_staging_dir();
                        (
                            LauncherApply {
                                pr_number,
                                game_path,
                                pulls,
                                stage: LauncherStage::AwaitingStagingWrite,
                            },
                            Some(Action::WriteTree { base, items }),
                        )
                    },
                    Err(_) => (
                        LauncherApply {
                            pr_number,
                            game_path,
                            pulls,
                            stage: LauncherStage::Failed {
                                error: ApplyError::Parse {
                                    cause: String::from_str("the download is not a readable archive"),
                                },
                            },
                        },
                        None,
                    ),
                },
                Err(cause) => (
                    LauncherApply {
                        pr_number,
                        game_path,
                        pulls,
                        stage: LauncherStage::Failed {
                            error: ApplyError::Filesystem {
                                operation: String::from_str("read-archive"),
                                cause,
                            },
                        },
                    },
                    None,
                ),
            },
            (LauncherStage::AwaitingStagingWrite, Event::TreeWritten { result }) => match result {
                Ok(_) => (
                    LauncherApply {
                        pr_number,
                        game_path,
                        pulls,
                        stage: LauncherStage::AwaitingTempRemove,
                    },
                    Some(Action::RemoveFile { path: temp_zip_name() }),
                ),
                Err(cause) => (
                    LauncherApply {
                        pr_number,
                        game_path,
                        pulls,
                        stage: LauncherStage::Failed {
                            error: ApplyError::Filesystem {
                                operation: String::from_str("write-tree"),
                                cause,
                            },
                        },
                    },
                    None,
                ),
            },
            (LauncherStage::AwaitingTempRemove, Event::FileRemoved { result }) => match result {
                Ok(_) => {
                    let from = launcher_staging_dir();
                    let to = game_path.clone();
                    (
                        LauncherApply { pr_number, game_path, pulls, stage: LauncherStage::AwaitingCopy },
                        Some(Action::CopyTree { from, to }),
                    )
                },
                Err(cause) => (
                    LauncherApply {
                        pr_number,
                        game_path,
                        pulls,
                        stage: LauncherStage::Failed {
                            error: ApplyError::Filesystem {
                                operation: String::from_str("remove-file"),
                                cause,
                            },
                        },
                    },
                    None,
                ),
            },
            (LauncherStage::AwaitingCopy, Event::TreeCopied { result }) => match result {
                Ok(_) => (
                    LauncherApply {
                        pr_number,
                        game_path,
                        pulls,
                        stage: LauncherStage::AwaitingStagingRemove,
                    },
                    Some(Action::RemoveDir { path: launcher_staging_dir() }),
                ),
                Err(cause) => (
                    LauncherApply {
                        pr_number,
                        game_path,
                        pulls,
                        stage: LauncherStage::Failed {
                            error: ApplyError::Filesystem {
                                operation: String::from_str("copy-tree"),
                                cause,
                            },
                        },
                    },
                    None,
                ),
            },
            (
                LauncherStage::AwaitingStagingRemove,
                Event::DirRemoved { result, still_exists: _ },
            ) => match result {
                Ok(_) => (
                    LauncherApply { pr_number, game_path, pulls, stage: LauncherStage::Completed },
                    None,
                ),
                Err(cause) => (
                    LauncherApply {
                        pr_number,
                        game_path,
                        pulls,
                        stage: LauncherStage::Failed {
                            error: ApplyError::Filesystem {
                                operation: String::from_str("remove-dir"),
                                cause,
                            },
                        },
                    },
                    None,
                ),
            },
            (st, _) => (LauncherApply { pr_number, game_path, pulls, stage: st }, None),
        }
    }
}

/// The typed error of a failed fetch.
fn fetch_to_apply_error(err: FetchError) -> (e: ApplyError)
    ensures
        match err {
            FetchError::Network(cause) => e matches ApplyError::Network { cause: c } && c@ == cause@,
            FetchError::Parse(cause) => e matches ApplyError::Parse { cause: c } && c@ == cause@,
        },
{
    match err {
        FetchError::Network(cause) => ApplyError::Network { cause },
        FetchError::Parse(cause) => ApplyError::Parse { cause },
    }
}

} // verus!
