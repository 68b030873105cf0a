//! The apply operation for the mods target, as a state machine. The
//! sequence: validate the game path, resolve
//! the source-archive URL from the pull-request list, download after the
//! status check, extract the archive fully into its root folder, delete
//! the temporary archive, delete the prior managed subtree (a soft
//! failure), copy the staged tree to the mods destination, delete the
//! staging tree, and write the launcher helper script.
//!
//! Failures before any file-system action are safe aborts; a failure
//! after the managed subtree was deleted leaves the install partially
//! applied, and is surfaced as the typed error of the failing step.

use vstd::prelude::*;

use crate::download::{check_download_status, status_is_success, temp_zip_name, temp_zip_name_spec};
use crate::errors::ApplyError;
use crate::extract::{
    archive_contents, archive_readable, full_plan_spec, has_root_dir, plan_full_extract,
    read_archive_entries, root_dir_of, ExtractAction,
};
use crate::install::{
    batch_file_content, batch_file_content_spec, batch_file_path, batch_file_path_spec,
    managed_dir_path, managed_dir_path_spec, marker_path, marker_path_spec, mods_dest_path,
    mods_dest_path_spec, validate_game_path,
};
use crate::locate::{find_pull, resolve_mods};
use crate::model::PullRequest;
use crate::pipeline::{action_mutates_fs, Action, Event};

verus! {

/// Where a mods apply operation stands: which action's outcome it is
/// waiting for, or how it ended.
pub enum ModsStage {
    /// Not started.
    Idle,
    /// The marker check was issued.
    AwaitingMarker,
    /// The path is valid and the URL resolved; the GET was issued.
    AwaitingStatus,
    /// The status was a success; saving the body was issued.
    AwaitingBody,
    /// The download is on disk; reading it back was issued.
    AwaitingArchive,
    /// The archive was planned; writing the staged tree was issued.
    /// `root` is the archive's root folder, the staging directory.
    AwaitingStagingWrite { root: String },
    /// Removal of the temporary archive was issued.
    AwaitingTempRemove { root: String },
    /// Removal of the prior managed subtree was issued.
    AwaitingManagedRemove { root: String },
    /// Copying the staged tree to the mods destination was issued.
    /// `warned` records a failed managed-subtree removal that left the
    /// directory behind: a soft failure, surfaced on completion.
    AwaitingCopy { root: String, warned: bool },
    /// Removal of the staging tree was issued.
    AwaitingStagingRemove { warned: bool },
    /// Writing the helper script was issued.
    AwaitingBatchWrite { warned: bool },
    /// Terminal success; `warned` surfaces the soft failure above.
    Completed { warned: bool },
    /// Terminal failure; nothing further is done.
    Failed { error: ApplyError },
}

/// One mods apply operation.
pub struct ModsApply {
    /// The pull request to apply.
    pub pr_number: i64,
    /// The validated-or-rejected game installation path.
    pub game_path: String,
    /// The already-fetched pull-request list the URL is resolved from.
    pub pulls: Vec<PullRequest>,
    /// Where the operation stands.
    pub stage: ModsStage,
}

/// The operation failed on a file-system step with the given operation
/// name and the driver's cause, and asks for nothing further.
pub open spec fn mods_failed_fs(
    stage: ModsStage,
    op: Seq<char>,
    cause: Seq<char>,
    a: Option<Action>,
) -> bool {
    &&& stage matches ModsStage::Failed { error }
    &&& error matches ApplyError::Filesystem { operation, cause: c }
    &&& operation@ == op
    &&& c@ == cause
    &&& a is None
}

impl ModsApply {
    /// A fresh operation, not yet started.
    pub fn new(pr_number: i64, game_path: String, pulls: Vec<PullRequest>) -> (m: ModsApply)
        ensures
            m.pr_number == pr_number,
            m.game_path == game_path,
            m.pulls == pulls,
            m.stage is Idle,
    {
        ModsApply { pr_number, game_path, pulls, stage: ModsStage::Idle }
    }

    /// Starts the operation: the first action checks for the marker
    /// executable under the game path. Started operations are left as
    /// they are.
    pub fn start(self) -> (r: (ModsApply, Option<Action>))
        ensures
            r.0.pr_number == self.pr_number,
            r.0.game_path == self.game_path,
            r.0.pulls == self.pulls,
            self.stage is Idle ==> {
                &&& r.0.stage is AwaitingMarker
                &&& r.1 matches Some(Action::CheckMarker { path })
                &&& path@ == marker_path_spec(self.game_path@)
            },
            !(self.stage is Idle) ==> r.0.stage == self.stage && r.1 is None,
    {
        let ModsApply { pr_number, game_path, pulls, stage } = self;
        match stage {
            ModsStage::Idle => {
                let path = marker_path(&game_path);
                (
                    ModsApply { pr_number, game_path, pulls, stage: ModsStage::AwaitingMarker },
                    Some(Action::CheckMarker { path }),
                )
            },
            st => (ModsApply { pr_number, game_path, pulls, stage: st }, None),
        }
    }

    /// Consumes the outcome of the pending action and decides the next
    /// one. An event that does not answer the pending action leaves the
    /// operation as it is; terminal stages absorb every event.
    pub fn step(self, event: Event) -> (r: (ModsApply, Option<Action>))
        ensures
            r.0.pr_number == self.pr_number,
            r.0.game_path == self.game_path,
            r.0.pulls == self.pulls,
            (self.stage is Idle || self.stage is AwaitingMarker) ==> (r.1 matches Some(act)
                ==> !action_mutates_fs(act)),
            ({
                &&& self.stage is AwaitingStatus
                &&& r.1 matches Some(act)
                &&& action_mutates_fs(act)
            }) ==> ({
                &&& event matches Event::GotStatus { result }
                &&& result matches Ok(code)
                &&& status_is_success(code as int)
            }),
            match self.stage {
                ModsStage::AwaitingMarker => match event {
                    Event::MarkerChecked { exists } => {
                        if !exists {
                            {
                                &&& r.0.stage matches ModsStage::Failed { error }
                                &&& error is InvalidGamePath
                                &&& r.1 is None
                            }
                        } else {
                            match find_pull(self.pulls@, self.pr_number as int) {
                                Some(p) => {
                                    &&& r.0.stage is AwaitingStatus
                                    &&& r.1 matches Some(Action::HttpGet { url })
                                    &&& url@ == crate::urls::mods_archive_url_spec(
                                        p.head_repo_full_name@,
                                        p.head_ref@,
                                    )
                                },
                                None => {
                                    &&& r.0.stage matches ModsStage::Failed { error }
                                    &&& error is NotFound
                                    &&& r.1 is None
                                },
                            }
                        }
                    },
                    _ => r.0.stage == self.stage && r.1 is None,
                },
                ModsStage::AwaitingStatus => match event {
                    Event::GotStatus { result } => match result {
                        Ok(code) => {
                            if status_is_success(code as int) {
                                {
                                    &&& r.0.stage is AwaitingBody
                                    &&& r.1 matches Some(Action::SaveBody { dest })
                                    &&& dest@ == temp_zip_name_spec()
                                }
                            } else {
                                {
                                    &&& r.0.stage matches ModsStage::Failed { error }
                                    &&& error matches ApplyError::HttpStatus { code: c }
                                    &&& c == code
                                    &&& r.1 is None
                                }
                            }
                        },
                        Err(cause) => {
                            &&& r.0.stage matches ModsStage::Failed { error }
                            &&& error matches ApplyError::Network { cause: c }
                            &&& c@ == cause@
                            &&& r.1 is None
                        },
                    },
                    _ => r.0.stage == self.stage && r.1 is None,
                },
                ModsStage::AwaitingBody => match event {
                    Event::BodySaved { result } => match result {
                        Ok(_) => {
                            &&& r.0.stage is AwaitingArchive
                            &&& r.1 matches Some(Action::ReadFile { path })
                            &&& path@ == temp_zip_name_spec()
                        },
                        Err(cause) => mods_failed_fs(r.0.stage, "save-download"@, cause@, r.1),
                    },
                    _ => r.0.stage == self.stage && r.1 is None,
                },
                ModsStage::AwaitingArchive => match event {
                    Event::FileRead { result } => match result {
                        Ok(bytes) => {
                            if !archive_readable(bytes@) {
                                {
                                    &&& r.0.stage matches ModsStage::Failed { error }
                                    &&& error is Parse
                                    &&& r.1 is None
                                }
                            } else if !has_root_dir(archive_contents(bytes@)) {
                                {
                                    &&& r.0.stage matches ModsStage::Failed { error }
                                    &&& error is Parse
                                    &&& r.1 is None
                                }
                            } else {
                                {
                                    &&& r.0.stage matches ModsStage::AwaitingStagingWrite { root }
                                    &&& root@ == root_dir_of(archive_contents(bytes@))
                                    &&& r.1 matches Some(Action::WriteTree { base, items })
                                    &&& base@ == "."@
                                    &&& items@.map_values(|a: ExtractAction| a@) == full_plan_spec(
                                        archive_contents(bytes@),
                                    )
                                }
                            }
                        },
                        Err(cause) => mods_failed_fs(r.0.stage, "read-archive"@, cause@, r.1),
                    },
                    _ => r.0.stage == self.stage && r.1 is None,
                },
                ModsStage::AwaitingStagingWrite { root } => match event {
                    Event::TreeWritten { result } => match result {
                        Ok(_) => {
                            &&& r.0.stage matches ModsStage::AwaitingTempRemove { root: r2 }
                            &&& r2 == root
                            &&& r.1 matches Some(Action::RemoveFile { path })
                            &&& path@ == temp_zip_name_spec()
                        },
                        Err(cause) => mods_failed_fs(r.0.stage, "write-tree"@, cause@, r.1),
                    },
                    _ => r.0.stage == self.stage && r.1 is None,
                },
                ModsStage::AwaitingTempRemove { root } => match event {
                    Event::FileRemoved { result } => match result {
                        Ok(_) => {
                            &&& r.0.stage matches ModsStage::AwaitingManagedRemove { root: r2 }
                            &&& r2 == root
                            &&& r.1 matches Some(Action::RemoveDir { path })
                            &&& path@ == managed_dir_path_spec(self.game_path@)
                        },
                        Err(cause) => mods_failed_fs(r.0.stage, "remove-file"@, cause@, r.1),
                    },
                    _ => r.0.stage == self.stage && r.1 is None,
                },
                ModsStage::AwaitingManagedRemove { root } => match event {
                    Event::DirRemoved { result, still_exists } => {
                        &&& r.0.stage matches ModsStage::AwaitingCopy { root: r2, warned }
                        &&& r2 == root
                        &&& warned == (result is Err && still_exists)
                        &&& r.1 matches Some(Action::CopyTree { from, to })
                        &&& from == root
                        &&& to@ == mods_dest_path_spec(self.game_path@)
                    },
                    _ => r.0.stage == self.stage && r.1 is None,
                },
                ModsStage::AwaitingCopy { root, warned } => match event {
                    Event::TreeCopied { result } => match result {
                        Ok(_) => {
                            &&& r.0.stage matches ModsStage::AwaitingStagingRemove { warned: w2 }
                            &&& w2 == warned
                            &&& r.1 matches Some(Action::RemoveDir { path })
                            &&& path == root
                        },
                        Err(cause) => mods_failed_fs(r.0.stage, "copy-tree"@, cause@, r.1),
                    },
                    _ => r.0.stage == self.stage && r.1 is None,
                },
                ModsStage::AwaitingStagingRemove { warned } => match event {
                    Event::DirRemoved { result, still_exists: _ } => match result {
                        Ok(_) => {
                            &&& r.0.stage matches ModsStage::AwaitingBatchWrite { warned: w2 }
                            &&& w2 == warned
                            &&& r.1 matches Some(Action::WriteFile { path, content })
                            &&& path@ == batch_file_path_spec(self.game_path@)
                            &&& content@ == batch_file_content_spec()
                        },
                        Err(cause) => mods_failed_fs(r.0.stage, "remove-dir"@, cause@, r.1),
                    },
                    _ => r.0.stage == self.stage && r.1 is None,
                },
                ModsStage::AwaitingBatchWrite { warned } => match event {
                    Event::FileWritten { result } => match result {
                        Ok(_) => {
                            &&& r.0.stage matches ModsStage::Completed { warned: w2 }
                            &&& w2 == warned
                            &&& r.1 is None
                        },
                        Err(cause) => mods_failed_fs(r.0.stage, "write-file"@, cause@, r.1),
                    },
                    _ => r.0.stage == self.stage && r.1 is None,
                },
                _ => r.0.stage == self.stage && r.1 is None,
            },
    {
        let ModsApply { pr_number, game_path, pulls, stage } = self;
        match (stage, event) {
            (ModsStage::AwaitingMarker, Event::MarkerChecked { exists }) => {
                if let Err(error) = validate_game_path(exists) {
                    let stage = ModsStage::Failed { error };
                    (ModsApply { pr_number, game_path, pulls, stage }, None)
                } else {
                    match resolve_mods(pr_number, &pulls) {
                        Ok(url) => (
                            ModsApply {
                                pr_number,
                                game_path,
                                pulls,
                                stage: ModsStage::AwaitingStatus,
                            },
                            Some(Action::HttpGet { url }),
                        ),
                        Err(error) => (
                            ModsApply {
                                pr_number,
                                game_path,
                                pulls,
                                stage: ModsStage::Failed { error },
                            },
                            None,
                        ),
                    }
                }
            },
            (ModsStage::AwaitingStatus, Event::GotStatus { result }) => match result {
                Ok(code) => match check_download_status(code) {
                    Ok(_) => (
                        ModsApply { pr_number, game_path, pulls, stage: ModsStage::AwaitingBody },
                        Some(Action::SaveBody { dest: temp_zip_name() }),
                    ),
                    Err(error) => (
                        ModsApply { pr_number, game_path, pulls, stage: ModsStage::Failed { error } },
                        None,
                    ),
                },
                Err(cause) => (
                    ModsApply {
                        pr_number,
                        game_path,
                        pulls,
                        stage: ModsStage::Failed { error: ApplyError::Network { cause } },
                    },
                    None,
                ),
            },
            (ModsStage::AwaitingBody, Event::BodySaved { result }) => match result {
                Ok(_) => (
                    ModsApply { pr_number, game_path, pulls, stage: ModsStage::AwaitingArchive },
                    Some(Action::ReadFile { path: temp_zip_name() }),
                ),
                Err(cause) => (
                    ModsApply {
                        pr_number,
                        game_path,
                        pulls,
                        stage: ModsStage::Failed {
                            error: ApplyError::Filesystem {
                                operation: String::from_str("save-download"),
                                cause,
                            },
                        },
                    },
                    None,
                ),
            },
            (ModsStage::AwaitingArchive, Event::FileRead { result }) => match result {
                Ok(bytes) => match read_archive_entries(&bytes) {
                    Ok(entries) => match plan_full_extract(&entries) {
                        Ok((root, items)) => (
                            ModsApply {
                                pr_number,
                                game_path,
                                pulls,
                                stage: ModsStage::AwaitingStagingWrite { root },
                            },
                            Some(Action::WriteTree { base: String::from_str("."), items }),
                        ),
                        Err(_) => (
                            ModsApply {
                                pr_number,
                                game_path,
                                pulls,
                                stage: ModsStage::Failed {
                                    error: ApplyError::Parse {
                                        cause: String::from_str(
                                            "the archive has no root directory entry",
                                        ),
                                    },
                                },
                            },
                            None,
                        ),
                    },
                    Err(_) => (
                        ModsApply {
                            pr_number,
                            game_path,
                            pulls,
                            stage: ModsStage::Failed {
                                error: ApplyError::Parse {
                                    cause: String::from_str("the download is not a readable archive"),
                                },
                            },
                        },
                        None,
                    ),
                },
                Err(cause) => (
                    ModsApply {
                        pr_number,
                        game_path,
                        pulls,
                        stage: ModsStage::Failed {
                            error: ApplyError::Filesystem {
                                operation: String::from_str("read-archive"),
                                cause,
                            },
                        },
                    },
                    None,
                ),
            },
            (ModsStage::AwaitingStagingWrite { root }, Event::TreeWritten { result }) => match result {
                Ok(_) => (
                    ModsApply {
                        pr_number,
                        game_path,
                        pulls,
                        stage: ModsStage::AwaitingTempRemove { root },
                    },
                    Some(Action::RemoveFile { path: temp_zip_name() }),
                ),
                Err(cause) => (
                    ModsApply {
                        pr_number,
                        game_path,
                        pulls,
                        stage: ModsStage::Failed {
                            error: ApplyError::Filesystem {
                                operation: String::from_str("write-tree"),
                                cause,
                            },
                        },
                    },
                    None,
                ),
            },
            (ModsStage::AwaitingTempRemove { root }, Event::FileRemoved { result }) => match result {
                Ok(_) => {
                    let path = managed_dir_path(&game_path);
                    (
                        ModsApply {
                            pr_number,
                            game_path,
                            pulls,
                            stage: ModsStage::AwaitingManagedRemove { root },
                        },
                        Some(Action::RemoveDir { path }),
                    )
                },
                Err(cause) => (
                    ModsApply {
                        pr_number,
                        game_path,
                        pulls,
                        stage: ModsStage::Failed {
                            error: ApplyError::Filesystem {
                                operation: String::from_str("remove-file"),
                                cause,
                            },
                        },
                    },
                    None,
                ),
            },
            (ModsStage::AwaitingManagedRemove { root }, Event::DirRemoved { result, still_exists }) => {
                let warned = result.is_err() && still_exists;
                let to = mods_dest_path(&game_path);
                let from = root.clone();
                (
                    ModsApply {
                        pr_number,
                        game_path,
                        pulls,
                        stage: ModsStage::AwaitingCopy { root, warned },
                    },
                    Some(Action::CopyTree { from, to }),
                )
            },
            (ModsStage::AwaitingCopy { root, warned }, Event::TreeCopied { result }) => match result {
                Ok(_) => (
                    ModsApply {
                        pr_number,
                        game_path,
                        pulls,
                        stage: ModsStage::AwaitingStagingRemove { warned },
                    },
                    Some(Action::RemoveDir { path: root }),
                ),
                Err(cause) => (
                    ModsApply {
                        pr_number,
                        game_path,
                        pulls,
                        stage: ModsStage::Failed {
                            error: ApplyError::Filesystem {
                                operation: String::from_str("copy-tree"),
                                cause,
                            },
                        },
                    },
                    None,
                ),
            },
            (ModsStage::AwaitingStagingRemove { warned }, Event::DirRemoved { result, still_exists: _ }) => match result {
                Ok(_) => {
                    let path = batch_file_path(&game_path);
                    let content = batch_file_content();
                    (
                        ModsApply {
                            pr_number,
                            game_path,
                            pulls,
                            stage: ModsStage::AwaitingBatchWrite { warned },
                        },
                        Some(Action::WriteFile { path, content }),
                    )
                },
                Err(cause) => (
                    ModsApply {
                        pr_number,
                        game_path,
                        pulls,
                        stage: ModsStage::Failed {
                            error: ApplyError::Filesystem {
                                operation: String::from_str("remove-dir"),
                                cause,
                            },
                        },
                    },
                    None,
                ),
            },
            (ModsStage::AwaitingBatchWrite { warned }, Event::FileWritten { result }) => match result {
                Ok(_) => (
                    ModsApply {
                        pr_number,
                        game_path,
                        pulls,
                        stage: ModsStage::Completed { warned },
                    },
                    None,
                ),
                Err(cause) => (
                    ModsApply {
                        pr_number,
                        game_path,
                        pulls,
                        stage: ModsStage::Failed {
                            error: ApplyError::Filesystem {
                                operation: String::from_str("write-file"),
                                cause,
                            },
                        },
                    },
                    None,
                ),
            },
            (st, _) => (ModsApply { pr_number, game_path, pulls, stage: st }, None),
        }
    }
}

} // verus!
