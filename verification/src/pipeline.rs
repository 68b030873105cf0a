//! The apply pipeline's driver protocol. The pipeline itself is a state
//! machine: each step consumes the outcome of the previous action and
//! decides the next one. The machine never performs I/O; a driver
//! executes each [`Action`] against the network and the file system and
//! hands the outcome back as an [`Event`]. One apply operation runs one
//! machine to a terminal stage; operations must not run concurrently,
//! since the temporary file and staging names are fixed.

use vstd::prelude::*;

use crate::errors::FetchError;
use crate::extract::ExtractAction;
use crate::model::{Artifact, WorkflowRun};

verus! {

/// What the driver is asked to do next. Paths are taken relative to the
/// driver's working directory unless they were built from the game path.
pub enum Action {
    /// Report whether a file exists at `path`.
    CheckMarker { path: String },
    /// Fetch and parse the workflow-run listing at `url`.
    FetchRuns { url: String },
    /// Fetch and parse the artifact listing at `url`.
    FetchArtifacts { url: String },
    /// Send a GET request to `url` and report the response status
    /// without writing anything.
    HttpGet { url: String },
    /// Stream the body of the response obtained by the preceding
    /// `HttpGet` into the file at `dest`.
    SaveBody { dest: String },
    /// Read the whole file at `path`.
    ReadFile { path: String },
    /// Perform the planned extraction writes under the directory `base`,
    /// creating `base` itself first.
    WriteTree { base: String, items: Vec<ExtractAction> },
    /// Delete the file at `path`.
    RemoveFile { path: String },
    /// Delete the directory at `path` with everything under it.
    RemoveDir { path: String },
    /// Recursively copy the tree at `from` into `to`, overwriting
    /// same-named files.
    CopyTree { from: String, to: String },
    /// Write `content` as the file at `path`, replacing it.
    WriteFile { path: String, content: String },
}

/// The outcome of one action, handed back to the machine. Failure
/// causes are free-form driver messages.
pub enum Event {
    /// Outcome of `CheckMarker`.
    MarkerChecked { exists: bool },
    /// Outcome of `FetchRuns`.
    RunsFetched { result: Result<Vec<WorkflowRun>, FetchError> },
    /// Outcome of `FetchArtifacts`.
    ArtifactsFetched { result: Result<Vec<Artifact>, FetchError> },
    /// Outcome of `HttpGet`: the status, or a transport failure.
    GotStatus { result: Result<u16, String> },
    /// Outcome of `SaveBody`.
    BodySaved { result: Result<(), String> },
    /// Outcome of `ReadFile`.
    FileRead { result: Result<Vec<u8>, String> },
    /// Outcome of `WriteTree`.
    TreeWritten { result: Result<(), String> },
    /// Outcome of `RemoveFile`.
    FileRemoved { result: Result<(), String> },
    /// Outcome of `RemoveDir`; `still_exists` reports whether the
    /// directory is present after the attempt.
    DirRemoved { result: Result<(), String>, still_exists: bool },
    /// Outcome of `CopyTree`.
    TreeCopied { result: Result<(), String> },
    /// Outcome of `WriteFile`.
    FileWritten { result: Result<(), String> },
}

/// Whether performing the action changes anything on disk. Every
/// failure of path validation, artifact resolution or the download
/// status check happens before the machine has emitted any such action:
/// those aborts leave the file system untouched.
pub open spec fn action_mutates_fs(a: Action) -> bool {
    match a {
        Action::CheckMarker { .. } => false,
        Action::FetchRuns { .. } => false,
        Action::FetchArtifacts { .. } => false,
        Action::HttpGet { .. } => false,
        Action::SaveBody { .. } => true,
        Action::ReadFile { .. } => false,
        Action::WriteTree { .. } => true,
        Action::RemoveFile { .. } => true,
        Action::RemoveDir { .. } => true,
        Action::CopyTree { .. } => true,
        Action::WriteFile { .. } => true,
    }
}

} // verus!
