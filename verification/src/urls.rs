//! Construction of the download and API URLs that the locators produce:
//! the source-archive URL of a branch, the workflow-run listing, a run's
//! artifact listing, and the redirect-service URL of one artifact.

use vstd::prelude::*;

use crate::strutil::{dec_rep, u64_to_decimal};

verus! {

/// The source-archive URL of a pull request's head branch.
pub open spec fn mods_archive_url_spec(full_name: Seq<char>, head_ref: Seq<char>) -> Seq<char> {
    "https://github.com/"@ + full_name + "/archive/refs/heads/"@ + head_ref + ".zip"@
}

/// The API URL listing the launcher repository's workflow runs.
pub open spec fn runs_api_url_spec() -> Seq<char> {
    "https://api.github.com/repos/R2Northstar/NorthstarLauncher/actions/runs"@
}

/// The API URL listing the artifacts of one workflow run.
pub open spec fn artifacts_api_url_spec(run_id: int) -> Seq<char> {
    "https://api.github.com/repos/R2Northstar/NorthstarLauncher/actions/runs/"@ + dec_rep(run_id)
        + "/artifacts"@
}

/// The redirect-service URL that serves one artifact as a zip archive.
pub open spec fn artifact_download_url_spec(artifact_id: int) -> Seq<char> {
    "https://nightly.link/R2Northstar/NorthstarLauncher/actions/artifacts/"@ + dec_rep(artifact_id)
        + ".zip"@
}

/// Builds the source-archive URL for a head branch of a repository.
pub fn mods_archive_url(full_name: &String, head_ref: &String) -> (url: String)
    ensures
        url@ == mods_archive_url_spec(full_name@, head_ref@),
{
    String::from_str("https://github.com/").concat(full_name.as_str()).concat(
        "/archive/refs/heads/",
    ).concat(head_ref.as_str()).concat(".zip")
}

/// The workflow-run listing URL.
pub fn runs_api_url() -> (url: String)
    ensures
        url@ == runs_api_url_spec(),
{
    String::from_str("https://api.github.com/repos/R2Northstar/NorthstarLauncher/actions/runs")
}

/// Builds the artifact listing URL of the workflow run with the given id.
pub fn artifacts_api_url(run_id: u64) -> (url: String)
    ensures
        url@ == artifacts_api_url_spec(run_id as int),
{
    String::from_str("https://api.github.com/repos/R2Northstar/NorthstarLauncher/actions/runs/")
        .concat(u64_to_decimal(run_id).as_str()).concat("/artifacts")
}

/// Builds the download URL of the artifact with the given id.
pub fn artifact_download_url(artifact_id: u64) -> (url: String)
    ensures
        url@ == artifact_download_url_spec(artifact_id as int),
{
    String::from_str("https://nightly.link/R2Northstar/NorthstarLauncher/actions/artifacts/")
        .concat(u64_to_decimal(artifact_id).as_str()).concat(".zip")
}

} // verus!
