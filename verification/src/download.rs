//! The downloader's one decision: whether a response status permits
//! writing the body to disk. The pipeline asks this before it ever emits
//! the action that saves the body, so a non-success status leaves the
//! destination untouched.

use vstd::prelude::*;

use crate::errors::ApplyError;

verus! {

/// Success statuses of HTTP: the 2xx range.
pub open spec fn status_is_success(code: int) -> bool {
    200 <= code < 300
}

/// Accepts exactly the success statuses; any other status yields the
/// typed failure carrying that status, and nothing is written.
pub fn check_download_status(code: u16) -> (r: Result<(), ApplyError>)
    ensures
        match r {
            Ok(_) => status_is_success(code as int),
            Err(e) => e matches ApplyError::HttpStatus { code: c } && c == code
                && !status_is_success(code as int),
        },
{
    if 200 <= code && code < 300 {
        Ok(())
    } else {
        Err(ApplyError::HttpStatus { code })
    }
}

/// The fixed name of the temporary archive that a download is saved
/// under, inside the working directory. The name is shared between
/// invocations, which is why one apply operation must finish before the
/// next starts.
pub fn temp_zip_name() -> (s: String)
    ensures
        s@ == temp_zip_name_spec(),
{
    String::from_str("ns-dev-test-helper-temp-pr-files.zip")
}

/// The view of the fixed temporary archive name.
pub open spec fn temp_zip_name_spec() -> Seq<char> {
    "ns-dev-test-helper-temp-pr-files.zip"@
}

} // verus!
