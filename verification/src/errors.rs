//! Typed failures of the apply pipeline. Every failure is surfaced as a
//! value; no function of this library panics on any allowed input.

use vstd::prelude::*;

use crate::strutil::{dec_rep, u64_to_decimal};

verus! {

/// Why an apply operation failed. Each variant corresponds to one way a
/// pipeline stage can go wrong; a failed stage aborts the operation.
#[derive(Clone, Debug)]
pub enum ApplyError {
    /// An HTTP request could not be carried out at the transport level.
    Network { cause: String },
    /// A download answered with a non-success HTTP status; nothing was
    /// written to disk.
    HttpStatus { code: u16 },
    /// A response body or a downloaded archive was not well-formed.
    Parse { cause: String },
    /// No pull request, workflow run or artifact matched the request.
    NotFound,
    /// The given directory is not a valid game installation.
    InvalidGamePath,
    /// A file-system operation failed.
    Filesystem { operation: String, cause: String },
}

impl ApplyError {
    /// A line describing the failure, for display to the user.
    pub fn message(&self) -> (s: String)
        ensures
            match self {
                ApplyError::Network { cause } => s@ == "network failure: "@ + cause@,
                ApplyError::HttpStatus { code } => s@ == "download refused with HTTP status "@
                    + dec_rep(*code as int),
                ApplyError::Parse { cause } => s@ == "malformed data: "@ + cause@,
                ApplyError::NotFound => s@ == "no matching pull request build was found"@,
                ApplyError::InvalidGamePath => s@ == "not a valid game installation"@,
                ApplyError::Filesystem { operation, cause } => s@ == "file-system operation "@
                    + operation@ + " failed: "@ + cause@,
            },
    {
        match self {
            ApplyError::Network { cause } => String::from_str("network failure: ").concat(
                cause.as_str(),
            ),
            ApplyError::HttpStatus { code } => String::from_str(
                "download refused with HTTP status ",
            ).concat(u64_to_decimal(*code as u64).as_str()),
            ApplyError::Parse { cause } => String::from_str("malformed data: ").concat(
                cause.as_str(),
            ),
            ApplyError::NotFound => String::from_str("no matching pull request build was found"),
            ApplyError::InvalidGamePath => String::from_str("not a valid game installation"),
            ApplyError::Filesystem { operation, cause } => String::from_str(
                "file-system operation ",
            ).concat(operation.as_str()).concat(" failed: ").concat(cause.as_str()),
        }
    }
}

/// Failure of one remote fetch, as reported back by the driver that
/// performs the HTTP request and parses the response.
#[derive(Clone, Debug)]
pub enum FetchError {
    /// The request could not be carried out at the transport level.
    Network(String),
    /// The response body was not of the expected shape.
    Parse(String),
}

} // verus!
