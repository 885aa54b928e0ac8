//! Error taxonomy of the library: parse failures, transport failures,
//! reference validation failures, the not-yet-ready condition and local I/O
//! failures reported by the caller's shell.

use vstd::prelude::*;

verus! {

/// Failure of one of the XML document parsers.
#[derive(Debug, Clone, Copy, PartialEq, Eq, Structural)]
pub enum ParseError {
    /// The document is not well-formed XML; `position` is the byte offset at
    /// which the reader detected the fault.
    Malformed { position: u64 },
    /// The one required field of a status document (the job identifier) was
    /// still empty at end of document.
    MissingJobId,
}

/// The caller handed a job or results reference that cannot be resolved
/// against the configured endpoint.
#[derive(Debug, Clone, Copy, PartialEq, Eq, Structural)]
pub enum ValidationFault {
    /// A fully-qualified job URL that does not lie under the endpoint.
    JobUrlOutsideEndpoint,
    /// A results location that does not lie under the endpoint.
    ResultsUrlOutsideEndpoint,
    /// A manifest download location that does not lie under the endpoint.
    DownloadUrlOutsideEndpoint,
}

/// Any failure of a lifecycle operation.
#[derive(Debug, Clone)]
pub enum NsgError {
    /// A non-2xx HTTP response; carries the status and the raw response body
    /// where one was read.
    Transport { status: u16, body: String },
    /// A response body that could not be decoded.
    Parse(ParseError),
    /// An unresolvable job or results reference.
    Validation(ValidationFault),
    /// The job exists but has no results location yet; an expected state, not
    /// a fault.
    ResultsNotReady,
    /// A local file or directory operation failed; reported by the caller's
    /// shell, which owns the filesystem.
    Io { detail: String },
}

impl ParseError {
    /// A human-readable account of the failure.
    pub fn describe(&self) -> (s: String)
        ensures
            s@.len() > 0,
    {
        match self {
            ParseError::Malformed { position: _ } => {
                let s = "XML parse error in server response".to_owned();
                proof {
                    reveal_strlit("XML parse error in server response");
                }
                s
            },
            ParseError::MissingJobId => {
                let s = "Failed to parse job status: missing job ID".to_owned();
                proof {
                    reveal_strlit("Failed to parse job status: missing job ID");
                }
                s
            },
        }
    }
}

impl NsgError {
    /// A human-readable account of the failure.
    pub fn describe(&self) -> (s: String)
        ensures
            s@.len() > 0,
    {
        match self {
            NsgError::Transport { status: _, body: _ } => {
                let s = "Request failed with an HTTP error status".to_owned();
                proof {
                    reveal_strlit("Request failed with an HTTP error status");
                }
                s
            },
            NsgError::Parse(p) => p.describe(),
            NsgError::Validation(ValidationFault::JobUrlOutsideEndpoint) => {
                let s = "Invalid job URL".to_owned();
                proof {
                    reveal_strlit("Invalid job URL");
                }
                s
            },
            NsgError::Validation(ValidationFault::ResultsUrlOutsideEndpoint) => {
                let s = "Invalid results URL".to_owned();
                proof {
                    reveal_strlit("Invalid results URL");
                }
                s
            },
            NsgError::Validation(ValidationFault::DownloadUrlOutsideEndpoint) => {
                let s = "Invalid download URL".to_owned();
                proof {
                    reveal_strlit("Invalid download URL");
                }
                s
            },
            NsgError::ResultsNotReady => {
                let s = "Job has no results URL - may not be completed yet".to_owned();
                proof {
                    reveal_strlit("Job has no results URL - may not be completed yet");
                }
                s
            },
            NsgError::Io { detail: _ } => {
                let s = "Local file operation failed".to_owned();
                proof {
                    reveal_strlit("Local file operation failed");
                }
                s
            },
        }
    }
}

} // verus!
