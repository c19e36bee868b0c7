//! Construction errors.

use vstd::prelude::*;

verus! {

/// The tag that every construction error carries, for grouping diagnostics.
pub const HTTP_CLIENT: &'static str = "HTTP client";

/// The two kinds of construction error.
#[derive(Clone, Copy, Debug, PartialEq, Eq, Structural)]
pub enum ErrorKind {
    /// A setting was malformed.
    Configuration,
    /// The transport could not be set up from settings that were well formed.
    Transport,
}

/// Why no client was built.
#[derive(Debug)]
pub enum ClientError {
    /// The default headers hold `names` header names, more than
    /// `MAX_DEFAULT_HEADERS`.
    TooManyHeaders { names: usize },
    /// The proxy URL does not parse; `source` is the parse error.
    InvalidProxy { source: reqwest::Error },
    /// The transport could not be set up; `source` is what it reported.
    Transport { source: reqwest::Error },
}

impl ClientError {
    /// The kind of this error.
    pub open spec fn spec_kind(&self) -> ErrorKind {
        match self {
            ClientError::TooManyHeaders { .. } => ErrorKind::Configuration,
            ClientError::InvalidProxy { .. } => ErrorKind::Configuration,
            ClientError::Transport { .. } => ErrorKind::Transport,
        }
    }

    /// The kind of this error.
    #[verifier::when_used_as_spec(spec_kind)]
    pub fn kind(&self) -> (kind: ErrorKind)
        ensures
            kind == self.spec_kind(),
    {
        match self {
            ClientError::TooManyHeaders { .. } => ErrorKind::Configuration,
            ClientError::InvalidProxy { .. } => ErrorKind::Configuration,
            ClientError::Transport { .. } => ErrorKind::Transport,
        }
    }

    /// The tag of the component that failed: always `HTTP_CLIENT`.
    pub fn catalog(&self) -> (tag: &'static str)
        ensures
            tag == HTTP_CLIENT,
    {
        HTTP_CLIENT
    }
}

/// Classifies the cause of a rejected proxy URL.
pub fn map_client_error(e: reqwest::Error) -> (err: ClientError)
    ensures
        err == (ClientError::InvalidProxy { source: e }),
{
    ClientError::InvalidProxy { source: e }
}

/// Classifies the cause of a transport that could not be built.
pub fn map_transport_error(e: reqwest::Error) -> (err: ClientError)
    ensures
        err == (ClientError::Transport { source: e }),
{
    ClientError::Transport { source: e }
}

} // verus!
