//! The error taxonomy of the library. Every fatal condition of a top-level
//! operation is one of these variants; carriers of context (url, status, raw
//! body) are kept so a caller can diagnose a failure.
use vstd::prelude::*;

verus! {

/// A fatal outcome of an operation. `NotInitialized` is a read of the token
/// store before any write; `TransportFailure` is a network or non-success
/// HTTP result; `MalformedResponse` is a response body without the expected
/// shape; `UnsupportedPostType` rejects a submission of a kind the pipeline
/// does not handle.
#[derive(Debug, Clone, PartialEq, Eq)]
pub enum ApiError {
    NotInitialized,
    TransportFailure { url: String, status: u32, body: String },
    MalformedResponse { context: String },
    UnsupportedPostType,
}

impl ApiError {
    /// A short label of the variant, for callers that report failures.
    pub fn label(&self) -> (r: &'static str)
        ensures
            match self {
                ApiError::NotInitialized => r@ == "not initialized"@,
                ApiError::TransportFailure { .. } => r@ == "transport failure"@,
                ApiError::MalformedResponse { .. } => r@ == "malformed response"@,
                ApiError::UnsupportedPostType => r@ == "unsupported post type"@,
            },
    {
        match self {
            ApiError::NotInitialized => "not initialized",
            ApiError::TransportFailure { .. } => "transport failure",
            ApiError::MalformedResponse { .. } => "malformed response",
            ApiError::UnsupportedPostType => "unsupported post type",
        }
    }
}

} // verus!
