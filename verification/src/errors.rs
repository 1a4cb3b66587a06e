//! The failures that the library reports.

use vstd::prelude::*;

use crate::text::{begins_with, joined};

verus! {

/// The error of the JSON codec; nothing is known of what it holds.
#[verifier::external_type_specification]
#[verifier::external_body]
pub struct ExJsonError(serde_json::Error);

/// The error of the HTTP transport; nothing is known of what it holds.
#[verifier::external_type_specification]
#[verifier::external_body]
pub struct ExTransportError(reqwest::Error);

/// Why a value could not be built or a request could not be completed.
#[derive(Debug)]
pub enum ApiError {
    /// A value was rejected before any request was made.
    BuildFailed(&'static str),
    /// The transport could not complete the round trip.
    RequestError(reqwest::Error),
    /// A JSON body was malformed or had an unexpected shape.
    SerdeJsonError(serde_json::Error),
}

impl ApiError {
    /// The error is a rejected build with the given reason.
    pub open spec fn is_build_failure(self, reason: Seq<char>) -> bool {
        self matches ApiError::BuildFailed(text) && text@ == reason
    }

    /// The human-readable message of the error: a label for its kind, then the
    /// reason. For a transport or codec failure the reason is the message of the
    /// underlying error.
    pub fn to_string(&self) -> (text: String)
        ensures
            match self {
                ApiError::BuildFailed(reason) => text@ == "Building failed: "@ + reason@,
                ApiError::RequestError(_) => begins_with(text@, "Request failed: "@),
                ApiError::SerdeJsonError(_) => begins_with(text@, "Serde failed: "@),
            },
    {
        match self {
            ApiError::BuildFailed(reason) => joined("Building failed: ", *reason),
            ApiError::RequestError(cause) => {
                let detail = cause.to_string();
                joined("Request failed: ", detail.as_str())
            },
            ApiError::SerdeJsonError(cause) => {
                let detail = cause.to_string();
                joined("Serde failed: ", detail.as_str())
            },
        }
    }
}

impl From<reqwest::Error> for ApiError {
    fn from(cause: reqwest::Error) -> (error: ApiError) {
        ApiError::RequestError(cause)
    }
}

impl vstd::std_specs::convert::FromSpecImpl<reqwest::Error> for ApiError {
    open spec fn obeys_from_spec() -> bool {
        true
    }

    open spec fn from_spec(cause: reqwest::Error) -> ApiError {
        ApiError::RequestError(cause)
    }
}

impl From<serde_json::Error> for ApiError {
    fn from(cause: serde_json::Error) -> (error: ApiError) {
        ApiError::SerdeJsonError(cause)
    }
}

impl vstd::std_specs::convert::FromSpecImpl<serde_json::Error> for ApiError {
    open spec fn obeys_from_spec() -> bool {
        true
    }

    open spec fn from_spec(cause: serde_json::Error) -> ApiError {
        ApiError::SerdeJsonError(cause)
    }
}

} // verus!
