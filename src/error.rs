//! Errors reported by the client.
use vstd::prelude::*;

verus! {

/// reqwest's error type, carried unopened inside `ApiError::Http`.
#[verifier::external_type_specification]
#[verifier::external_body]
pub struct ExReqwestError(reqwest::Error);

/// Everything that can go wrong when talking to the mod database.
#[derive(Debug)]
pub enum ApiError {
    /// Network failure, non-success status or a response of the wrong shape.
    Http(reqwest::Error),
    /// A logical failure detected by the client, with a message.
    Unexpected(String),
}

impl ApiError {
    /// The error for a logical failure described by `message`.
    pub fn unexpected(message: &str) -> (r: ApiError)
        ensures
            r matches ApiError::Unexpected(m) && m@ == message@,
    {
        ApiError::Unexpected(String::from_str(message))
    }
}

} // verus!
