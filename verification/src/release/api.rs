//! What the remote release catalog answers: a release descriptor, a build
//! number, or a failure sorted by cause.

use vstd::prelude::*;

verus! {

/// `isahc::Error`: why a request never got an answer. It is carried as it
/// came; nothing here looks inside it.
#[verifier::external_type_specification]
#[verifier::external_body]
pub struct ExTransportError(isahc::Error);

/// `isahc::http::StatusCode`: the status of an answer. It is carried as it
/// came; nothing here looks inside it.
#[verifier::external_type_specification]
#[verifier::external_body]
pub struct ExStatusCode(isahc::http::StatusCode);

/// Why the catalog gave no usable answer.
#[derive(Debug)]
pub enum ApiError {
    /// The request failed in transport.
    Get(isahc::Error),
    /// The catalog answered with a status that is not a success.
    Status(isahc::http::StatusCode),
    /// The catalog answered, but the answer could not be used.
    Other(String),
}

/// A release as the catalog describes it.
#[derive(Debug)]
pub struct Release {
    pub version: String,
    pub arch: String,
    pub url: String,
    /// The expected digest of the image, in hexadecimal.
    pub sha_sum: String,
}

} // verus!
