//! The errors of the library.
use vstd::prelude::*;

verus! {

/// Declares `reqwest::Error`, the failure of an HTTP exchange, so that an
/// error can carry one; nothing is assumed about its contents.
#[verifier::external_type_specification]
#[verifier::external_body]
pub struct ExReqwestError(reqwest::Error);

/// Declares `serde_json::Error`, the failure of a JSON (de)serialisation,
/// so that an error can carry one; nothing is assumed about its contents.
#[verifier::external_type_specification]
#[verifier::external_body]
pub struct ExSerdeJsonError(serde_json::Error);

/// Everything that can go wrong in a call.
#[derive(Debug)]
pub enum NcmError {
    /// The HTTP exchange failed.
    Http(reqwest::Error),
    /// The service answered with an error code.
    Api { code: i64, msg: String },
    /// Encrypting or decrypting a body failed.
    Crypto(String),
    /// Serialising or parsing JSON failed.
    Json(serde_json::Error),
    /// Any other failure.
    Unknown(String),
}

/// The result of a call.
pub type Result<T> = core::result::Result<T, NcmError>;

} // verus!
