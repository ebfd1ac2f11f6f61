//! Request building for the NetEase Cloud Music web API: query parameters,
//! request options and the payload of each endpoint.
use vstd::prelude::*;

pub mod api;
pub mod error;
pub mod json;
pub mod laws;
pub mod query;
pub mod text;

pub use api::{create_client, ApiCall, ApiClient};
pub use error::{NcmError, Result};
pub use json::{JsonValue, JsonView};
pub use query::{CryptoType, Params, Query, RequestOption};

verus! {

} // verus!
