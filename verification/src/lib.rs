//! Client core for a personal-weather-station service: query building,
//! credential extraction and caching, observation decoding, and the
//! bounded-retry polling policy.

pub mod client;
pub mod config;
pub mod codec;
pub mod cred;
pub mod encode;
pub mod json;
pub mod poll;
pub mod num;
pub mod obs;
pub mod publish;
pub mod query;

use vstd::prelude::*;
use vstd::string::StringExecFns;

verus! {

/// The failures of the library: a bootstrap page without a credential, a
/// rejected or failed request, and a payload that does not decode.
#[derive(Debug)]
pub enum Error {
    /// The bootstrap page carries no `apiKey=` marker.
    ApiKeyNotFound,
    /// A credential was rejected by the upstream API.
    ApiKeyInvalid,
    /// The upstream API answered with a status other than success or
    /// no-content.
    HttpStatus(u16),
    /// The request itself failed: name resolution, connection, timeout.
    Transport(String),
    /// The response body does not decode as an observation payload.
    PayloadInvalid(String),
}

/// Error raised when a textual unit flag is not recognized.
#[derive(Debug)]
pub struct ParseUnitError;

impl ParseUnitError {
    /// Human-readable description of the error.
    pub fn to_string(&self) -> (r: String)
        ensures
            r@ == "Invalid unit value"@,
    {
        String::from_str("Invalid unit value")
    }
}

} // verus!
