use vstd::prelude::*;
use reqwest::Error as HttpError;
use serde_json::Error as JsonDecodeError;

verus! {

/// `rusoto_core::credential::CredentialsError`, carried through as it is.
#[verifier::external_type_specification]
#[verifier::external_body]
pub struct ExCredentialsError(rusoto_core::credential::CredentialsError);

/// `reqwest::Error`, carried through as it is.
#[verifier::external_type_specification]
#[verifier::external_body]
pub struct ExReqwestError(HttpError);

/// `reqwest::header::ToStrError`, carried through as it is.
#[verifier::external_type_specification]
#[verifier::external_body]
pub struct ExToStrError(reqwest::header::ToStrError);

/// `url::ParseError`, carried through as it is.
#[verifier::external_type_specification]
#[verifier::external_body]
pub struct ExUrlParseError(url::ParseError);

/// `std::num::ParseIntError`, carried through as it is.
#[verifier::external_type_specification]
#[verifier::external_body]
pub struct ExParseIntError(std::num::ParseIntError);

/// `serde_json::Error`, carried through as it is.
#[verifier::external_type_specification]
#[verifier::external_body]
pub struct ExJsonError(JsonDecodeError);

/// Error type for this library
#[derive(Debug)]
pub enum Error {
    /// Errors related to retrieving AWS credentials
    CredentialsError(rusoto_core::credential::CredentialsError),
    /// Errors related to API HTTP calls
    ReqwestError(HttpError),
    /// Errors parsing headers
    HeadersErrors(reqwest::header::ToStrError),
    /// Errors related to URL parsing
    UrlParseError(url::ParseError),
    /// Response from Vault was unexpected
    InvalidVaultResponse(String),
    /// Nomad Node not found
    NomadNodeNotFound { instance_id: String },
    /// Errors parsing Numbers
    ParseIntError(std::num::ParseIntError),
    /// Errors deserializing JSON
    JsonError(JsonDecodeError),
}

impl From<rusoto_core::credential::CredentialsError> for Error {
    fn from(error: rusoto_core::credential::CredentialsError) -> (r: Self) {
        Error::CredentialsError(error)
    }
}

impl vstd::std_specs::convert::FromSpecImpl<rusoto_core::credential::CredentialsError> for Error {
    open spec fn obeys_from_spec() -> bool {
        true
    }

    open spec fn from_spec(error: rusoto_core::credential::CredentialsError) -> Self {
        Error::CredentialsError(error)
    }
}

impl From<HttpError> for Error {
    fn from(error: HttpError) -> (r: Self) {
        Error::ReqwestError(error)
    }
}

impl vstd::std_specs::convert::FromSpecImpl<HttpError> for Error {
    open spec fn obeys_from_spec() -> bool {
        true
    }

    open spec fn from_spec(error: HttpError) -> Self {
        Error::ReqwestError(error)
    }
}

impl From<reqwest::header::ToStrError> for Error {
    fn from(error: reqwest::header::ToStrError) -> (r: Self) {
        Error::HeadersErrors(error)
    }
}

impl vstd::std_specs::convert::FromSpecImpl<reqwest::header::ToStrError> for Error {
    open spec fn obeys_from_spec() -> bool {
        true
    }

    open spec fn from_spec(error: reqwest::header::ToStrError) -> Self {
        Error::HeadersErrors(error)
    }
}

impl From<std::num::ParseIntError> for Error {
    fn from(error: std::num::ParseIntError) -> (r: Self) {
        Error::ParseIntError(error)
    }
}

impl vstd::std_specs::convert::FromSpecImpl<std::num::ParseIntError> for Error {
    open spec fn obeys_from_spec() -> bool {
        true
    }

    open spec fn from_spec(error: std::num::ParseIntError) -> Self {
        Error::ParseIntError(error)
    }
}

impl From<JsonDecodeError> for Error {
    fn from(error: JsonDecodeError) -> (r: Self) {
        Error::JsonError(error)
    }
}

impl vstd::std_specs::convert::FromSpecImpl<JsonDecodeError> for Error {
    open spec fn obeys_from_spec() -> bool {
        true
    }

    open spec fn from_spec(error: JsonDecodeError) -> Self {
        Error::JsonError(error)
    }
}

impl From<url::ParseError> for Error {
    fn from(error: url::ParseError) -> (r: Self) {
        Error::UrlParseError(error)
    }
}

impl vstd::std_specs::convert::FromSpecImpl<url::ParseError> for Error {
    open spec fn obeys_from_spec() -> bool {
        true
    }

    open spec fn from_spec(error: url::ParseError) -> Self {
        Error::UrlParseError(error)
    }
}

} // verus!
