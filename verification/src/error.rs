//! The one error type of the library.

use vstd::prelude::*;

verus! {

/// `serde_json::Error`: why a text is not JSON. Carried, never inspected.
#[verifier::external_type_specification]
#[verifier::external_body]
pub struct ExJsonError(serde_json::Error);

/// `http::uri::InvalidUri`: why a text is not a URI. Carried, never inspected.
#[verifier::external_type_specification]
#[verifier::external_body]
pub struct ExInvalidUri(http::uri::InvalidUri);

/// `std::fmt::Error`: a failed write into a text buffer.
#[verifier::external_type_specification]
#[verifier::external_body]
pub struct ExFmtError(std::fmt::Error);

/// `std::io::Error`: a failed read or write.
#[verifier::external_type_specification]
#[verifier::external_body]
pub struct ExIoError(std::io::Error);

/// Everything that can end a request. No kind is retried or recovered from
/// here: each one is handed to the caller as it is.
#[derive(Debug)]
pub enum DarkskyError {
    /// A JSON value does not have the shape of a forecast: what was expected,
    /// and the value found in its place.
    Decode(&'static str, serde_json::Value),
    /// Writing into a text buffer failed.
    Fmt(std::fmt::Error),
    /// The response body is not JSON.
    Json(serde_json::Error),
    /// Reading the response failed.
    Io(std::io::Error),
    /// The HTTP client could not complete the exchange; its own account of why.
    Transport(String),
    /// The request URL is not a URI.
    Uri(http::uri::InvalidUri),
}

impl From<std::fmt::Error> for DarkskyError {
    fn from(err: std::fmt::Error) -> (r: DarkskyError) {
        DarkskyError::Fmt(err)
    }
}

impl vstd::std_specs::convert::FromSpecImpl<std::fmt::Error> for DarkskyError {
    open spec fn obeys_from_spec() -> bool {
        true
    }

    open spec fn from_spec(err: std::fmt::Error) -> DarkskyError {
        DarkskyError::Fmt(err)
    }
}

impl From<std::io::Error> for DarkskyError {
    fn from(err: std::io::Error) -> (r: DarkskyError) {
        DarkskyError::Io(err)
    }
}

impl vstd::std_specs::convert::FromSpecImpl<std::io::Error> for DarkskyError {
    open spec fn obeys_from_spec() -> bool {
        true
    }

    open spec fn from_spec(err: std::io::Error) -> DarkskyError {
        DarkskyError::Io(err)
    }
}

impl From<serde_json::Error> for DarkskyError {
    fn from(err: serde_json::Error) -> (r: DarkskyError) {
        DarkskyError::Json(err)
    }
}

impl vstd::std_specs::convert::FromSpecImpl<serde_json::Error> for DarkskyError {
    open spec fn obeys_from_spec() -> bool {
        true
    }

    open spec fn from_spec(err: serde_json::Error) -> DarkskyError {
        DarkskyError::Json(err)
    }
}

impl From<http::uri::InvalidUri> for DarkskyError {
    fn from(err: http::uri::InvalidUri) -> (r: DarkskyError) {
        DarkskyError::Uri(err)
    }
}

impl vstd::std_specs::convert::FromSpecImpl<http::uri::InvalidUri> for DarkskyError {
    open spec fn obeys_from_spec() -> bool {
        true
    }

    open spec fn from_spec(err: http::uri::InvalidUri) -> DarkskyError {
        DarkskyError::Uri(err)
    }
}

} // verus!
