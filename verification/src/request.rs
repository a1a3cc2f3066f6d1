//! What stands before the exchange with the service: the request to send.
//!
//! The library leaves the sending to an HTTP client of the caller's choice.
//! It says which URL to fetch, and has the URL checked as a URI where the
//! client asks for one; the body that comes back goes to the decoder.

use crate::constants::API_URL;
use crate::error::DarkskyError;
use crate::options::Options;
use crate::utils::{uri_optioned, url_of};
use vstd::prelude::*;

verus! {

/// `http::Uri`: a URL that has been checked and taken apart.
#[verifier::external_type_specification]
#[verifier::external_body]
pub struct ExUri(http::Uri);

/// A request to the service.
pub struct Request {
    /// The URL to fetch, as text.
    pub url: String,
    /// The same URL, as the URI that `url` was read as.
    pub uri: http::Uri,
}

/// Whether the text `url` reads as a URI.
pub uninterp spec fn is_uri(url: Seq<char>) -> bool;

/// Calls `Uri::from_str` of `http`. Claims that whether a text is taken for
/// a URI depends on the text alone.
#[verifier::external_body]
fn read_uri(url: &str) -> (r: Result<http::Uri, http::uri::InvalidUri>)
    ensures
        r is Ok <==> is_uri(url@),
{
    <http::Uri as std::str::FromStr>::from_str(url)
}

/// The request for `url`, given how `url` read as a URI: the request where
/// it read as one, else the error that it did not.
pub fn checked(url: String, read: Result<http::Uri, http::uri::InvalidUri>) -> (r: Result<
    Request,
    DarkskyError,
>)
    ensures
        match read {
            Ok(uri) => r == Ok::<Request, DarkskyError>(Request { url, uri }),
            Err(why) => r == Err::<Request, DarkskyError>(DarkskyError::Uri(why)),
        },
{
    match read {
        Ok(uri) => Ok(Request { url, uri }),
        Err(why) => Err(DarkskyError::Uri(why)),
    }
}

/// The request for the URL `url`: there is one exactly when `url` reads as
/// a URI, and otherwise the error says that it does not.
pub fn request_for(url: String) -> (r: Result<Request, DarkskyError>)
    ensures
        r is Ok <==> is_uri(url@),
        r is Ok ==> r->Ok_0.url == url,
        r is Err ==> r->Err_0 is Uri,
{
    let read = read_uri(url.as_str());
    checked(url, read)
}

/// The request for a forecast for a place, with automatic units.
pub fn forecast_request(token: &str, latitude: &str, longitude: &str) -> (r: Result<
    Request,
    DarkskyError,
>)
    ensures
        r is Ok <==> is_uri(url_of(API_URL@, token@, latitude@, longitude@, None, None)),
        r is Ok ==> r->Ok_0.url@ == url_of(API_URL@, token@, latitude@, longitude@, None, None),
        r is Err ==> r->Err_0 is Uri,
{
    request_for(crate::utils::uri(token, latitude, longitude))
}

/// The request for a forecast for a place, and for a moment where `time`
/// is given, with the parameters that `options` has set.
pub fn forecast_request_optioned(
    token: &str,
    latitude: &str,
    longitude: &str,
    time: Option<String>,
    options: Options,
) -> (r: Result<Request, DarkskyError>)
    ensures
        r is Ok <==> is_uri(request_url(token@, latitude@, longitude@, time, options)),
        r is Ok ==> r->Ok_0.url@ == request_url(token@, latitude@, longitude@, time, options),
        r is Err ==> r->Err_0 is Uri,
{
    match uri_optioned(token, latitude, longitude, time, options.into_inner()) {
        Ok(url) => request_for(url),
        Err(why) => Err(why),
    }
}

/// The URL of a request with options.
pub open spec fn request_url(
    token: Seq<char>,
    latitude: Seq<char>,
    longitude: Seq<char>,
    time: Option<String>,
    options: Options,
) -> Seq<char> {
    url_of(
        API_URL@,
        token,
        latitude,
        longitude,
        match time {
            Some(t) => Some(t@),
            None => None,
        },
        Some(options@),
    )
}

} // verus!
