//! The library's error type and the user-facing text of each error.

use vstd::prelude::*;

use crate::api_url::{url_error_text, UrlError};
use crate::text::{decimal, push_decimal};

verus! {

/// `http::header::InvalidHeaderValue`, carried by [`Error::InvalidHeader`].
#[verifier::external_type_specification]
#[verifier::external_body]
pub struct ExInvalidHeaderValue(http::header::InvalidHeaderValue);

/// Everything that can go wrong while configuring Fern or talking to
/// Runpod.
#[derive(Debug)]
pub enum Error {
    /// The configuration is incomplete or unsafe.
    Config(String),
    /// A header value holds bytes that HTTP does not allow.
    InvalidHeader(http::header::InvalidHeaderValue),
    /// The Runpod API base is not a URL, or an endpoint cannot be joined to
    /// it, for the reason given.
    InvalidUrl(UrlError),
    /// The request could not be sent or its answer not read; this holds the
    /// HTTP client's description of the failure.
    Http(String),
    /// Runpod answered with an unsuccessful status.
    Api { status: u16, message: String },
}

/// The reason phrase that `http::StatusCode::canonical_reason` gives for the
/// status numbered `code`.
pub uninterp spec fn status_reason_phrase(code: u16) -> Option<Seq<char>>;

/// `http::StatusCode::from_u16(code)` followed by `canonical_reason`: the
/// standard reason phrase of a registered status. Stated of it: codes
/// outside 100..=999 are not statuses and have none, and every phrase in
/// the crate's table is a non-empty text that starts and ends with a
/// letter.
#[verifier::external_body]
pub(crate) fn canonical_reason(code: u16) -> (r: Option<&'static str>)
    ensures
        match r {
            Some(s) => status_reason_phrase(code) == Some(s@),
            None => status_reason_phrase(code) is None,
        },
        !(100 <= code <= 999) ==> r is None,
        r matches Some(s) ==> s@.len() > 0 && crate::text::is_trimmed(s@),
{
    match http::StatusCode::from_u16(code) {
        Ok(status) => status.canonical_reason(),
        Err(_) => None,
    }
}

/// How `http::StatusCode` displays the status numbered `code`: the number,
/// a space and the reason phrase.
pub open spec fn status_text(code: u16) -> Seq<char> {
    decimal(code as nat) + " "@ + match status_reason_phrase(code) {
        Some(r) => r,
        None => "<unknown status code>"@,
    }
}

/// The display text of a `http::header::InvalidHeaderValue`, which the
/// crate writes as the fixed phrase "failed to parse header value".
#[verifier::external_body]
fn invalid_header_text(e: &http::header::InvalidHeaderValue) -> (s: String)
    ensures
        s@ == "failed to parse header value"@,
{
    e.to_string()
}

impl From<http::header::InvalidHeaderValue> for Error {
    fn from(e: http::header::InvalidHeaderValue) -> (r: Error) {
        Error::InvalidHeader(e)
    }
}

impl vstd::std_specs::convert::FromSpecImpl<http::header::InvalidHeaderValue> for Error {
    open spec fn obeys_from_spec() -> bool {
        true
    }

    open spec fn from_spec(e: http::header::InvalidHeaderValue) -> Error {
        Error::InvalidHeader(e)
    }
}

impl From<UrlError> for Error {
    fn from(e: UrlError) -> (r: Error) {
        Error::InvalidUrl(e)
    }
}

impl vstd::std_specs::convert::FromSpecImpl<UrlError> for Error {
    open spec fn obeys_from_spec() -> bool {
        true
    }

    open spec fn from_spec(e: UrlError) -> Error {
        Error::InvalidUrl(e)
    }
}

impl Error {
    /// The message shown to the user for this error.
    pub fn to_string(&self) -> (s: String)
        ensures
            match self {
                Error::Config(m) => s@ == "configuration error: "@ + m@,
                Error::InvalidHeader(_) => s@
                    == "invalid HTTP header value: failed to parse header value"@,
                Error::InvalidUrl(e) => s@ == "invalid Runpod API URL: "@ + url_error_text(*e),
                Error::Http(m) => s@ == "Runpod request failed: "@ + m@,
                Error::Api { status, message } => s@ == "Runpod API returned "@ + status_text(
                    *status,
                ) + ": "@ + message@,
            },
    {
        match self {
            Error::Config(m) => {
                let mut s = "configuration error: ".to_string();
                s.append(m.as_str());
                s
            },
            Error::InvalidHeader(e) => {
                let mut s = "invalid HTTP header value: ".to_string();
                let detail = invalid_header_text(e);
                s.append(detail.as_str());
                proof {
                    reveal_strlit("invalid HTTP header value: ");
                    reveal_strlit("failed to parse header value");
                    reveal_strlit("invalid HTTP header value: failed to parse header value");
                }
                assert(s@ =~= "invalid HTTP header value: failed to parse header value"@);
                s
            },
            Error::InvalidUrl(e) => {
                let mut s = "invalid Runpod API URL: ".to_string();
                s.append(e.description());
                s
            },
            Error::Http(m) => {
                let mut s = "Runpod request failed: ".to_string();
                s.append(m.as_str());
                s
            },
            Error::Api { status, message } => {
                let mut s = "Runpod API returned ".to_string();
                push_decimal(&mut s, *status as u32);
                s.append(" ");
                match canonical_reason(*status) {
                    Some(r) => s.append(r),
                    None => s.append("<unknown status code>"),
                }
                s.append(": ");
                s.append(message.as_str());
                assert(s@ =~= "Runpod API returned "@ + status_text(*status) + ": "@ + message@);
                s
            },
        }
    }
}

} // verus!
