//! Absolute URLs as the library reads them: the serialization that the
//! `url` crate gives a parsed URL, with its scheme and host.

use url::ParseError;
use vstd::prelude::*;

verus! {

/// A parsed absolute URL: its serialization, its scheme and its host.
#[derive(Clone, Debug)]
pub struct ApiUrl {
    serialized: String,
    scheme: String,
    host: Option<String>,
}

/// The serialization, scheme and host (if any) of a parsed URL.
pub type UrlParts = (Seq<char>, Seq<char>, Option<Seq<char>>);

/// What `url::Url::parse` makes of `input`: the parsed URL's `as_str()`,
/// `scheme()` and `host_str()`, or the reason it refuses the text.
pub uninterp spec fn parsed_url(input: Seq<char>) -> Result<UrlParts, UrlError>;

/// What `url::Url::join` makes of `reference` against the URL whose
/// serialization is `base`: the joined URL's `as_str()`, `scheme()` and
/// `host_str()`, or the reason it refuses.
pub uninterp spec fn joined_url(base: Seq<char>, reference: Seq<char>) -> Result<
    UrlParts,
    UrlError,
>;

/// Why a text is not a URL: the reasons of `url::ParseError`, one variant
/// each, and the description of any reason this list does not know.
#[derive(Clone, Debug, PartialEq, Eq)]
pub enum UrlError {
    EmptyHost,
    IdnaError,
    InvalidPort,
    InvalidIpv4Address,
    InvalidIpv6Address,
    InvalidDomainCharacter,
    RelativeUrlWithoutBase,
    RelativeUrlWithCannotBeABaseBase,
    SetHostOnCannotBeABaseUrl,
    Overflow,
    Other(String),
}

/// The description of each reason, as `url::ParseError` displays it.
pub open spec fn url_error_text(e: UrlError) -> Seq<char> {
    match e {
        UrlError::EmptyHost => "empty host"@,
        UrlError::IdnaError => "invalid international domain name"@,
        UrlError::InvalidPort => "invalid port number"@,
        UrlError::InvalidIpv4Address => "invalid IPv4 address"@,
        UrlError::InvalidIpv6Address => "invalid IPv6 address"@,
        UrlError::InvalidDomainCharacter => "invalid domain character"@,
        UrlError::RelativeUrlWithoutBase => "relative URL without a base"@,
        UrlError::RelativeUrlWithCannotBeABaseBase => "relative URL with a cannot-be-a-base base"@,
        UrlError::SetHostOnCannotBeABaseUrl => "a cannot-be-a-base URL doesn\u{2019}t have a host to set"@,
        UrlError::Overflow => "URLs more than 4 GB are not supported"@,
        UrlError::Other(text) => text@,
    }
}

impl UrlError {
    /// The description of the reason.
    pub fn description(&self) -> (s: &str)
        ensures
            s@ == url_error_text(*self),
    {
        match self {
            UrlError::EmptyHost => "empty host",
            UrlError::IdnaError => "invalid international domain name",
            UrlError::InvalidPort => "invalid port number",
            UrlError::InvalidIpv4Address => "invalid IPv4 address",
            UrlError::InvalidIpv6Address => "invalid IPv6 address",
            UrlError::InvalidDomainCharacter => "invalid domain character",
            UrlError::RelativeUrlWithoutBase => "relative URL without a base",
            UrlError::RelativeUrlWithCannotBeABaseBase => "relative URL with a cannot-be-a-base base",
            UrlError::SetHostOnCannotBeABaseUrl => "a cannot-be-a-base URL doesn\u{2019}t have a host to set",
            UrlError::Overflow => "URLs more than 4 GB are not supported",
            UrlError::Other(text) => text.as_str(),
        }
    }
}

/// `url::Url`, a parsed URL.
#[verifier::external_type_specification]
#[verifier::external_body]
pub struct ExUrl(url::Url);

/// `url::ParseError`, the reason `url::Url::parse` and `join` give.
#[verifier::external_type_specification]
#[verifier::external_body]
pub struct ExUrlParseError(url::ParseError);

/// Reads a parsed `url::Url` into plain values, for [`parse`] and [`join`]
/// alike: its `as_str()`, `scheme()` and `host_str()`. Nothing is stated of
/// it apart from the contracts of those two functions.
#[verifier::external_body]
fn read_url(u: url::Url) -> (r: ApiUrl) {
    ApiUrl {
        serialized: u.as_str().to_string(),
        scheme: u.scheme().to_string(),
        host: u.host_str().map(str::to_string),
    }
}

/// Reads a `url::ParseError` into the [`UrlError`] variant of the same
/// name, for [`parse`] and [`join`] alike (a variant that a later version of
/// the crate may add becomes `Other`, with its display text). Nothing is
/// stated of it apart from the contracts of those two functions.
#[verifier::external_body]
fn read_parse_error(e: ParseError) -> (r: UrlError) {
    match e {
        ParseError::EmptyHost => UrlError::EmptyHost,
        ParseError::IdnaError => UrlError::IdnaError,
        ParseError::InvalidPort => UrlError::InvalidPort,
        ParseError::InvalidIpv4Address => UrlError::InvalidIpv4Address,
        ParseError::InvalidIpv6Address => UrlError::InvalidIpv6Address,
        ParseError::InvalidDomainCharacter => UrlError::InvalidDomainCharacter,
        ParseError::RelativeUrlWithoutBase => UrlError::RelativeUrlWithoutBase,
        ParseError::RelativeUrlWithCannotBeABaseBase => UrlError::RelativeUrlWithCannotBeABaseBase,
        ParseError::SetHostOnCannotBeABaseUrl => UrlError::SetHostOnCannotBeABaseUrl,
        ParseError::Overflow => UrlError::Overflow,
        other => UrlError::Other(other.to_string()),
    }
}

impl View for ApiUrl {
    type V = UrlParts;

    closed spec fn view(&self) -> UrlParts {
        (
            self.serialized@,
            self.scheme@,
            match self.host {
                Some(h) => Some(h@),
                None => None,
            },
        )
    }
}

impl ApiUrl {
    /// The URL's serialization (`Url::as_str`).
    pub fn as_str(&self) -> (s: &str)
        ensures
            s@ == self@.0,
    {
        self.serialized.as_str()
    }

    /// The URL's scheme (`Url::scheme`).
    pub fn scheme(&self) -> (s: &str)
        ensures
            s@ == self@.1,
    {
        self.scheme.as_str()
    }

    /// The URL's host (`Url::host_str`).
    pub fn host_str(&self) -> (h: Option<&str>)
        ensures
            match h {
                Some(h) => self@.2 == Some(h@),
                None => self@.2 is None,
            },
    {
        match &self.host {
            Some(h) => Some(h.as_str()),
            None => None,
        }
    }
}

/// `url::Url::parse(input)`. Its result, the URL or the reason of the
/// refusal, is what [`parsed_url`] names.
#[verifier::external_body]
pub(crate) fn parse(input: &str) -> (r: Result<ApiUrl, UrlError>)
    ensures
        match r {
            Ok(u) => parsed_url(input@) == Ok::<UrlParts, UrlError>(u@),
            Err(e) => parsed_url(input@) == Err::<UrlParts, UrlError>(e),
        },
{
    match url::Url::parse(input) {
        Ok(u) => Ok(read_url(u)),
        Err(e) => Err(read_parse_error(e)),
    }
}

/// `url::Url::join(reference)` on the URL `base` (parsed again from its
/// serialization). Its result, the URL or the reason of the refusal, is
/// what [`joined_url`] names.
#[verifier::external_body]
pub(crate) fn join(base: &ApiUrl, reference: &str) -> (r: Result<ApiUrl, UrlError>)
    ensures
        match r {
            Ok(u) => joined_url(base@.0, reference@) == Ok::<UrlParts, UrlError>(u@),
            Err(e) => joined_url(base@.0, reference@) == Err::<UrlParts, UrlError>(e),
        },
{
    let joined = match url::Url::parse(base.serialized.as_str()) {
        Ok(u) => u.join(reference),
        Err(e) => Err(e),
    };
    match joined {
        Ok(u) => Ok(read_url(u)),
        Err(e) => Err(read_parse_error(e)),
    }
}

} // verus!
