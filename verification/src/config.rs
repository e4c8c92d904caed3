//! Credential and endpoint configuration.

use vstd::prelude::*;

use crate::api_url::{parse, parsed_url, ApiUrl, UrlParts};
use crate::error::Error;
use crate::provider::opt_text;
use crate::text::{ends_with_char, is_blank, same_text, trim};

verus! {

/// The Runpod REST API used when no other base is configured.
pub const DEFAULT_RUNPOD_API_BASE: &'static str = "https://rest.runpod.io/v1/";

/// A resolved configuration: the credential to use, where it came from, and
/// the API base every request is made against.
#[derive(Clone)]
pub struct Config {
    runpod_api_key: String,
    runpod_api_base: ApiUrl,
    credential_source: &'static str,
}

/// A credential counts only when it holds something other than whitespace.
pub open spec fn usable_key(key: Option<Seq<char>>) -> bool {
    match key {
        Some(k) => !is_blank(k),
        None => false,
    }
}

/// The credential chosen and the name of the variable it came from: the
/// account key where it is usable, else the pod or local key where that is.
pub open spec fn chosen_credential(
    account_key: Option<Seq<char>>,
    pod_or_local_key: Option<Seq<char>>,
) -> Option<(Seq<char>, Seq<char>)> {
    if usable_key(account_key) {
        Some((account_key->0, "RUNPOD_ACCOUNT_API_KEY"@))
    } else if usable_key(pod_or_local_key) {
        Some((pod_or_local_key->0, "RUNPOD_API_KEY"@))
    } else {
        None
    }
}

/// The API base text that is parsed: the configured one or the default,
/// with a `/` appended unless it already ends with one.
pub open spec fn api_base_text(api_base: Option<Seq<char>>) -> Seq<char> {
    let base = match api_base {
        Some(b) => b,
        None => DEFAULT_RUNPOD_API_BASE@,
    };
    if base.len() > 0 && base.last() == '/' {
        base
    } else {
        base.push('/')
    }
}

/// The text parsed as the API base is the configured base (or the default)
/// with one `/` appended exactly when it does not already end with `/`: it
/// always ends with `/`, and a base given with or without its trailing `/`
/// gives the same text.
pub proof fn lemma_api_base_text(base: Seq<char>)
    ensures
        api_base_text(Some(base)).len() > 0,
        api_base_text(Some(base)).last() == '/',
        base.len() > 0 && base.last() == '/' ==> api_base_text(Some(base)) == base,
        !(base.len() > 0 && base.last() == '/') ==> api_base_text(Some(base)) == base + seq!['/'],
        api_base_text(Some(base + seq!['/'])) == api_base_text(Some(base)) || (base.len() > 0
            && base.last() == '/'),
        api_base_text(None) == api_base_text(Some(DEFAULT_RUNPOD_API_BASE@)),
{
    assert(base.push('/') =~= base + seq!['/']);
    assert((base + seq!['/']).last() == '/');
}

/// Hosts on which plain HTTP is accepted, for local tests.
pub open spec fn is_local_test_host(host: Option<Seq<char>>) -> bool {
    host == Some("localhost"@) || host == Some("127.0.0.1"@) || host == Some("[::1]"@)
}

/// An API base is accepted when it uses HTTPS or points at a local host.
pub open spec fn base_allowed(url: UrlParts) -> bool {
    url.1 == "https"@ || is_local_test_host(url.2)
}

/// The message of the error for a missing credential.
pub open spec fn missing_key_message() -> Seq<char> {
    "set RUNPOD_ACCOUNT_API_KEY or RUNPOD_API_KEY"@
}

/// The message of the error for an API base that is neither HTTPS nor local.
pub open spec fn insecure_base_message() -> Seq<char> {
    "FERN_RUNPOD_API_BASE must use HTTPS (HTTP is allowed only for localhost tests)"@
}

/// A usable account key is chosen whatever the pod or local key holds, and
/// the pod or local key is chosen only when the account key is missing or
/// blank; the chosen credential is kept as it was given.
pub proof fn lemma_credential_precedence(
    account_key: Option<Seq<char>>,
    pod_or_local_key: Option<Seq<char>>,
)
    ensures
        usable_key(account_key) ==> chosen_credential(account_key, pod_or_local_key) == Some(
            (account_key->0, "RUNPOD_ACCOUNT_API_KEY"@),
        ),
        chosen_credential(account_key, pod_or_local_key) matches Some((_, source)) && source
            == "RUNPOD_API_KEY"@ ==> !usable_key(account_key) && usable_key(pod_or_local_key),
        chosen_credential(account_key, pod_or_local_key) is None <==> !usable_key(account_key)
            && !usable_key(pod_or_local_key),
{
    reveal_strlit("RUNPOD_API_KEY");
    reveal_strlit("RUNPOD_ACCOUNT_API_KEY");
    assert("RUNPOD_API_KEY"@.len() != "RUNPOD_ACCOUNT_API_KEY"@.len());
}

/// Whether `key` is present and holds something other than whitespace.
fn is_usable(key: &Option<String>) -> (b: bool)
    ensures
        b == usable_key(opt_text(*key)),
{
    match key {
        Some(k) => trim(k.as_str()).unicode_len() > 0,
        None => false,
    }
}

/// Whether an API base with the given scheme and host is accepted: HTTPS
/// anywhere, plain HTTP (or any other scheme) only on a local test host.
pub fn is_allowed_api_base(scheme: &str, host: Option<&str>) -> (b: bool)
    ensures
        b == (scheme@ == "https"@ || is_local_test_host(
            match host {
                Some(h) => Some(h@),
                None => None,
            },
        )),
{
    same_text(scheme, "https") || match host {
        Some(h) => same_text(h, "localhost") || same_text(h, "127.0.0.1") || same_text(h, "[::1]"),
        None => false,
    }
}

impl Config {
    /// The credential.
    pub closed spec fn api_key(self) -> Seq<char> {
        self.runpod_api_key@
    }

    /// The API base.
    pub closed spec fn api_base(self) -> ApiUrl {
        self.runpod_api_base
    }

    /// The name of the variable the credential came from.
    pub closed spec fn source(self) -> Seq<char> {
        self.credential_source@
    }

    /// Resolves a configuration from the values of `RUNPOD_ACCOUNT_API_KEY`,
    /// `RUNPOD_API_KEY` and `FERN_RUNPOD_API_BASE`.
    pub fn from_values(
        account_key: Option<String>,
        pod_or_local_key: Option<String>,
        api_base: Option<String>,
    ) -> (r: Result<Config, Error>)
        ensures
            ({
                let chosen = chosen_credential(opt_text(account_key), opt_text(pod_or_local_key));
                let url = parsed_url(api_base_text(opt_text(api_base)));
                match chosen {
                    None => r matches Err(Error::Config(m)) && m@ == missing_key_message(),
                    Some((key, source)) => match url {
                        Err(reason) => r matches Err(Error::InvalidUrl(e)) && e == reason,
                        Ok(parts) => if base_allowed(parts) {
                            r matches Ok(c) && c.api_key() == key && c.source() == source
                                && c.api_base()@ == parts
                        } else {
                            r matches Err(Error::Config(m)) && m@ == insecure_base_message()
                        },
                    },
                }
            }),
    {
        let ghost api_base_view = opt_text(api_base);
        let use_account = is_usable(&account_key);
        let use_pod = is_usable(&pod_or_local_key);
        let (runpod_api_key, credential_source): (String, &'static str) = if use_account {
            match account_key {
                Some(k) => (k, "RUNPOD_ACCOUNT_API_KEY"),
                None => {
                    return Err(Error::Config("set RUNPOD_ACCOUNT_API_KEY or RUNPOD_API_KEY".to_string()));
                },
            }
        } else if use_pod {
            match pod_or_local_key {
                Some(k) => (k, "RUNPOD_API_KEY"),
                None => {
                    return Err(Error::Config("set RUNPOD_ACCOUNT_API_KEY or RUNPOD_API_KEY".to_string()));
                },
            }
        } else {
            return Err(Error::Config("set RUNPOD_ACCOUNT_API_KEY or RUNPOD_API_KEY".to_string()));
        };
        let mut base = match api_base {
            Some(b) => b,
            None => DEFAULT_RUNPOD_API_BASE.to_string(),
        };
        if !ends_with_char(base.as_str(), '/') {
            proof {
                reveal_strlit("/");
            }
            base.append("/");
        }
        assert(base@ == api_base_text(api_base_view));
        let runpod_api_base = match parse(base.as_str()) {
            Ok(u) => u,
            Err(e) => {
                return Err(Error::InvalidUrl(e));
            },
        };
        if !is_allowed_api_base(runpod_api_base.scheme(), runpod_api_base.host_str()) {
            return Err(
                Error::Config(
                    "FERN_RUNPOD_API_BASE must use HTTPS (HTTP is allowed only for localhost tests)".to_string(),
                ),
            );
        }
        Ok(Config { runpod_api_key, runpod_api_base, credential_source })
    }

    /// The credential to authenticate with.
    pub fn runpod_api_key(&self) -> (k: &str)
        ensures
            k@ == self.api_key(),
    {
        self.runpod_api_key.as_str()
    }

    /// The API base every request is made against.
    pub fn runpod_api_base(&self) -> (u: &ApiUrl)
        ensures
            *u == self.api_base(),
    {
        &self.runpod_api_base
    }

    /// The name of the environment variable the credential came from.
    pub fn credential_source(&self) -> (s: &'static str)
        ensures
            s@ == self.source(),
    {
        self.credential_source
    }
}

} // verus!
