//! The Runpod side of the provider boundary: the create-pod payload, status
//! normalisation and the reading of provider error bodies.

use vstd::prelude::*;

use crate::api_url::{join, joined_url, ApiUrl, UrlError, UrlParts};
use crate::env_vars::EnvVars;
use crate::error::{canonical_reason, status_reason_phrase, Error};
use crate::provider::{opt_text, ComputeKind, DeploymentSpec, DeploymentStatus};
use crate::text::{ascii_upper, ascii_upper_is, is_blank, is_trimmed, lemma_trim_idempotent, trim, trim_ws};

verus! {

/// The body of Runpod's `POST /pods` request.
#[derive(Clone, Debug, PartialEq, Eq)]
pub struct CreatePodRequest {
    pub name: String,
    pub image_name: String,
    pub container_registry_auth_id: Option<String>,
    pub compute_type: ComputeKind,
    pub container_disk_in_gb: u32,
    pub volume_in_gb: u32,
    pub volume_mount_path: String,
    pub ports: Vec<String>,
    pub env: EnvVars,
    pub cloud_type: String,
    pub support_public_ip: bool,
    pub vcpu_count: Option<u32>,
    pub gpu_count: Option<u32>,
    pub gpu_type_ids: Vec<String>,
    pub gpu_type_priority: Option<String>,
}

impl CreatePodRequest {
    /// The request that creates a pod for `spec`. A public IP is always
    /// requested, and a non-empty GPU type list is tried in its own order
    /// (`gpuTypePriority` "custom").
    pub fn from(spec: DeploymentSpec) -> (r: CreatePodRequest)
        ensures
            r.name == spec.name,
            r.image_name == spec.image,
            r.container_registry_auth_id == spec.container_registry_auth_id,
            r.compute_type == spec.compute,
            r.container_disk_in_gb == spec.container_disk_gb,
            r.volume_in_gb == spec.volume_gb,
            r.volume_mount_path == spec.volume_mount_path,
            r.ports == spec.ports,
            r.env == spec.env,
            r.cloud_type == spec.cloud_type,
            r.support_public_ip,
            r.vcpu_count == spec.vcpu_count,
            r.gpu_count == spec.gpu_count,
            r.gpu_type_ids == spec.gpu_type_ids,
            r.gpu_type_priority is Some <==> spec.gpu_type_ids@.len() > 0,
            r.gpu_type_priority matches Some(p) ==> p@ == "custom"@,
    {
        let gpu_type_priority = if spec.gpu_type_ids.len() > 0 {
            Some("custom".to_string())
        } else {
            None
        };
        CreatePodRequest {
            name: spec.name,
            image_name: spec.image,
            container_registry_auth_id: spec.container_registry_auth_id,
            compute_type: spec.compute,
            container_disk_in_gb: spec.container_disk_gb,
            volume_in_gb: spec.volume_gb,
            volume_mount_path: spec.volume_mount_path,
            ports: spec.ports,
            env: spec.env,
            cloud_type: spec.cloud_type,
            support_public_ip: true,
            vcpu_count: spec.vcpu_count,
            gpu_count: spec.gpu_count,
            gpu_type_priority,
            gpu_type_ids: spec.gpu_type_ids,
        }
    }
}

/// The deployment status that Runpod's `desiredStatus` text stands for,
/// read without regard to ASCII case.
pub open spec fn status_for(status: Seq<char>) -> DeploymentStatus {
    let upper = ascii_upper(status);
    if upper == "RUNNING"@ {
        DeploymentStatus::Running
    } else if upper == "EXITED"@ {
        DeploymentStatus::Exited
    } else if upper == "TERMINATED"@ {
        DeploymentStatus::Terminated
    } else if upper == "CREATED"@ || upper == "PENDING"@ {
        DeploymentStatus::Pending
    } else {
        DeploymentStatus::Unknown
    }
}

/// Maps a Runpod `desiredStatus` to a deployment status.
pub fn normalize_status(status: &str) -> (r: DeploymentStatus)
    ensures
        r == status_for(status@),
{
    if ascii_upper_is(status, "RUNNING") {
        DeploymentStatus::Running
    } else if ascii_upper_is(status, "EXITED") {
        DeploymentStatus::Exited
    } else if ascii_upper_is(status, "TERMINATED") {
        DeploymentStatus::Terminated
    } else if ascii_upper_is(status, "CREATED") || ascii_upper_is(status, "PENDING") {
        DeploymentStatus::Pending
    } else {
        DeploymentStatus::Unknown
    }
}

/// Status normalisation ignores ASCII case: a status text and its
/// upper-case form map to the same deployment status, and so do any two
/// texts that agree up to ASCII case.
pub proof fn lemma_status_ignores_case(a: Seq<char>, b: Seq<char>)
    ensures
        status_for(ascii_upper(a)) == status_for(a),
        ascii_upper(a) == ascii_upper(b) ==> status_for(a) == status_for(b),
{
    crate::text::lemma_ascii_upper_idempotent(a);
}

/// Whether an answer with status `status` succeeded (a 2xx status, as
/// `StatusCode::is_success` says).
pub fn is_success(status: u16) -> (b: bool)
    ensures
        b == (200 <= status < 300),
{
    200 <= status && status < 300
}

/// The string that member `key` of the JSON object in `body` holds:
/// `None` where `body` is not JSON, its top-level value is not an object,
/// the object has no member `key` or that member is not a string.
pub uninterp spec fn json_string_member(body: Seq<char>, key: Seq<char>) -> Option<Seq<char>>;

/// `serde_json::from_str::<serde_json::Value>(body)` followed by reading
/// member `key` of the object as a string (`Value::get`, `Value::as_str`).
/// Its result is what [`json_string_member`] names.
#[verifier::external_body]
fn json_member(body: &str, key: &str) -> (r: Option<String>)
    ensures
        opt_text(r) == json_string_member(body@, key@),
{
    match serde_json::from_str::<serde_json::Value>(body) {
        Ok(serde_json::Value::Object(members)) => match members.get(key) {
            Some(serde_json::Value::String(member)) => Some(member.clone()),
            _ => None,
        },
        _ => None,
    }
}

/// The members of a provider error body that may carry its message, in
/// the order they are consulted.
pub open spec fn message_keys() -> Seq<Seq<char>> {
    seq!["message"@, "error"@, "detail"@]
}

/// The trimmed text of the first member that holds more than whitespace.
pub open spec fn first_usable(members: Seq<Option<Seq<char>>>) -> Option<Seq<char>>
    decreases members.len(),
{
    if members.len() == 0 {
        None
    } else if members[0] is Some && !is_blank(members[0]->0) {
        Some(trim_ws(members[0]->0))
    } else {
        first_usable(members.drop_first())
    }
}

/// The message chosen from the string members read out of an error body
/// (in the order of [`message_keys`]), the body itself and the status's
/// reason phrase: the first usable member, else the body, else the reason
/// phrase, else a fixed text; members and body are trimmed.
pub open spec fn message_from_parts(
    members: Seq<Option<Seq<char>>>,
    body: Seq<char>,
    reason: Option<Seq<char>>,
) -> Seq<char> {
    match first_usable(members) {
        Some(m) => m,
        None => if is_blank(body) {
            match reason {
                Some(r) => r,
                None => "unknown provider error"@,
            }
        } else {
            trim_ws(body)
        },
    }
}

/// The message Fern reports for an unsuccessful Runpod answer with body
/// `body` and status `status`.
pub open spec fn provider_error_message(body: Seq<char>, status: u16) -> Seq<char> {
    message_from_parts(
        message_keys().map_values(|k: Seq<char>| json_string_member(body, k)),
        body,
        status_reason_phrase(status),
    )
}

/// Chooses the message of an unsuccessful answer from the string members
/// read out of its body, the body and the status's reason phrase.
pub fn choose_error_message(members: &Vec<Option<String>>, body: &str, reason: Option<&str>) -> (m:
    String)
    ensures
        m@ == message_from_parts(members@.map_values(|o: Option<String>| opt_text(o)), body@,
            match reason {
                Some(r) => Some(r@),
                None => None,
            },
        ),
        (reason matches Some(r) ==> r@.len() > 0 && is_trimmed(r@)) ==> m@.len() > 0 && is_trimmed(
            m@,
        ),
{
    let ghost texts = members@.map_values(|o: Option<String>| opt_text(o));
    let n = members.len();
    let mut i: usize = 0;
    assert(texts.subrange(0, n as int) =~= texts);
    while i < n
        invariant
            n == members@.len(),
            texts == members@.map_values(|o: Option<String>| opt_text(o)),
            i <= n,
            first_usable(texts) == first_usable(texts.subrange(i as int, n as int)),
        decreases n - i,
    {
        assert(texts.subrange(i as int, n as int).drop_first() =~= texts.subrange(
            i + 1,
            n as int,
        ));
        assert(texts.subrange(i as int, n as int)[0] == opt_text(members@[i as int]));
        match &members[i] {
            Some(text) => {
                let trimmed = trim(text.as_str());
                if trimmed.unicode_len() > 0 {
                    proof {
                        lemma_trim_idempotent(text@);
                    }
                    return trimmed.to_string();
                }
            },
            None => {},
        }
        i = i + 1;
    }
    assert(texts.subrange(n as int, n as int).len() == 0);
    let body_text = trim(body);
    proof {
        lemma_trim_idempotent(body@);
    }
    if body_text.unicode_len() == 0 {
        match reason {
            Some(reason) => reason.to_string(),
            None => {
                proof {
                    reveal_strlit("unknown provider error");
                }
                "unknown provider error".to_string()
            },
        }
    } else {
        body_text.to_string()
    }
}

/// The members of an error body are consulted in the order `message`,
/// `error`, `detail`: a `message` string with more than whitespace in it is
/// the message (trimmed) whatever the others hold; an `error` string is
/// used only when `message` is not, and `detail` only when neither is; the
/// body and the reason phrase only when none of them is.
pub proof fn lemma_message_member_order(body: Seq<char>, status: u16)
    ensures
        ({
            let m = json_string_member(body, "message"@);
            let e = json_string_member(body, "error"@);
            let d = json_string_member(body, "detail"@);
            let usable = |x: Option<Seq<char>>| x is Some && trim_ws(x->0).len() > 0;
            let result = provider_error_message(body, status);
            &&& usable(m) ==> result == trim_ws(m->0)
            &&& !usable(m) && usable(e) ==> result == trim_ws(e->0)
            &&& !usable(m) && !usable(e) && usable(d) ==> result == trim_ws(d->0)
            &&& !usable(m) && !usable(e) && !usable(d) && trim_ws(body).len() > 0 ==> result
                == trim_ws(body)
            &&& !usable(m) && !usable(e) && !usable(d) && trim_ws(body).len() == 0 ==> result
                == match status_reason_phrase(status) {
                Some(r) => r,
                None => "unknown provider error"@,
            }
        }),
{
    let members = message_keys().map_values(|k: Seq<char>| json_string_member(body, k));
    assert(members[0] == json_string_member(body, "message"@));
    assert(members[1] == json_string_member(body, "error"@));
    assert(members[2] == json_string_member(body, "detail"@));
    assert(members.drop_first()[0] == members[1]);
    assert(members.drop_first().drop_first()[0] == members[2]);
    assert(members.drop_first().drop_first().drop_first().len() == 0);
    reveal_with_fuel(first_usable, 4);
}

/// Only the leading `/` characters of a path are removed: the rest is kept
/// character for character, and a path that does not start with `/` is kept
/// whole.
pub proof fn lemma_only_leading_slashes_removed(path: Seq<char>)
    ensures
        path.len() == 0 || path[0] != '/' ==> without_leading_slashes(path) == path,
        ({
            let rest = without_leading_slashes(path);
            let cut = path.len() - rest.len();
            &&& 0 <= cut <= path.len()
            &&& rest == path.subrange(cut, path.len() as int)
            &&& forall|i: int| 0 <= i < cut ==> path[i] == '/'
            &&& rest.len() > 0 ==> rest[0] != '/'
        }),
    decreases path.len(),
{
    if path.len() > 0 && path[0] == '/' {
        let tail = path.drop_first();
        lemma_only_leading_slashes_removed(tail);
        let rest = without_leading_slashes(tail);
        let cut = tail.len() - rest.len();
        assert(rest == path.subrange(cut + 1, path.len() as int));
        assert forall|i: int| 0 <= i < cut + 1 implies path[i] == '/' by {
            if i > 0 {
                assert(path[i] == tail[i - 1]);
            }
        }
    } else {
        assert(path.subrange(0, path.len() as int) =~= path);
    }
}

/// Reads the message out of the body of an unsuccessful Runpod answer with
/// status `status`. The message is never empty and never starts or ends
/// with whitespace.
pub fn extract_error_message(body: &str, status: u16) -> (m: String)
    ensures
        m@ == provider_error_message(body@, status),
        m@.len() > 0,
        is_trimmed(m@),
{
    let mut members: Vec<Option<String>> = Vec::new();
    members.push(json_member(body, "message"));
    members.push(json_member(body, "error"));
    members.push(json_member(body, "detail"));
    let reason = canonical_reason(status);
    let m = choose_error_message(&members, body, reason);
    assert(members@.map_values(|o: Option<String>| opt_text(o)) =~= message_keys().map_values(
        |k: Seq<char>| json_string_member(body@, k),
    ));
    m
}

/// `path` without its leading `/` characters (`trim_start_matches('/')`).
pub open spec fn without_leading_slashes(path: Seq<char>) -> Seq<char>
    decreases path.len(),
{
    if path.len() > 0 && path[0] == '/' {
        without_leading_slashes(path.drop_first())
    } else {
        path
    }
}

/// Leading slashes make no difference to the resource a path names: a
/// path and the same path behind any number of `/` join to the same URL.
pub proof fn lemma_leading_slash_ignored(path: Seq<char>)
    ensures
        without_leading_slashes(seq!['/'] + path) == without_leading_slashes(path),
        without_leading_slashes(without_leading_slashes(path)) == without_leading_slashes(path),
    decreases path.len(),
{
    assert((seq!['/'] + path).drop_first() =~= path);
    if path.len() > 0 && path[0] == '/' {
        lemma_leading_slash_ignored(path.drop_first());
    }
}

/// The API path of the pod with id `id`: `pods/{id}`.
pub fn pod_path(id: &str) -> (p: String)
    ensures
        p@ == "pods/"@ + id@,
{
    let mut p = "pods/".to_string();
    p.append(id);
    p
}

/// The API path that stops the pod with id `id`: `pods/{id}/stop`.
pub fn pod_stop_path(id: &str) -> (p: String)
    ensures
        p@ == "pods/"@ + id@ + "/stop"@,
{
    let mut p = pod_path(id);
    p.append("/stop");
    p
}

/// The URL of the API resource at `path`, relative to the API base.
pub fn endpoint(api_base: &ApiUrl, path: &str) -> (r: Result<ApiUrl, Error>)
    ensures
        match joined_url(api_base@.0, without_leading_slashes(path@)) {
            Ok::<UrlParts, UrlError>(parts) => r matches Ok(u) && u@ == parts,
            Err::<UrlParts, UrlError>(reason) => r matches Err(Error::InvalidUrl(e)) && e == reason,
        },
{
    let n = path.unicode_len();
    let mut i: usize = 0;
    assert(path@.subrange(0, n as int) =~= path@);
    while i < n && path.get_char(i) == '/'
        invariant
            n == path@.len(),
            i <= n,
            without_leading_slashes(path@) == without_leading_slashes(
                path@.subrange(i as int, n as int),
            ),
        decreases n - i,
    {
        assert(path@.subrange(i as int, n as int).drop_first() =~= path@.subrange(
            i + 1,
            n as int,
        ));
        i = i + 1;
    }
    let relative = path.substring_char(i, n);
    match join(api_base, relative) {
        Ok(u) => Ok(u),
        Err(e) => Err(Error::InvalidUrl(e)),
    }
}

/// `http::header::HeaderValue`, the value of a request header.
#[verifier::external_type_specification]
#[verifier::external_body]
pub struct ExHeaderValue(http::header::HeaderValue);

/// A character that a header value may hold: HTTP refuses the control
/// characters other than tab, and DEL.
pub open spec fn header_char_allowed(c: char) -> bool {
    c == '\t' || ((c as u32) >= 32 && (c as u32) != 127)
}

/// A text that `HeaderValue::from_str` accepts.
pub open spec fn valid_header_text(s: Seq<char>) -> bool {
    forall|i: int| 0 <= i < s.len() ==> header_char_allowed(s[i])
}

/// A request header value together with what it holds: its text and
/// whether it is marked sensitive.
#[derive(Debug)]
pub struct HeaderText {
    text: String,
    sensitive: bool,
    value: http::header::HeaderValue,
}

impl View for HeaderText {
    type V = (Seq<char>, bool);

    /// The header's text and whether it is marked sensitive.
    closed spec fn view(&self) -> (Seq<char>, bool) {
        (self.text@, self.sensitive)
    }
}

impl HeaderText {
    /// The header's text.
    pub fn text(&self) -> (s: &str)
        ensures
            s@ == self@.0,
    {
        self.text.as_str()
    }

    /// Whether the value is marked sensitive.
    pub fn is_sensitive(&self) -> (b: bool)
        ensures
            b == self@.1,
    {
        self.sensitive
    }

    /// The `http` header value, to hand to an HTTP client.
    pub fn into_value(self) -> http::header::HeaderValue {
        self.value
    }
}

/// `http::header::HeaderValue::from_str(text)`. As the crate's source shows,
/// it refuses a text exactly when one of its UTF-8 bytes is a control byte
/// other than tab, or DEL (bytes of non-ASCII characters are all accepted),
/// and an accepted value holds the bytes of `text` and is not sensitive.
#[verifier::external_body]
fn header_value_from_str(text: &str) -> (r: Result<HeaderText, http::header::InvalidHeaderValue>)
    ensures
        r is Ok <==> valid_header_text(text@),
        r matches Ok(h) ==> h@ == (text@, false),
{
    match http::header::HeaderValue::from_str(text) {
        Ok(value) => Ok(HeaderText { text: text.to_string(), sensitive: false, value }),
        Err(e) => Err(e),
    }
}

/// `http::header::HeaderValue::set_sensitive(true)`: marks the value so
/// that clients neither log nor cache it; its bytes stay as they were.
#[verifier::external_body]
fn mark_sensitive(header: &mut HeaderText)
    ensures
        final(header)@ == (old(header)@.0, true),
{
    header.value.set_sensitive(true);
    header.sensitive = true;
}

/// The text of the `Authorization` header for `api_key`.
pub open spec fn authorization_text(api_key: Seq<char>) -> Seq<char> {
    "Bearer "@ + api_key
}

/// The sensitive `Authorization` header value that carries `api_key` as a
/// bearer token; refused when the key holds characters a header may not.
pub fn authorization_header(api_key: &str) -> (r: Result<HeaderText, Error>)
    ensures
        r is Ok <==> valid_header_text(authorization_text(api_key@)),
        r matches Ok(h) ==> h@ == (authorization_text(api_key@), true),
        r is Err ==> r matches Err(Error::InvalidHeader(_)),
{
    let mut text = "Bearer ".to_string();
    text.append(api_key);
    match header_value_from_str(text.as_str()) {
        Ok(header) => {
            let mut header = header;
            mark_sensitive(&mut header);
            Ok(header)
        },
        Err(e) => Err(Error::InvalidHeader(e)),
    }
}

} // verus!
