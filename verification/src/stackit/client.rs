//! Connection configuration, path construction and response checking for the
//! STACKIT IaaS API.

use vstd::prelude::*;
use crate::encoding::{percent_encoded, url_encode};
use crate::stackit::auth::Auth;
use crate::stackit::error::StackitError;
use crate::text::{concat2, concat3, concat4, is_empty_str, owned, starts_with_char, trim,
    trim_end_ch, trim_end_char, trim_start_ch, trim_start_char, trim_ws};

verus! {

/// Regional IaaS API host used by default (EU01 production).
pub const DEFAULT_HOST: &'static str = "https://iaas.api.eu01.stackit.cloud";

/// API version used by default.
pub const DEFAULT_API_VERSION: &'static str = "v1";

/// Connection configuration for a STACKIT IaaS API client.
#[derive(Clone)]
pub struct StackitConfig {
    /// Regional IaaS API host.
    pub host: String,
    /// API version path segment (`v1` or `v2`).
    pub api_version: String,
    /// Authentication method (token or service-account key flow).
    pub auth: Auth,
}

/// `path` with `suffix` appended: nothing for an empty suffix; otherwise one
/// `/` and then the suffix without its leading slashes, so `"servers"` and
/// `"/servers"` give the same path.
pub open spec fn append_suffix(path: Seq<char>, suffix: Seq<char>) -> Seq<char> {
    if suffix.len() == 0 {
        path
    } else {
        path + "/"@ + trim_start_ch(suffix, '/')
    }
}

/// `/{version}/projects/{project}` followed by `suffix`.
pub open spec fn spec_project_path(version: Seq<char>, project: Seq<char>, suffix: Seq<char>) -> Seq<
    char,
> {
    append_suffix("/"@ + version + "/projects/"@ + percent_encoded(project), suffix)
}

/// `/v2/projects/{project}/regions/{region}` followed by `suffix`.
pub open spec fn spec_regional_path(project: Seq<char>, region: Seq<char>, suffix: Seq<char>) -> Seq<
    char,
> {
    append_suffix(
        "/v2/projects/"@ + percent_encoded(project) + "/regions/"@ + percent_encoded(region),
        suffix,
    )
}

/// The host without trailing slashes, then `path` (with a `/` inserted
/// unless it starts with one).
pub open spec fn spec_base_url(host: Seq<char>, path: Seq<char>) -> Seq<char> {
    if path.len() > 0 && path[0] == '/' {
        trim_end_ch(host, '/') + path
    } else {
        trim_end_ch(host, '/') + "/"@ + path
    }
}

/// Append `suffix` as [`append_suffix`] describes.
fn push_suffix(path: String, suffix: &str) -> (r: String)
    ensures
        r@ == append_suffix(path@, suffix@),
{
    if is_empty_str(suffix) {
        return path;
    }
    let rest = trim_start_char(suffix, '/');
    concat3(path.as_str(), "/", rest.as_str())
}

impl StackitConfig {
    /// A configuration with the default EU01 production host and API v1.
    pub fn new(auth: Auth) -> (c: Self)
        ensures
            c.host@ == DEFAULT_HOST@,
            c.api_version@ == DEFAULT_API_VERSION@,
            c.auth == auth,
    {
        StackitConfig { host: owned(DEFAULT_HOST), api_version: owned(DEFAULT_API_VERSION), auth }
    }

    /// Override the regional API host; trailing slashes are dropped.
    pub fn with_host(self, host: &str) -> (c: Self)
        ensures
            c.host@ == trim_end_ch(host@, '/'),
            c.api_version == self.api_version,
            c.auth == self.auth,
    {
        StackitConfig { host: trim_end_char(host, '/'), ..self }
    }

    /// Select the API version (`v1` or `v2`).
    pub fn with_api_version(self, version: &str) -> (c: Self)
        ensures
            c.api_version@ == version@,
            c.host == self.host,
            c.auth == self.auth,
    {
        StackitConfig { api_version: owned(version), ..self }
    }

    /// A project-scoped API path.
    pub fn project_path(&self, project_id: &str, suffix: &str) -> (p: String)
        ensures
            p@ == spec_project_path(self.api_version@, project_id@, suffix@),
    {
        let project = url_encode(project_id);
        let base = concat4("/", self.api_version.as_str(), "/projects/", project.as_str());
        push_suffix(base, suffix)
    }

    /// A v2 project + region scoped API path.
    pub fn regional_path(&self, project_id: &str, region: &str, suffix: &str) -> (p: String)
        ensures
            p@ == spec_regional_path(project_id@, region@, suffix@),
    {
        let project = url_encode(project_id);
        let reg = url_encode(region);
        let base = concat4("/v2/projects/", project.as_str(), "/regions/", reg.as_str());
        push_suffix(base, suffix)
    }

    /// Absolute URL of an API path.
    pub fn base_url(&self, path: &str) -> (u: String)
        ensures
            u@ == spec_base_url(self.host@, path@),
    {
        let host = trim_end_char(self.host.as_str(), '/');
        if starts_with_char(path, '/') {
            concat2(host.as_str(), path)
        } else {
            concat3(host.as_str(), "/", path)
        }
    }
}

/// `collection` followed by `/` and the percent-encoded `id`.
pub open spec fn spec_item_path(collection: Seq<char>, id: Seq<char>) -> Seq<char> {
    collection + "/"@ + percent_encoded(id)
}

/// The path of one resource in a collection, e.g. a server by id.
pub fn item_path(collection: &str, id: &str) -> (p: String)
    ensures
        p@ == spec_item_path(collection@, id@),
{
    let i = url_encode(id);
    concat3(collection, "/", i.as_str())
}

/// The fields of a STACKIT error body that matter.
#[derive(Debug, Clone, PartialEq, Eq)]
pub struct ErrorBody {
    pub message: Option<String>,
    pub detail: Option<String>,
}

/// The message of an API error: the body's `message`, else its `detail`,
/// else the trimmed raw body.
pub open spec fn api_error_message(body: Seq<char>, parsed: Option<ErrorBody>) -> Seq<char> {
    match parsed {
        Some(b) => match b.message {
            Some(m) => m@,
            None => match b.detail {
                Some(d) => d@,
                None => trim_ws(body),
            },
        },
        None => trim_ws(body),
    }
}

/// Render an error response into [`StackitError::Api`]. `parsed` is the
/// body read as an error object, when it is one.
pub fn api_error(status: u16, body: &str, parsed: Option<ErrorBody>) -> (e: StackitError)
    ensures
        e matches StackitError::Api { status: s, message: m } && s == status && m@
            == api_error_message(body@, parsed),
{
    let message = match parsed {
        Some(b) => match b.message {
            Some(m) => m,
            None => match b.detail {
                Some(d) => d,
                None => trim(body),
            },
        },
        None => trim(body),
    };
    StackitError::Api { status, message }
}

/// Whether an HTTP status is in the 2xx success range.
pub open spec fn is_success(status: u16) -> bool {
    200 <= status <= 299
}

/// The outcome of a response status: success, or the API error it reports.
pub fn check_status(status: u16, body: &str, parsed: Option<ErrorBody>) -> (r: std::result::Result<
    (),
    StackitError,
>)
    ensures
        r is Ok <==> is_success(status),
        r matches Err(StackitError::Api { status: s, message: m }) ==> s == status && m@
            == api_error_message(body@, parsed),
        r is Err ==> r->Err_0 is Api,
{
    if 200 <= status && status <= 299 {
        Ok(())
    } else {
        Err(api_error(status, body, parsed))
    }
}

} // verus!
