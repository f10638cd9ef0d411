//! Connection configuration, URL construction and response checking for the
//! Proxmox VE API.

use vstd::prelude::*;
use crate::encoding::{percent_encoded, url_encode};
use crate::proxmox::auth::Auth;
use crate::proxmox::error::ProxmoxError;
use crate::text::{concat2, concat3, is_empty_str, starts_with_char, trim,
    trim_end_ch, trim_end_char, trim_ws};

verus! {

/// API path prefix below the host.
pub const API_PREFIX: &'static str = "/api2/json";

/// Connection configuration for a Proxmox VE API client.
#[derive(Clone)]
pub struct ProxmoxConfig {
    /// Base host URL, e.g. `https://pve.example.com:8006` (no trailing `/api2/json`).
    pub host: String,
    /// Accept self-signed / invalid TLS certificates (common for Proxmox hosts).
    pub insecure_tls: bool,
    /// Authentication method (API token or login ticket).
    pub auth: Auth,
}

/// The API root of a host: the host without trailing slashes, then `/api2/json`.
pub open spec fn spec_api_base(host: Seq<char>) -> Seq<char> {
    trim_end_ch(host, '/') + "/api2/json"@
}

/// `base` joined with `path`, inserting a `/` unless `path` starts with one.
pub open spec fn join_path(base: Seq<char>, path: Seq<char>) -> Seq<char> {
    if path.len() > 0 && path[0] == '/' {
        base + path
    } else {
        base + "/"@ + path
    }
}

impl ProxmoxConfig {
    /// A configuration for `host` (e.g. `https://pve.example.com:8006`);
    /// trailing slashes are dropped and TLS certificates are verified.
    pub fn new(host: &str, auth: Auth) -> (c: Self)
        ensures
            c.host@ == trim_end_ch(host@, '/'),
            !c.insecure_tls,
            c.auth == auth,
    {
        ProxmoxConfig { host: trim_end_char(host, '/'), insecure_tls: false, auth }
    }

    /// Accept invalid/self-signed TLS certificates.
    pub fn insecure_tls(self, insecure: bool) -> (c: Self)
        ensures
            c.insecure_tls == insecure,
            c.host == self.host,
            c.auth == self.auth,
    {
        ProxmoxConfig { insecure_tls: insecure, ..self }
    }

    /// API root, e.g. `https://pve.example.com:8006/api2/json`.
    pub fn api_base(&self) -> (s: String)
        ensures
            s@ == spec_api_base(self.host@),
    {
        let host = trim_end_char(self.host.as_str(), '/');
        concat2(host.as_str(), API_PREFIX)
    }

    /// Absolute URL of an API path (with or without a leading `/`).
    pub fn url(&self, path: &str) -> (s: String)
        ensures
            s@ == join_path(spec_api_base(self.host@), path@),
    {
        let base = self.api_base();
        if starts_with_char(path, '/') {
            concat2(base.as_str(), path)
        } else {
            concat3(base.as_str(), "/", path)
        }
    }
}

/// `/nodes/{node}` followed by `rest`, with the node name percent-encoded.
pub open spec fn spec_node_path(node: Seq<char>, rest: Seq<char>) -> Seq<char> {
    "/nodes/"@ + percent_encoded(node) + rest
}

/// API path below a cluster node: `/nodes/{node}` + `rest`.
pub fn node_path(node: &str, rest: &str) -> (s: String)
    ensures
        s@ == spec_node_path(node@, rest@),
{
    let n = url_encode(node);
    concat3("/nodes/", n.as_str(), rest)
}

/// Whether an HTTP status is in the 2xx success range.
pub open spec fn is_success(status: u16) -> bool {
    200 <= status <= 299
}

/// `StatusCode::is_success`.
pub fn status_is_success(status: u16) -> (b: bool)
    ensures
        b == is_success(status),
{
    200 <= status && status <= 299
}

/// The fields of a Proxmox error body that matter: a `message`, and the JSON
/// text of a non-null `errors` object.
#[derive(Debug, Clone, PartialEq, Eq)]
pub struct ErrorBody {
    pub message: Option<String>,
    pub errors: Option<String>,
}

/// The message an error body offers: `message`, else `errors`.
pub open spec fn body_candidate(parsed: Option<ErrorBody>) -> Option<Seq<char>> {
    match parsed {
        Some(b) => match b.message {
            Some(m) => Some(m@),
            None => match b.errors {
                Some(e) => Some(e@),
                None => None,
            },
        },
        None => None,
    }
}

/// The message of an API error: the body's own message when it has a
/// non-blank one, otherwise the trimmed raw body.
pub open spec fn api_error_message(body: Seq<char>, parsed: Option<ErrorBody>) -> Seq<char> {
    match body_candidate(parsed) {
        Some(m) => if trim_ws(m).len() > 0 {
            m
        } else {
            trim_ws(body)
        },
        None => trim_ws(body),
    }
}

/// Render a Proxmox error response into [`ProxmoxError::Api`]. `parsed` is
/// the body read as an error object, when it is one.
pub fn api_error(status: u16, body: &str, parsed: Option<ErrorBody>) -> (e: ProxmoxError)
    ensures
        e matches ProxmoxError::Api { status: s, message: m } && s == status && m@
            == api_error_message(body@, parsed),
{
    let ghost p = parsed;
    let candidate = match parsed {
        Some(b) => match b.message {
            Some(m) => Some(m),
            None => b.errors,
        },
        None => None,
    };
    let message = match candidate {
        Some(m) => {
            let t = trim(m.as_str());
            if is_empty_str(t.as_str()) {
                trim(body)
            } else {
                m
            }
        },
        None => trim(body),
    };
    ProxmoxError::Api { status, message }
}

/// The outcome of a response status: success, or the API error it reports.
pub fn check_status(status: u16, body: &str, parsed: Option<ErrorBody>) -> (r: Result<
    (),
    ProxmoxError,
>)
    ensures
        r is Ok <==> is_success(status),
        r matches Err(ProxmoxError::Api { status: s, message: m }) ==> s == status && m@
            == api_error_message(body@, parsed),
        r is Err ==> r->Err_0 is Api,
{
    if status_is_success(status) {
        Ok(())
    } else {
        Err(api_error(status, body, parsed))
    }
}

} // verus!
