//! Connection configuration, path construction, session handling and
//! response decoding decisions for the UniFi Network controller API.

use vstd::prelude::*;
use crate::encoding::{percent_encoded, url_encode};
use crate::unifi::auth::Credentials;
use crate::unifi::error::UnifiError;
use crate::unifi::types::{meta_ok, Meta, UnifiResponse};
use crate::text::{ascii_lower, decimal, concat2, concat3, concat4, is_empty_str, opt_str, owned, str_eq,
    to_ascii_lower, trim, trim_end_ch, trim_end_char, trim_ws};

verus! {

/// Default UniFi site shortname.
pub const DEFAULT_SITE: &'static str = "default";

/// Wireless networks (`rest/wlanconf`).
pub const WLAN_RESOURCE: &'static str = "wlanconf";
/// LANs / VLAN-only networks (`rest/networkconf`).
pub const NETWORK_RESOURCE: &'static str = "networkconf";
/// Destination-NAT rules (`rest/portforward`).
pub const PORT_FORWARD_RESOURCE: &'static str = "portforward";
/// Address/port sets (`rest/firewallgroup`).
pub const FIREWALL_GROUP_RESOURCE: &'static str = "firewallgroup";
/// Firewall rules (`rest/firewallrule`).
pub const FIREWALL_RULE_RESOURCE: &'static str = "firewallrule";
/// Per-client bandwidth profiles (`rest/usergroup`).
pub const USER_GROUP_RESOURCE: &'static str = "usergroup";
/// Known clients (`rest/user`).
pub const USER_RESOURCE: &'static str = "user";
/// Device settings (`rest/device`) and live device state (`stat/device`).
pub const DEVICE_RESOURCE: &'static str = "device";
/// Device commands (`cmd/devmgr`).
pub const DEVICE_MANAGER: &'static str = "devmgr";
/// Active clients (`stat/sta`).
pub const STATION_STAT: &'static str = "sta";
/// Client commands (`cmd/stamgr`).
pub const STATION_MANAGER: &'static str = "stamgr";
/// Site health (`stat/health`).
pub const HEALTH_STAT: &'static str = "health";
/// Controller system information (`stat/sysinfo`).
pub const SYSINFO_STAT: &'static str = "sysinfo";
/// Local DNS records (v2 `static-dns`).
pub const DNS_RESOURCE: &'static str = "static-dns";

/// Which controller flavour we are talking to; this only changes the login
/// URL and the API path prefix.
#[derive(Debug, Clone, Copy, PartialEq, Eq)]
pub enum ControllerKind {
    /// UniFi OS console (UDM/UDM-Pro/Cloud Key Gen2+, self-hosted UniFi OS):
    /// the Network application is under `/proxy/network`, login is at
    /// `/api/auth/login`.
    UnifiOs,
    /// Legacy standalone Network controller (`:8443`): login is at
    /// `/api/login` and the API lives at the host root.
    Legacy,
}


impl ControllerKind {
    /// Parse `"unifios"` / `"legacy"`, ignoring ASCII case and surrounding
    /// whitespace; anything else is `UnifiOs`.
    pub fn parse(s: &str) -> (k: Self)
        ensures
            (k == ControllerKind::Legacy) <==> ascii_lower(trim_ws(s@)) == "legacy"@,
    {
        let t = trim(s);
        let l = to_ascii_lower(t.as_str());
        if str_eq(l.as_str(), "legacy") {
            ControllerKind::Legacy
        } else {
            ControllerKind::UnifiOs
        }
    }
}

/// Connection configuration for a UniFi controller client.
#[derive(Clone)]
pub struct UnifiConfig {
    /// Controller base URL, e.g. `https://192.168.1.1` (UniFi OS) or
    /// `https://unifi.example.com:8443` (legacy); no trailing slash.
    pub host: String,
    /// Site shortname (UniFi's internal id, usually `default`).
    pub site: String,
    /// Controller flavour (login URL + path prefix).
    pub controller: ControllerKind,
    /// Authentication material.
    pub credentials: Credentials,
    /// Skip TLS certificate verification. Off by default; controllers ship a
    /// self-signed certificate, so an unmanaged one needs `insecure()`.
    pub accept_invalid_certs: bool,
}

/// Root the Network application lives under.
pub open spec fn spec_api_root(c: UnifiConfig) -> Seq<char> {
    match c.controller {
        ControllerKind::UnifiOs => c.host@ + "/proxy/network"@,
        ControllerKind::Legacy => c.host@,
    }
}

/// The site segment used in paths: the percent-encoded site shortname.
pub open spec fn spec_site(c: UnifiConfig) -> Seq<char> {
    percent_encoded(c.site@)
}

impl UnifiConfig {
    /// Configuration for a UniFi OS controller with the default site and TLS
    /// certificate verification enabled; trailing slashes of `host` are dropped.
    pub fn new(host: &str, credentials: Credentials) -> (c: Self)
        ensures
            c.host@ == trim_end_ch(host@, '/'),
            c.site@ == DEFAULT_SITE@,
            c.controller == ControllerKind::UnifiOs,
            c.credentials == credentials,
            !c.accept_invalid_certs,
    {
        UnifiConfig {
            host: trim_end_char(host, '/'),
            site: owned(DEFAULT_SITE),
            controller: ControllerKind::UnifiOs,
            credentials,
            accept_invalid_certs: false,
        }
    }

    /// Target a non-default site.
    pub fn with_site(self, site: &str) -> (c: Self)
        ensures
            c.site@ == site@,
            c.host == self.host,
            c.controller == self.controller,
            c.credentials == self.credentials,
            c.accept_invalid_certs == self.accept_invalid_certs,
    {
        UnifiConfig { site: owned(site), ..self }
    }

    /// Select the controller flavour.
    pub fn with_controller(self, controller: ControllerKind) -> (c: Self)
        ensures
            c.controller == controller,
            c.host == self.host,
            c.site == self.site,
            c.credentials == self.credentials,
            c.accept_invalid_certs == self.accept_invalid_certs,
    {
        UnifiConfig { controller, ..self }
    }

    /// Toggle acceptance of self-signed / invalid TLS certificates.
    pub fn with_accept_invalid_certs(self, accept: bool) -> (c: Self)
        ensures
            c.accept_invalid_certs == accept,
            c.host == self.host,
            c.site == self.site,
            c.controller == self.controller,
            c.credentials == self.credentials,
    {
        UnifiConfig { accept_invalid_certs: accept, ..self }
    }

    /// Skip TLS certificate verification; `with_accept_invalid_certs(true)`.
    pub fn insecure(self) -> (c: Self)
        ensures
            c.accept_invalid_certs,
            c.host == self.host,
            c.site == self.site,
            c.controller == self.controller,
            c.credentials == self.credentials,
    {
        self.with_accept_invalid_certs(true)
    }

    /// Root the Network application lives under (`/proxy/network` on UniFi OS).
    pub fn api_root(&self) -> (s: String)
        ensures
            s@ == spec_api_root(*self),
    {
        match self.controller {
            ControllerKind::UnifiOs => concat2(self.host.as_str(), "/proxy/network"),
            ControllerKind::Legacy => self.host.clone(),
        }
    }

    /// The login endpoint.
    pub fn login_url(&self) -> (s: String)
        ensures
            s@ == self.host@ + match self.controller {
                ControllerKind::UnifiOs => "/api/auth/login"@,
                ControllerKind::Legacy => "/api/login"@,
            },
    {
        match self.controller {
            ControllerKind::UnifiOs => concat2(self.host.as_str(), "/api/auth/login"),
            ControllerKind::Legacy => concat2(self.host.as_str(), "/api/login"),
        }
    }

    /// `{root}/api/s/{site}/{kind}/{name}`.
    fn site_scoped(&self, kind: &str, name: &str) -> (s: String)
        ensures
            s@ == spec_api_root(*self) + "/api/s/"@ + spec_site(*self) + "/"@ + kind@ + "/"@ + name@,
    {
        let root = self.api_root();
        let site = url_encode(self.site.as_str());
        let head = concat4(root.as_str(), "/api/s/", site.as_str(), "/");
        let s = concat4(head.as_str(), kind, "/", name);
        assert(s@ =~= spec_api_root(*self) + "/api/s/"@ + spec_site(*self) + "/"@ + kind@ + "/"@
            + name@);
        s
    }

    /// A site-scoped REST collection: `…/api/s/{site}/rest/{resource}`.
    pub fn rest_path(&self, resource: &str) -> (s: String)
        ensures
            s@ == spec_api_root(*self) + "/api/s/"@ + spec_site(*self) + "/"@ + "rest"@ + "/"@
                + resource@,
    {
        self.site_scoped("rest", resource)
    }

    /// A site-scoped stat endpoint: `…/api/s/{site}/stat/{suffix}`.
    pub fn stat_path(&self, suffix: &str) -> (s: String)
        ensures
            s@ == spec_api_root(*self) + "/api/s/"@ + spec_site(*self) + "/"@ + "stat"@ + "/"@
                + suffix@,
    {
        self.site_scoped("stat", suffix)
    }

    /// A site-scoped command manager: `…/api/s/{site}/cmd/{manager}`.
    pub fn cmd_path(&self, manager: &str) -> (s: String)
        ensures
            s@ == spec_api_root(*self) + "/api/s/"@ + spec_site(*self) + "/"@ + "cmd"@ + "/"@
                + manager@,
    {
        self.site_scoped("cmd", manager)
    }

    /// A site-scoped v2 endpoint: `…/v2/api/site/{site}/{suffix}`. The v2 API
    /// returns bare JSON rather than the `{ meta, data }` envelope.
    pub fn v2_path(&self, suffix: &str) -> (s: String)
        ensures
            s@ == spec_api_root(*self) + "/v2/api/site/"@ + spec_site(*self) + "/"@ + suffix@,
    {
        let root = self.api_root();
        let site = url_encode(self.site.as_str());
        let head = concat3(root.as_str(), "/v2/api/site/", site.as_str());
        concat3(head.as_str(), "/", suffix)
    }

    /// Sites the account can administer: `…/api/self/sites`.
    pub fn sites_url(&self) -> (s: String)
        ensures
            s@ == spec_api_root(*self) + "/api/self/sites"@,
    {
        let root = self.api_root();
        concat2(root.as_str(), "/api/self/sites")
    }
}

/// `collection` followed by `/` and the percent-encoded `id`, e.g. one REST
/// object or one device's stat entry.
pub fn item_path(collection: &str, id: &str) -> (s: String)
    ensures
        s@ == collection@ + "/"@ + percent_encoded(id@),
{
    let i = url_encode(id);
    concat3(collection, "/", i.as_str())
}

/// A v2 resource path with an object id appended as it is: `{resource}/{id}`.
pub fn v2_object(resource: &str, id: &str) -> (s: String)
    ensures
        s@ == resource@ + "/"@ + id@,
{
    concat3(resource, "/", id)
}

/// The login session shared by a client's requests.
#[derive(Debug, Clone, Default, PartialEq, Eq)]
pub struct Session {
    pub logged_in: bool,
    /// The freshest CSRF token the controller handed out.
    pub csrf: Option<String>,
}

/// The body of a login request.
#[derive(Debug, Clone, PartialEq, Eq)]
pub struct LoginRequest {
    pub username: String,
    pub password: String,
    /// Legacy controllers also take `remember: true` and `strict: true`.
    pub remember_and_strict: bool,
}

/// Whether a request must log in first: only username/password
/// credentials whose session has not logged in.
pub open spec fn spec_needs_login(s: Session, c: Credentials) -> bool {
    c is UserPass && !s.logged_in
}

/// The authentication headers of a request: the API key, or the current
/// CSRF token under session login.
pub open spec fn session_headers(s: Session, c: Credentials) -> Seq<(Seq<char>, Seq<char>)> {
    match c {
        Credentials::ApiKey(k) => seq![("X-API-KEY"@, k@)],
        Credentials::UserPass { .. } => match s.csrf {
            Some(t) => seq![("X-CSRF-Token"@, t@)],
            None => Seq::empty(),
        },
    }
}

impl Session {
    /// A session that has not logged in and holds no CSRF token.
    pub fn new() -> (s: Self)
        ensures
            !s.logged_in,
            s.csrf is None,
    {
        Session { logged_in: false, csrf: None }
    }

    /// Whether a request must log in first: only username/password
    /// credentials that have not yet logged in.
    pub fn needs_login(&self, credentials: &Credentials) -> (b: bool)
        ensures
            b == spec_needs_login(*self, *credentials),
    {
        match credentials {
            Credentials::ApiKey(_) => false,
            Credentials::UserPass { .. } => !self.logged_in,
        }
    }

    /// The session after a successful login, which may have handed out a
    /// CSRF token.
    pub fn logged_in(self, csrf: Option<String>) -> (s: Self)
        ensures
            s.logged_in,
            s.csrf == (if csrf is Some {
                csrf
            } else {
                self.csrf
            }),
    {
        Session {
            logged_in: true,
            csrf: match csrf {
                Some(c) => Some(c),
                None => self.csrf,
            },
        }
    }

    /// The session after any response: a rotated CSRF token replaces the old one.
    pub fn observed(self, csrf: Option<String>) -> (s: Self)
        ensures
            s.logged_in == self.logged_in,
            s.csrf == (if csrf is Some {
                csrf
            } else {
                self.csrf
            }),
    {
        Session {
            logged_in: self.logged_in,
            csrf: match csrf {
                Some(c) => Some(c),
                None => self.csrf,
            },
        }
    }

    /// The authentication headers of a request: the API key, or the current
    /// CSRF token under session login.
    pub fn request_headers(&self, credentials: &Credentials) -> (r: Vec<(String, String)>)
        ensures
            r@.map_values(|h: (String, String)| (h.0@, h.1@)) == session_headers(*self, *credentials),
    {
        let mut r: Vec<(String, String)> = Vec::new();
        match credentials {
            Credentials::ApiKey(k) => {
                r.push((owned("X-API-KEY"), k.clone()));
            },
            Credentials::UserPass { .. } => {
                if let Some(c) = &self.csrf {
                    r.push((owned("X-CSRF-Token"), c.clone()));
                }
            },
        }
        assert(r@.map_values(|h: (String, String)| (h.0@, h.1@)) =~= session_headers(
            *self,
            *credentials,
        ));
        r
    }
}

impl UnifiConfig {
    /// The login request for the configured credentials, or `None` for an
    /// API key, which has no login step.
    pub fn login_request(&self) -> (r: Option<LoginRequest>)
        ensures
            match self.credentials {
                Credentials::ApiKey(_) => r is None,
                Credentials::UserPass { username, password } => r matches Some(l) && l.username
                    == username && l.password == password && l.remember_and_strict == (
                self.controller == ControllerKind::Legacy),
            },
    {
        match &self.credentials {
            Credentials::UserPass { username, password } => Some(
                LoginRequest {
                    username: username.clone(),
                    password: password.clone(),
                    remember_and_strict: match self.controller {
                        ControllerKind::Legacy => true,
                        ControllerKind::UnifiOs => false,
                    },
                },
            ),
            Credentials::ApiKey(_) => None,
        }
    }
}

/// The first non-empty CSRF token among the `x-updated-csrf-token` and
/// `x-csrf-token` response headers (each given when present and readable).
pub fn pick_csrf(updated: Option<String>, plain: Option<String>) -> (r: Option<String>)
    ensures
        r == (if updated is Some && updated.unwrap()@.len() > 0 {
            updated
        } else if plain is Some && plain.unwrap()@.len() > 0 {
            plain
        } else {
            None
        }),
{
    if let Some(u) = &updated {
        if !is_empty_str(u.as_str()) {
            return updated;
        }
    }
    if let Some(p) = &plain {
        if !is_empty_str(p.as_str()) {
            return plain;
        }
    }
    None
}

/// Take the first item: `create`/`update` always echo the affected object
/// back, so an empty payload is an error.
pub fn first_item<T>(items: Vec<T>, what: &str) -> (r: Result<T, UnifiError>)
    ensures
        items@.len() > 0 ==> r == Ok::<T, UnifiError>(items@[0]),
        items@.len() == 0 ==> (r matches Err(UnifiError::Api { status, message }) && status == 200
            && message@ == "unifi returned no "@ + what@),
{
    let mut items = items;
    if items.len() == 0 {
        return Err(UnifiError::Api { status: 200, message: concat2("unifi returned no ", what) });
    }
    Ok(items.remove(0))
}

/// The first item, if any (a single device by MAC, the controller's sysinfo).
pub fn first_entry<T>(items: Vec<T>) -> (r: Option<T>)
    ensures
        items@.len() > 0 ==> r == Some(items@[0]),
        items@.len() == 0 ==> r is None,
{
    let mut items = items;
    if items.len() == 0 {
        None
    } else {
        Some(items.remove(0))
    }
}

/// The message of an error response: the envelope's `msg` when present and
/// non-empty, otherwise the raw body.
pub open spec fn api_error_message(body: Seq<char>, meta: Option<Meta>) -> Seq<char> {
    match meta {
        Some(m) => match m.msg {
            Some(x) => if x@.len() > 0 {
                x@
            } else {
                body
            },
            None => body,
        },
        None => body,
    }
}

/// The outcome of a decoded `{ meta, data }` envelope read from `body`: its
/// data when the status is 2xx and `meta` reports success; otherwise the API
/// error, with the envelope's `msg` or else the raw body as message.
pub fn envelope_outcome<T>(status: u16, body: &str, env: UnifiResponse<T>) -> (r: Result<
    Vec<T>,
    UnifiError,
>)
    ensures
        200 <= status <= 299 && meta_ok(env.meta) ==> r == Ok::<Vec<T>, UnifiError>(env.data),
        !(200 <= status <= 299 && meta_ok(env.meta)) ==> (r matches Err(
            UnifiError::Api { status: s, message: m },
        ) && s == status && m@ == api_error_message(body@, Some(env.meta))),
{
    if 200 <= status && status <= 299 && env.meta.is_ok() {
        return Ok(env.data);
    }
    Err(api_error(status, body, Some(env.meta)))
}

/// Render an error response; `meta` is the body's envelope metadata, when
/// the body is an envelope.
pub fn api_error(status: u16, body: &str, meta: Option<Meta>) -> (e: UnifiError)
    ensures
        e matches UnifiError::Api { status: s, message: m } && s == status && m@
            == api_error_message(body@, meta),
{
    let from_msg = match meta {
        Some(m) => match m.msg {
            Some(x) => if is_empty_str(x.as_str()) {
                None
            } else {
                Some(x)
            },
            None => None,
        },
        None => None,
    };
    let message = match from_msg {
        Some(x) => x,
        None => owned(body),
    };
    UnifiError::Api { status, message }
}

/// The outcome of a body that is not a valid envelope of the expected data:
/// a decoding error on a success status, the API error otherwise.
pub fn undecodable_outcome(status: u16, body: &str, json_error: String, meta: Option<Meta>) -> (e:
    UnifiError)
    ensures
        200 <= status <= 299 ==> e == UnifiError::Json(json_error),
        !(200 <= status <= 299) ==> (e matches UnifiError::Api { status: s, message: m } && s
            == status && m@ == api_error_message(body@, meta)),
{
    if 200 <= status && status <= 299 {
        UnifiError::Json(json_error)
    } else {
        api_error(status, body, meta)
    }
}

/// A failed login, reported as an authentication error carrying the
/// rendering of the API error.
pub fn login_error(status: u16, body: &str, meta: Option<Meta>) -> (e: UnifiError)
    ensures
        e matches UnifiError::Auth(m) && m@ == "unifi api error "@ + decimal(status as nat) + ": "@
            + api_error_message(body@, meta),
{
    let err = api_error(status, body, meta);
    let text = err.to_display_string();
    UnifiError::Auth(text)
}

/// The fields of a v2 error body that matter.
#[derive(Debug, Clone, PartialEq, Eq)]
pub struct V2Error {
    pub message: Option<String>,
    /// The `errorCode` field.
    pub error_code: Option<String>,
}

/// The message of a v2 error: `message`, else `errorCode`, when non-empty;
/// else the trimmed body.
pub open spec fn v2_error_message(body: Seq<char>, parsed: Option<V2Error>) -> Seq<char> {
    let candidate = match parsed {
        Some(e) => match e.message {
            Some(m) => Some(m@),
            None => opt_str(e.error_code),
        },
        None => None,
    };
    match candidate {
        Some(m) if m.len() > 0 => m,
        _ => trim_ws(body),
    }
}

/// Render a v2 error response; `parsed` is the body read as a v2 error
/// object, when it is one.
pub fn v2_error(status: u16, body: &str, parsed: Option<V2Error>) -> (e: UnifiError)
    ensures
        e matches UnifiError::Api { status: s, message: m } && s == status && m@
            == v2_error_message(body@, parsed),
{
    let candidate = match parsed {
        Some(e) => match e.message {
            Some(m) => Some(m),
            None => e.error_code,
        },
        None => None,
    };
    let message = match candidate {
        Some(m) => if is_empty_str(m.as_str()) {
            trim(body)
        } else {
            m
        },
        None => trim(body),
    };
    UnifiError::Api { status, message }
}

/// The outcome of a v2 status: success, or the v2 error the body reports.
pub fn v2_check_status(status: u16, body: &str, parsed: Option<V2Error>) -> (r: Result<
    (),
    UnifiError,
>)
    ensures
        r is Ok <==> 200 <= status <= 299,
        r matches Err(UnifiError::Api { status: s, message: m }) ==> s == status && m@
            == v2_error_message(body@, parsed),
        r is Err ==> r->Err_0 is Api,
{
    if 200 <= status && status <= 299 {
        Ok(())
    } else {
        Err(v2_error(status, body, parsed))
    }
}


/// An API key never logs in, and every request carries it, whatever the
/// session holds.
pub proof fn lemma_api_key_needs_no_session(s: Session, c: Credentials)
    requires
        c is ApiKey,
    ensures
        !spec_needs_login(s, c),
        session_headers(s, c) == seq![("X-API-KEY"@, c->ApiKey_0@)],
{
}

/// A logged-in session stays logged in across responses, and the freshest
/// CSRF token a response hands out is the one the next request replays.
pub proof fn lemma_csrf_rotation(s: Session, c: Credentials, t: String)
    requires
        c is UserPass,
        s.logged_in,
    ensures
        !spec_needs_login(Session { logged_in: s.logged_in, csrf: Some(t) }, c),
        session_headers(Session { logged_in: s.logged_in, csrf: Some(t) }, c) == seq![
            ("X-CSRF-Token"@, t@),
        ],
{
}

/// The controller flavour only changes the path prefix: on UniFi OS every
/// API path is the legacy one with `/proxy/network` after the host.
pub proof fn lemma_controller_only_moves_root(a: UnifiConfig, b: UnifiConfig)
    requires
        a.host == b.host,
        a.site == b.site,
        a.controller == ControllerKind::UnifiOs,
        b.controller == ControllerKind::Legacy,
    ensures
        spec_api_root(a) == spec_api_root(b) + "/proxy/network"@,
        spec_site(a) == spec_site(b),
{
}

} // verus!
