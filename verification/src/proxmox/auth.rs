//! Proxmox VE authentication (API token and login ticket flows).
//!
//! - **API token**: a `user@realm!tokenid` identifier plus a secret UUID, sent
//!   in a single `Authorization: PVEAPIToken=...` header; no CSRF token, even
//!   for writes.
//! - **Login ticket**: `user@realm` and password exchanged at `/access/ticket`
//!   for a ticket (sent in the `PVEAuthCookie` cookie) and a
//!   `CSRFPreventionToken` that accompanies every mutating request.

use vstd::prelude::*;
use crate::proxmox::error::ProxmoxError;
use crate::text::{concat2, concat3, concat4, debug_quoted, debug_str, decimal, owned, trim, trim_end_ch,
    trim_end_char, trim_ws, u64_to_decimal};

verus! {

/// Proxmox login tickets are valid for two hours.
pub const TICKET_LIFETIME_SECS: u64 = 7200;

/// A cached ticket is refreshed once less than ten minutes of it remain.
pub const TICKET_REFRESH_SKEW_SECS: u64 = 600;

/// Authentication material for Proxmox VE API calls.
#[derive(Clone, PartialEq, Eq)]
pub enum Auth {
    /// API token: `Authorization: PVEAPIToken=<token_id>=<secret>`.
    ApiToken {
        /// Full token identifier, e.g. `root@pam!automation`.
        token_id: String,
        /// Token secret (UUID issued by Proxmox).
        secret: String,
    },
    /// Username/password login that exchanges credentials for a ticket + CSRF token.
    Ticket {
        /// Username including realm, e.g. `root@pam`.
        username: String,
        /// Account password.
        password: String,
    },
}

/// A login ticket with its CSRF token and expiry (seconds since the epoch).
#[derive(Debug, Clone, PartialEq, Eq)]
pub struct CachedTicket {
    pub ticket: String,
    pub csrf_token: String,
    pub expires_at: u64,
}

/// The ticket behind an optional reference.
pub open spec fn owned_ticket(t: Option<&CachedTicket>) -> Option<CachedTicket> {
    match t {
        Some(x) => Some(*x),
        None => None,
    }
}

/// Headers as pairs of character sequences.
pub open spec fn headers_view(v: Seq<(String, String)>) -> Seq<(Seq<char>, Seq<char>)> {
    v.map_values(|h: (String, String)| (h.0@, h.1@))
}

/// The headers a request carries for `auth`; `ticket` is the current login
/// ticket under ticket authentication.
pub open spec fn auth_headers(auth: Auth, ticket: Option<CachedTicket>, is_write: bool) -> Seq<
    (Seq<char>, Seq<char>),
> {
    match auth {
        Auth::ApiToken { token_id, secret } => seq![
            ("Authorization"@, "PVEAPIToken="@ + token_id@ + "="@ + secret@),
        ],
        Auth::Ticket { .. } => {
            let t = ticket.unwrap();
            let cookie = seq![("Cookie"@, "PVEAuthCookie="@ + t.ticket@)];
            if is_write {
                cookie.push(("CSRFPreventionToken"@, t.csrf_token@))
            } else {
                cookie
            }
        },
    }
}

/// The `Debug` rendering of credentials: identifiers shown, secrets redacted.
pub open spec fn auth_debug_text(auth: Auth) -> Seq<char> {
    match auth {
        Auth::ApiToken { token_id, .. } => "ApiToken { token_id: "@ + debug_quoted(token_id@)
            + ", secret: \"<redacted>\" }"@,
        Auth::Ticket { username, .. } => "Ticket { username: "@ + debug_quoted(username@)
            + ", password: \"<redacted>\" }"@,
    }
}

impl Auth {
    /// API token authentication. `token_id` includes realm and token name
    /// (`user@realm!tokenid`); `secret` is the issued token value.
    pub fn api_token(token_id: &str, secret: &str) -> (a: Self)
        ensures
            a matches Auth::ApiToken { token_id: t, secret: s } && t@ == token_id@ && s@ == secret@,
    {
        Auth::ApiToken { token_id: owned(token_id), secret: owned(secret) }
    }

    /// Ticket (login) authentication. `username` includes the realm, e.g. `root@pam`.
    pub fn ticket(username: &str, password: &str) -> (a: Self)
        ensures
            a matches Auth::Ticket { username: u, password: p } && u@ == username@ && p@
                == password@,
    {
        Auth::Ticket { username: owned(username), password: owned(password) }
    }

    /// Whether this credential needs a login ticket before a request.
    pub fn needs_ticket(&self) -> (b: bool)
        ensures
            b == (*self is Ticket),
    {
        match self {
            Auth::ApiToken { .. } => false,
            Auth::Ticket { .. } => true,
        }
    }

    /// The headers to attach to an outgoing request. `is_write` selects the
    /// CSRF header, which ticket authentication requires on
    /// `POST`/`PUT`/`DELETE`.
    pub fn request_headers(&self, ticket: Option<&CachedTicket>, is_write: bool) -> (r: Vec<
        (String, String),
    >)
        requires
            *self is Ticket ==> ticket is Some,
        ensures
            headers_view(r@) == auth_headers(*self, owned_ticket(ticket), is_write),
    {
        let mut r: Vec<(String, String)> = Vec::new();
        match self {
            Auth::ApiToken { token_id, secret } => {
                let value = concat4("PVEAPIToken=", token_id.as_str(), "=", secret.as_str());
                r.push((owned("Authorization"), value));
            },
            Auth::Ticket { .. } => {
                let t = ticket.unwrap();
                r.push((owned("Cookie"), concat2("PVEAuthCookie=", t.ticket.as_str())));
                if is_write {
                    r.push((owned("CSRFPreventionToken"), t.csrf_token.clone()));
                }
            },
        }
        assert(headers_view(r@) =~= auth_headers(*self, owned_ticket(ticket), is_write));
        r
    }

    /// `Debug`-style rendering with the secret or password redacted.
    pub fn debug_string(&self) -> (s: String)
        ensures
            s@ == auth_debug_text(*self),
    {
        match self {
            Auth::ApiToken { token_id, .. } => {
                let q = debug_str(token_id.as_str());
                concat3("ApiToken { token_id: ", q.as_str(), ", secret: \"<redacted>\" }")
            },
            Auth::Ticket { username, .. } => {
                let q = debug_str(username.as_str());
                concat3("Ticket { username: ", q.as_str(), ", password: \"<redacted>\" }")
            },
        }
    }
}

/// Two credentials that differ only in their secret render the same.
pub proof fn lemma_debug_hides_secret(a: Auth, b: Auth)
    requires
        (a matches Auth::ApiToken { token_id: t1, .. } && b matches Auth::ApiToken {
            token_id: t2,
            ..
        } && t1@ == t2@) || (a matches Auth::Ticket { username: u1, .. } && b matches Auth::Ticket {
            username: u2,
            ..
        } && u1@ == u2@),
    ensures
        auth_debug_text(a) == auth_debug_text(b),
{
}

impl CachedTicket {
    /// A ticket just issued at time `now`; it expires after
    /// [`TICKET_LIFETIME_SECS`].
    pub fn issued(ticket: String, csrf_token: String, now: u64) -> (t: Self)
        requires
            now + TICKET_LIFETIME_SECS <= u64::MAX,
        ensures
            t.ticket == ticket,
            t.csrf_token == csrf_token,
            t.expires_at == now + TICKET_LIFETIME_SECS,
    {
        CachedTicket { ticket, csrf_token, expires_at: now + TICKET_LIFETIME_SECS }
    }

    /// Whether the cached ticket can still be used at time `now`: more than
    /// [`TICKET_REFRESH_SKEW_SECS`] of it remain.
    pub fn is_fresh(&self, now: u64) -> (b: bool)
        requires
            now + TICKET_REFRESH_SKEW_SECS <= u64::MAX,
        ensures
            b == (self.expires_at > now + TICKET_REFRESH_SKEW_SECS),
    {
        self.expires_at > now + TICKET_REFRESH_SKEW_SECS
    }
}

/// A ticket issued at `issued_at` is reused at every time `now` that is less
/// than its lifetime minus the refresh margin later, and refreshed from then on.
pub proof fn lemma_ticket_fresh_window(issued_at: u64, now: u64)
    requires
        issued_at + TICKET_LIFETIME_SECS <= u64::MAX,
        now + TICKET_REFRESH_SKEW_SECS <= u64::MAX,
    ensures
        (issued_at + TICKET_LIFETIME_SECS > now + TICKET_REFRESH_SKEW_SECS) <==> (now < issued_at
            + (TICKET_LIFETIME_SECS - TICKET_REFRESH_SKEW_SECS)),
{
}

/// The error reported when the ticket endpoint answers with a failure status.
pub fn ticket_request_error(status: u16, body: &str) -> (e: ProxmoxError)
    ensures
        e matches ProxmoxError::Auth(m) && m@ == "ticket request failed ("@ + decimal(status as nat)
            + "): "@ + trim_ws(body@),
{
    let code = u64_to_decimal(status as u64);
    let trimmed = trim(body);
    let head = concat3("ticket request failed (", code.as_str(), "): ");
    ProxmoxError::Auth(concat2(head.as_str(), trimmed.as_str()))
}


/// The ticket endpoint below the API root `api_base` (trailing slashes of
/// the root dropped).
pub fn ticket_url(api_base: &str) -> (s: String)
    ensures
        s@ == trim_end_ch(api_base@, '/') + "/access/ticket"@,
{
    let base = trim_end_char(api_base, '/');
    concat2(base.as_str(), "/access/ticket")
}


/// A write carries exactly the headers of a read, plus the CSRF token under
/// ticket authentication; an API token sends the same header either way.
pub proof fn lemma_write_headers_extend_read(auth: Auth, ticket: Option<CachedTicket>)
    requires
        auth is Ticket ==> ticket is Some,
    ensures
        auth is ApiToken ==> auth_headers(auth, ticket, true) == auth_headers(auth, ticket, false),
        auth is Ticket ==> auth_headers(auth, ticket, true) == auth_headers(auth, ticket, false).push(
            ("CSRFPreventionToken"@, ticket.unwrap().csrf_token@),
        ),
{
}


impl CachedTicket {
    /// A copy of the ticket.
    pub fn copy(&self) -> (t: Self)
        ensures
            t == *self,
    {
        CachedTicket {
            ticket: self.ticket.clone(),
            csrf_token: self.csrf_token.clone(),
            expires_at: self.expires_at,
        }
    }
}

/// The ticket a request can use at time `now` without logging in: the cached
/// one while it is fresh. `None` means a new ticket must be fetched.
pub fn reusable_ticket(cache: &Option<CachedTicket>, now: u64) -> (r: Option<CachedTicket>)
    requires
        now + TICKET_REFRESH_SKEW_SECS <= u64::MAX,
    ensures
        r == (if cache is Some && cache.unwrap().expires_at > now + TICKET_REFRESH_SKEW_SECS {
            *cache
        } else {
            None
        }),
{
    match cache {
        Some(c) => if c.is_fresh(now) {
            Some(c.copy())
        } else {
            None
        },
        None => None,
    }
}

/// The ticket cache after a fetch, and what the request gets: a fetched
/// ticket is stored and used; a failed fetch leaves the cache as it was and
/// reports its error.
pub fn ticket_fetched(cache: Option<CachedTicket>, fetched: Result<CachedTicket, ProxmoxError>) -> (r: (
    Option<CachedTicket>,
    Result<CachedTicket, ProxmoxError>,
))
    ensures
        r.1 == fetched,
        fetched is Ok ==> r.0 == Some(fetched->Ok_0),
        fetched is Err ==> r.0 == cache,
{
    match fetched {
        Ok(t) => {
            let stored = t.copy();
            (Some(stored), Ok(t))
        },
        Err(e) => (cache, Err(e)),
    }
}

} // verus!
