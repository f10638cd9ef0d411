//! UniFi controller authentication material.

use vstd::prelude::*;
use crate::text::{concat3, debug_quoted, debug_str, owned};

verus! {

/// How the client authenticates to the controller.
///
/// - `UserPass`: the local-admin login flow. The client logs in, keeps the
///   session cookie, and replays the rotating CSRF token on mutating
///   requests. The REST resource endpoints require this flow.
/// - `ApiKey`: a controller API key sent as `X-API-KEY` on every request,
///   with no login step (UniFi Network 9+).
#[derive(Clone, PartialEq, Eq)]
pub enum Credentials {
    /// Local controller administrator username + password.
    UserPass { username: String, password: String },
    /// A controller API key (`X-API-KEY`).
    ApiKey(String),
}

/// The `Debug` rendering of credentials: the username shown, secrets redacted.
pub open spec fn credentials_debug_text(c: Credentials) -> Seq<char> {
    match c {
        Credentials::UserPass { username, .. } => "UserPass { username: "@ + debug_quoted(username@)
            + ", password: \"<redacted>\" }"@,
        Credentials::ApiKey(_) => "ApiKey(\"<redacted>\")"@,
    }
}

impl Credentials {
    /// Username + password session login.
    pub fn user_pass(username: &str, password: &str) -> (c: Self)
        ensures
            c matches Credentials::UserPass { username: u, password: p } && u@ == username@ && p@
                == password@,
    {
        Credentials::UserPass { username: owned(username), password: owned(password) }
    }

    /// Controller API key (`X-API-KEY`).
    pub fn api_key(key: &str) -> (c: Self)
        ensures
            c matches Credentials::ApiKey(k) && k@ == key@,
    {
        Credentials::ApiKey(owned(key))
    }

    /// `Debug`-style rendering with the password or key redacted.
    pub fn debug_string(&self) -> (s: String)
        ensures
            s@ == credentials_debug_text(*self),
    {
        match self {
            Credentials::UserPass { username, .. } => {
                let q = debug_str(username.as_str());
                concat3("UserPass { username: ", q.as_str(), ", password: \"<redacted>\" }")
            },
            Credentials::ApiKey(_) => owned("ApiKey(\"<redacted>\")"),
        }
    }
}

/// Credentials that differ only in their password, or two API keys, render
/// the same.
pub proof fn lemma_debug_hides_secret(a: Credentials, b: Credentials)
    requires
        (a matches Credentials::UserPass { username: u1, .. } && b matches Credentials::UserPass {
            username: u2,
            ..
        } && u1@ == u2@) || (a is ApiKey && b is ApiKey),
    ensures
        credentials_debug_text(a) == credentials_debug_text(b),
{
}

} // verus!
