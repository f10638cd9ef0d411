//! STACKIT service-account authentication (token and key flows).
//!
//! - Token: a long-lived service-account token sent as a bearer token.
//! - Key flow: a short-lived JWT signed with the service-account private key
//!   is exchanged at the token endpoint for a bearer access token, which is
//!   reused until shortly before it expires.

use vstd::prelude::*;
use crate::encoding::{percent_encoded, url_encode};
use crate::stackit::error::StackitError;
use crate::text::{concat2, concat3, concat4, debug_quoted, debug_str, decimal, is_empty_str, json_quote,
    json_string, owned, opt_str, u64_to_decimal};

verus! {

/// Token endpoint used when the key names none.
pub const DEFAULT_TOKEN_URL: &'static str = "https://service-account.api.stackit.cloud/token";

/// Lifetime of the signed assertion, and default lifetime of an access token.
pub const ASSERTION_LIFETIME_SECS: u64 = 3600;

/// An access token is replaced once a minute or less of it remains.
pub const TOKEN_REFRESH_SKEW_SECS: u64 = 60;

/// JWT signing metadata embedded in a service-account key.
#[derive(Debug, Clone, PartialEq, Eq)]
pub struct ServiceAccountKeyCredentials {
    pub aud: String,
    pub iss: String,
    pub kid: String,
    pub sub: String,
    pub private_key: Option<String>,
    pub token_endpoint: Option<String>,
}

/// Service-account key returned by the STACKIT portal or API.
#[derive(Debug, Clone, PartialEq, Eq)]
pub struct ServiceAccountKey {
    pub id: String,
    pub credentials: ServiceAccountKeyCredentials,
    pub active: bool,
}

/// Authentication material for STACKIT API calls.
#[derive(Clone, PartialEq, Eq)]
pub enum Auth {
    /// `Authorization: Bearer <service-account-token>`.
    Token(String),
    /// Key flow: sign a short-lived JWT with the service-account private key
    /// and exchange it for a bearer access token.
    ServiceAccountKey {
        key: ServiceAccountKey,
        /// PEM-encoded RSA private key; when absent, the key embedded in
        /// [`ServiceAccountKey`] is used.
        private_key: Option<String>,
    },
}

/// The token endpoint a key names, or the default one when it names none
/// (or an empty one).
pub open spec fn spec_token_url(key: ServiceAccountKey) -> Seq<char> {
    match key.credentials.token_endpoint {
        Some(u) => if u@.len() > 0 {
            u@
        } else {
            DEFAULT_TOKEN_URL@
        },
        None => DEFAULT_TOKEN_URL@,
    }
}

impl ServiceAccountKey {
    /// The token endpoint to exchange assertions at.
    pub fn token_url(&self) -> (u: String)
        ensures
            u@ == spec_token_url(*self),
    {
        match &self.credentials.token_endpoint {
            Some(url) => if is_empty_str(url.as_str()) {
                owned(DEFAULT_TOKEN_URL)
            } else {
                url.clone()
            },
            None => owned(DEFAULT_TOKEN_URL),
        }
    }

    /// The PEM to sign with: the override when given, else the key's own.
    pub fn private_key_pem<'a>(&'a self, override_key: Option<&'a str>) -> (r: std::result::Result<
        &'a str,
        StackitError,
    >)
        ensures
            override_key is Some ==> r == Ok::<&str, StackitError>(override_key.unwrap()),
            override_key is None && self.credentials.private_key is Some ==> r is Ok && r->Ok_0@
                == self.credentials.private_key.unwrap()@,
            override_key is None && self.credentials.private_key is None ==> (r matches Err(
                StackitError::Auth(m),
            ) && m@ == "service account private key is not set"@),
    {
        if let Some(key) = override_key {
            return Ok(key);
        }
        match &self.credentials.private_key {
            Some(k) => Ok(k.as_str()),
            None => Err(StackitError::Auth(owned("service account private key is not set"))),
        }
    }
}

/// The `Debug` rendering of credentials: the key id shown, secrets redacted.
pub open spec fn auth_debug_text(auth: Auth) -> Seq<char> {
    match auth {
        Auth::Token(_) => "Token(\"<redacted>\")"@,
        Auth::ServiceAccountKey { key, .. } => "ServiceAccountKey { key_id: "@ + debug_quoted(key.id@)
            + ", private_key: \"<redacted>\" }"@,
    }
}

/// The `Authorization` header value for `auth`; `access_token` is the
/// current key-flow access token.
pub open spec fn spec_authorization(auth: Auth, access_token: Option<Seq<char>>) -> Seq<char> {
    match auth {
        Auth::Token(t) => "Bearer "@ + t@,
        Auth::ServiceAccountKey { .. } => "Bearer "@ + access_token.unwrap(),
    }
}

impl Auth {
    /// Bearer token authentication.
    pub fn token(token: &str) -> (a: Self)
        ensures
            a matches Auth::Token(t) && t@ == token@,
    {
        Auth::Token(owned(token))
    }

    /// Key-flow authentication from a parsed service-account key.
    pub fn service_account_key(key: ServiceAccountKey, private_key: Option<String>) -> (a: Self)
        ensures
            a == (Auth::ServiceAccountKey { key, private_key }),
    {
        Auth::ServiceAccountKey { key, private_key }
    }

    /// Whether requests need a key-flow access token first.
    pub fn uses_key_flow(&self) -> (b: bool)
        ensures
            b == (*self is ServiceAccountKey),
    {
        match self {
            Auth::Token(_) => false,
            Auth::ServiceAccountKey { .. } => true,
        }
    }

    /// The `Authorization` header value.
    pub fn authorization_value(&self, access_token: Option<&str>) -> (v: String)
        requires
            *self is ServiceAccountKey ==> access_token is Some,
        ensures
            v@ == spec_authorization(
                *self,
                match access_token {
                    Some(t) => Some(t@),
                    None => None,
                },
            ),
    {
        match self {
            Auth::Token(t) => concat2("Bearer ", t.as_str()),
            Auth::ServiceAccountKey { .. } => concat2("Bearer ", access_token.unwrap()),
        }
    }

    /// `Debug`-style rendering with the token or private key redacted.
    pub fn debug_string(&self) -> (s: String)
        ensures
            s@ == auth_debug_text(*self),
    {
        match self {
            Auth::Token(_) => owned("Token(\"<redacted>\")"),
            Auth::ServiceAccountKey { key, .. } => {
                let q = debug_str(key.id.as_str());
                concat3("ServiceAccountKey { key_id: ", q.as_str(), ", private_key: \"<redacted>\" }")
            },
        }
    }
}

/// The claims of the assertion signed in the key flow.
#[derive(Debug, Clone, PartialEq, Eq)]
pub struct JwtClaims {
    pub iss: String,
    pub sub: String,
    /// Unique token id.
    pub jti: String,
    pub aud: String,
    /// Issued at, seconds since the epoch.
    pub iat: u64,
    /// Expiry, seconds since the epoch.
    pub exp: u64,
}

impl JwtClaims {
    /// The claims asserting `key` at time `now`, valid for an hour.
    pub fn for_key(key: &ServiceAccountKey, jti: String, now: u64) -> (c: Self)
        requires
            now + ASSERTION_LIFETIME_SECS <= u64::MAX,
        ensures
            c.iss@ == key.credentials.iss@,
            c.sub@ == key.credentials.sub@,
            c.aud@ == key.credentials.aud@,
            c.jti == jti,
            c.iat == now,
            c.exp == now + ASSERTION_LIFETIME_SECS,
    {
        JwtClaims {
            iss: key.credentials.iss.clone(),
            sub: key.credentials.sub.clone(),
            jti,
            aud: key.credentials.aud.clone(),
            iat: now,
            exp: now + ASSERTION_LIFETIME_SECS,
        }
    }
}

/// The form body of the token request for a signed assertion.
pub open spec fn spec_token_request_body(assertion: Seq<char>) -> Seq<char> {
    "grant_type=urn%3Aietf%3Aparams%3Aoauth%3Agrant-type%3Ajwt-bearer&assertion="@
        + percent_encoded(assertion)
}

/// The `application/x-www-form-urlencoded` body exchanging `assertion` for
/// an access token.
pub fn token_request_body(assertion: &str) -> (b: String)
    ensures
        b@ == spec_token_request_body(assertion@),
{
    let enc = url_encode(assertion);
    concat2(
        "grant_type=urn%3Aietf%3Aparams%3Aoauth%3Agrant-type%3Ajwt-bearer&assertion=",
        enc.as_str(),
    )
}

/// A key-flow access token and its expiry (seconds since the epoch).
#[derive(Debug, Clone, PartialEq, Eq)]
pub struct CachedToken {
    pub access_token: String,
    pub expires_at: u64,
}

/// Lifetime granted to a token: the `expires_in` of the response, or an hour.
pub open spec fn granted_lifetime(expires_in: Option<u64>) -> u64 {
    match expires_in {
        Some(e) => e,
        None => ASSERTION_LIFETIME_SECS,
    }
}

impl CachedToken {
    /// A token received at time `now` with the response's `expires_in`.
    pub fn issued(access_token: String, expires_in: Option<u64>, now: u64) -> (t: Self)
        requires
            now + granted_lifetime(expires_in) <= u64::MAX,
        ensures
            t.access_token == access_token,
            t.expires_at == now + granted_lifetime(expires_in),
    {
        let lifetime = match expires_in {
            Some(e) => e,
            None => ASSERTION_LIFETIME_SECS,
        };
        CachedToken { access_token, expires_at: now + lifetime }
    }

    /// Whether the token can still be used at time `now`: more than
    /// [`TOKEN_REFRESH_SKEW_SECS`] of it remain.
    pub fn is_fresh(&self, now: u64) -> (b: bool)
        requires
            now + TOKEN_REFRESH_SKEW_SECS <= u64::MAX,
        ensures
            b == (self.expires_at > now + TOKEN_REFRESH_SKEW_SECS),
    {
        self.expires_at > now + TOKEN_REFRESH_SKEW_SECS
    }
}


/// The JSON text of assertion claims as `serde_json` writes them: the
/// fields in the order `iss`, `sub`, `jti`, `aud`, `iat`, `exp`, strings as
/// JSON string literals, times in decimal.
pub open spec fn claims_text(
    iss: Seq<char>,
    sub: Seq<char>,
    jti: Seq<char>,
    aud: Seq<char>,
    iat: u64,
    exp: u64,
) -> Seq<char> {
    "{\"iss\":"@ + json_string(iss) + ",\"sub\":"@ + json_string(sub) + ",\"jti\":"@ + json_string(
        jti,
    ) + ",\"aud\":"@ + json_string(aud) + ",\"iat\":"@ + decimal(iat as nat) + ",\"exp\":"@
        + decimal(exp as nat) + "}"@
}

/// The JSON text of `c`.
pub open spec fn claims_json(c: JwtClaims) -> Seq<char> {
    claims_text(c.iss@, c.sub@, c.jti@, c.aud@, c.iat, c.exp)
}

impl JwtClaims {
    /// The claims as the JSON object the assertion carries.
    pub fn to_json(&self) -> (s: String)
        ensures
            s@ == claims_json(*self),
    {
        let iss = json_quote(self.iss.as_str());
        let sub = json_quote(self.sub.as_str());
        let jti = json_quote(self.jti.as_str());
        let aud = json_quote(self.aud.as_str());
        let iat = u64_to_decimal(self.iat);
        let exp = u64_to_decimal(self.exp);
        let a = concat4("{\"iss\":", iss.as_str(), ",\"sub\":", sub.as_str());
        let b = concat4(",\"jti\":", jti.as_str(), ",\"aud\":", aud.as_str());
        let c = concat4(",\"iat\":", iat.as_str(), ",\"exp\":", exp.as_str());
        let r = concat4(a.as_str(), b.as_str(), c.as_str(), "}");
        assert(r@ =~= claims_json(*self));
        r
    }
}

/// The error type of `jsonwebtoken`.
#[verifier::external_type_specification]
#[verifier::external_body]
pub struct ExJwtError(jsonwebtoken::errors::Error);

/// Name for what `jsonwebtoken::encode` produces for an RS512 header
/// carrying `kid`, the claims JSON text `claims`, and the RSA private key in
/// the PEM text `pem`: the compact JWS, or `None` when it fails.
pub uninterp spec fn rs512_jwt(kid: Seq<char>, claims: Seq<char>, pem: Seq<char>) -> Option<
    Seq<char>,
>;

/// `jsonwebtoken::encode` with an RS512 header whose `kid` is `kid`, the
/// claims JSON text `claims` carried verbatim, and the key read by
/// `EncodingKey::from_rsa_pem` from `pem`. Whether it succeeds, and the
/// token it gives, are the named result of those three arguments alone: key
/// parsing is a function of the PEM, and RSA PKCS#1 v1.5 signing is
/// deterministic. Which PEM texts it accepts is left unsaid.
#[verifier::external_body]
fn encode_rs512(kid: &str, claims: &str, pem: &str) -> (r: Result<String, jsonwebtoken::errors::Error>)
    ensures
        r is Ok <==> rs512_jwt(kid@, claims@, pem@) is Some,
        r matches Ok(t) ==> rs512_jwt(kid@, claims@, pem@) == Some(t@),
{
    let key = jsonwebtoken::EncodingKey::from_rsa_pem(pem.as_bytes())?;
    let raw = serde_json::value::RawValue::from_string(claims.to_string())?;
    let mut header = jsonwebtoken::Header::new(jsonwebtoken::Algorithm::RS512);
    header.kid = Some(kid.to_string());
    jsonwebtoken::encode(&header, &raw, &key)
}

/// The text of a `jsonwebtoken` error (its `Display`). Every such text starts
/// with an upper-case ASCII letter: the name of the error kind, or one of
/// the prefixes `Missing`, `RSA`, `JSON`, `UTF-8`, `Crypto`, `Base64`.
#[verifier::external_body]
fn jwt_error_text(e: &jsonwebtoken::errors::Error) -> (r: String)
    ensures
        r@.len() > 0,
        'A' <= r@[0] <= 'Z',
{
    e.to_string()
}

/// The PEM the key flow signs with: the override when given, else the key's
/// own, if any.
pub open spec fn signing_pem(key: ServiceAccountKey, override_key: Option<Seq<char>>) -> Option<
    Seq<char>,
> {
    match override_key {
        Some(k) => Some(k),
        None => opt_str(key.credentials.private_key),
    }
}

/// An optional string slice as an optional character sequence.
pub open spec fn opt_slice(o: Option<&str>) -> Option<Seq<char>> {
    match o {
        Some(s) => Some(s@),
        None => None,
    }
}

/// The assertion claims for `key` with token id `jti` at time `now`.
pub open spec fn assertion_claims(key: ServiceAccountKey, jti: Seq<char>, now: u64) -> Seq<char> {
    claims_text(
        key.credentials.iss@,
        key.credentials.sub@,
        jti,
        key.credentials.aud@,
        now,
        (now + ASSERTION_LIFETIME_SECS) as u64,
    )
}

/// The message of the error reported when there is no PEM to sign with.
pub open spec fn missing_key_message() -> Seq<char> {
    "service account private key is not set"@
}

/// Whether `r` is the outcome of signing the assertion for `key` with token
/// id `jti` at `now`: the missing-key error exactly when there is no PEM;
/// otherwise the signer's token when it signs, and an authentication error
/// with another message when it refuses.
pub open spec fn signed_outcome(
    r: Result<String, StackitError>,
    key: ServiceAccountKey,
    private_key: Option<Seq<char>>,
    jti: Seq<char>,
    now: u64,
) -> bool {
    match signing_pem(key, private_key) {
        None => r matches Err(StackitError::Auth(m)) && m@ == missing_key_message(),
        Some(p) => match rs512_jwt(key.credentials.kid@, assertion_claims(key, jti, now), p) {
            Some(t) => r matches Ok(x) && x@ == t,
            None => r matches Err(StackitError::Auth(m)) && m@ != missing_key_message(),
        },
    }
}

/// Sign the key-flow assertion for `key` with token id `jti` at time `now`:
/// fails with the missing-key error when there is no PEM to sign with, with
/// the signer's error text when signing fails, and is otherwise the RS512
/// token of the claims under the key's `kid`.
pub fn sign_assertion(key: &ServiceAccountKey, private_key: Option<&str>, jti: String, now: u64) -> (r:
    Result<String, StackitError>)
    requires
        now + ASSERTION_LIFETIME_SECS <= u64::MAX,
    ensures
        signed_outcome(r, *key, opt_slice(private_key), jti@, now),
{
    let pem = match key.private_key_pem(private_key) {
        Ok(p) => p,
        Err(e) => return Err(e),
    };
    let ghost j = jti@;
    let claims = JwtClaims::for_key(key, jti, now);
    let text = claims.to_json();
    assert(text@ == assertion_claims(*key, j, now));
    match encode_rs512(key.credentials.kid.as_str(), text.as_str(), pem) {
        Ok(t) => Ok(t),
        Err(e) => {
            let m = jwt_error_text(&e);
            proof {
                reveal_strlit("service account private key is not set");
                assert(missing_key_message()[0] == 's');
            }
            Err(StackitError::Auth(m))
        },
    }
}

/// Whether `s` is a UUID in hyphenated form: 36 characters, hyphens at
/// positions 8, 13, 18 and 23, lower-case hexadecimal digits elsewhere, and
/// the version digit `4` at position 14.
pub open spec fn hyphenated_v4(s: Seq<char>) -> bool {
    &&& s.len() == 36
    &&& forall|i: int| 0 <= i < 36 ==> if i == 8 || i == 13 || i == 18 || i == 23 {
        #[trigger] s[i] == '-'
    } else {
        ('0' <= s[i] <= '9') || ('a' <= s[i] <= 'f')
    }
    &&& s[14] == '4'
}

/// `uuid::Uuid::new_v4().to_string()`: a random version-4 UUID in its
/// hyphenated lower-case form.
#[verifier::external_body]
fn new_jti() -> (r: String)
    ensures
        hyphenated_v4(r@),
{
    uuid::Uuid::new_v4().to_string()
}

/// Sign a fresh key-flow assertion at time `now` under a new random token
/// id: the outcome of [`sign_assertion`] for some version-4 UUID.
pub fn fresh_assertion(key: &ServiceAccountKey, private_key: Option<&str>, now: u64) -> (r: Result<
    String,
    StackitError,
>)
    requires
        now + ASSERTION_LIFETIME_SECS <= u64::MAX,
    ensures
        exists|jti: Seq<char>|
            hyphenated_v4(jti) && #[trigger] signed_outcome(r, *key, opt_slice(private_key), jti, now),
{
    let jti = new_jti();
    let ghost j = jti@;
    let r = sign_assertion(key, private_key, jti, now);
    assert(hyphenated_v4(j) && signed_outcome(r, *key, opt_slice(private_key), j, now));
    r
}

/// The outcome of the token endpoint's status: success, or an API error
/// carrying the raw body.
pub fn token_status(status: u16, body: String) -> (r: Result<(), StackitError>)
    ensures
        r is Ok <==> 200 <= status <= 299,
        r is Err ==> r == Err::<(), StackitError>(StackitError::Api { status, message: body }),
{
    if 200 <= status && status <= 299 {
        Ok(())
    } else {
        Err(StackitError::Api { status, message: body })
    }
}


/// Whether `HeaderValue::from_str` accepts a character: a tab, or anything
/// from a space up other than DEL (every byte of a non-ASCII character is
/// accepted).
pub open spec fn header_char_ok(c: char) -> bool {
    (' ' <= c && c != '\u{7f}') || c == '\t'
}

/// Whether `HeaderValue::from_str` accepts `s`.
pub open spec fn header_text_ok(s: Seq<char>) -> bool {
    forall|i: int| 0 <= i < s.len() ==> header_char_ok(#[trigger] s[i])
}

/// The error type of `HeaderValue::from_str`.
#[verifier::external_type_specification]
#[verifier::external_body]
pub struct ExInvalidHeaderValue(reqwest::header::InvalidHeaderValue);

/// `reqwest::header::HeaderValue::from_str`, keeping only whether it
/// succeeded: it succeeds exactly when every byte is a tab or at least 32 and
/// not 127.
#[verifier::external_body]
fn check_header_value(value: &str) -> (r: Result<(), reqwest::header::InvalidHeaderValue>)
    ensures
        r is Ok <==> header_text_ok(value@),
{
    reqwest::header::HeaderValue::from_str(value).map(|_| ())
}

/// The text of an `InvalidHeaderValue` (its `Display`), which is fixed.
#[verifier::external_body]
fn invalid_header_text(e: &reqwest::header::InvalidHeaderValue) -> (r: String)
    ensures
        r@ == "failed to parse header value"@,
{
    e.to_string()
}

impl Auth {
    /// The `Authorization` header value, checked to be a valid header value;
    /// `access_token` is the current key-flow access token.
    pub fn authorization_header(&self, access_token: Option<&str>) -> (r: Result<String, StackitError>)
        requires
            *self is ServiceAccountKey ==> access_token is Some,
        ensures
            header_text_ok(spec_authorization(*self, opt_slice(access_token))) ==> (r matches Ok(v)
                && v@ == spec_authorization(*self, opt_slice(access_token))),
            !header_text_ok(spec_authorization(*self, opt_slice(access_token))) ==> (r matches Err(
                StackitError::Auth(m),
            ) && m@ == "failed to parse header value"@),
    {
        let value = self.authorization_value(access_token);
        assert(value@ == spec_authorization(*self, opt_slice(access_token)));
        match check_header_value(value.as_str()) {
            Ok(()) => Ok(value),
            Err(e) => Err(StackitError::Auth(invalid_header_text(&e))),
        }
    }
}


/// Credentials render the same whatever their secrets: any two tokens, and
/// two keys with the same id whatever their private keys.
pub proof fn lemma_debug_hides_secret(a: Auth, b: Auth)
    requires
        (a is Token && b is Token) || (a matches Auth::ServiceAccountKey { key: k1, .. }
            && b matches Auth::ServiceAccountKey { key: k2, .. } && k1.id@ == k2.id@),
    ensures
        auth_debug_text(a) == auth_debug_text(b),
{
}

/// A token granted `lifetime` seconds at `issued_at` is reused at every time
/// `now` less than its lifetime minus the refresh margin later, and replaced
/// from then on; one granted less than the margin is replaced at once.
pub proof fn lemma_token_fresh_window(issued_at: u64, lifetime: Option<u64>, now: u64)
    requires
        issued_at + granted_lifetime(lifetime) <= u64::MAX,
        now + TOKEN_REFRESH_SKEW_SECS <= u64::MAX,
    ensures
        granted_lifetime(lifetime) >= TOKEN_REFRESH_SKEW_SECS ==> ((issued_at + granted_lifetime(
            lifetime,
        ) > now + TOKEN_REFRESH_SKEW_SECS) <==> (now < issued_at + (granted_lifetime(lifetime)
            - TOKEN_REFRESH_SKEW_SECS))),
        granted_lifetime(lifetime) < TOKEN_REFRESH_SKEW_SECS && now >= issued_at ==> !(issued_at
            + granted_lifetime(lifetime) > now + TOKEN_REFRESH_SKEW_SECS),
{
}


/// The access token a request can use at time `now` without the key flow:
/// the cached one while it is fresh. `None` means a new token must be fetched.
pub fn reusable_token(cache: &Option<CachedToken>, now: u64) -> (r: Option<String>)
    requires
        now + TOKEN_REFRESH_SKEW_SECS <= u64::MAX,
    ensures
        r == (if cache is Some && cache.unwrap().expires_at > now + TOKEN_REFRESH_SKEW_SECS {
            Some(cache.unwrap().access_token)
        } else {
            None
        }),
{
    match cache {
        Some(c) => if c.is_fresh(now) {
            Some(c.access_token.clone())
        } else {
            None
        },
        None => None,
    }
}

/// The token cache after a fetch, and what the request gets: a fetched token
/// is stored and its access token used; a failed fetch leaves the cache as it
/// was and reports its error.
pub fn token_fetched(cache: Option<CachedToken>, fetched: Result<CachedToken, StackitError>) -> (r: (
    Option<CachedToken>,
    Result<String, StackitError>,
))
    ensures
        fetched matches Ok(t) ==> r.0 == Some(t) && r.1 == Ok::<String, StackitError>(t.access_token),
        fetched matches Err(e) ==> r.0 == cache && r.1 == Err::<String, StackitError>(e),
{
    match fetched {
        Ok(t) => {
            let access = t.access_token.clone();
            (Some(t), Ok(access))
        },
        Err(e) => (cache, Err(e)),
    }
}

} // verus!
