use infrazeug_ext::stackit::auth::{
    fresh_assertion, reusable_token, sign_assertion, token_fetched, token_request_body, token_status, Auth, CachedToken, JwtClaims,
    ServiceAccountKey, ServiceAccountKeyCredentials,
};
use infrazeug_ext::stackit::client::{api_error, check_status, item_path, ErrorBody, StackitConfig};
use infrazeug_ext::stackit::error::StackitError;

fn key_from_json(json: &str) -> ServiceAccountKey {
    let v: serde_json::Value = serde_json::from_str(json).unwrap();
    let creds = &v["credentials"];
    let s = |x: &serde_json::Value| x.as_str().map(|s| s.to_string());
    ServiceAccountKey {
        id: s(&v["id"]).unwrap(),
        credentials: ServiceAccountKeyCredentials {
            aud: s(&creds["aud"]).unwrap(),
            iss: s(&creds["iss"]).unwrap(),
            kid: s(&creds["kid"]).unwrap(),
            sub: s(&creds["sub"]).unwrap(),
            private_key: s(&creds["privateKey"]),
            token_endpoint: s(&creds["tokenEndpoint"]),
        },
        active: v["active"].as_bool().unwrap_or(false),
    }
}

#[test]
fn debug_redacts_token() {
    let rendered = Auth::token("super-secret").debug_string();
    assert!(!rendered.contains("super-secret"));
}

#[test]
fn parses_service_account_key() {
    let json = r#"{
        "id": "key-id",
        "credentials": {
            "aud": "aud",
            "iss": "sa@example.com",
            "kid": "kid",
            "sub": "sub-id",
            "tokenEndpoint": "https://token.example/token"
        }
    }"#;
    let key = key_from_json(json);
    assert_eq!(key.token_url(), "https://token.example/token");
}

#[test]
fn token_url_defaults_when_absent_or_empty() {
    let mut key = key_from_json(r#"{"id":"k","credentials":{"aud":"a","iss":"i","kid":"k","sub":"s"}}"#);
    assert_eq!(key.token_url(), "https://service-account.api.stackit.cloud/token");
    key.credentials.token_endpoint = Some(String::new());
    assert_eq!(key.token_url(), "https://service-account.api.stackit.cloud/token");
}

#[test]
fn key_debug_shows_id_only() {
    let mut key = key_from_json(r#"{"id":"key-id","credentials":{"aud":"a","iss":"i","kid":"k","sub":"s"}}"#);
    key.credentials.private_key = Some("PEM-SECRET".to_string());
    let auth = Auth::service_account_key(key, Some("OVERRIDE-SECRET".to_string()));
    let rendered = auth.debug_string();
    assert_eq!(rendered, "ServiceAccountKey { key_id: \"key-id\", private_key: \"<redacted>\" }");
    assert!(!rendered.contains("SECRET"));
    assert!(auth.uses_key_flow());
    assert!(!Auth::token("t").uses_key_flow());
}

#[test]
fn private_key_prefers_override() {
    let mut key = key_from_json(r#"{"id":"k","credentials":{"aud":"a","iss":"i","kid":"k","sub":"s"}}"#);
    match key.private_key_pem(None) {
        Err(StackitError::Auth(m)) => assert_eq!(m, "service account private key is not set"),
        other => panic!("unexpected: {other:?}"),
    }
    key.credentials.private_key = Some("embedded".to_string());
    assert_eq!(key.private_key_pem(None).unwrap(), "embedded");
    assert_eq!(key.private_key_pem(Some("given")).unwrap(), "given");
}

#[test]
fn authorization_values() {
    assert_eq!(Auth::token("tok").authorization_value(None), "Bearer tok");
    let key = key_from_json(r#"{"id":"k","credentials":{"aud":"a","iss":"i","kid":"k","sub":"s"}}"#);
    let auth = Auth::service_account_key(key, None);
    assert_eq!(auth.authorization_value(Some("access")), "Bearer access");
}

#[test]
fn jwt_claims_cover_one_hour() {
    let key = key_from_json(r#"{"id":"k","credentials":{"aud":"aud","iss":"iss","kid":"kid","sub":"sub"}}"#);
    let claims = JwtClaims::for_key(&key, "jti-1".to_string(), 1_000);
    assert_eq!(claims.iss, "iss");
    assert_eq!(claims.sub, "sub");
    assert_eq!(claims.aud, "aud");
    assert_eq!(claims.jti, "jti-1");
    assert_eq!(claims.iat, 1_000);
    assert_eq!(claims.exp, 4_600);
}

#[test]
fn token_request_body_encodes_assertion() {
    assert_eq!(
        token_request_body("a.b+c/d"),
        "grant_type=urn%3Aietf%3Aparams%3Aoauth%3Agrant-type%3Ajwt-bearer&assertion=a.b%2Bc%2Fd"
    );
}

#[test]
fn cached_token_refreshes_a_minute_early() {
    let t = CachedToken::issued("tok".to_string(), Some(600), 1_000);
    assert_eq!(t.expires_at, 1_600);
    assert!(t.is_fresh(1_539));
    assert!(!t.is_fresh(1_540));
    let d = CachedToken::issued("tok".to_string(), None, 0);
    assert_eq!(d.expires_at, 3_600);
}

#[test]
fn stackit_config_trims_host() {
    let cfg = StackitConfig::new(Auth::token("t")).with_host("https://iaas.api.eu01.stackit.cloud/");
    assert_eq!(cfg.host, "https://iaas.api.eu01.stackit.cloud");
}

#[test]
fn project_path_joins() {
    let cfg = StackitConfig::new(Auth::token("t"));
    assert_eq!(cfg.project_path("proj-1", "servers"), "/v1/projects/proj-1/servers");
}

#[test]
fn regional_path_joins() {
    let cfg = StackitConfig::new(Auth::token("t"));
    assert_eq!(
        cfg.regional_path("proj-1", "eu01", "servers"),
        "/v2/projects/proj-1/regions/eu01/servers"
    );
}

#[test]
fn paths_encode_and_version() {
    let cfg = StackitConfig::new(Auth::token("t")).with_api_version("v2");
    assert_eq!(cfg.project_path("a b", ""), "/v2/projects/a%20b");
    assert_eq!(cfg.project_path("p", "/servers"), "/v2/projects/p/servers");
    assert_eq!(cfg.regional_path("p", "r", "//servers"), "/v2/projects/p/regions/r/servers");
    assert_eq!(cfg.base_url("/v1/x"), "https://iaas.api.eu01.stackit.cloud/v1/x");
    assert_eq!(cfg.base_url("v1/x"), "https://iaas.api.eu01.stackit.cloud/v1/x");
    assert_eq!(item_path("servers", "id/1"), "servers/id%2F1");
}

#[test]
fn stackit_api_error_message_order() {
    let both = ErrorBody { message: Some("m".to_string()), detail: Some("d".to_string()) };
    let detail = ErrorBody { message: None, detail: Some("d".to_string()) };
    let none = ErrorBody { message: None, detail: None };
    assert_eq!(api_error(400, "x", Some(both)), StackitError::Api { status: 400, message: "m".to_string() });
    assert_eq!(api_error(400, "x", Some(detail)), StackitError::Api { status: 400, message: "d".to_string() });
    assert_eq!(
        api_error(502, "  bad gateway \n", Some(none)),
        StackitError::Api { status: 502, message: "bad gateway".to_string() }
    );
    assert_eq!(api_error(502, " raw ", None), StackitError::Api { status: 502, message: "raw".to_string() });
    assert!(check_status(204, "", None).is_ok());
    assert!(check_status(404, "gone", None).is_err());
}

#[test]
fn stackit_error_display() {
    assert_eq!(
        StackitError::Api { status: 404, message: "nope".to_string() }.to_display_string(),
        "stackit api error 404: nope"
    );
    assert_eq!(StackitError::Http("x".to_string()).to_display_string(), "stackit http transport error: x");
    assert_eq!(StackitError::Json("x".to_string()).to_display_string(), "stackit json error: x");
    assert_eq!(StackitError::Auth("x".to_string()).to_display_string(), "stackit auth error: x");
}

#[test]
fn claims_json_matches_serde_layout() {
    let claims = JwtClaims {
        iss: "sa@example.com".to_string(),
        sub: "sub \"q\"".to_string(),
        jti: "j\\1\n".to_string(),
        aud: "a\u{1}\u{7f}é".to_string(),
        iat: 10,
        exp: 3_610,
    };
    let text = claims.to_json();
    assert_eq!(
        text,
        "{\"iss\":\"sa@example.com\",\"sub\":\"sub \\\"q\\\"\",\"jti\":\"j\\\\1\\n\",\"aud\":\"a\\u0001\u{7f}é\",\"iat\":10,\"exp\":3610}"
    );
    let parsed: serde_json::Value = serde_json::from_str(&text).unwrap();
    assert_eq!(parsed["sub"], "sub \"q\"");
    assert_eq!(parsed["jti"], "j\\1\n");
    assert_eq!(parsed["aud"], "a\u{1}\u{7f}é");
    assert_eq!(parsed["exp"], 3_610);
    for field in ["sub \"q\"", "j\\1\n", "a\u{1}\u{7f}é"] {
        assert!(text.contains(&serde_json::to_string(field).unwrap()));
    }
}

#[test]
fn signing_needs_a_key() {
    let key = key_from_json(r#"{"id":"k","credentials":{"aud":"a","iss":"i","kid":"k","sub":"s"}}"#);
    match sign_assertion(&key, None, "jti".to_string(), 0) {
        Err(StackitError::Auth(m)) => assert_eq!(m, "service account private key is not set"),
        other => panic!("unexpected: {other:?}"),
    }
    match fresh_assertion(&key, None, 0) {
        Err(StackitError::Auth(m)) => assert_eq!(m, "service account private key is not set"),
        other => panic!("unexpected: {other:?}"),
    }
}

#[test]
fn signing_rejects_a_bad_pem() {
    let key = key_from_json(r#"{"id":"k","credentials":{"aud":"a","iss":"i","kid":"k","sub":"s"}}"#);
    match sign_assertion(&key, Some("not a pem"), "jti".to_string(), 0) {
        Err(StackitError::Auth(m)) => assert!(!m.is_empty()),
        other => panic!("unexpected: {other:?}"),
    }
}

#[test]
fn token_endpoint_status_keeps_raw_body() {
    assert!(token_status(200, "{}".to_string()).is_ok());
    assert_eq!(
        token_status(400, " invalid_grant ".to_string()),
        Err(StackitError::Api { status: 400, message: " invalid_grant ".to_string() })
    );
}

#[test]
fn authorization_header_is_checked() {
    assert_eq!(Auth::token("tok").authorization_header(None).unwrap(), "Bearer tok");
    assert_eq!(Auth::token("t\u{e9}\tx").authorization_header(None).unwrap(), "Bearer t\u{e9}\tx");
    assert_eq!(
        Auth::token("tok\n").authorization_header(None),
        Err(StackitError::Auth("failed to parse header value".to_string()))
    );
    assert!(Auth::token("a\u{7f}").authorization_header(None).is_err());
}

#[test]
fn token_cache_reuses_while_fresh_and_stores_only_successes() {
    let t = CachedToken::issued("tok".to_string(), Some(600), 1_000);
    let cache = Some(t.clone());
    assert_eq!(reusable_token(&cache, 1_539), Some("tok".to_string()));
    assert_eq!(reusable_token(&cache, 1_540), None);
    let fresh = CachedToken::issued("new".to_string(), None, 2_000);
    let (next, got) = token_fetched(cache.clone(), Ok(fresh.clone()));
    assert_eq!(next, Some(fresh));
    assert_eq!(got, Ok("new".to_string()));
    let (next, got) = token_fetched(cache.clone(), Err(StackitError::Auth("x".to_string())));
    assert_eq!(next, cache);
    assert_eq!(got, Err(StackitError::Auth("x".to_string())));
}
