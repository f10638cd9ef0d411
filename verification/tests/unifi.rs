use infrazeug_ext::unifi::auth::Credentials;
use infrazeug_ext::unifi::client::{
    api_error, envelope_outcome, first_item, item_path, login_error, pick_csrf, undecodable_outcome,
    v2_check_status, v2_error, v2_object, ControllerKind, Session, UnifiConfig, V2Error, DEFAULT_SITE,
};
use infrazeug_ext::unifi::error::UnifiError;
use infrazeug_ext::unifi::types::{Meta, UnifiResponse};

fn config(kind: ControllerKind) -> UnifiConfig {
    UnifiConfig::new("https://unifi.local/", Credentials::user_pass("admin", "pw")).with_controller(kind)
}

fn meta_of(body: &str) -> Option<Meta> {
    let v: serde_json::Value = serde_json::from_str(body).ok()?;
    let m = v.get("meta")?.as_object()?;
    Some(Meta {
        rc: m.get("rc").and_then(|x| x.as_str()).unwrap_or_default().to_string(),
        msg: m.get("msg").and_then(|x| x.as_str()).map(|s| s.to_string()),
    })
}

#[test]
fn debug_redacts_secrets() {
    let rendered = Credentials::user_pass("admin", "super-secret").debug_string();
    assert!(rendered.contains("admin"));
    assert!(!rendered.contains("super-secret"));
    let rendered = Credentials::api_key("key-material").debug_string();
    assert!(!rendered.contains("key-material"));
}

#[test]
fn config_trims_host() {
    let cfg = UnifiConfig::new("https://unifi.local/", Credentials::api_key("k"));
    assert_eq!(cfg.host, "https://unifi.local");
    assert_eq!(cfg.site, DEFAULT_SITE);
    assert!(!cfg.accept_invalid_certs);
    assert!(cfg.insecure().accept_invalid_certs);
}

#[test]
fn unifi_os_paths_use_proxy_prefix() {
    let c = config(ControllerKind::UnifiOs);
    assert_eq!(c.rest_path("wlanconf"), "https://unifi.local/proxy/network/api/s/default/rest/wlanconf");
    assert_eq!(c.login_url(), "https://unifi.local/api/auth/login");
}

#[test]
fn legacy_paths_use_host_root() {
    let c = config(ControllerKind::Legacy);
    assert_eq!(c.rest_path("networkconf"), "https://unifi.local/api/s/default/rest/networkconf");
    assert_eq!(c.login_url(), "https://unifi.local/api/login");
}

#[test]
fn stat_and_cmd_paths() {
    let c = config(ControllerKind::UnifiOs);
    assert_eq!(c.stat_path("device"), "https://unifi.local/proxy/network/api/s/default/stat/device");
    assert_eq!(c.cmd_path("devmgr"), "https://unifi.local/proxy/network/api/s/default/cmd/devmgr");
}

#[test]
fn v2_paths_use_site_segment() {
    assert_eq!(
        config(ControllerKind::UnifiOs).v2_path("static-dns"),
        "https://unifi.local/proxy/network/v2/api/site/default/static-dns"
    );
    assert_eq!(
        config(ControllerKind::Legacy).v2_path("static-dns"),
        "https://unifi.local/v2/api/site/default/static-dns"
    );
}

#[test]
fn site_is_url_encoded() {
    let c = UnifiConfig::new("https://unifi.local", Credentials::api_key("k")).with_site("my site");
    assert!(c.rest_path("portforward").contains("/api/s/my%20site/rest/"));
}

#[test]
fn controller_kind_parses() {
    assert_eq!(ControllerKind::parse("legacy"), ControllerKind::Legacy);
    assert_eq!(ControllerKind::parse("UniFiOS"), ControllerKind::UnifiOs);
    assert_eq!(ControllerKind::parse("anything"), ControllerKind::UnifiOs);
}

#[test]
fn controller_kind_only_legacy_selects_legacy() {
    assert_eq!(ControllerKind::parse("  LEGACY "), ControllerKind::Legacy);
    assert_eq!(ControllerKind::parse("unifios"), ControllerKind::UnifiOs);
    assert_eq!(ControllerKind::parse("standalone"), ControllerKind::UnifiOs);
    assert_eq!(ControllerKind::parse("classic"), ControllerKind::UnifiOs);
    assert_eq!(ControllerKind::parse(""), ControllerKind::UnifiOs);
}

#[test]
fn api_error_prefers_meta_msg() {
    let body = r#"{"meta":{"rc":"error","msg":"api.err.Invalid"}}"#;
    let err = api_error(400, body, meta_of(body));
    match err {
        UnifiError::Api { status, message } => {
            assert_eq!(status, 400);
            assert_eq!(message, "api.err.Invalid");
        }
        other => panic!("unexpected: {other:?}"),
    }
}

#[test]
fn api_error_falls_back_to_raw_body() {
    let body = r#"{"meta":{"rc":"error"}}"#;
    assert_eq!(api_error(500, body, meta_of(body)), UnifiError::Api { status: 500, message: body.to_string() });
    assert_eq!(
        api_error(502, "  Bad Gateway\n", meta_of("  Bad Gateway\n")),
        UnifiError::Api { status: 502, message: "  Bad Gateway\n".to_string() }
    );
    let empty = Meta { rc: "error".to_string(), msg: Some(String::new()) };
    assert_eq!(api_error(503, " x ", Some(empty)), UnifiError::Api { status: 503, message: " x ".to_string() });
}

#[test]
fn envelope_outcomes() {
    let ok = UnifiResponse { meta: Meta { rc: "ok".to_string(), msg: None }, data: vec![1, 2] };
    assert_eq!(envelope_outcome(200, "b", ok).unwrap(), vec![1, 2]);
    let failed: UnifiResponse<u8> =
        UnifiResponse { meta: Meta { rc: "error".to_string(), msg: Some("api.err.NoSiteContext".to_string()) }, data: vec![] };
    assert_eq!(
        envelope_outcome(200, "b", failed).unwrap_err(),
        UnifiError::Api { status: 200, message: "api.err.NoSiteContext".to_string() }
    );
    let bare: UnifiResponse<u8> = UnifiResponse { meta: Meta { rc: "error".to_string(), msg: None }, data: vec![] };
    let body = r#"{"meta":{"rc":"error"},"data":[]}"#;
    assert_eq!(envelope_outcome(200, body, bare).unwrap_err(), UnifiError::Api { status: 200, message: body.to_string() });
}

#[test]
fn non_success_status_fails_even_with_ok_envelope() {
    let ok = UnifiResponse { meta: Meta { rc: "ok".to_string(), msg: None }, data: vec![1] };
    let body = r#"{"meta":{"rc":"ok"},"data":[1]}"#;
    assert_eq!(envelope_outcome(401, body, ok).unwrap_err(), UnifiError::Api { status: 401, message: body.to_string() });
}

#[test]
fn first_item_requires_one() {
    assert_eq!(first_item(vec![7, 8], "wlan").unwrap(), 7);
    assert_eq!(
        first_item(Vec::<u8>::new(), "wlan").unwrap_err(),
        UnifiError::Api { status: 200, message: "unifi returned no wlan".to_string() }
    );
}

#[test]
fn undecodable_and_login_errors() {
    assert_eq!(
        undecodable_outcome(200, "{}", "missing field".to_string(), None),
        UnifiError::Json("missing field".to_string())
    );
    assert_eq!(
        undecodable_outcome(401, " denied ", "x".to_string(), None),
        UnifiError::Api { status: 401, message: " denied ".to_string() }
    );
    assert_eq!(
        login_error(401, "", Some(Meta { rc: "error".to_string(), msg: Some("api.err.Invalid".to_string()) })),
        UnifiError::Auth("unifi api error 401: api.err.Invalid".to_string())
    );
}

#[test]
fn v2_errors() {
    let parsed = V2Error { message: None, error_code: Some("code".to_string()) };
    assert_eq!(v2_error(400, "b", Some(parsed)), UnifiError::Api { status: 400, message: "code".to_string() });
    let empty = V2Error { message: Some(String::new()), error_code: Some("code".to_string()) };
    assert_eq!(v2_error(400, " b ", Some(empty)), UnifiError::Api { status: 400, message: "b".to_string() });
    assert!(v2_check_status(200, "", None).is_ok());
    assert!(v2_check_status(404, "", None).is_err());
}

#[test]
fn session_flow() {
    let user = Credentials::user_pass("admin", "pw");
    let key = Credentials::api_key("k");
    let s = Session::new();
    assert!(s.needs_login(&user));
    assert!(!s.needs_login(&key));
    assert!(s.request_headers(&user).is_empty());
    let s = s.logged_in(Some("c1".to_string()));
    assert!(!s.needs_login(&user));
    assert_eq!(s.request_headers(&user), vec![("X-CSRF-Token".to_string(), "c1".to_string())]);
    let s = s.observed(None);
    assert_eq!(s.csrf.as_deref(), Some("c1"));
    let s = s.observed(Some("c2".to_string()));
    assert_eq!(s.csrf.as_deref(), Some("c2"));
    assert_eq!(s.request_headers(&key), vec![("X-API-KEY".to_string(), "k".to_string())]);
}

#[test]
fn csrf_pick_and_login_body() {
    assert_eq!(pick_csrf(Some("a".to_string()), Some("b".to_string())), Some("a".to_string()));
    assert_eq!(pick_csrf(Some(String::new()), Some("b".to_string())), Some("b".to_string()));
    assert_eq!(pick_csrf(None, Some(String::new())), None);
    let legacy = config(ControllerKind::Legacy).login_request().unwrap();
    assert_eq!(legacy.username, "admin");
    assert_eq!(legacy.password, "pw");
    assert!(legacy.remember_and_strict);
    assert!(!config(ControllerKind::UnifiOs).login_request().unwrap().remember_and_strict);
    let keyed = UnifiConfig::new("https://u", Credentials::api_key("k"));
    assert!(keyed.login_request().is_none());
}

#[test]
fn item_and_object_paths() {
    assert_eq!(item_path("rest/wlanconf", "a b"), "rest/wlanconf/a%20b");
    assert_eq!(v2_object("static-dns", "a b"), "static-dns/a b");
    assert_eq!(config(ControllerKind::Legacy).sites_url(), "https://unifi.local/api/self/sites");
}

#[test]
fn unifi_error_display() {
    assert_eq!(
        UnifiError::Api { status: 400, message: "m".to_string() }.to_display_string(),
        "unifi api error 400: m"
    );
    assert_eq!(UnifiError::Auth("x".to_string()).to_display_string(), "unifi auth error: x");
}
