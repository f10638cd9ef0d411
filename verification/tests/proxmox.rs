use infrazeug_ext::proxmox::auth::{reusable_ticket, ticket_fetched, ticket_request_error, ticket_url, Auth, CachedTicket};
use infrazeug_ext::proxmox::client::{api_error, check_status, node_path, ErrorBody, ProxmoxConfig};
use infrazeug_ext::proxmox::config_value::{value_as_string, value_as_u64, ConfigValue};
use infrazeug_ext::proxmox::error::ProxmoxError;
use infrazeug_ext::proxmox::lxc::{lxc_config_path, LxcConfig, LxcCreate};
use infrazeug_ext::proxmox::qemu::{qemu_collection_path, QemuConfig, QemuCreate};
use infrazeug_ext::proxmox::tasks::{task_status_path, wait_step, TaskStatus, WaitOptions, WaitStep};
use infrazeug_ext::string_map::StringMap;
use std::time::Duration;

fn to_config_value(v: &serde_json::Value) -> ConfigValue {
    match v {
        serde_json::Value::String(s) => ConfigValue::Str(s.clone()),
        serde_json::Value::Number(n) => ConfigValue::Number { text: n.to_string(), as_u64: n.as_u64() },
        serde_json::Value::Bool(b) => ConfigValue::Bool(*b),
        _ => ConfigValue::Other,
    }
}

fn config_fields(body: &str) -> StringMap<ConfigValue> {
    let parsed: serde_json::Map<String, serde_json::Value> = serde_json::from_str(body).unwrap();
    let mut fields = StringMap::new();
    for (k, v) in parsed.iter() {
        fields.insert(k.clone(), to_config_value(v));
    }
    fields
}

fn task_status(body: &str) -> TaskStatus {
    let v: serde_json::Value = serde_json::from_str(body).unwrap();
    let get = |k: &str| v.get(k).and_then(|x| x.as_str()).map(|s| s.to_string());
    TaskStatus {
        upid: get("upid"),
        task_type: get("type"),
        status: get("status"),
        exitstatus: get("exitstatus"),
        node: get("node"),
    }
}

fn error_body(body: &str) -> Option<ErrorBody> {
    let v: serde_json::Value = serde_json::from_str(body).ok()?;
    let obj = v.as_object()?;
    Some(ErrorBody {
        message: obj.get("message").and_then(|m| m.as_str()).map(|s| s.to_string()),
        errors: obj.get("errors").filter(|e| !e.is_null()).map(|e| e.to_string()),
    })
}

#[test]
fn auth_debug_redacts_secrets() {
    let rendered = Auth::api_token("root@pam!ci", "super-secret").debug_string();
    assert!(rendered.contains("root@pam!ci"));
    assert!(!rendered.contains("super-secret"));

    let rendered = Auth::ticket("root@pam", "hunter2").debug_string();
    assert!(rendered.contains("root@pam"));
    assert!(!rendered.contains("hunter2"));
}

#[test]
fn api_token_sets_authorization_header() {
    let auth = Auth::api_token("root@pam!ci", "secret-uuid");
    let headers = auth.request_headers(None, false);
    assert_eq!(
        headers,
        vec![("Authorization".to_string(), "PVEAPIToken=root@pam!ci=secret-uuid".to_string())]
    );
}

#[test]
fn ticket_headers_add_csrf_only_on_writes() {
    let auth = Auth::ticket("root@pam", "pw");
    let ticket = CachedTicket::issued("PVE:tkt".to_string(), "csrf".to_string(), 1_000);
    assert_eq!(ticket.expires_at, 1_000 + 7_200);
    let read = auth.request_headers(Some(&ticket), false);
    assert_eq!(read, vec![("Cookie".to_string(), "PVEAuthCookie=PVE:tkt".to_string())]);
    let write = auth.request_headers(Some(&ticket), true);
    assert_eq!(write.len(), 2);
    assert_eq!(write[1], ("CSRFPreventionToken".to_string(), "csrf".to_string()));
}

#[test]
fn ticket_freshness_window() {
    let ticket = CachedTicket::issued("t".to_string(), "c".to_string(), 10_000);
    assert!(ticket.is_fresh(10_000));
    assert!(ticket.is_fresh(10_000 + 6_599));
    assert!(!ticket.is_fresh(10_000 + 6_600));
}

#[test]
fn ticket_failure_message() {
    let err = ticket_request_error(401, "  authentication failure \n");
    assert_eq!(err, ProxmoxError::Auth("ticket request failed (401): authentication failure".to_string()));
}

#[test]
fn client_config_trims_host() {
    let cfg = ProxmoxConfig::new("https://pve.example.com:8006/", Auth::api_token("root@pam!ci", "s"));
    assert_eq!(cfg.host, "https://pve.example.com:8006");
    assert_eq!(cfg.api_base(), "https://pve.example.com:8006/api2/json");
}

#[test]
fn url_joins_prefix() {
    let c = ProxmoxConfig::new("https://pve.example.com:8006/", Auth::api_token("root@pam!ci", "secret"));
    assert_eq!(c.url("/nodes/pve/qemu"), "https://pve.example.com:8006/api2/json/nodes/pve/qemu");
    assert_eq!(c.url("nodes/pve/qemu"), "https://pve.example.com:8006/api2/json/nodes/pve/qemu");
}

#[test]
fn guest_paths_encode_node() {
    assert_eq!(qemu_collection_path("pve"), "/nodes/pve/qemu");
    assert_eq!(lxc_config_path("pve 1", 200), "/nodes/pve%201/lxc/200/config");
    assert_eq!(node_path("a/b", "/lxc"), "/nodes/a%2Fb/lxc");
    assert_eq!(
        task_status_path("pve", "UPID:pve:1"),
        "/nodes/pve/tasks/UPID%3Apve%3A1/status"
    );
}

#[test]
fn api_error_prefers_message() {
    let body = r#"{"data":null,"message":"VM 100 not found"}"#;
    let err = api_error(500, body, error_body(body));
    assert!(matches!(err, ProxmoxError::Api { status: 500, .. }));
    assert!(err.to_display_string().contains("VM 100 not found"));
}

#[test]
fn api_error_falls_back_to_body() {
    let body = "authentication failure";
    let err = api_error(401, body, error_body(body));
    assert!(err.to_display_string().contains("authentication failure"));
}

#[test]
fn api_error_uses_errors_object_and_skips_blank_message() {
    let body = r#"{"data":null,"errors":{"vmid":"invalid"}}"#;
    let err = api_error(400, body, error_body(body));
    assert_eq!(err, ProxmoxError::Api { status: 400, message: r#"{"vmid":"invalid"}"#.to_string() });
    let body = r#"{"message":"   "}"#;
    let err = api_error(400, body, error_body(body));
    assert_eq!(err, ProxmoxError::Api { status: 400, message: body.to_string() });
}

#[test]
fn status_check_accepts_2xx_only() {
    assert_eq!(check_status(200, "", None), Ok(()));
    assert_eq!(check_status(204, "", None), Ok(()));
    assert_eq!(
        check_status(404, " missing ", None),
        Err(ProxmoxError::Api { status: 404, message: "missing".to_string() })
    );
}

#[test]
fn error_display_texts() {
    let e = ProxmoxError::Api { status: 500, message: "boom".to_string() };
    assert_eq!(e.to_display_string(), "proxmox api error 500: boom");
    let e = ProxmoxError::TaskTimeout { upid: "U".to_string(), timeout_secs: 600 };
    assert_eq!(e.to_display_string(), "proxmox task U did not finish within 600s");
    let e = ProxmoxError::Task { upid: "U".to_string(), exitstatus: "bad".to_string() };
    assert_eq!(e.to_display_string(), "proxmox task U failed: bad");
}

#[test]
fn create_requires_template_and_flattens() {
    let create = LxcCreate {
        vmid: 200,
        ostemplate: "local:vztmpl/debian-12.tar.zst".into(),
        hostname: Some("ct-1".into()),
        cores: Some(1),
        memory: Some(512),
        unprivileged: Some(true),
        ssh_public_keys: Some("ssh-ed25519 AAAA".into()),
        ..Default::default()
    };
    let p = create.to_params();
    assert_eq!(p.get("vmid").unwrap(), "200");
    assert_eq!(p.get("ostemplate").unwrap(), "local:vztmpl/debian-12.tar.zst");
    assert_eq!(p.get("hostname").unwrap(), "ct-1");
    assert_eq!(p.get("unprivileged").unwrap(), "1");
    assert_eq!(p.get("ssh-public-keys").unwrap(), "ssh-ed25519 AAAA");
}

#[test]
fn create_flattens_params() {
    let mut create = QemuCreate {
        vmid: 100,
        name: Some("web-1".into()),
        cores: Some(2),
        memory: Some(2048),
        agent: Some(true),
        ..Default::default()
    };
    create.extra.insert("scsi0".into(), "local-lvm:32".into());
    let p = create.to_params();
    assert_eq!(p.get("vmid").unwrap(), "100");
    assert_eq!(p.get("name").unwrap(), "web-1");
    assert_eq!(p.get("cores").unwrap(), "2");
    assert_eq!(p.get("memory").unwrap(), "2048");
    assert_eq!(p.get("agent").unwrap(), "1");
    assert_eq!(p.get("scsi0").unwrap(), "local-lvm:32");
    assert!(!p.contains_key("sockets"));
}

#[test]
fn extra_params_override_typed_ones_and_order_is_by_key() {
    let mut create = QemuCreate { vmid: 7, start: Some(false), ..Default::default() };
    create.extra.insert("start".into(), "1".into());
    create.extra.insert("agent".into(), "enabled=1".into());
    let p = create.to_params();
    assert_eq!(p.get("start").unwrap(), "1");
    let keys: Vec<&str> = p.entries().iter().map(|(k, _)| k.as_str()).collect();
    assert_eq!(keys, vec!["agent", "start", "vmid"]);
}

#[test]
fn config_reads_hostname_and_resources() {
    let body = r#"{"hostname":"ct-1","cores":2,"memory":1024,"swap":"512"}"#;
    let cfg = LxcConfig { fields: config_fields(body) };
    assert_eq!(cfg.hostname().as_deref(), Some("ct-1"));
    assert_eq!(cfg.cores(), Some(2));
    assert_eq!(cfg.memory(), Some(1024));
    assert_eq!(cfg.swap(), Some(512));
}

#[test]
fn config_coerces_mixed_types() {
    let body = r#"{"name":"web-1","cores":4,"memory":"2048","sockets":1}"#;
    let cfg = QemuConfig { fields: config_fields(body) };
    assert_eq!(cfg.name().as_deref(), Some("web-1"));
    assert_eq!(cfg.cores(), Some(4));
    assert_eq!(cfg.memory(), Some(2048));
    assert_eq!(cfg.sockets(), Some(1));
}

#[test]
fn config_reads_digest() {
    let body = r#"{"name":"web-1","digest":"a1b2c3d4e5f6"}"#;
    let cfg = QemuConfig { fields: config_fields(body) };
    assert_eq!(cfg.digest().as_deref(), Some("a1b2c3d4e5f6"));
}

#[test]
fn config_value_coercions() {
    assert_eq!(value_as_string(&ConfigValue::Bool(true)).as_deref(), Some("true"));
    assert_eq!(value_as_string(&ConfigValue::Other), None);
    assert_eq!(value_as_u64(&ConfigValue::Str(" 42 ".into())), Some(42));
    assert_eq!(value_as_u64(&ConfigValue::Str("+7".into())), Some(7));
    assert_eq!(value_as_u64(&ConfigValue::Str("-7".into())), None);
    assert_eq!(value_as_u64(&ConfigValue::Str("18446744073709551616".into())), None);
    assert_eq!(value_as_u64(&ConfigValue::Str("18446744073709551615".into())), Some(u64::MAX));
    assert_eq!(value_as_u64(&ConfigValue::Bool(true)), None);
}

#[test]
fn parses_running_status() {
    let status = task_status(r#"{"upid":"UPID:pve:1","type":"qmcreate","status":"running"}"#);
    assert!(status.is_running());
    assert!(!status.is_stopped());
    assert!(!status.succeeded());
    assert_eq!(status.task_type.as_deref(), Some("qmcreate"));
}

#[test]
fn parses_successful_status() {
    let status = task_status(r#"{"upid":"UPID:pve:1","status":"stopped","exitstatus":"OK"}"#);
    assert!(status.is_stopped());
    assert!(status.succeeded());
}

#[test]
fn failed_status_is_not_success() {
    let status =
        task_status(r#"{"upid":"UPID:pve:1","status":"stopped","exitstatus":"unable to create VM 100"}"#);
    assert!(status.is_stopped());
    assert!(!status.succeeded());
    assert_eq!(status.exitstatus.as_deref(), Some("unable to create VM 100"));
}

#[test]
fn wait_options_builder() {
    let opts = WaitOptions::new()
        .poll_interval(Duration::from_secs(5))
        .timeout(Duration::from_secs(120));
    assert_eq!(opts.poll_interval, Duration::from_secs(5));
    assert_eq!(opts.timeout, Duration::from_secs(120));
}

#[test]
fn wait_options_defaults() {
    let opts = WaitOptions::default();
    assert_eq!(opts.poll_interval, Duration::from_secs(2));
    assert_eq!(opts.timeout, Duration::from_secs(600));
}

#[test]
fn wait_step_decisions() {
    let running = task_status(r#"{"status":"running"}"#);
    assert_eq!(wait_step("U", running.clone(), false, 600), WaitStep::Poll);
    assert_eq!(
        wait_step("U", running, true, 600),
        WaitStep::Failed(ProxmoxError::TaskTimeout { upid: "U".into(), timeout_secs: 600 })
    );
    let ok = task_status(r#"{"status":"stopped","exitstatus":"OK"}"#);
    assert_eq!(wait_step("U", ok.clone(), true, 600), WaitStep::Finished(ok));
    let failed = task_status(r#"{"status":"stopped"}"#);
    assert_eq!(
        wait_step("U", failed, false, 600),
        WaitStep::Failed(ProxmoxError::Task { upid: "U".into(), exitstatus: "unknown error".into() })
    );
}

#[test]
fn ticket_url_joins_access_path() {
    assert_eq!(ticket_url("https://pve:8006/api2/json/"), "https://pve:8006/api2/json/access/ticket");
    assert_eq!(ticket_url("https://pve:8006/api2/json"), "https://pve:8006/api2/json/access/ticket");
}

#[test]
fn ticket_cache_reuses_while_fresh_and_stores_only_successes() {
    let t = CachedTicket::issued("PVE:tkt".to_string(), "csrf".to_string(), 1_000);
    let cache = Some(t.clone());
    assert_eq!(reusable_ticket(&cache, 7_599), Some(t.clone()));
    assert_eq!(reusable_ticket(&cache, 7_600), None);
    assert_eq!(reusable_ticket(&None, 0), None);
    let fresh = CachedTicket::issued("PVE:new".to_string(), "c2".to_string(), 8_000);
    let (next, got) = ticket_fetched(cache.clone(), Ok(fresh.clone()));
    assert_eq!(next, Some(fresh.clone()));
    assert_eq!(got, Ok(fresh));
    let (next, got) = ticket_fetched(cache.clone(), Err(ProxmoxError::Auth("denied".to_string())));
    assert_eq!(next, cache);
    assert_eq!(got, Err(ProxmoxError::Auth("denied".to_string())));
}
