use infrazeug_ext::gcp::bucket::{self, Bucket, EnsureBucketInput, EnsureBucketOutput};
use infrazeug_ext::gcp::disk::{self, Disk, EnsureDiskInput};
use infrazeug_ext::gcp::instance::{self, EnsureInstanceInput, Instance};
use infrazeug_ext::gcp::service_account_key::{self, CreatedServiceAccountKey, EnsureServiceAccountKeyInput};
use infrazeug_ext::helm::{
    dependency_update_plan, repo_add_plan, repo_update_plan, uninstall_args, uninstall_plan, upgrade_install_args,
    upgrade_install_plan, HelmChart, HelmPlan, HelmStep, UninstallOptions, UpgradeOptions,
};
use infrazeug_ext::string_map::{lex_less, StringMap};
use infrazeug_ext::text::{
    chars_of, concat3, parse_decimal_u64, starts_with_char, to_ascii_lower, trim, trim_end_char, trim_start_char,
    u64_to_decimal,
};

#[test]
fn string_map_keeps_keys_sorted_and_unique() {
    let mut m: StringMap<u32> = StringMap::new();
    assert!(m.is_empty());
    m.insert("b".to_string(), 2);
    m.insert("a".to_string(), 1);
    m.insert("c".to_string(), 3);
    m.insert("b".to_string(), 20);
    assert_eq!(m.len(), 3);
    let keys: Vec<&str> = m.entries().iter().map(|(k, _)| k.as_str()).collect();
    assert_eq!(keys, vec!["a", "b", "c"]);
    assert_eq!(m.get("b"), Some(&20));
    assert_eq!(m.get("z"), None);
    assert!(m.contains_key("a"));
    assert!(!m.contains_key("ab"));
}

#[test]
fn string_map_extend_prefers_other() {
    let mut a: StringMap<String> = StringMap::new();
    a.insert("k".to_string(), "old".to_string());
    a.insert("x".to_string(), "keep".to_string());
    let mut b: StringMap<String> = StringMap::new();
    b.insert("k".to_string(), "new".to_string());
    b.insert("y".to_string(), "add".to_string());
    a.extend_from(&b);
    assert_eq!(a.len(), 3);
    assert_eq!(a.get("k").map(|s| s.as_str()), Some("new"));
    assert_eq!(a.get("x").map(|s| s.as_str()), Some("keep"));
    assert_eq!(a.get("y").map(|s| s.as_str()), Some("add"));
    let c = a.clone();
    assert_eq!(c.len(), 3);
}

#[test]
fn lexicographic_order() {
    assert!(lex_less(&chars_of("a"), &chars_of("b")));
    assert!(lex_less(&chars_of("ab"), &chars_of("abc")));
    assert!(!lex_less(&chars_of("abc"), &chars_of("ab")));
    assert!(!lex_less(&chars_of("x"), &chars_of("x")));
}

#[test]
fn text_helpers() {
    assert_eq!(trim("  a b \t\n"), "a b");
    assert_eq!(trim("   "), "");
    assert_eq!(trim_end_char("host///", '/'), "host");
    assert_eq!(trim_start_char("//p", '/'), "p");
    assert!(starts_with_char("/x", '/'));
    assert!(!starts_with_char("", '/'));
    assert_eq!(to_ascii_lower("UniFi OS"), "unifi os");
    assert_eq!(concat3("a", "-", "b"), "a-b");
    assert_eq!(u64_to_decimal(0), "0");
    assert_eq!(u64_to_decimal(18_446_744_073_709_551_615), "18446744073709551615");
    assert_eq!(parse_decimal_u64("2048"), Some(2048));
    assert_eq!(parse_decimal_u64("18446744073709551615"), Some(u64::MAX));
    assert_eq!(parse_decimal_u64("18446744073709551616"), None);
    assert_eq!(parse_decimal_u64(""), None);
    assert_eq!(parse_decimal_u64("12a"), None);
}

#[test]
fn disk_observe_finds_first_named() {
    let spec = EnsureDiskInput { name: "data".to_string(), zone: "z".to_string(), size_gb: 10, disk_type: "pd".to_string() };
    let listed = vec![
        Disk { disk_id: "1".to_string(), name: "other".to_string(), zone: "z".to_string(), size_gb: 5 },
        Disk { disk_id: "2".to_string(), name: "data".to_string(), zone: "z".to_string(), size_gb: 10 },
        Disk { disk_id: "3".to_string(), name: "data".to_string(), zone: "z".to_string(), size_gb: 20 },
    ];
    let found = disk::observe(listed, &spec).unwrap();
    assert_eq!(found.disk_id, "2");
    assert!(disk::observe(vec![], &spec).is_none());
    let req = disk::create_request(&spec);
    assert_eq!(req.name, "data");
    assert_eq!(req.disk_type, "pd");
    assert_eq!(req.size_gb, 10);
}

#[test]
fn instance_observe_and_request() {
    let spec = EnsureInstanceInput { name: "vm".to_string(), ..Default::default() };
    let listed = vec![Instance { name: "vm".to_string(), instance_id: "9".to_string(), ..Default::default() }];
    let found = instance::observe(listed, &spec).unwrap();
    assert_eq!(found.instance_id, "9");
    assert!(instance::observe(vec![Instance::default()], &spec).is_none());
    let req = instance::create_request(&spec);
    assert_eq!(req.name, "vm");
}

#[test]
fn bucket_observe_reports_spec() {
    let spec = EnsureBucketInput { bucket_name: "b".to_string(), location: "EU".to_string() };
    assert_eq!(
        bucket::observe(true, &spec),
        Some(EnsureBucketOutput { bucket_name: "b".to_string(), location: "EU".to_string() })
    );
    assert_eq!(bucket::observe(false, &spec), None);
    let out = bucket::created(Bucket { name: "n".to_string(), location: "US".to_string() });
    assert_eq!(out.bucket_name, "n");
    assert_eq!(out.location, "US");
}

#[test]
fn service_account_key_reuses_first() {
    let spec = EnsureServiceAccountKeyInput { service_account_email: "sa@p".to_string() };
    let keys = vec![
        CreatedServiceAccountKey { service_account_email: "x".to_string(), key_name: "k1".to_string(), private_key_data: Some("d".to_string()) },
        CreatedServiceAccountKey { service_account_email: "x".to_string(), key_name: "k2".to_string(), private_key_data: None },
    ];
    let o = service_account_key::observe(&keys, &spec).unwrap();
    assert_eq!(o.service_account_email, "sa@p");
    assert_eq!(o.key_name, "k1");
    assert_eq!(o.private_key_data, None);
    assert_eq!(service_account_key::existing_key(&keys).unwrap().key_name, "k1");
    assert!(service_account_key::existing_key(&vec![]).is_none());
    assert!(service_account_key::observe(&vec![], &spec).is_none());
}

fn helm_prefix(namespace: Option<&str>) -> Vec<String> {
    let mut p = vec!["helm".to_string()];
    if let Some(ns) = namespace {
        p.push("-n".to_string());
        p.push(ns.to_string());
    }
    p
}

fn run_argv(plan: &HelmPlan) -> Vec<String> {
    match plan {
        HelmPlan::Single(HelmStep::Run { argv }) => argv.clone(),
        other => panic!("expected a single run: {other:?}"),
    }
}

#[test]
fn upgrade_install_with_values_stages_file() {
    let opts = UpgradeOptions { values_yaml: Some("replicaCount: 1\n".into()), ..Default::default() };
    let plan = upgrade_install_plan(
        &helm_prefix(None),
        "ntfy",
        &HelmChart::Path("./charts/ntfy".into()),
        &opts,
        Some(("/stage/ntfy-release", "/stage/ntfy-release/values.yaml")),
    );
    let HelmPlan::Steps(steps) = &plan else {
        panic!("expected Seq");
    };
    assert_eq!(steps.len(), 3);
    assert_eq!(steps[0], HelmStep::EnsureDir { path: "/stage/ntfy-release".into(), mode: 0o700 });
    let HelmStep::WriteFile { content, mode, .. } = &steps[1] else {
        panic!("expected values write");
    };
    assert_eq!(content.as_bytes(), b"replicaCount: 1\n");
    assert_eq!(*mode, 0o600);
    let HelmStep::Run { argv } = &steps[2] else {
        panic!("expected run");
    };
    assert_eq!(&argv[argv.len() - 2..], &["-f".to_string(), "/stage/ntfy-release/values.yaml".to_string()]);
}

#[test]
fn upgrade_install_without_values_is_single_run() {
    let plan = upgrade_install_plan(
        &helm_prefix(None),
        "ntfy",
        &HelmChart::Path("./charts/ntfy".into()),
        &UpgradeOptions::default(),
        None,
    );
    assert!(matches!(plan, HelmPlan::Single(HelmStep::Run { .. })));
    let joined = run_argv(&plan).join(" ");
    assert!(joined.contains("helm"));
    assert!(joined.contains("upgrade"));
    assert!(joined.contains("--install"));
    assert!(joined.contains("ntfy"));
}

#[test]
fn upgrade_install_reference_chart_and_options() {
    let opts = UpgradeOptions {
        create_namespace: true,
        wait: true,
        timeout: Some("15m".into()),
        atomic: true,
        version: Some("15.0.0".into()),
        values_files: vec!["./extra.yaml".into()],
        set: vec![("replicaCount".into(), "2".into())],
        values_yaml: None,
    };
    let plan =
        upgrade_install_plan(&helm_prefix(Some("apps")), "nginx", &HelmChart::Reference("bitnami/nginx".into()), &opts, None);
    let joined = run_argv(&plan).join(" ");
    assert!(joined.contains("-n"));
    assert!(joined.contains("apps"));
    assert!(joined.contains("bitnami/nginx"));
    assert!(joined.contains("--create-namespace"));
    assert!(joined.contains("--wait"));
    assert!(joined.contains("--atomic"));
    assert!(joined.contains("--version"));
    assert!(joined.contains("15.0.0"));
    assert!(joined.contains("./extra.yaml"));
    assert!(joined.contains("replicaCount=2"));
    let args = upgrade_install_args("nginx", &HelmChart::Reference("bitnami/nginx".into()), &opts, None);
    assert_eq!(
        args,
        vec![
            "upgrade", "--install", "nginx", "bitnami/nginx", "--create-namespace", "--wait", "--timeout", "15m",
            "--atomic", "--version", "15.0.0", "-f", "./extra.yaml", "--set", "replicaCount=2"
        ]
    );
}

#[test]
fn upgrade_install_staged_values_come_last() {
    let opts = UpgradeOptions { values_yaml: Some("replicaCount: 1\n".into()), timeout: Some("5m".into()), ..Default::default() };
    let args = upgrade_install_args("ntfy", &HelmChart::Path("./charts/ntfy".into()), &opts, Some("/stage/values.yaml"));
    assert_eq!(args, vec!["upgrade", "--install", "ntfy", "./charts/ntfy", "-f", "/stage/values.yaml"]);
}

#[test]
fn repo_add_wraps_idempotent_shell() {
    let plan = repo_add_plan("helm", "'bitnami'", "'https://charts.bitnami.com/bitnami'");
    let argv = run_argv(&plan);
    assert_eq!(argv[0], "sh");
    assert!(argv[2].contains("helm repo add"));
    assert!(argv[2].contains("bitnami"));
    assert!(argv[2].contains("charts.bitnami.com"));
    assert!(argv[2].contains("repo list"));
    assert_eq!(
        argv[2],
        "set -e; helm repo add 'bitnami' 'https://charts.bitnami.com/bitnami' || { rc=$?; helm repo list 2>/dev/null | grep -q '^'bitnami'[[:space:]]' || exit $rc; }"
    );
}

#[test]
fn repo_update_argv() {
    let joined = run_argv(&repo_update_plan(&helm_prefix(None))).join(" ");
    assert_eq!(joined.matches("helm").count(), 1);
    assert!(joined.contains("repo"));
    assert!(joined.contains("update"));
}

#[test]
fn dependency_update_includes_chart_dir() {
    let joined = run_argv(&dependency_update_plan(&helm_prefix(None), "/charts/ntfy")).join(" ");
    assert!(joined.contains("dependency"));
    assert!(joined.contains("update"));
    assert!(joined.contains("/charts/ntfy"));
}

#[test]
fn uninstall_ignore_not_found_uses_shell_wrapper() {
    let plan = uninstall_plan(
        &helm_prefix(None),
        "helm",
        "ntfy",
        "ntfy",
        UninstallOptions { ignore_not_found: true, wait: false },
    );
    let argv = run_argv(&plan);
    assert!(argv[2].contains("helm uninstall"));
    assert!(argv[2].contains("ntfy"));
    assert!(argv[2].contains("helm list"));
}

#[test]
fn uninstall_wait_flag() {
    let joined = run_argv(&uninstall_plan(
        &helm_prefix(None),
        "helm",
        "ntfy",
        "ntfy",
        UninstallOptions { wait: true, ignore_not_found: false },
    ))
    .join(" ");
    assert!(joined.contains("uninstall"));
    assert!(joined.contains("--wait"));
    assert_eq!(uninstall_args("ntfy", UninstallOptions::default()), vec!["uninstall", "ntfy"]);
}
