//! Helm command lines: the arguments of `helm upgrade --install`,
//! `helm uninstall` and the repository/dependency subcommands.
//!
//! Each command becomes a plan of shell steps ([`HelmPlan`]). The kube
//! context supplies the command prefix (`helm --kubeconfig … -n …`), its
//! shell form, the shell quoting of names, and the staging location of a
//! values file; the plans here are built from what it supplies.

use vstd::prelude::*;
use crate::text::{concat2, concat3, concat4, owned};

verus! {

/// Where a chart comes from.
#[derive(Clone, Debug, PartialEq, Eq)]
pub enum HelmChart {
    /// A chart directory (rendered as its path text).
    Path(String),
    /// Remote chart reference, e.g. `bitnami/nginx` or `oci://registry/chart`.
    Reference(String),
}

/// Options of `helm upgrade --install`.
#[derive(Clone, Debug, Default, PartialEq, Eq)]
pub struct UpgradeOptions {
    pub create_namespace: bool,
    pub wait: bool,
    /// e.g. `15m` when `wait` is true (`helm upgrade --timeout`).
    pub timeout: Option<String>,
    pub atomic: bool,
    /// Values YAML staged to a file and passed with `-f` after everything else.
    pub values_yaml: Option<String>,
    pub values_files: Vec<String>,
    pub set: Vec<(String, String)>,
    pub version: Option<String>,
}

/// Options of `helm uninstall`.
#[derive(Clone, Copy, Debug, Default, PartialEq, Eq)]
pub struct UninstallOptions {
    pub wait: bool,
    pub ignore_not_found: bool,
}

/// Argument lists as sequences of character sequences.
pub open spec fn args_view(v: Seq<String>) -> Seq<Seq<char>> {
    v.map_values(|s: String| s@)
}

/// The text naming a chart.
pub open spec fn chart_text(c: HelmChart) -> Seq<char> {
    match c {
        HelmChart::Path(p) => p@,
        HelmChart::Reference(r) => r@,
    }
}

/// `[flag]` when `on`, nothing otherwise.
pub open spec fn flag(on: bool, f: Seq<char>) -> Seq<Seq<char>> {
    if on {
        seq![f]
    } else {
        Seq::empty()
    }
}

/// `[name, value]` when `value` is present, nothing otherwise.
pub open spec fn opt_arg(name: Seq<char>, value: Option<String>) -> Seq<Seq<char>> {
    match value {
        Some(v) => seq![name, v@],
        None => Seq::empty(),
    }
}

/// `-f <path>` for each values file.
pub open spec fn values_file_args(files: Seq<String>) -> Seq<Seq<char>>
    decreases files.len(),
{
    if files.len() == 0 {
        Seq::empty()
    } else {
        values_file_args(files.drop_last()).push("-f"@).push(files.last()@)
    }
}

/// `--set <key>=<value>` for each override.
pub open spec fn set_args(set: Seq<(String, String)>) -> Seq<Seq<char>>
    decreases set.len(),
{
    if set.len() == 0 {
        Seq::empty()
    } else {
        set_args(set.drop_last()).push("--set"@).push(set.last().0@ + "="@ + set.last().1@)
    }
}

/// Each values file, in order, is passed as `-f` followed by the file.
pub proof fn lemma_values_file_args_layout(files: Seq<String>)
    ensures
        values_file_args(files).len() == 2 * files.len(),
        forall|i: int| 0 <= i < files.len() ==> #[trigger] values_file_args(files)[2 * i] == "-f"@,
        forall|i: int| 0 <= i < files.len() ==> #[trigger] values_file_args(files)[2 * i + 1] == files[i]@,
    decreases files.len(),
{
    if files.len() > 0 {
        let init = files.drop_last();
        lemma_values_file_args_layout(init);
        let v = values_file_args(files);
        let w = values_file_args(init);
        assert(v == w.push("-f"@).push(files.last()@));
        assert(v.len() == 2 * files.len());
        assert forall|i: int| 0 <= i < files.len() implies #[trigger] v[2 * i] == "-f"@ && v[2 * i + 1]
            == files[i]@ by {
            if i < files.len() - 1 {
                assert(init[i] == files[i]);
                assert(w[2 * i + 1] == init[i]@);
                assert(v[2 * i] == w[2 * i]);
                assert(v[2 * i + 1] == w[2 * i + 1]);
            } else {
                assert(v[2 * i] == "-f"@);
                assert(v[2 * i + 1] == files.last()@);
            }
        }
    }
}

/// Each override, in order, is passed as `--set` followed by `key=value`.
pub proof fn lemma_set_args_layout(set: Seq<(String, String)>)
    ensures
        set_args(set).len() == 2 * set.len(),
        forall|i: int| 0 <= i < set.len() ==> #[trigger] set_args(set)[2 * i] == "--set"@,
        forall|i: int|
            0 <= i < set.len() ==> #[trigger] set_args(set)[2 * i + 1] == set[i].0@ + "="@ + set[i].1@,
    decreases set.len(),
{
    if set.len() > 0 {
        let init = set.drop_last();
        lemma_set_args_layout(init);
        let v = set_args(set);
        let w = set_args(init);
        assert(v == w.push("--set"@).push(set.last().0@ + "="@ + set.last().1@));
        assert(v.len() == 2 * set.len());
        assert forall|i: int| 0 <= i < set.len() implies #[trigger] v[2 * i] == "--set"@ && v[2 * i + 1]
            == set[i].0@ + "="@ + set[i].1@ by {
            if i < set.len() - 1 {
                assert(init[i] == set[i]);
                assert(w[2 * i + 1] == init[i].0@ + "="@ + init[i].1@);
                assert(v[2 * i] == w[2 * i]);
                assert(v[2 * i + 1] == w[2 * i + 1]);
            } else {
                assert(v[2 * i] == "--set"@);
                assert(v[2 * i + 1] == set.last().0@ + "="@ + set.last().1@);
            }
        }
    }
}

/// The number of arguments before the values files: `upgrade`, `--install`,
/// release and chart, then one per flag that is on, with `--timeout` and
/// `--version` taking two.
pub open spec fn flags_len(opts: UpgradeOptions) -> int {
    4 + (if opts.create_namespace {
        1int
    } else {
        0
    }) + (if opts.wait {
        1 + if opts.timeout is Some {
            2int
        } else {
            0
        }
    } else {
        0
    }) + (if opts.atomic {
        1int
    } else {
        0
    }) + (if opts.version is Some {
        2int
    } else {
        0
    })
}

/// The arguments of `helm upgrade --install`, in order: release and chart,
/// `--create-namespace`, `--wait` (with `--timeout` only when waiting),
/// `--atomic`, `--version`, each values file, each `--set`, and last the
/// staged values file when there is one.
pub open spec fn upgrade_args(
    release: Seq<char>,
    chart: HelmChart,
    opts: UpgradeOptions,
    staged_values: Option<Seq<char>>,
) -> Seq<Seq<char>> {
    seq!["upgrade"@, "--install"@, release, chart_text(chart)] + flag(
        opts.create_namespace,
        "--create-namespace"@,
    ) + (if opts.wait {
        seq!["--wait"@] + opt_arg("--timeout"@, opts.timeout)
    } else {
        Seq::empty()
    }) + flag(opts.atomic, "--atomic"@) + opt_arg("--version"@, opts.version) + values_file_args(
        opts.values_files@,
    ) + set_args(opts.set@) + match staged_values {
        Some(p) => seq!["-f"@, p],
        None => Seq::empty(),
    }
}

/// The arguments of `helm upgrade --install` for `release` from `chart`.
/// `staged_values` is the path the values YAML was staged to; it is given
/// exactly when `opts.values_yaml` is.
pub fn upgrade_install_args(
    release: &str,
    chart: &HelmChart,
    opts: &UpgradeOptions,
    staged_values: Option<&str>,
) -> (args: Vec<String>)
    requires
        staged_values is Some <==> opts.values_yaml is Some,
    ensures
        args_view(args@) == upgrade_args(
            release@,
            *chart,
            *opts,
            match staged_values {
                Some(p) => Some(p@),
                None => None,
            },
        ),
{
    let mut args: Vec<String> = Vec::new();
    args.push(owned("upgrade"));
    args.push(owned("--install"));
    args.push(owned(release));
    match chart {
        HelmChart::Path(p) => args.push(p.clone()),
        HelmChart::Reference(r) => args.push(r.clone()),
    }
    let ghost head = seq!["upgrade"@, "--install"@, release@, chart_text(*chart)];
    assert(args_view(args@) =~= head);
    if opts.create_namespace {
        args.push(owned("--create-namespace"));
    }
    let ghost g1 = head + flag(opts.create_namespace, "--create-namespace"@);
    assert(args_view(args@) =~= g1);
    if opts.wait {
        args.push(owned("--wait"));
        if let Some(t) = &opts.timeout {
            args.push(owned("--timeout"));
            args.push(t.clone());
        }
    }
    let ghost g2 = g1 + (if opts.wait {
        seq!["--wait"@] + opt_arg("--timeout"@, opts.timeout)
    } else {
        Seq::empty()
    });
    assert(args_view(args@) =~= g2);
    if opts.atomic {
        args.push(owned("--atomic"));
    }
    if let Some(v) = &opts.version {
        args.push(owned("--version"));
        args.push(v.clone());
    }
    let ghost g3 = g2 + flag(opts.atomic, "--atomic"@) + opt_arg("--version"@, opts.version);
    assert(args_view(args@) =~= g3);
    let mut i: usize = 0;
    while i < opts.values_files.len()
        invariant
            i <= opts.values_files@.len(),
            args_view(args@) == g3 + values_file_args(opts.values_files@.take(i as int)),
        decreases opts.values_files.len() - i,
    {
        let ghost prev = args@;
        let f = owned("-f");
        let file = opts.values_files[i].clone();
        args.push(f);
        args.push(file);
        assert(args_view(args@) =~= args_view(prev).push("-f"@).push(opts.values_files@[i as int]@));
        i = i + 1;
        assert(opts.values_files@.take(i as int).drop_last() =~= opts.values_files@.take(i - 1));
        assert(opts.values_files@.take(i as int).last() == opts.values_files@[i - 1]);
        assert(args_view(args@) =~= g3 + values_file_args(opts.values_files@.take(i as int)));
    }
    assert(opts.values_files@.take(opts.values_files@.len() as int) =~= opts.values_files@);
    let ghost g4 = g3 + values_file_args(opts.values_files@);
    let mut j: usize = 0;
    while j < opts.set.len()
        invariant
            j <= opts.set@.len(),
            args_view(args@) == g4 + set_args(opts.set@.take(j as int)),
        decreases opts.set.len() - j,
    {
        let ghost prev = args@;
        args.push(owned("--set"));
        let (k, v) = &opts.set[j];
        let kv = concat3(k.as_str(), "=", v.as_str());
        args.push(kv);
        assert(args_view(args@) =~= args_view(prev).push("--set"@).push(
            opts.set@[j as int].0@ + "="@ + opts.set@[j as int].1@,
        ));
        j = j + 1;
        assert(opts.set@.take(j as int).drop_last() =~= opts.set@.take(j - 1));
        assert(opts.set@.take(j as int).last() == opts.set@[j - 1]);
        assert(args_view(args@) =~= g4 + set_args(opts.set@.take(j as int)));
    }
    assert(opts.set@.take(opts.set@.len() as int) =~= opts.set@);
    if let Some(p) = staged_values {
        args.push(owned("-f"));
        args.push(owned(p));
    }
    assert(args_view(args@) =~= upgrade_args(
        release@,
        *chart,
        *opts,
        match staged_values {
            Some(p) => Some(p@),
            None => None,
        },
    ));
    args
}

/// The arguments of `helm uninstall`: the release, and `--wait` when asked.
/// (With `ignore_not_found` the release is removed through a shell wrapper
/// that tolerates a missing release instead.)
pub fn uninstall_args(release: &str, opts: UninstallOptions) -> (args: Vec<String>)
    ensures
        args_view(args@) == seq!["uninstall"@, release@] + flag(opts.wait, "--wait"@),
{
    let mut args: Vec<String> = Vec::new();
    args.push(owned("uninstall"));
    args.push(owned(release));
    if opts.wait {
        args.push(owned("--wait"));
    }
    assert(args_view(args@) =~= seq!["uninstall"@, release@] + flag(opts.wait, "--wait"@));
    args
}

/// The arguments of `helm repo update`.
pub fn repo_update_args() -> (args: Vec<String>)
    ensures
        args_view(args@) == seq!["repo"@, "update"@],
{
    let mut args: Vec<String> = Vec::new();
    args.push(owned("repo"));
    args.push(owned("update"));
    assert(args_view(args@) =~= seq!["repo"@, "update"@]);
    args
}

/// The arguments of `helm dependency update` in a chart directory.
pub fn dependency_update_args(chart_dir: &str) -> (args: Vec<String>)
    ensures
        args_view(args@) == seq!["dependency"@, "update"@, chart_dir@],
{
    let mut args: Vec<String> = Vec::new();
    args.push(owned("dependency"));
    args.push(owned("update"));
    args.push(owned(chart_dir));
    assert(args_view(args@) =~= seq!["dependency"@, "update"@, chart_dir@]);
    args
}


/// A shell step of a Helm plan.
#[derive(Clone, Debug, PartialEq, Eq)]
pub enum HelmStep {
    /// Create a directory with the given permission bits.
    EnsureDir { path: String, mode: u32 },
    /// Write a file with the given content and permission bits.
    WriteFile { path: String, content: String, mode: u32 },
    /// Run a command line.
    Run { argv: Vec<String> },
}

/// A Helm operation: one step, or several run in order.
#[derive(Clone, Debug, PartialEq, Eq)]
pub enum HelmPlan {
    Single(HelmStep),
    Steps(Vec<HelmStep>),
}

/// Permission bits of the directory a values file is staged in.
pub const STAGING_DIR_MODE: u32 = 0o700;

/// Permission bits of a staged values file.
pub const VALUES_FILE_MODE: u32 = 0o600;

/// Whether `step` runs exactly the command line `argv`.
pub open spec fn runs(step: HelmStep, argv: Seq<Seq<char>>) -> bool {
    step matches HelmStep::Run { argv: a } && args_view(a@) == argv
}

/// Whether `plan` is the single step that runs `argv`.
pub open spec fn single_run(plan: HelmPlan, argv: Seq<Seq<char>>) -> bool {
    plan matches HelmPlan::Single(step) && runs(step, argv)
}

/// Whether `plan` creates the staging directory `dir`, writes `content` to
/// the values file `file`, and then runs `argv`.
pub open spec fn staged_run(
    plan: HelmPlan,
    dir: Seq<char>,
    file: Seq<char>,
    content: String,
    argv: Seq<Seq<char>>,
) -> bool {
    match plan {
        HelmPlan::Steps(steps) => {
            &&& steps@.len() == 3
            &&& match steps@[0] {
                HelmStep::EnsureDir { path, mode } => path@ == dir && mode == STAGING_DIR_MODE,
                _ => false,
            }
            &&& match steps@[1] {
                HelmStep::WriteFile { path, content: c, mode } => path@ == file && c == content && mode
                    == VALUES_FILE_MODE,
                _ => false,
            }
            &&& runs(steps@[2], argv)
        },
        _ => false,
    }
}

/// `prefix` followed by `args`.
fn with_prefix(prefix: &Vec<String>, args: Vec<String>) -> (r: Vec<String>)
    ensures
        args_view(r@) == args_view(prefix@) + args_view(args@),
{
    let mut r: Vec<String> = Vec::new();
    let mut i: usize = 0;
    while i < prefix.len()
        invariant
            i <= prefix@.len(),
            r@ == prefix@.take(i as int),
        decreases prefix.len() - i,
    {
        r.push(prefix[i].clone());
        i = i + 1;
        assert(r@ =~= prefix@.take(i as int));
    }
    assert(prefix@.take(prefix@.len() as int) =~= prefix@);
    let ghost head = r@;
    let mut j: usize = 0;
    while j < args.len()
        invariant
            j <= args@.len(),
            head == prefix@,
            r@ == head + args@.take(j as int),
        decreases args.len() - j,
    {
        r.push(args[j].clone());
        j = j + 1;
        assert(r@ =~= head + args@.take(j as int));
    }
    assert(args@.take(args@.len() as int) =~= args@);
    assert(args_view(r@) =~= args_view(prefix@) + args_view(args@));
    r
}

/// The plan that runs `prefix` + `args`.
fn run_plan(prefix: &Vec<String>, args: Vec<String>) -> (p: HelmPlan)
    ensures
        single_run(p, args_view(prefix@) + args_view(args@)),
{
    HelmPlan::Single(HelmStep::Run { argv: with_prefix(prefix, args) })
}

/// `helm upgrade --install` for `release` from `chart`, run with the kube
/// context's command `prefix`. With values YAML, `staging` gives the staging
/// directory and the values file inside it: the plan creates the directory
/// (mode 0700), writes the YAML to the file (mode 0600) and runs the command
/// with `-f <file>` last; without, the plan is the single command.
pub fn upgrade_install_plan(
    prefix: &Vec<String>,
    release: &str,
    chart: &HelmChart,
    opts: &UpgradeOptions,
    staging: Option<(&str, &str)>,
) -> (p: HelmPlan)
    requires
        staging is Some <==> opts.values_yaml is Some,
    ensures
        opts.values_yaml is None ==> single_run(
            p,
            args_view(prefix@) + upgrade_args(release@, *chart, *opts, None),
        ),
        opts.values_yaml is Some ==> staged_run(
            p,
            staging.unwrap().0@,
            staging.unwrap().1@,
            opts.values_yaml.unwrap(),
            args_view(prefix@) + upgrade_args(release@, *chart, *opts, Some(staging.unwrap().1@)),
        ),
{
    match staging {
        None => {
            let args = upgrade_install_args(release, chart, opts, None);
            run_plan(prefix, args)
        },
        Some((dir, file)) => {
            let args = upgrade_install_args(release, chart, opts, Some(file));
            let yaml = match &opts.values_yaml {
                Some(y) => y.clone(),
                None => String::new(),
            };
            let mut steps: Vec<HelmStep> = Vec::new();
            steps.push(HelmStep::EnsureDir { path: owned(dir), mode: STAGING_DIR_MODE });
            steps.push(HelmStep::WriteFile { path: owned(file), content: yaml, mode: VALUES_FILE_MODE });
            steps.push(HelmStep::Run { argv: with_prefix(prefix, args) });
            HelmPlan::Steps(steps)
        },
    }
}

/// The script that removes `release` and succeeds when it was not installed:
/// `{helm} uninstall {rel} || { rc=$?; {helm} list -q 2>/dev/null | grep -qx {rel} || exit $rc; }`,
/// with `helm` the context's shell command and `rel` the quoted release.
pub open spec fn uninstall_script(helm: Seq<char>, rel: Seq<char>) -> Seq<char> {
    helm + " uninstall "@ + rel + " || { rc=$?; "@ + helm + " list -q 2>/dev/null | grep -qx "@
        + rel + " || exit $rc; }"@
}

/// The script that adds a repository and succeeds when it is already there:
/// `set -e; {helm} repo add {name} {url} || { rc=$?; {helm} repo list 2>/dev/null | grep -q '^{name}[[:space:]]' || exit $rc; }`.
pub open spec fn repo_add_script(helm: Seq<char>, name: Seq<char>, url: Seq<char>) -> Seq<char> {
    "set -e; "@ + helm + " repo add "@ + name + " "@ + url + " || { rc=$?; "@ + helm
        + " repo list 2>/dev/null | grep -q '^"@ + name + "[[:space:]]' || exit $rc; }"@
}

/// The plan that runs `script` with `sh -ec`.
fn shell_plan(script: String) -> (p: HelmPlan)
    ensures
        single_run(p, seq!["sh"@, "-ec"@, script@]),
{
    let mut argv: Vec<String> = Vec::new();
    argv.push(owned("sh"));
    argv.push(owned("-ec"));
    let ghost sv = script@;
    argv.push(script);
    assert(args_view(argv@) =~= seq!["sh"@, "-ec"@, sv]);
    HelmPlan::Single(HelmStep::Run { argv })
}

/// `helm uninstall`. With `ignore_not_found` it is the shell wrapper that
/// tolerates a missing release (`helm` is the context's shell command,
/// `quoted_release` the shell-quoted release), which does not wait; otherwise
/// the command with the context's `prefix`, and `--wait` when asked.
pub fn uninstall_plan(
    prefix: &Vec<String>,
    helm: &str,
    release: &str,
    quoted_release: &str,
    opts: UninstallOptions,
) -> (p: HelmPlan)
    ensures
        opts.ignore_not_found ==> single_run(
            p,
            seq!["sh"@, "-ec"@, uninstall_script(helm@, quoted_release@)],
        ),
        !opts.ignore_not_found ==> single_run(
            p,
            args_view(prefix@) + seq!["uninstall"@, release@] + flag(opts.wait, "--wait"@),
        ),
{
    if opts.ignore_not_found {
        let a = concat4(helm, " uninstall ", quoted_release, " || { rc=$?; ");
        let b = concat4(helm, " list -q 2>/dev/null | grep -qx ", quoted_release, " || exit $rc; }");
        let script = concat2(a.as_str(), b.as_str());
        assert(script@ =~= uninstall_script(helm@, quoted_release@));
        shell_plan(script)
    } else {
        let args = uninstall_args(release, opts);
        let p = run_plan(prefix, args);
        assert(args_view(prefix@) + seq!["uninstall"@, release@] + flag(opts.wait, "--wait"@)
            =~= args_view(prefix@) + (seq!["uninstall"@, release@] + flag(opts.wait, "--wait"@)));
        p
    }
}

/// `helm repo add` that succeeds when the repository already exists;
/// `helm` is the context's shell command, `quoted_name` and `quoted_url`
/// the shell-quoted name and URL.
pub fn repo_add_plan(helm: &str, quoted_name: &str, quoted_url: &str) -> (p: HelmPlan)
    ensures
        single_run(p, seq!["sh"@, "-ec"@, repo_add_script(helm@, quoted_name@, quoted_url@)]),
{
    let a = concat4("set -e; ", helm, " repo add ", quoted_name);
    let b = concat4(" ", quoted_url, " || { rc=$?; ", helm);
    let c = concat3(" repo list 2>/dev/null | grep -q '^", quoted_name, "[[:space:]]' || exit $rc; }");
    let ab = concat2(a.as_str(), b.as_str());
    let script = concat2(ab.as_str(), c.as_str());
    assert(script@ =~= repo_add_script(helm@, quoted_name@, quoted_url@));
    shell_plan(script)
}

/// `helm repo update` with the context's `prefix`.
pub fn repo_update_plan(prefix: &Vec<String>) -> (p: HelmPlan)
    ensures
        single_run(p, args_view(prefix@) + seq!["repo"@, "update"@]),
{
    run_plan(prefix, repo_update_args())
}

/// `helm dependency update` in a chart directory, with the context's `prefix`.
pub fn dependency_update_plan(prefix: &Vec<String>, chart_dir: &str) -> (p: HelmPlan)
    ensures
        single_run(p, args_view(prefix@) + seq!["dependency"@, "update"@, chart_dir@]),
{
    run_plan(prefix, dependency_update_args(chart_dir))
}

/// An arbitrary helm subcommand with the context's `prefix`.
pub fn run_plan_of(prefix: &Vec<String>, args: &Vec<String>) -> (p: HelmPlan)
    ensures
        single_run(p, args_view(prefix@) + args_view(args@)),
{
    let mut owned_args: Vec<String> = Vec::new();
    let mut i: usize = 0;
    while i < args.len()
        invariant
            i <= args@.len(),
            owned_args@ == args@.take(i as int),
        decreases args.len() - i,
    {
        owned_args.push(args[i].clone());
        i = i + 1;
        assert(owned_args@ =~= args@.take(i as int));
    }
    assert(args@.take(args@.len() as int) =~= args@);
    run_plan(prefix, owned_args)
}


/// Where each argument of `helm upgrade --install` stands: the command,
/// release and chart first; after the flags, every values file in order as
/// `-f <file>`, then every override in order as `--set key=value`, and the
/// staged values file, when there is one, as the last `-f <file>`.
pub proof fn lemma_upgrade_args_layout(
    release: Seq<char>,
    chart: HelmChart,
    opts: UpgradeOptions,
    staged: Option<Seq<char>>,
)
    ensures
        ({
            let a = upgrade_args(release, chart, opts, staged);
            let k = flags_len(opts);
            let nf = opts.values_files@.len();
            let ns = opts.set@.len();
            &&& a.len() == k + 2 * nf + 2 * ns + if staged is Some {
                2int
            } else {
                0
            }
            &&& a[0] == "upgrade"@ && a[1] == "--install"@ && a[2] == release && a[3] == chart_text(chart)
            &&& forall|i: int|
                0 <= i < nf ==> a[k + 2 * i] == "-f"@ && #[trigger] a[k + 2 * i + 1]
                    == opts.values_files@[i]@
            &&& forall|i: int|
                0 <= i < ns ==> a[k + 2 * nf + 2 * i] == "--set"@ && #[trigger] a[k + 2 * nf + 2 * i + 1]
                    == opts.set@[i].0@ + "="@ + opts.set@[i].1@
            &&& staged matches Some(p) ==> a[a.len() - 2] == "-f"@ && a[a.len() - 1] == p
        }),
{
    let files = opts.values_files@;
    let set = opts.set@;
    lemma_values_file_args_layout(files);
    lemma_set_args_layout(set);
    let head = seq!["upgrade"@, "--install"@, release, chart_text(chart)] + flag(
        opts.create_namespace,
        "--create-namespace"@,
    ) + (if opts.wait {
        seq!["--wait"@] + opt_arg("--timeout"@, opts.timeout)
    } else {
        Seq::empty()
    }) + flag(opts.atomic, "--atomic"@) + opt_arg("--version"@, opts.version);
    let tail = match staged {
        Some(p) => seq!["-f"@, p],
        None => Seq::<Seq<char>>::empty(),
    };
    let a = upgrade_args(release, chart, opts, staged);
    assert(a == head + values_file_args(files) + set_args(set) + tail);
    assert(head.len() == flags_len(opts));
    let k = flags_len(opts);
    let vf = values_file_args(files);
    let sa = set_args(set);
    assert forall|i: int| 0 <= i < files.len() implies a[k + 2 * i] == "-f"@ && #[trigger] a[k + 2
        * i + 1] == files[i]@ by {
        assert(a[k + 2 * i] == vf[2 * i]);
        assert(a[k + 2 * i + 1] == vf[2 * i + 1]);
    }
    assert forall|i: int| 0 <= i < set.len() implies a[k + 2 * files.len() + 2 * i] == "--set"@
        && #[trigger] a[k + 2 * files.len() + 2 * i + 1] == set[i].0@ + "="@ + set[i].1@ by {
        assert(a[k + 2 * files.len() + 2 * i] == sa[2 * i]);
        assert(a[k + 2 * files.len() + 2 * i + 1] == sa[2 * i + 1]);
    }
    assert(a[0] == head[0] && a[1] == head[1] && a[2] == head[2] && a[3] == head[3]);
}

} // verus!
