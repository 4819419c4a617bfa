//! Kubeconfigs of clusters, and what the tools that use them answer.
use crate::config::{path_under, under};
use crate::error::{ApiResult, AppError, ErrorV};
use crate::kubeconfig::{context_name, rename_kubeconfig_context, renamed_lines};
use crate::text::{
    cat, contains, join, lines, lit, lower, no_texts, opt_text, put, quote, quoted, starts_with,
    str_contains, str_eq, str_join, str_lower, str_starts, str_trim, texts, trim,
};
use crate::yaml::unlines;
use vstd::prelude::*;
use vstd::string::*;

verus! {

#[derive(Debug, Clone, Copy, PartialEq, Eq, Structural)]
pub enum WorkloadKind {
    Deployments,
    StatefulSets,
    DaemonSets,
    Jobs,
    CronJobs,
    Pods,
}

impl WorkloadKind {
    /// The name of the resource.
    pub open spec fn name(self) -> Seq<char> {
        match self {
            WorkloadKind::Deployments => "deployments"@,
            WorkloadKind::StatefulSets => "statefulsets"@,
            WorkloadKind::DaemonSets => "daemonsets"@,
            WorkloadKind::Jobs => "jobs"@,
            WorkloadKind::CronJobs => "cronjobs"@,
            WorkloadKind::Pods => "pods"@,
        }
    }

    /// The kind that a text names, in any case: by its plural, singular or short
    /// name.
    pub open spec fn named(s: Seq<char>) -> Option<WorkloadKind> {
        let t = lower(s);
        if t == "deployments"@ || t == "deployment"@ || t == "deploy"@ {
            Some(WorkloadKind::Deployments)
        } else if t == "statefulsets"@ || t == "statefulset"@ || t == "sts"@ {
            Some(WorkloadKind::StatefulSets)
        } else if t == "daemonsets"@ || t == "daemonset"@ || t == "ds"@ {
            Some(WorkloadKind::DaemonSets)
        } else if t == "jobs"@ || t == "job"@ {
            Some(WorkloadKind::Jobs)
        } else if t == "cronjobs"@ || t == "cronjob"@ || t == "cj"@ {
            Some(WorkloadKind::CronJobs)
        } else if t == "pods"@ || t == "pod"@ || t == "po"@ {
            Some(WorkloadKind::Pods)
        } else {
            None
        }
    }

    pub fn parse(s: &str) -> (r: Option<WorkloadKind>)
        ensures
            r == WorkloadKind::named(s@),
    {
        let t = str_lower(s);
        if str_eq(&t, "deployments") || str_eq(&t, "deployment") || str_eq(&t, "deploy") {
            Some(WorkloadKind::Deployments)
        } else if str_eq(&t, "statefulsets") || str_eq(&t, "statefulset") || str_eq(&t, "sts") {
            Some(WorkloadKind::StatefulSets)
        } else if str_eq(&t, "daemonsets") || str_eq(&t, "daemonset") || str_eq(&t, "ds") {
            Some(WorkloadKind::DaemonSets)
        } else if str_eq(&t, "jobs") || str_eq(&t, "job") {
            Some(WorkloadKind::Jobs)
        } else if str_eq(&t, "cronjobs") || str_eq(&t, "cronjob") || str_eq(&t, "cj") {
            Some(WorkloadKind::CronJobs)
        } else if str_eq(&t, "pods") || str_eq(&t, "pod") || str_eq(&t, "po") {
            Some(WorkloadKind::Pods)
        } else {
            None
        }
    }

    pub fn kubectl_resource(self) -> (r: &'static str)
        ensures
            r@ == self.name(),
    {
        match self {
            WorkloadKind::Deployments => "deployments",
            WorkloadKind::StatefulSets => "statefulsets",
            WorkloadKind::DaemonSets => "daemonsets",
            WorkloadKind::Jobs => "jobs",
            WorkloadKind::CronJobs => "cronjobs",
            WorkloadKind::Pods => "pods",
        }
    }

    pub fn as_str(self) -> (r: &'static str)
        ensures
            r@ == self.name(),
    {
        self.kubectl_resource()
    }
}

/// A kind is read back from its name.
pub proof fn law_workload_kind_roundtrip(k: WorkloadKind)
    ensures
        WorkloadKind::named(k.name()) == Some(k),
{
    reveal_strlit("deployments");
    reveal_strlit("deployment");
    reveal_strlit("deploy");
    reveal_strlit("statefulsets");
    reveal_strlit("statefulset");
    reveal_strlit("sts");
    reveal_strlit("daemonsets");
    reveal_strlit("daemonset");
    reveal_strlit("ds");
    reveal_strlit("jobs");
    reveal_strlit("job");
    reveal_strlit("cronjobs");
    reveal_strlit("cronjob");
    reveal_strlit("cj");
    reveal_strlit("pods");
    assert(lower(k.name()) =~= k.name());
    let t = k.name();
    assert(t[0] == k.name()[0]);
    assert(k is Jobs ==> t.len() == 4);
    assert(k is Pods ==> t.len() == 4);
    assert("daemonsets"@[1] == 'a' && "deployments"@[1] == 'e' && "deployment"@[1] == 'e');
}

// ---------------------------------------------------------------------------
// Kubeconfigs
// ---------------------------------------------------------------------------

/// A kubeconfig that names the authority of its cluster. A stub left by an
/// earlier cluster does not.
pub open spec fn is_usable_kubeconfig(raw: Seq<char>) -> bool {
    let t = trim(raw);
    t.len() > 0 && !starts_with(t, "#"@) && (contains(t, "certificate-authority-data"@) || contains(
        t,
        "certificate-authority:"@,
    ))
}

pub fn kubeconfig_file_usable_str(raw: &str) -> (r: bool)
    ensures
        r == is_usable_kubeconfig(raw@),
{
    let t = str_trim(raw);
    !t.is_empty() && !str_starts(&t, "#") && (str_contains(&t, "certificate-authority-data")
        || str_contains(&t, "certificate-authority:"))
}

/// A file is usable if it could be read and its text is.
pub open spec fn is_usable_file(content: Option<Seq<char>>) -> bool {
    content is Some && is_usable_kubeconfig(content->0)
}

/// Whether a kubeconfig file can be used, given what was read of it.
pub fn kubeconfig_file_usable(content: &Option<String>) -> (r: bool)
    ensures
        r == is_usable_file(opt_text(*content)),
{
    match content {
        Some(raw) => kubeconfig_file_usable_str(raw),
        None => false,
    }
}

/// The message says that the certificate of the API was not accepted.
pub open spec fn is_tls_error(msg: Seq<char>) -> bool {
    let m = lower(msg);
    contains(m, "x509"@) || contains(m, "certificate signed by unknown authority"@) || contains(
        m,
        "tls: failed to verify"@,
    ) || contains(m, "ecdsa verification failure"@)
}

pub fn kubeconfig_tls_error(msg: &str) -> (r: bool)
    ensures
        r == is_tls_error(msg@),
{
    let m = str_lower(msg);
    str_contains(&m, "x509") || str_contains(&m, "certificate signed by unknown authority")
        || str_contains(&m, "tls: failed to verify") || str_contains(
        &m,
        "ecdsa verification failure",
    )
}

/// What is stored of the kubeconfig of a cluster.
#[derive(Debug, PartialEq, Eq)]
pub struct KubeconfigRow {
    pub kubeconfig_path: Option<String>,
    pub name: String,
    pub status: String,
}

/// Where the kubeconfig of a cluster may be: at the stored path, under the
/// cluster's name, and where a local build leaves it.
pub open spec fn kubeconfig_paths(row: KubeconfigRow, dir: Seq<char>, local: bool) -> Seq<
    Seq<char>,
> {
    let stored = match row.kubeconfig_path {
        Some(p) => if p@.len() == 0 {
            Seq::<Seq<char>>::empty()
        } else {
            seq![p@]
        },
        None => Seq::<Seq<char>>::empty(),
    };
    let named = stored.push(under(under(dir, row.name@), "admin.conf"@));
    if local {
        named.push("out/cluster/admin.conf"@)
    } else {
        named
    }
}

/// Where to look for the kubeconfig of a cluster, in order. The local build is
/// looked for only where the state of the cluster does not matter.
pub fn kubeconfig_candidates(row: &KubeconfigRow, kubeconfigs_dir: &str, local: bool) -> (r: Vec<
    String,
>)
    ensures
        texts(r@) == kubeconfig_paths(*row, kubeconfigs_dir@, local),
{
    let mut v = no_texts();
    match &row.kubeconfig_path {
        Some(p) => {
            if !p.is_empty() {
                put(&mut v, p);
                assert(texts(v@) =~= seq![p@]);
            }
        },
        None => {},
    }
    put(&mut v, &path_under(&path_under(kubeconfigs_dir, &row.name), "admin.conf"));
    if local {
        put(&mut v, "out/cluster/admin.conf");
    }
    v
}

/// The first of the files at or after `i` that can be used; the number of paths
/// if none can.
pub open spec fn first_usable(paths: Seq<Seq<char>>, contents: Seq<Option<String>>, i: int) -> int
    decreases paths.len() - i,
{
    if 0 <= i < paths.len() && !(i < contents.len() && is_usable_file(opt_text(contents[i]))) {
        first_usable(paths, contents, i + 1)
    } else {
        i
    }
}

/// The path of the kubeconfig to use and the name of the cluster, given what was
/// read at each path.
pub open spec fn resolved(row: KubeconfigRow, paths: Seq<Seq<char>>, contents: Seq<Option<String>>) -> Result<
    (Seq<char>, Seq<char>),
    ErrorV,
> {
    let k = first_usable(paths, contents, 0);
    if k < paths.len() {
        Ok((paths[k], row.name@))
    } else {
        Err(ErrorV::BadRequest("kubeconfig not available yet"@))
    }
}

/// The mathematical form of what was resolved.
pub open spec fn resolved_view(r: ApiResult<(String, String)>) -> Result<
    (Seq<char>, Seq<char>),
    ErrorV,
> {
    match r {
        Ok(p) => Ok((p.0@, p.1@)),
        Err(e) => Err(e@),
    }
}

fn pick_kubeconfig(row: &KubeconfigRow, paths: &Vec<String>, contents: &Vec<Option<String>>) -> (r:
    ApiResult<(String, String)>)
    ensures
        resolved_view(r) == resolved(*row, texts(paths@), contents@),
{
    let ghost ps = texts(paths@);
    let mut i: usize = 0;
    while i < paths.len()
        invariant
            i <= paths.len(),
            ps == texts(paths@),
            first_usable(ps, contents@, 0) == first_usable(ps, contents@, i as int),
        decreases paths.len() - i,
    {
        if i < contents.len() && kubeconfig_file_usable(&contents[i]) {
            return Ok((lit(&paths[i]), lit(&row.name)));
        }
        i += 1;
    }
    Err(AppError::bad("kubeconfig not available yet"))
}

/// The kubeconfig of a cluster in any state, given what was read at each of its
/// candidates.
pub fn resolve_cluster_kubeconfig(
    row: &Option<KubeconfigRow>,
    kubeconfigs_dir: &str,
    contents: &Vec<Option<String>>,
) -> (r: ApiResult<(String, String)>)
    ensures
        resolved_view(r) == match *row {
            Some(c) => resolved(c, kubeconfig_paths(c, kubeconfigs_dir@, true), contents@),
            None => Err(ErrorV::NotFound),
        },
{
    match row {
        Some(c) => {
            let paths = kubeconfig_candidates(c, kubeconfigs_dir, true);
            pick_kubeconfig(c, &paths, contents)
        },
        None => Err(AppError::NotFound),
    }
}

/// The kubeconfig of a cluster that is ready, given what was read at each of its
/// candidates.
pub fn resolve_ready_kubeconfig(
    row: &Option<KubeconfigRow>,
    kubeconfigs_dir: &str,
    contents: &Vec<Option<String>>,
) -> (r: ApiResult<(String, String)>)
    ensures
        resolved_view(r) == match *row {
            Some(c) => if c.status@ != "ready"@ {
                Err(
                    ErrorV::BadRequest(
                        "cluster is "@ + c.status@ + "; K8s API available when ready"@,
                    ),
                )
            } else {
                resolved(c, kubeconfig_paths(c, kubeconfigs_dir@, false), contents@)
            },
            None => Err(ErrorV::NotFound),
        },
{
    match row {
        Some(c) => {
            if !str_eq(&c.status, "ready") {
                return Err(
                    AppError::BadRequest(
                        lit("cluster is ").concat(&c.status).concat(
                            "; K8s API available when ready",
                        ),
                    ),
                );
            }
            let paths = kubeconfig_candidates(c, kubeconfigs_dir, false);
            pick_kubeconfig(c, &paths, contents)
        },
        None => Err(AppError::NotFound),
    }
}

proof fn lemma_first_usable(paths: Seq<Seq<char>>, contents: Seq<Option<String>>, i: int)
    requires
        0 <= i <= paths.len(),
    ensures
        i <= first_usable(paths, contents, i) <= paths.len(),
        ({
            let k = first_usable(paths, contents, i);
            k < paths.len() ==> k < contents.len() && is_usable_file(opt_text(contents[k]))
        }),
    decreases paths.len() - i,
{
    if i < paths.len() && !(i < contents.len() && is_usable_file(opt_text(contents[i]))) {
        lemma_first_usable(paths, contents, i + 1);
    }
}

/// A kubeconfig that is handed out was read and can be used.
pub proof fn law_resolved_kubeconfig_is_usable(
    row: KubeconfigRow,
    paths: Seq<Seq<char>>,
    contents: Seq<Option<String>>,
)
    requires
        resolved(row, paths, contents) is Ok,
    ensures
        exists|k: int|
            0 <= k < paths.len() && k < contents.len() && resolved(row, paths, contents)->Ok_0.0
                == paths[k] && is_usable_file(opt_text(#[trigger] contents[k])),
{
    lemma_first_usable(paths, contents, 0);
    let k = first_usable(paths, contents, 0);
    assert(is_usable_file(opt_text(contents[k])));
}

/// The kubeconfig that a guest handed out, with the cluster's name.
pub fn refreshed_kubeconfig(content: &str, cluster_name: &str) -> (r: Result<String, String>)
    ensures
        r is Ok == is_usable_kubeconfig(content@),
        match r {
            Ok(text) => text@ == unlines(
                renamed_lines(lines(content@), context_name(cluster_name@)),
            ),
            Err(e) => e@ == "guest returned empty kubeconfig"@,
        },
{
    if !kubeconfig_file_usable_str(content) {
        return Err(lit("guest returned empty kubeconfig"));
    }
    Ok(rename_kubeconfig_context(content, cluster_name))
}

/// The address of the machine API of a guest.
pub fn guest_endpoint(guest_ip: &str) -> (r: Result<String, String>)
    ensures
        r is Ok == (trim(guest_ip@).len() > 0),
        match r {
            Ok(a) => a@ == trim(guest_ip@) + ":50000"@,
            Err(e) => e@ == "no guest IP"@,
        },
{
    let ip = str_trim(guest_ip);
    if ip.is_empty() {
        Err(lit("no guest IP"))
    } else {
        Ok(ip.concat(":50000"))
    }
}

// ---------------------------------------------------------------------------
// Answers of the tools
// ---------------------------------------------------------------------------

/// What a command left behind.
#[derive(Debug, PartialEq, Eq)]
pub struct CommandOutput {
    pub success: bool,
    pub stdout: String,
    pub stderr: String,
}

/// The trimmed message of a command, or another where it gave none.
pub open spec fn message_or(stderr: Seq<char>, other: Seq<char>) -> Seq<char> {
    if trim(stderr).len() == 0 {
        other
    } else {
        trim(stderr)
    }
}

pub fn error_text(stderr: &str, other: &str) -> (r: String)
    ensures
        r@ == message_or(stderr@, other@),
{
    let t = str_trim(stderr);
    if t.is_empty() {
        lit(other)
    } else {
        t
    }
}

/// The arguments of a command as a list, each one quoted.
pub open spec fn shown_args(args: Seq<Seq<char>>) -> Seq<char> {
    "["@ + join(Seq::new(args.len(), |i: int| quoted(args[i])), ", "@) + "]"@
}

fn show_args(args: &Vec<String>) -> (r: String)
    ensures
        r@ == shown_args(texts(args@)),
{
    let ghost want = Seq::new(args@.len(), |i: int| quoted(args@[i]@));
    let mut v = no_texts();
    let mut i: usize = 0;
    while i < args.len()
        invariant
            i <= args.len(),
            want == Seq::new(args@.len(), |i: int| quoted(args@[i]@)),
            texts(v@) == want.take(i as int),
        decreases args.len() - i,
    {
        put(&mut v, &quote(&args[i]));
        assert(want.take(i + 1) =~= want.take(i as int).push(want[i as int]));
        i += 1;
    }
    assert(want.take(args@.len() as int) =~= want);
    assert(want =~= Seq::new(texts(args@).len(), |i: int| quoted(texts(args@)[i])));
    lit("[").concat(&str_join(&v, ", ")).concat("]")
}

/// What a failed tool is reported as.
pub open spec fn tool_failure(tool: Seq<char>, args: Seq<Seq<char>>, stderr: Seq<char>) -> ErrorV {
    ErrorV::BadRequest(message_or(stderr, tool + " "@ + shown_args(args) + " failed"@))
}

fn failed_tool(tool: &str, args: &Vec<String>, stderr: &str) -> (r: AppError)
    ensures
        r@ == tool_failure(tool@, texts(args@), stderr@),
{
    AppError::BadRequest(
        error_text(stderr, &lit(tool).concat(" ").concat(&show_args(args)).concat(" failed")),
    )
}

/// The text of the JSON document that `kubectl` printed.
pub fn kubectl_json(out: &CommandOutput, args: &Vec<String>) -> (r: ApiResult<String>)
    ensures
        r is Ok == out.success,
        match r {
            Ok(s) => s@ == trim(out.stdout@),
            Err(e) => e@ == tool_failure("kubectl"@, texts(args@), out.stderr@),
        },
{
    if out.success {
        Ok(str_trim(&out.stdout))
    } else {
        Err(failed_tool("kubectl", args, &out.stderr))
    }
}

/// Whether `kubectl` did what it was asked to.
pub fn kubectl_ok(out: &CommandOutput, args: &Vec<String>) -> (r: ApiResult<()>)
    ensures
        r is Ok == out.success,
        match r {
            Ok(_) => true,
            Err(e) => e@ == tool_failure("kubectl"@, texts(args@), out.stderr@),
        },
{
    if out.success {
        Ok(())
    } else {
        Err(failed_tool("kubectl", args, &out.stderr))
    }
}

/// The message says that there is no such resource.
pub open spec fn says_missing(stderr: Seq<char>) -> bool {
    let m = lower(trim(stderr));
    contains(m, "notfound"@) || contains(m, "not found"@) || contains(m, "no matches for kind"@)
        || contains(m, "the server could not find the requested resource"@)
}

fn is_missing(stderr: &str) -> (r: bool)
    ensures
        r == says_missing(stderr@),
{
    let m = str_lower(&str_trim(stderr));
    str_contains(&m, "notfound") || str_contains(&m, "not found") || str_contains(
        &m,
        "no matches for kind",
    ) || str_contains(&m, "the server could not find the requested resource")
}

/// The text of the JSON document that `kubectl` printed, nothing where there is
/// no such resource.
pub fn kubectl_json_optional(out: &CommandOutput, args: &Vec<String>) -> (r: ApiResult<
    Option<String>,
>)
    ensures
        r is Err == (!out.success && !says_missing(out.stderr@)),
        match r {
            Ok(o) => opt_text(o) == (if out.success && trim(out.stdout@).len() > 0 {
                Some(trim(out.stdout@))
            } else {
                None
            }),
            Err(e) => e@ == tool_failure("kubectl"@, texts(args@), out.stderr@),
        },
{
    if !out.success {
        if is_missing(&out.stderr) {
            return Ok(None);
        }
        return Err(failed_tool("kubectl", args, &out.stderr));
    }
    let s = str_trim(&out.stdout);
    if s.is_empty() {
        Ok(None)
    } else {
        Ok(Some(s))
    }
}

/// Everything that a command printed, or why it failed.
pub open spec fn said(out: CommandOutput, failure: Seq<char>) -> Result<Seq<char>, ErrorV> {
    if out.success {
        Ok(out.stdout@ + out.stderr@)
    } else {
        Err(ErrorV::BadRequest(message_or(out.stderr@, failure)))
    }
}

/// The mathematical form of an answer.
pub open spec fn answer_view(r: ApiResult<String>) -> Result<Seq<char>, ErrorV> {
    match r {
        Ok(s) => Ok(s@),
        Err(e) => Err(e@),
    }
}

fn all_said(out: &CommandOutput, failure: &str) -> (r: ApiResult<String>)
    ensures
        answer_view(r) == said(*out, failure@),
{
    if out.success {
        Ok(cat(&out.stdout, &out.stderr))
    } else {
        Err(AppError::BadRequest(error_text(&out.stderr, failure)))
    }
}

/// What `kubectl apply` said of a document on its input.
pub fn kubectl_apply_yaml(out: &CommandOutput) -> (r: ApiResult<String>)
    ensures
        answer_view(r) == said(*out, "kubectl apply failed"@),
{
    all_said(out, "kubectl apply failed")
}

/// What `kubectl apply` said of a document at an address.
pub fn kubectl_apply_url(out: &CommandOutput, url: &str) -> (r: ApiResult<String>)
    ensures
        answer_view(r) == said(*out, "kubectl apply -f "@ + url@ + " failed"@),
{
    all_said(out, &lit("kubectl apply -f ").concat(url).concat(" failed"))
}

/// What `helm` said.
pub fn helm_output(out: &CommandOutput, args: &Vec<String>) -> (r: ApiResult<String>)
    ensures
        answer_view(r) == said(*out, "helm "@ + shown_args(texts(args@)) + " failed"@),
{
    all_said(out, &lit("helm ").concat(&show_args(args)).concat(" failed"))
}

/// The error where `helm` could not be started.
pub fn helm_not_started(not_found: bool, why: &str) -> (r: AppError)
    ensures
        r@ == ErrorV::BadRequest(
            if not_found {
                "helm not found on the management host PATH"@
            } else {
                "helm: "@ + why@
            },
        ),
{
    if not_found {
        AppError::bad("helm not found on the management host PATH")
    } else {
        AppError::BadRequest(cat("helm: ", why))
    }
}

/// The error where `kubectl` could not be run; `step` says what failed.
pub fn kubectl_not_run(step: &str, why: &str) -> (r: AppError)
    ensures
        r@ == ErrorV::BadRequest("kubectl"@ + step@ + ": "@ + why@),
{
    AppError::BadRequest(lit("kubectl").concat(step).concat(": ").concat(why))
}

/// The words for the kinds of workloads, in any case.
pub proof fn law_words_for_workloads(s: Seq<char>)
    ensures
        WorkloadKind::named(s) == Some(WorkloadKind::Deployments) <==> lower(s) == "deployments"@ || lower(s) == "deployment"@ || lower(s) == "deploy"@,
        WorkloadKind::named(s) == Some(WorkloadKind::StatefulSets) <==> lower(s) == "statefulsets"@ || lower(s) == "statefulset"@ || lower(s) == "sts"@,
        WorkloadKind::named(s) == Some(WorkloadKind::DaemonSets) <==> lower(s) == "daemonsets"@ || lower(s) == "daemonset"@ || lower(s) == "ds"@,
        WorkloadKind::named(s) == Some(WorkloadKind::Jobs) <==> lower(s) == "jobs"@ || lower(s) == "job"@,
        WorkloadKind::named(s) == Some(WorkloadKind::CronJobs) <==> lower(s) == "cronjobs"@ || lower(s) == "cronjob"@ || lower(s) == "cj"@,
        WorkloadKind::named(s) == Some(WorkloadKind::Pods) <==> lower(s) == "pods"@ || lower(s) == "pod"@ || lower(s) == "po"@,
{
    reveal_strlit("deployments");
    reveal_strlit("deployment");
    reveal_strlit("deploy");
    reveal_strlit("statefulsets");
    reveal_strlit("statefulset");
    reveal_strlit("sts");
    reveal_strlit("daemonsets");
    reveal_strlit("daemonset");
    reveal_strlit("ds");
    reveal_strlit("jobs");
    reveal_strlit("job");
    reveal_strlit("cronjobs");
    reveal_strlit("cronjob");
    reveal_strlit("cj");
    reveal_strlit("pods");
    reveal_strlit("pod");
    reveal_strlit("po");
    assert("deployments"@.len() == 11);
    assert("deployment"@.len() == 10);
    assert("deploy"@.len() == 6);
    assert("statefulsets"@.len() == 12);
    assert("statefulset"@.len() == 11);
    assert("sts"@.len() == 3);
    assert("daemonsets"@.len() == 10);
    assert("daemonset"@.len() == 9);
    assert("ds"@.len() == 2);
    assert("jobs"@.len() == 4);
    assert("job"@.len() == 3);
    assert("cronjobs"@.len() == 8);
    assert("cronjob"@.len() == 7);
    assert("cj"@.len() == 2);
    assert("pods"@.len() == 4);
    assert("pod"@.len() == 3);
    assert("po"@.len() == 2);
    assert("deployments"@[0] == 'd' && "statefulset"@[0] == 's');
    assert("deployment"@[1] == 'e' && "daemonsets"@[1] == 'a');
    assert("sts"@[0] == 's' && "job"@[0] == 'j');
    assert("sts"@[0] == 's' && "pod"@[0] == 'p');
    assert("job"@[0] == 'j' && "pod"@[0] == 'p');
    assert("ds"@[0] == 'd' && "cj"@[0] == 'c');
    assert("ds"@[0] == 'd' && "po"@[0] == 'p');
    assert("cj"@[0] == 'c' && "po"@[0] == 'p');
    assert("jobs"@[0] == 'j' && "pods"@[0] == 'p');
}

/// A kubeconfig can be used exactly where it names an authority and is no remark.
pub proof fn law_usable_kubeconfigs(raw: Seq<char>)
    ensures
        contains(trim(raw), "certificate-authority-data"@) && trim(raw).len() > 0 && !starts_with(
            trim(raw),
            "#"@,
        ) ==> is_usable_kubeconfig(raw),
        starts_with(trim(raw), "#"@) ==> !is_usable_kubeconfig(raw),
        trim(raw).len() == 0 ==> !is_usable_kubeconfig(raw),
        !contains(trim(raw), "certificate-authority-data"@) && !contains(
            trim(raw),
            "certificate-authority:"@,
        ) ==> !is_usable_kubeconfig(raw),
        !is_usable_file(None),
{
}

/// Errors that a new kubeconfig may mend: those about certificates.
pub proof fn law_errors_about_certificates(msg: Seq<char>)
    ensures
        contains(lower(msg), "x509"@) ==> is_tls_error(msg),
        contains(lower(msg), "certificate signed by unknown authority"@) ==> is_tls_error(msg),
        contains(lower(msg), "tls: failed to verify"@) ==> is_tls_error(msg),
        !contains(lower(msg), "x509"@) && !contains(
            lower(msg),
            "certificate signed by unknown authority"@,
        ) && !contains(lower(msg), "tls: failed to verify"@) && !contains(
            lower(msg),
            "ecdsa verification failure"@,
        ) ==> !is_tls_error(msg),
{
}

/// A kubeconfig is looked for where the row says, then in the directory of the
/// cluster, and in the working directory only where that is allowed.
pub proof fn law_where_a_kubeconfig_is(row: KubeconfigRow, dir: Seq<char>, local: bool)
    ensures
        ({
            let v = kubeconfig_paths(row, dir, local);
            let own = under(under(dir, row.name@), "admin.conf"@);
            let said = row.kubeconfig_path is Some && row.kubeconfig_path->0@.len() > 0;
            &&& said ==> v[0] == row.kubeconfig_path->0@ && v[1] == own
            &&& !said ==> v[0] == own
            &&& v.last() == "out/cluster/admin.conf"@ <== local
            &&& v.len() == (if said {
                1int
            } else {
                0int
            }) + 1 + (if local {
                1int
            } else {
                0int
            })
        }),
{
}

/// What a command said is handed on where it went well; else its complaint is.
pub proof fn law_what_a_command_said(out: CommandOutput, failure: Seq<char>)
    ensures
        out.success ==> said(out, failure) == Ok::<Seq<char>, ErrorV>(out.stdout@ + out.stderr@),
        !out.success && trim(out.stderr@).len() > 0 ==> said(out, failure) == Err::<
            Seq<char>,
            ErrorV,
        >(ErrorV::BadRequest(trim(out.stderr@))),
        !out.success && trim(out.stderr@).len() == 0 ==> said(out, failure) == Err::<
            Seq<char>,
            ErrorV,
        >(ErrorV::BadRequest(failure)),
{
}

/// What the cluster does not have: the ways in which it says so.
pub proof fn law_missing_things(stderr: Seq<char>)
    ensures
        contains(lower(trim(stderr)), "not found"@) ==> says_missing(stderr),
        contains(lower(trim(stderr)), "notfound"@) ==> says_missing(stderr),
        contains(lower(trim(stderr)), "no matches for kind"@) ==> says_missing(stderr),
        !contains(lower(trim(stderr)), "not found"@) && !contains(lower(trim(stderr)), "notfound"@)
            && !contains(lower(trim(stderr)), "no matches for kind"@) && !contains(
            lower(trim(stderr)),
            "the server could not find the requested resource"@,
        ) ==> !says_missing(stderr),
{
}

} // verus!
