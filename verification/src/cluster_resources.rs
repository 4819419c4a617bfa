//! CPU, memory and disk of clusters, as the dashboard shows them.
//!
//! The capacity of a cluster is what its nodes were given; its use is what
//! `kubectl top` and the kubelets say. Amounts are kept as they were given:
//! whoever shows them does the division.
use crate::cluster_availability::server_view;
use crate::json::{Json, JsonV, opt_view, text_or};
use crate::k8s::kubectl::{
    CommandOutput, error_text, is_tls_error, kubeconfig_tls_error, message_or,
};
use crate::text::{
    again, byte_len, cat, ends_with, is_digit, lemma_trimmed, lines, lit, no_texts, opt_text, pos,
    put, skip_ws, spaces, str_eq, str_lines, str_strip_prefix, str_strip_suffix, str_trim,
    str_trim_end_char, str_trim_start, str_trim_start_str, str_until, str_words, strip_prefix,
    strip_suffix, texts, trim, trim_end_char, trim_start, trim_start_str, words,
};
use crate::yaml::{
    first_with, has_key, law_patched_text_has_patched_lines, lemma_first_after, lemma_keyed_again,
    plain_line, plain_lines, replace_all, set_all, unlines,
};
use vstd::prelude::*;
use vstd::string::*;

verus! {

/// A summary of this age, in milliseconds, is shown without a new one being
/// made.
pub const LIVE_TTL_MS: u64 = 20_000;

/// How much there is of a resource.
#[derive(Debug, Clone, Copy, PartialEq, Eq, Structural)]
pub enum Amount {
    Unknown,
    /// A sum over the nodes: cores, MiB of memory or GiB of disk.
    Provisioned(i128),
    Bytes(u64),
    /// The sum over the lines of `kubectl top`.
    SumOfRows,
}

/// What share of a resource is used.
#[derive(Debug, Clone, Copy, PartialEq, Eq, Structural)]
pub enum Share {
    Unknown,
    /// The used amount in the total one.
    OfTotal,
    /// The mean of the percentages that `kubectl top` gives.
    MeanOfRows,
}

#[derive(Debug, PartialEq, Eq)]
pub struct ResourceMetric {
    pub used: Amount,
    pub total: Amount,
    pub percent: Share,
    pub unit: String,
    pub error: Option<String>,
}

#[verifier::ext_equal]
pub ghost struct ResourceMetricV {
    pub used: Amount,
    pub total: Amount,
    pub percent: Share,
    pub unit: Seq<char>,
    pub error: Option<Seq<char>>,
}

impl View for ResourceMetric {
    type V = ResourceMetricV;

    open spec fn view(&self) -> ResourceMetricV {
        ResourceMetricV {
            used: self.used,
            total: self.total,
            percent: self.percent,
            unit: self.unit@,
            error: opt_text(self.error),
        }
    }
}

#[derive(Debug, PartialEq, Eq)]
pub struct ClusterResourceSummary {
    pub cluster_id: String,
    pub cluster_name: String,
    pub status: String,
    /// `online`, `offline` or `unknown`.
    pub availability: String,
    pub k8s_version: String,
    pub node_count: usize,
    pub cpu: ResourceMetric,
    pub memory: ResourceMetric,
    pub disk: ResourceMetric,
    /// Why the use is not known; the capacity may be.
    pub error: Option<String>,
}

#[verifier::ext_equal]
pub ghost struct ClusterResourceSummaryV {
    pub cluster_id: Seq<char>,
    pub cluster_name: Seq<char>,
    pub status: Seq<char>,
    pub availability: Seq<char>,
    pub k8s_version: Seq<char>,
    pub node_count: nat,
    pub cpu: ResourceMetricV,
    pub memory: ResourceMetricV,
    pub disk: ResourceMetricV,
    pub error: Option<Seq<char>>,
}

impl View for ClusterResourceSummary {
    type V = ClusterResourceSummaryV;

    open spec fn view(&self) -> ClusterResourceSummaryV {
        ClusterResourceSummaryV {
            cluster_id: self.cluster_id@,
            cluster_name: self.cluster_name@,
            status: self.status@,
            availability: self.availability@,
            k8s_version: self.k8s_version@,
            node_count: self.node_count as nat,
            cpu: self.cpu@,
            memory: self.memory@,
            disk: self.disk@,
            error: opt_text(self.error),
        }
    }
}

/// What is stored of a cluster.
#[derive(Debug, PartialEq, Eq)]
pub struct ResourceRow {
    pub id: String,
    pub name: String,
    pub status: String,
    pub k8s_version: String,
    pub controlplanes: i64,
    pub vip: Option<String>,
    pub vip6: Option<String>,
}

/// What is stored of a node and what it was given.
#[derive(Debug, PartialEq, Eq)]
pub struct NodeCap {
    pub name: String,
    pub role: String,
    pub ip: Option<String>,
    pub cores: Option<i64>,
    pub memory: Option<i64>,
    pub disk_gb: Option<i64>,
}

// ---------------------------------------------------------------------------
// Capacity
// ---------------------------------------------------------------------------

/// A resource that a node was given.
#[derive(Debug, Clone, Copy, PartialEq, Eq, Structural)]
pub enum Resource {
    Cores,
    Memory,
    Disk,
}

/// What a node was given, nothing where it is not known.
pub open spec fn given(n: NodeCap, what: Resource) -> int {
    let o = match what {
        Resource::Cores => n.cores,
        Resource::Memory => n.memory,
        Resource::Disk => n.disk_gb,
    };
    match o {
        Some(x) => x as int,
        None => 0,
    }
}

/// What the first `n` nodes were given.
pub open spec fn provisioned(nodes: Seq<NodeCap>, what: Resource, n: int) -> int
    decreases n,
{
    if 0 < n <= nodes.len() {
        provisioned(nodes, what, n - 1) + given(nodes[n - 1], what)
    } else {
        0
    }
}

/// A capacity that is known only if it is positive.
pub open spec fn known_capacity(n: int) -> Amount {
    if n > 0 {
        Amount::Provisioned(n as i128)
    } else {
        Amount::Unknown
    }
}

/// The capacity of a resource.
pub open spec fn capacity(nodes: Seq<NodeCap>, what: Resource) -> ResourceMetricV {
    ResourceMetricV {
        used: Amount::Unknown,
        total: known_capacity(provisioned(nodes, what, nodes.len() as int)),
        percent: Share::Unknown,
        unit: if what is Cores {
            "cores"@
        } else {
            "GiB"@
        },
        error: None,
    }
}

fn sum_given(nodes: &Vec<NodeCap>, what: Resource) -> (r: i128)
    ensures
        r == provisioned(nodes@, what, nodes@.len() as int),
{
    let mut total: i128 = 0;
    let mut i: usize = 0;
    while i < nodes.len()
        invariant
            i <= nodes.len(),
            total == provisioned(nodes@, what, i as int),
            i64::MIN * i <= total <= i64::MAX * i,
        decreases nodes.len() - i,
    {
        let o: Option<i64> = match what {
            Resource::Cores => nodes[i].cores,
            Resource::Memory => nodes[i].memory,
            Resource::Disk => nodes[i].disk_gb,
        };
        let x: i128 = match o {
            Some(x) => x as i128,
            None => 0,
        };
        assert(i64::MAX * i + i64::MAX == i64::MAX * (i + 1)) by (nonlinear_arith);
        assert(i64::MIN * i + i64::MIN == i64::MIN * (i + 1)) by (nonlinear_arith);
        assert(i + 1 <= usize::MAX);
        total += x;
        i += 1;
    }
    total
}

fn capacity_of(nodes: &Vec<NodeCap>, what: Resource, unit: &str) -> (r: ResourceMetric)
    requires
        unit@ == capacity(nodes@, what).unit,
    ensures
        r@ == capacity(nodes@, what),
{
    let n: i128 = sum_given(nodes, what);
    ResourceMetric {
        used: Amount::Unknown,
        total: if n > 0 {
            Amount::Provisioned(n)
        } else {
            Amount::Unknown
        },
        percent: Share::Unknown,
        unit: lit(unit),
        error: None,
    }
}

/// CPU, memory and disk that the nodes were given.
pub fn capacity_metrics(nodes: &Vec<NodeCap>) -> (r: (
    ResourceMetric,
    ResourceMetric,
    ResourceMetric,
))
    ensures
        r.0@ == capacity(nodes@, Resource::Cores),
        r.1@ == capacity(nodes@, Resource::Memory),
        r.2@ == capacity(nodes@, Resource::Disk),
{
    (
        capacity_of(nodes, Resource::Cores, "cores"),
        capacity_of(nodes, Resource::Memory, "GiB"),
        capacity_of(nodes, Resource::Disk, "GiB"),
    )
}

/// The metric with an error.
pub open spec fn blamed(m: ResourceMetricV, error: Option<Seq<char>>) -> ResourceMetricV {
    ResourceMetricV { error, ..m }
}

fn with_metric_error(m: ResourceMetric, error: Option<String>) -> (r: ResourceMetric)
    ensures
        r@ == blamed(m@, opt_text(error)),
{
    ResourceMetric { used: m.used, total: m.total, percent: m.percent, unit: m.unit, error }
}

/// A summary of a cluster with the given metrics.
pub open spec fn summary(
    c: ResourceRow,
    nodes: nat,
    availability: Seq<char>,
    cpu: ResourceMetricV,
    memory: ResourceMetricV,
    disk: ResourceMetricV,
    error: Option<Seq<char>>,
) -> ClusterResourceSummaryV {
    ClusterResourceSummaryV {
        cluster_id: c.id@,
        cluster_name: c.name@,
        status: c.status@,
        availability,
        k8s_version: c.k8s_version@,
        node_count: nodes,
        cpu,
        memory,
        disk,
        error,
    }
}

fn summarize_cluster(
    c: &ResourceRow,
    nodes: usize,
    availability: &str,
    cpu: ResourceMetric,
    memory: ResourceMetric,
    disk: ResourceMetric,
    error: Option<String>,
) -> (r: ClusterResourceSummary)
    ensures
        r@ == summary(
            *c,
            nodes as nat,
            availability@,
            cpu@,
            memory@,
            disk@,
            opt_text(error),
        ),
{
    ClusterResourceSummary {
        cluster_id: lit(&c.id),
        cluster_name: lit(&c.name),
        status: lit(&c.status),
        availability: lit(availability),
        k8s_version: lit(&c.k8s_version),
        node_count: nodes,
        cpu,
        memory,
        disk,
        error,
    }
}

/// A summary of the capacity, with one error for it and all its metrics.
pub open spec fn capacity_summary(
    c: ResourceRow,
    nodes: Seq<NodeCap>,
    availability: Seq<char>,
    metric_error: Option<Seq<char>>,
    error: Option<Seq<char>>,
) -> ClusterResourceSummaryV {
    summary(
        c,
        nodes.len(),
        availability,
        blamed(capacity(nodes, Resource::Cores), metric_error),
        blamed(capacity(nodes, Resource::Memory), metric_error),
        blamed(capacity(nodes, Resource::Disk), metric_error),
        error,
    )
}

fn sum_up_capacity(
    c: &ResourceRow,
    nodes: &Vec<NodeCap>,
    availability: &str,
    metric_error: Option<String>,
    error: Option<String>,
) -> (r: ClusterResourceSummary)
    ensures
        r@ == capacity_summary(
            *c,
            nodes@,
            availability@,
            opt_text(metric_error),
            opt_text(error),
        ),
{
    let (cpu, memory, disk) = capacity_metrics(nodes);
    let cpu = with_metric_error(cpu, again(&metric_error));
    let memory = with_metric_error(memory, again(&metric_error));
    let disk = with_metric_error(disk, metric_error);
    summarize_cluster(c, nodes.len(), availability, cpu, memory, disk, error)
}

/// The summary that is shown until the use of a cluster is known; `availability`
/// is what was last known of it.
pub fn capacity_now(c: &ResourceRow, nodes: &Vec<NodeCap>, availability: &str) -> (r:
    ClusterResourceSummary)
    ensures
        r@ == capacity_summary(*c, nodes@, availability@, None, None),
{
    sum_up_capacity(c, nodes, availability, None, None)
}

/// The summary of a cluster whose use could not be asked for in time.
pub fn timeout_summary_with_capacity(c: &ResourceRow, nodes: &Vec<NodeCap>) -> (r:
    ClusterResourceSummary)
    ensures
        r@ == capacity_summary(
            *c,
            nodes@,
            if c.status@ == "ready"@ {
                "offline"@
            } else {
                "unknown"@
            },
            Some("resource probe timed out (API unreachable?)"@),
            Some("resource probe timed out (API unreachable?)"@),
        ),
{
    let availability = if str_eq(&c.status, "ready") {
        "offline"
    } else {
        "unknown"
    };
    sum_up_capacity(
        c,
        nodes,
        availability,
        Some(lit("resource probe timed out (API unreachable?)")),
        Some(lit("resource probe timed out (API unreachable?)")),
    )
}

/// What to show of a cluster, and whether to ask for its use meanwhile.
#[derive(Debug, Clone, Copy, PartialEq, Eq, Structural)]
pub enum Serve {
    /// The last summary.
    Last,
    /// The last summary, and a new one is asked for.
    LastAndAsk,
    /// The capacity, and a new summary is asked for.
    CapacityAndAsk,
}

/// A last summary that is not old is shown; an older one only while the state of
/// the cluster is still that of the summary. A new summary is asked for unless
/// the last one is neither old nor of another state.
pub open spec fn serving(last: Option<(Seq<char>, u64)>, status: Seq<char>) -> Serve {
    match last {
        Some((s, age)) => if age <= LIVE_TTL_MS {
            if s == status {
                Serve::Last
            } else {
                Serve::LastAndAsk
            }
        } else if s == status {
            Serve::LastAndAsk
        } else {
            Serve::CapacityAndAsk
        },
        None => Serve::CapacityAndAsk,
    }
}

/// The mathematical form of state and age of the last summary.
pub open spec fn last_view(o: Option<(String, u64)>) -> Option<(Seq<char>, u64)> {
    match o {
        Some((s, age)) => Some((s@, age)),
        None => None,
    }
}

/// What to show of a cluster, given state and age in milliseconds of its last
/// summary.
pub fn serve(last: &Option<(String, u64)>, status: &str) -> (r: Serve)
    ensures
        r == serving(last_view(*last), status@),
{
    match last {
        Some((s, age)) => {
            let same = str_eq(s, status);
            if *age <= LIVE_TTL_MS {
                if same {
                    Serve::Last
                } else {
                    Serve::LastAndAsk
                }
            } else if same {
                Serve::LastAndAsk
            } else {
                Serve::CapacityAndAsk
            }
        },
        None => Serve::CapacityAndAsk,
    }
}

// ---------------------------------------------------------------------------
// The API server
// ---------------------------------------------------------------------------

/// The addresses of the control planes among the first `n` nodes.
pub open spec fn cp_ips(nodes: Seq<NodeCap>, n: int) -> Seq<Seq<char>>
    decreases n,
{
    if 0 < n <= nodes.len() {
        let r = cp_ips(nodes, n - 1);
        match nodes[n - 1].ip {
            Some(ip) => if nodes[n - 1].role@ == "controlplane"@ && trim(ip@).len() > 0 {
                r.push(trim(ip@))
            } else {
                r
            },
            None => r,
        }
    } else {
        Seq::empty()
    }
}

fn find_cp_ips(nodes: &Vec<NodeCap>) -> (r: Vec<String>)
    ensures
        texts(r@) == cp_ips(nodes@, nodes@.len() as int),
{
    let mut out = no_texts();
    let mut i: usize = 0;
    while i < nodes.len()
        invariant
            i <= nodes.len(),
            texts(out@) == cp_ips(nodes@, i as int),
        decreases nodes.len() - i,
    {
        match &nodes[i].ip {
            Some(ip) => {
                let t = str_trim(ip);
                if str_eq(&nodes[i].role, "controlplane") && !t.is_empty() {
                    put(&mut out, &t);
                }
            },
            None => {},
        }
        i += 1;
    }
    out
}

/// The address of the first control plane that has one.
pub open spec fn cp_ip(nodes: Seq<NodeCap>) -> Option<Seq<char>> {
    let v = cp_ips(nodes, nodes.len() as int);
    if v.len() > 0 {
        Some(v[0])
    } else {
        None
    }
}

pub fn first_cp_ip(nodes: &Vec<NodeCap>) -> (r: Option<String>)
    ensures
        opt_text(r) == cp_ip(nodes@),
{
    let v = find_cp_ips(nodes);
    assert(texts(v@).len() == v.len());
    if v.len() > 0 {
        Some(lit(&v[0]))
    } else {
        None
    }
}

/// The address of the API on a machine.
pub open spec fn api_url(ip: Seq<char>) -> Seq<char> {
    "https://"@ + ip + ":6443"@
}

fn url_of(ip: &str) -> (r: String)
    ensures
        r@ == api_url(ip@),
{
    lit("https://").concat(ip).concat(":6443")
}

/// The addresses of the API on the control planes.
pub fn cp_servers(nodes: &Vec<NodeCap>) -> (r: Vec<String>)
    ensures
        texts(r@) == Seq::new(
            cp_ips(nodes@, nodes@.len() as int).len(),
            |i: int| api_url(cp_ips(nodes@, nodes@.len() as int)[i]),
        ),
{
    let v = find_cp_ips(nodes);
    let ghost ips = cp_ips(nodes@, nodes@.len() as int);
    let ghost want = Seq::new(ips.len(), |i: int| api_url(ips[i]));
    let mut out = no_texts();
    let mut i: usize = 0;
    while i < v.len()
        invariant
            i <= v.len(),
            texts(v@) == ips,
            want == Seq::new(ips.len(), |i: int| api_url(ips[i])),
            texts(out@) == want.take(i as int),
        decreases v.len() - i,
    {
        assert(ips[i as int] == v@[i as int]@);
        put(&mut out, &url_of(&v[i]));
        assert(want.take(i + 1) =~= want.take(i as int).push(want[i as int]));
        i += 1;
    }
    assert(texts(v@).len() == v.len());
    assert(want.take(v.len() as int) =~= want);
    out
}

/// The host in the address of a server: what stands in brackets, else what
/// stands before the port.
pub open spec fn host_in(server: Seq<char>) -> Seq<char> {
    let s = trim_start_str(trim_start_str(trim(server), "https://"@), "http://"@);
    match strip_prefix(s, "["@) {
        Some(rest) => rest.subrange(0, pos(rest, ']', 0)),
        None => s.subrange(0, pos(s, ':', 0)),
    }
}

pub fn server_host(server: &str) -> (r: String)
    ensures
        r@ == host_in(server@),
{
    let s = str_trim_start_str(&str_trim_start_str(&str_trim(server), "https://"), "http://");
    match str_strip_prefix(&s, "[") {
        Some(rest) => str_until(&rest, ']'),
        None => str_until(&s, ':'),
    }
}

/// The server that a kubeconfig names.
pub open spec fn named_server(kc: Seq<char>) -> Option<Seq<char>> {
    let ls = lines(kc);
    let k = first_with(ls, "server:"@, 0);
    if k < ls.len() {
        Some(trim(strip_prefix(trim_start(ls[k]), "server:"@)->0))
    } else {
        None
    }
}

pub fn read_kubeconfig_server(kc: &str) -> (r: Option<String>)
    ensures
        opt_text(r) == named_server(kc@),
{
    let ls = str_lines(kc);
    let ghost want = lines(kc@);
    let mut i: usize = 0;
    while i < ls.len()
        invariant
            i <= ls.len(),
            want == lines(kc@),
            want == texts(ls@),
            first_with(want, "server:"@, 0) == first_with(want, "server:"@, i as int),
        decreases ls.len() - i,
    {
        assert(want[i as int] == ls@[i as int]@);
        match str_strip_prefix(&str_trim_start(&ls[i]), "server:") {
            Some(rest) => {
                return Some(str_trim(&rest));
            },
            None => {},
        }
        i += 1;
    }
    assert(want.len() == ls.len());
    None
}

/// Makes a kubeconfig name another server.
pub fn rewrite_kubeconfig_server(kc: &str, url: &str) -> (r: String)
    ensures
        r@ == unlines(set_all(lines(kc@), "server:"@, url@)),
{
    replace_all(kc, "server:", url)
}

/// The host is the virtual address.
pub open spec fn is_vip(vip: Option<String>, host: Seq<char>) -> bool {
    match vip {
        Some(v) => trim(v@).len() > 0 && host == trim(v@),
        None => false,
    }
}

fn same_vip(vip: &Option<String>, host: &str) -> (r: bool)
    ensures
        r == is_vip(*vip, host@),
{
    match vip {
        Some(v) => {
            let t = str_trim(v);
            !t.is_empty() && str_eq(host, &t)
        },
        None => false,
    }
}

/// The kubeconfig names a virtual address of the cluster.
pub open spec fn at_vip(kc: Option<Seq<char>>, c: ResourceRow) -> bool {
    match kc {
        Some(text) => match named_server(text) {
            Some(server) => is_vip(c.vip, host_in(server)) || is_vip(c.vip6, host_in(server)),
            None => false,
        },
        None => false,
    }
}

/// Whether a kubeconfig, where it could be read, names a virtual address of the
/// cluster.
pub fn kubeconfig_points_at_vip(kc: &Option<String>, c: &ResourceRow) -> (r: bool)
    ensures
        r == at_vip(opt_text(*kc), *c),
{
    match kc {
        Some(text) => match read_kubeconfig_server(text) {
            Some(server) => {
                let host = server_host(&server);
                same_vip(&c.vip, &host) || same_vip(&c.vip6, &host)
            },
            None => false,
        },
        None => false,
    }
}

/// Whom to ask for the use of a cluster.
#[derive(Debug, PartialEq, Eq)]
pub struct ApiChoice {
    /// A server other than that of the kubeconfig.
    pub server: Option<String>,
    /// Nobody answers.
    pub error: Option<String>,
    /// What the server of the kubeconfig is to be.
    pub rewrite: Option<String>,
}

#[verifier::ext_equal]
pub ghost struct ApiChoiceV {
    pub server: Option<Seq<char>>,
    pub error: Option<Seq<char>>,
    pub rewrite: Option<Seq<char>>,
}

impl View for ApiChoice {
    type V = ApiChoiceV;

    open spec fn view(&self) -> ApiChoiceV {
        ApiChoiceV {
            server: opt_text(self.server),
            error: opt_text(self.error),
            rewrite: opt_text(self.rewrite),
        }
    }
}

/// The text is there and not empty.
pub open spec fn filled(o: Option<String>) -> bool {
    o is Some && o->0@.len() > 0
}

fn is_filled(o: &Option<String>) -> (r: bool)
    ensures
        r == filled(*o),
{
    match o {
        Some(s) => !s.is_empty(),
        None => false,
    }
}

/// How the endpoint of a cluster is called in messages.
pub open spec fn endpoint_name(c: ResourceRow) -> Seq<char> {
    if filled(c.vip) {
        "VIP "@ + c.vip->0@
    } else if filled(c.vip6) {
        "VIP "@ + c.vip6->0@
    } else {
        "API endpoint"@
    }
}

/// The choice, given who answers first: nobody, the server of the kubeconfig, or
/// a control plane. The kubeconfig of a cluster with one control plane is made
/// to name that, that of another cluster keeps the virtual address.
pub open spec fn api_choice(
    reached: Option<Option<Seq<char>>>,
    nodes: Seq<NodeCap>,
    c: ResourceRow,
    kc: Option<Seq<char>>,
) -> ApiChoiceV {
    match reached {
        Some(None) => ApiChoiceV {
            server: None,
            error: None,
            rewrite: if c.controlplanes <= 1 && at_vip(kc, c) && cp_ip(nodes) is Some {
                Some(api_url(cp_ip(nodes)->0))
            } else {
                None
            },
        },
        Some(Some(server)) => if c.controlplanes <= 1 {
            ApiChoiceV { server: None, error: None, rewrite: Some(server) }
        } else {
            ApiChoiceV { server: Some(server), error: None, rewrite: None }
        },
        None => ApiChoiceV {
            server: None,
            error: Some(
                "cannot connect to "@ + endpoint_name(c)
                    + "; no reachable control plane after reboot?"@,
            ),
            rewrite: None,
        },
    }
}

/// Whom to ask for the use of a cluster, given who answers first and what the
/// kubeconfig says.
pub fn resolve_api_server(
    reached: &Option<Option<String>>,
    nodes: &Vec<NodeCap>,
    c: &ResourceRow,
    kc: &Option<String>,
) -> (r: ApiChoice)
    ensures
        r@ == api_choice(server_view(*reached), nodes@, *c, opt_text(*kc)),
{
    match reached {
        Some(None) => {
            let mut rewrite: Option<String> = None;
            if c.controlplanes <= 1 && kubeconfig_points_at_vip(kc, c) {
                match first_cp_ip(nodes) {
                    Some(cp) => {
                        rewrite = Some(url_of(&cp));
                    },
                    None => {},
                }
            }
            ApiChoice { server: None, error: None, rewrite }
        },
        Some(Some(server)) => {
            if c.controlplanes <= 1 {
                ApiChoice { server: None, error: None, rewrite: Some(lit(server)) }
            } else {
                ApiChoice { server: Some(lit(server)), error: None, rewrite: None }
            }
        },
        None => {
            let mut tip = lit("API endpoint");
            if is_filled(&c.vip) {
                match &c.vip {
                    Some(v) => {
                        tip = cat("VIP ", v);
                    },
                    None => {},
                }
            } else if is_filled(&c.vip6) {
                match &c.vip6 {
                    Some(v) => {
                        tip = cat("VIP ", v);
                    },
                    None => {},
                }
            }
            ApiChoice {
                server: None,
                error: Some(
                    lit("cannot connect to ").concat(&tip).concat(
                        "; no reachable control plane after reboot?",
                    ),
                ),
                rewrite: None,
            }
        },
    }
}

// ---------------------------------------------------------------------------
// kubectl top
// ---------------------------------------------------------------------------

/// The unit of a quantity.
#[derive(Debug, Clone, Copy, PartialEq, Eq, Structural)]
pub enum Unit {
    One,
    Milli,
    Ki,
    Mi,
    Gi,
    K,
    M,
    G,
}

/// A quantity: the text of its number, and its unit.
#[derive(Debug, PartialEq, Eq)]
pub struct Quantity {
    pub number: String,
    pub unit: Unit,
}

/// A line of `kubectl top nodes`.
#[derive(Debug, PartialEq, Eq)]
pub struct TopRow {
    pub cpu: Quantity,
    /// The text of the percentage, without the sign.
    pub cpu_percent: String,
    pub memory: Quantity,
    pub memory_percent: String,
}

#[verifier::ext_equal]
pub ghost struct TopRowV {
    pub cpu: (Seq<char>, Unit),
    pub cpu_percent: Seq<char>,
    pub memory: (Seq<char>, Unit),
    pub memory_percent: Seq<char>,
}

impl View for Quantity {
    type V = (Seq<char>, Unit);

    open spec fn view(&self) -> (Seq<char>, Unit) {
        (self.number@, self.unit)
    }
}

impl View for TopRow {
    type V = TopRowV;

    open spec fn view(&self) -> TopRowV {
        TopRowV {
            cpu: self.cpu@,
            cpu_percent: self.cpu_percent@,
            memory: self.memory@,
            memory_percent: self.memory_percent@,
        }
    }
}

/// An amount of CPU: cores, or thousandths of a core.
pub open spec fn cpu_quantity(s: Seq<char>) -> (Seq<char>, Unit) {
    match strip_suffix(trim(s), "m"@) {
        Some(n) => (n, Unit::Milli),
        None => (trim(s), Unit::One),
    }
}

pub fn parse_cpu_cores(s: &str) -> (r: Quantity)
    ensures
        r@ == cpu_quantity(s@),
{
    let t = str_trim(s);
    match str_strip_suffix(&t, "m") {
        Some(number) => Quantity { number, unit: Unit::Milli },
        None => Quantity { number: t, unit: Unit::One },
    }
}

/// An amount of memory, in bytes where no unit is given.
pub open spec fn memory_quantity(s: Seq<char>) -> (Seq<char>, Unit) {
    let t = trim(s);
    if ends_with(t, "Ki"@) {
        (strip_suffix(t, "Ki"@)->0, Unit::Ki)
    } else if ends_with(t, "Mi"@) {
        (strip_suffix(t, "Mi"@)->0, Unit::Mi)
    } else if ends_with(t, "Gi"@) {
        (strip_suffix(t, "Gi"@)->0, Unit::Gi)
    } else if ends_with(t, "K"@) {
        (strip_suffix(t, "K"@)->0, Unit::K)
    } else if ends_with(t, "M"@) {
        (strip_suffix(t, "M"@)->0, Unit::M)
    } else if ends_with(t, "G"@) {
        (strip_suffix(t, "G"@)->0, Unit::G)
    } else {
        (t, Unit::One)
    }
}

pub fn parse_memory_mib(s: &str) -> (r: Quantity)
    ensures
        r@ == memory_quantity(s@),
{
    let t = str_trim(s);
    if let Some(number) = str_strip_suffix(&t, "Ki") {
        return Quantity { number, unit: Unit::Ki };
    }
    if let Some(number) = str_strip_suffix(&t, "Mi") {
        return Quantity { number, unit: Unit::Mi };
    }
    if let Some(number) = str_strip_suffix(&t, "Gi") {
        return Quantity { number, unit: Unit::Gi };
    }
    if let Some(number) = str_strip_suffix(&t, "K") {
        return Quantity { number, unit: Unit::K };
    }
    if let Some(number) = str_strip_suffix(&t, "M") {
        return Quantity { number, unit: Unit::M };
    }
    if let Some(number) = str_strip_suffix(&t, "G") {
        return Quantity { number, unit: Unit::G };
    }
    Quantity { number: t, unit: Unit::One }
}

/// The line of `kubectl top`, of which the name is left out. One with fewer than
/// five columns is none.
pub open spec fn top_line(line: Seq<char>) -> Option<TopRowV> {
    let w = words(line);
    if w.len() < 5 {
        None
    } else {
        Some(
            TopRowV {
                cpu: cpu_quantity(w[1]),
                cpu_percent: trim_end_char(w[2], '%'),
                memory: memory_quantity(w[3]),
                memory_percent: trim_end_char(w[4], '%'),
            },
        )
    }
}

/// The mathematical form of an optional line.
pub open spec fn opt_top(o: Option<TopRow>) -> Option<TopRowV> {
    match o {
        Some(t) => Some(t@),
        None => None,
    }
}

pub fn parse_top_line(line: &str) -> (r: Option<TopRow>)
    ensures
        opt_top(r) == top_line(line@),
{
    let w = str_words(line);
    let ghost v = texts(w@);
    assert(v.len() == w.len());
    if w.len() < 5 {
        return None;
    }
    assert(v[1] == w@[1]@ && v[2] == w@[2]@ && v[3] == w@[3]@ && v[4] == w@[4]@);
    Some(
        TopRow {
            cpu: parse_cpu_cores(&w[1]),
            cpu_percent: str_trim_end_char(&w[2], '%'),
            memory: parse_memory_mib(&w[3]),
            memory_percent: str_trim_end_char(&w[4], '%'),
        },
    )
}

/// The mathematical forms of lines.
pub open spec fn top_views(v: Seq<TopRow>) -> Seq<TopRowV> {
    Seq::new(v.len(), |i: int| v[i]@)
}

/// The lines of `kubectl top` among the first `n`.
pub open spec fn top_rows(ls: Seq<Seq<char>>, n: int) -> Seq<TopRowV>
    decreases n,
{
    if 0 < n <= ls.len() {
        match top_line(ls[n - 1]) {
            Some(t) => top_rows(ls, n - 1).push(t),
            None => top_rows(ls, n - 1),
        }
    } else {
        Seq::empty()
    }
}

/// What `kubectl top nodes` says of the nodes.
pub fn kubectl_top_all(out: &CommandOutput) -> (r: Result<Vec<TopRow>, String>)
    ensures
        r is Ok == out.success,
        match r {
            Ok(v) => top_views(v@) == top_rows(
                lines(out.stdout@),
                lines(out.stdout@).len() as int,
            ),
            Err(e) => e@ == message_or(
                out.stderr@,
                "kubectl top nodes failed (is metrics-server installed?)"@,
            ),
        },
{
    if !out.success {
        return Err(
            error_text(&out.stderr, "kubectl top nodes failed (is metrics-server installed?)"),
        );
    }
    let ls = str_lines(&out.stdout);
    let ghost want = lines(out.stdout@);
    let mut rows: Vec<TopRow> = Vec::new();
    assert(top_views(rows@) =~= Seq::empty());
    let mut i: usize = 0;
    while i < ls.len()
        invariant
            i <= ls.len(),
            want == texts(ls@),
            top_views(rows@) == top_rows(want, i as int),
        decreases ls.len() - i,
    {
        assert(want[i as int] == ls@[i as int]@);
        match parse_top_line(&ls[i]) {
            Some(t) => {
                let ghost before = rows@;
                let ghost tv = t@;
                rows.push(t);
                assert(top_views(rows@) =~= top_views(before).push(tv));
            },
            None => {},
        }
        i += 1;
    }
    assert(want.len() == ls.len());
    Ok(rows)
}

/// The control plane to fetch a new kubeconfig from, where `kubectl top` failed
/// on the certificate of the API.
pub fn refresh_after(error: &str, nodes: &Vec<NodeCap>) -> (r: Option<String>)
    ensures
        opt_text(r) == (if is_tls_error(error@) {
            cp_ip(nodes@)
        } else {
            None
        }),
{
    if kubeconfig_tls_error(error) {
        first_cp_ip(nodes)
    } else {
        None
    }
}

/// The error where no new kubeconfig could be fetched.
pub fn leftover_kubeconfig(error: &str) -> (r: String)
    ensures
        r@ == error@
            + " — leftover kubeconfig CA from a previous cluster? Delete leftover admin.conf or recreate."@,
{
    cat(
        error,
        " — leftover kubeconfig CA from a previous cluster? Delete leftover admin.conf or recreate.",
    )
}

// ---------------------------------------------------------------------------
// File systems
// ---------------------------------------------------------------------------

/// A number of bytes. A negative one counts from the top.
pub open spec fn bytes_in(o: Option<JsonV>) -> Option<int> {
    match o {
        Some(j) => match j.as_nat() {
            Some(n) => Some(n as int),
            None => match j.as_int() {
                Some(i) => Some(u64::MAX + 1 + i),
                None => None,
            },
        },
        None => None,
    }
}

fn bytes_of(o: Option<&Json>) -> (r: Option<u64>)
    ensures
        r is Some == bytes_in(opt_view(o)) is Some,
        r is Some ==> r->0 == bytes_in(opt_view(o))->0,
{
    match o {
        Some(j) => match j.as_u64() {
            Some(n) => Some(n),
            None => match j.as_i64() {
                Some(i) => {
                    assert(i < 0);
                    Some((i as i128 + 0x1_0000_0000_0000_0000) as u64)
                },
                None => None,
            },
        },
        None => None,
    }
}

/// Used and total bytes of the file system of a node, where both are given and
/// it has a size.
pub open spec fn node_fs_of(j: JsonV) -> Option<(int, int)> {
    let u = bytes_in(j.get3("node"@, "fs"@, "usedBytes"@));
    let c = bytes_in(j.get3("node"@, "fs"@, "capacityBytes"@));
    if u is Some && c is Some && c->0 > 0 {
        Some((u->0, c->0))
    } else {
        None
    }
}

/// The mathematical form of used and total bytes.
pub open spec fn fs_view(o: Option<(u64, u64)>) -> Option<(int, int)> {
    match o {
        Some((u, c)) => Some((u as int, c as int)),
        None => None,
    }
}

/// Used and total bytes of the file system of a node, from what its kubelet
/// says.
pub fn node_fs(stats: &Json) -> (r: Option<(u64, u64)>)
    ensures
        fs_view(r) == node_fs_of(stats@),
{
    let u = bytes_of(stats.get3("node", "fs", "usedBytes"));
    let c = bytes_of(stats.get3("node", "fs", "capacityBytes"));
    match (u, c) {
        (Some(u), Some(c)) => {
            if c > 0 {
                Some((u, c))
            } else {
                None
            }
        },
        _ => None,
    }
}

/// What the file systems of the first `n` nodes come to: used and total bytes,
/// whether any node answered, and the last error.
pub ghost struct FsSum {
    pub used: int,
    pub total: int,
    pub any: bool,
    pub error: Option<Seq<char>>,
}

/// The sum, at most what a number holds.
pub open spec fn capped(a: int, b: int) -> int {
    if a + b > u64::MAX {
        u64::MAX as int
    } else {
        a + b
    }
}

pub open spec fn fs_sum(v: Seq<Result<Option<(u64, u64)>, String>>, n: int) -> FsSum
    decreases n,
{
    if 0 < n <= v.len() {
        let s = fs_sum(v, n - 1);
        match v[n - 1] {
            Ok(Some((u, c))) => FsSum {
                used: capped(s.used, u as int),
                total: capped(s.total, c as int),
                any: true,
                error: s.error,
            },
            Ok(None) => s,
            Err(e) => FsSum { error: Some(e@), ..s },
        }
    } else {
        FsSum { used: 0, total: 0, any: false, error: None }
    }
}

/// Used and total bytes of a cluster: nothing without nodes, and an error where
/// no node answered.
pub open spec fn cluster_fs(v: Seq<Result<Option<(u64, u64)>, String>>) -> Result<
    Option<(int, int)>,
    Seq<char>,
> {
    let s = fs_sum(v, v.len() as int);
    if v.len() == 0 {
        Ok(None)
    } else if s.any {
        Ok(Some((s.used, s.total)))
    } else {
        Err(text_or(s.error, "no filesystem stats"@))
    }
}

/// The mathematical form of the bytes of a cluster.
pub open spec fn disk_view(r: Result<Option<(u64, u64)>, String>) -> Result<
    Option<(int, int)>,
    Seq<char>,
> {
    match r {
        Ok(o) => Ok(fs_view(o)),
        Err(e) => Err(e@),
    }
}

/// Used and total bytes of a cluster, from what each of its nodes gave.
pub fn disk_from_stats(v: &Vec<Result<Option<(u64, u64)>, String>>) -> (r: Result<
    Option<(u64, u64)>,
    String,
>)
    ensures
        disk_view(r) == cluster_fs(v@),
{
    if v.len() == 0 {
        return Ok(None);
    }
    let mut used: u64 = 0;
    let mut total: u64 = 0;
    let mut any = false;
    let mut error: Option<String> = None;
    let mut i: usize = 0;
    while i < v.len()
        invariant
            i <= v.len(),
            fs_sum(v@, i as int) == (FsSum {
                used: used as int,
                total: total as int,
                any,
                error: opt_text(error),
            }),
        decreases v.len() - i,
    {
        match &v[i] {
            Ok(Some((u, c))) => {
                used = used.saturating_add(*u);
                total = total.saturating_add(*c);
                any = true;
            },
            Ok(None) => {},
            Err(e) => {
                error = Some(lit(e));
            },
        }
        i += 1;
    }
    if any {
        return Ok(Some((used, total)));
    }
    match error {
        Some(e) => Err(e),
        None => Err(lit("no filesystem stats")),
    }
}

// ---------------------------------------------------------------------------
// Summaries
// ---------------------------------------------------------------------------

/// What was asked for a summary so far.
#[derive(Debug, PartialEq, Eq)]
pub struct GatherInput {
    /// Whether there is a kubeconfig, or why not.
    pub kubeconfig: Option<Result<(), String>>,
    pub api: Option<ApiChoice>,
    pub readings: Option<Readings>,
}

/// What the cluster says of its use.
#[derive(Debug, PartialEq, Eq)]
pub struct Readings {
    pub top: Result<Vec<TopRow>, String>,
    /// Some line gives a percentage of CPU that can be read.
    pub percents: bool,
    pub disk: Result<Option<(u64, u64)>, String>,
}

/// What comes next for a summary.
#[derive(Debug, PartialEq, Eq)]
pub enum Gather {
    /// Look for the kubeconfig.
    Kubeconfig,
    /// Find out whom to ask.
    Api,
    /// Ask for the use.
    Readings,
    Done(ClusterResourceSummary),
}

#[verifier::ext_equal]
pub ghost enum GatherV {
    Kubeconfig,
    Api,
    Readings,
    Done(ClusterResourceSummaryV),
}

impl View for Gather {
    type V = GatherV;

    open spec fn view(&self) -> GatherV {
        match self {
            Gather::Kubeconfig => GatherV::Kubeconfig,
            Gather::Api => GatherV::Api,
            Gather::Readings => GatherV::Readings,
            Gather::Done(s) => GatherV::Done(s@),
        }
    }
}

/// The first of two errors.
pub open spec fn first_error(a: Option<Seq<char>>, b: Seq<char>) -> Option<Seq<char>> {
    match a {
        Some(e) => Some(e),
        None => Some(b),
    }
}

/// The error of a cluster after its use was asked for.
pub open spec fn top_error(soft: Option<Seq<char>>, top: Result<Vec<TopRow>, String>) -> Option<
    Seq<char>,
> {
    match top {
        Ok(rows) => if rows@.len() > 0 {
            soft
        } else {
            first_error(soft, "kubectl top returned no nodes (is metrics-server installed?)"@)
        },
        Err(e) => first_error(soft, e@),
    }
}

/// CPU or memory with its use: the share is that of a known capacity, else the
/// mean of the lines where there is any.
pub open spec fn with_top(
    m: ResourceMetricV,
    soft: Option<Seq<char>>,
    top: Result<Vec<TopRow>, String>,
    percents: bool,
) -> ResourceMetricV {
    if top is Ok && top->Ok_0@.len() > 0 {
        ResourceMetricV {
            used: Amount::SumOfRows,
            percent: if m.total != Amount::Unknown {
                Share::OfTotal
            } else if percents {
                Share::MeanOfRows
            } else {
                Share::Unknown
            },
            ..m
        }
    } else {
        blamed(m, top_error(soft, top))
    }
}

/// Disk with its use, where the nodes gave it.
pub open spec fn with_disk(m: ResourceMetricV, disk: Result<Option<(u64, u64)>, String>) ->
    ResourceMetricV {
    match disk {
        Ok(Some((u, c))) => if c > 0 {
            ResourceMetricV {
                used: Amount::Bytes(u),
                total: Amount::Bytes(c),
                percent: Share::OfTotal,
                unit: m.unit,
                error: None,
            }
        } else if m.total == Amount::Unknown {
            blamed(m, Some("disk capacity unknown"@))
        } else {
            m
        },
        Ok(None) => if m.total == Amount::Unknown {
            blamed(m, Some("disk capacity unknown"@))
        } else {
            m
        },
        Err(e) => blamed(
            m,
            Some(
                if m.total != Amount::Unknown {
                    "live disk: "@ + e@
                } else {
                    e@
                },
            ),
        ),
    }
}

/// The summary of a cluster that answered.
pub open spec fn live_summary(
    c: ResourceRow,
    nodes: Seq<NodeCap>,
    soft: Option<Seq<char>>,
    r: Readings,
) -> ClusterResourceSummaryV {
    summary(
        c,
        nodes.len(),
        "online"@,
        with_top(capacity(nodes, Resource::Cores), soft, r.top, r.percents),
        with_top(capacity(nodes, Resource::Memory), soft, r.top, r.percents),
        with_disk(capacity(nodes, Resource::Disk), r.disk),
        top_error(soft, r.top),
    )
}

/// What comes next for the summary of a cluster. Only a cluster that is ready,
/// that has a kubeconfig and where somebody answers is asked for its use.
pub open spec fn gathered(c: ResourceRow, nodes: Seq<NodeCap>, inp: GatherInput) -> GatherV {
    if c.status@ != "ready"@ {
        GatherV::Done(
            capacity_summary(
                c,
                nodes,
                "unknown"@,
                None,
                Some("live usage when status is ready (now "@ + c.status@ + ")"@),
            ),
        )
    } else {
        match inp.kubeconfig {
            None => GatherV::Kubeconfig,
            Some(Err(e)) => GatherV::Done(
                capacity_summary(c, nodes, "offline"@, None, Some(e@)),
            ),
            Some(Ok(_)) => match inp.api {
                None => GatherV::Api,
                Some(a) => if a.error is Some && a.server is None {
                    GatherV::Done(
                        capacity_summary(c, nodes, "offline"@, a@.error, a@.error),
                    )
                } else {
                    match inp.readings {
                        None => GatherV::Readings,
                        Some(r) => GatherV::Done(live_summary(c, nodes, a@.error, r)),
                    }
                },
            },
        }
    }
}

fn add_top(m: ResourceMetric, soft: &Option<String>, r: &Readings) -> (out: ResourceMetric)
    ensures
        out@ == with_top(m@, opt_text(*soft), r.top, r.percents),
{
    match &r.top {
        Ok(rows) => {
            if rows.len() > 0 {
                let known = match m.total {
                    Amount::Unknown => false,
                    _ => true,
                };
                return ResourceMetric {
                    used: Amount::SumOfRows,
                    total: m.total,
                    percent: if known {
                        Share::OfTotal
                    } else if r.percents {
                        Share::MeanOfRows
                    } else {
                        Share::Unknown
                    },
                    unit: m.unit,
                    error: m.error,
                };
            }
        },
        Err(_) => {},
    }
    with_metric_error(m, find_top_error(soft, r))
}

fn find_top_error(soft: &Option<String>, r: &Readings) -> (out: Option<String>)
    ensures
        opt_text(out) == top_error(opt_text(*soft), r.top),
{
    match &r.top {
        Ok(rows) => {
            if rows.len() > 0 {
                again(soft)
            } else {
                match soft {
                    Some(e) => Some(lit(e)),
                    None => Some(
                        lit("kubectl top returned no nodes (is metrics-server installed?)"),
                    ),
                }
            }
        },
        Err(e) => match soft {
            Some(s) => Some(lit(s)),
            None => Some(lit(e)),
        },
    }
}

fn add_disk(m: ResourceMetric, disk: &Result<Option<(u64, u64)>, String>) -> (out: ResourceMetric)
    ensures
        out@ == with_disk(m@, *disk),
{
    let known = match m.total {
        Amount::Unknown => false,
        _ => true,
    };
    match disk {
        Ok(Some((u, c))) => {
            if *c > 0 {
                return ResourceMetric {
                    used: Amount::Bytes(*u),
                    total: Amount::Bytes(*c),
                    percent: Share::OfTotal,
                    unit: m.unit,
                    error: None,
                };
            }
            if known {
                m
            } else {
                with_metric_error(m, Some(lit("disk capacity unknown")))
            }
        },
        Ok(None) => {
            if known {
                m
            } else {
                with_metric_error(m, Some(lit("disk capacity unknown")))
            }
        },
        Err(e) => {
            let msg = if known {
                cat("live disk: ", e)
            } else {
                lit(e)
            };
            with_metric_error(m, Some(msg))
        },
    }
}

/// The next step towards the summary of a cluster, given what was asked so far.
pub fn gather_one(c: &ResourceRow, nodes: &Vec<NodeCap>, inp: &GatherInput) -> (r: Gather)
    ensures
        r@ == gathered(*c, nodes@, *inp),
{
    if !str_eq(&c.status, "ready") {
        let error = lit("live usage when status is ready (now ").concat(&c.status).concat(")");
        return Gather::Done(sum_up_capacity(c, nodes, "unknown", None, Some(error)));
    }
    match &inp.kubeconfig {
        None => Gather::Kubeconfig,
        Some(Err(e)) => Gather::Done(sum_up_capacity(c, nodes, "offline", None, Some(lit(e)))),
        Some(Ok(_)) => match &inp.api {
            None => Gather::Api,
            Some(a) => {
                if a.error.is_some() && a.server.is_none() {
                    return Gather::Done(
                        sum_up_capacity(c, nodes, "offline", again(&a.error), again(&a.error)),
                    );
                }
                match &inp.readings {
                    None => Gather::Readings,
                    Some(r) => {
                        let (cpu, memory, disk) = capacity_metrics(nodes);
                        let cpu = add_top(cpu, &a.error, r);
                        let memory = add_top(memory, &a.error, r);
                        let disk = add_disk(disk, &r.disk);
                        let error = find_top_error(&a.error, r);
                        Gather::Done(
                            summarize_cluster(c, nodes.len(), "online", cpu, memory, disk, error),
                        )
                    },
                }
            },
        },
    }
}

/// Rewriting the server of a kubeconfig leaves one that names the new server,
/// where it named any and the address is a plain one.
pub proof fn law_rewritten_server_is_named(ls: Seq<Seq<char>>, url: Seq<char>)
    requires
        plain_lines(ls),
        plain_line(url),
        url.len() > 0,
        trim(" "@ + url) == url,
        first_with(ls, "server:"@, 0) < ls.len(),
    ensures
        named_server(unlines(set_all(ls, "server:"@, url))) == Some(url),
{
    reveal_strlit("server:");
    let out = set_all(ls, "server:"@, url);
    law_patched_text_has_patched_lines(ls, "server:"@, url);
    lemma_server_kept(ls, url, 0);
    let k = first_with(ls, "server:"@, 0);
    lemma_first_after(ls, "server:"@, 0);
    let n = byte_len(ls[k].subrange(0, skip_ws(ls[k], 0)));
    lemma_keyed_again(n, "server:"@, url, url);
    assert(out[k] == spaces(n as nat) + "server:"@ + " "@ + url);
    let t = trim_start(out[k]);
    assert(t == "server:"@ + " "@ + url);
    assert(t.subrange(0, 7) =~= "server:"@);
    assert(t.subrange(7, t.len() as int) =~= " "@ + url);
}

proof fn lemma_server_kept(ls: Seq<Seq<char>>, url: Seq<char>, i: int)
    requires
        0 <= i <= ls.len(),
    ensures
        first_with(set_all(ls, "server:"@, url), "server:"@, i) == first_with(ls, "server:"@, i),
    decreases ls.len() - i,
{
    reveal_strlit("server:");
    if i < ls.len() {
        if has_key(ls[i], "server:"@) {
            let n = byte_len(ls[i].subrange(0, skip_ws(ls[i], 0)));
            lemma_keyed_again(n, "server:"@, url, url);
        } else {
            lemma_server_kept(ls, url, i + 1);
        }
    }
}

/// The use of a cluster is asked for only where it is ready, has a kubeconfig and
/// somebody answers.
pub proof fn law_asked_only_when_ready(c: ResourceRow, nodes: Seq<NodeCap>, inp: GatherInput)
    ensures
        gathered(c, nodes, inp) is Readings ==> c.status@ == "ready"@ && inp.kubeconfig is Some
            && inp.kubeconfig->0 is Ok && inp.api is Some && (inp.api->0.error is None
            || inp.api->0.server is Some),
{
}

// ---------------------------------------------------------------------------
// What is summed and whom it is asked of
// ---------------------------------------------------------------------------

proof fn lemma_provisioned_prefix(a: Seq<NodeCap>, b: Seq<NodeCap>, what: Resource, n: int)
    requires
        0 <= n <= a.len(),
        n <= b.len(),
        forall|i: int| 0 <= i < n ==> a[i] == b[i],
    ensures
        provisioned(a, what, n) == provisioned(b, what, n),
    decreases n,
{
    if n > 0 {
        lemma_provisioned_prefix(a, b, what, n - 1);
    }
}

/// A node adds its own cores, memory and disk to what the cluster has.
pub proof fn law_node_adds_its_capacity(nodes: Seq<NodeCap>, x: NodeCap)
    ensures
        ({
            let more = nodes.push(x);
            let n = nodes.len() as int;
            let or_zero = |o: Option<i64>|
                match o {
                    Some(v) => v as int,
                    None => 0int,
                };
            &&& provisioned(more, Resource::Cores, n + 1) == provisioned(nodes, Resource::Cores, n)
                + or_zero(x.cores)
            &&& provisioned(more, Resource::Memory, n + 1) == provisioned(
                nodes,
                Resource::Memory,
                n,
            ) + or_zero(x.memory)
            &&& provisioned(more, Resource::Disk, n + 1) == provisioned(nodes, Resource::Disk, n)
                + or_zero(x.disk_gb)
        }),
{
    let more = nodes.push(x);
    let n = nodes.len() as int;
    lemma_provisioned_prefix(more, nodes, Resource::Cores, n);
    lemma_provisioned_prefix(more, nodes, Resource::Memory, n);
    lemma_provisioned_prefix(more, nodes, Resource::Disk, n);
}

/// Capacity is known exactly where it is positive, and says nothing of use.
pub proof fn law_capacity_is_the_sum(nodes: Seq<NodeCap>, what: Resource)
    ensures
        ({
            let m = capacity(nodes, what);
            let sum = provisioned(nodes, what, nodes.len() as int);
            &&& sum > 0 ==> m.total == Amount::Provisioned(sum as i128)
            &&& sum <= 0 ==> m.total is Unknown
            &&& m.used is Unknown && m.percent is Unknown && m.error is None
            &&& m.unit == "cores"@ <==> what is Cores
            &&& m.unit == "GiB"@ <==> !(what is Cores)
        }),
{
    reveal_strlit("cores");
    reveal_strlit("GiB");
    assert("cores"@.len() == 5);
    assert("GiB"@.len() == 3);
}

/// A summary of a cluster names it, counts its nodes, and gives each capacity in
/// its own place.
pub proof fn law_summary_is_of_the_cluster(
    c: ResourceRow,
    nodes: Seq<NodeCap>,
    avail: Seq<char>,
    e: Option<Seq<char>>,
    why: Option<Seq<char>>,
)
    ensures
        ({
            let s = capacity_summary(c, nodes, avail, e, why);
            &&& s.cluster_id == c.id@ && s.cluster_name == c.name@ && s.status == c.status@
            &&& s.k8s_version == c.k8s_version@ && s.availability == avail && s.error == why
            &&& s.node_count == nodes.len()
            &&& s.cpu.total == capacity(nodes, Resource::Cores).total && s.cpu.unit == "cores"@
            &&& s.memory.total == capacity(nodes, Resource::Memory).total && s.memory.unit
                == "GiB"@
            &&& s.disk.total == capacity(nodes, Resource::Disk).total && s.disk.unit == "GiB"@
            &&& s.cpu.error == e && s.memory.error == e && s.disk.error == e
        }),
{
}

/// What was read reaches the summary: the lines of use for processor and memory,
/// and the bytes of the file systems for the disk.
pub proof fn law_readings_reach_the_summary(
    c: ResourceRow,
    nodes: Seq<NodeCap>,
    soft: Option<Seq<char>>,
    r: Readings,
    u: u64,
    t: u64,
)
    requires
        r.top is Ok,
        r.top->Ok_0@.len() > 0,
        t > 0,
    ensures
        ({
            let s = live_summary(c, nodes, soft, r);
            let cores = provisioned(nodes, Resource::Cores, nodes.len() as int);
            &&& s.availability == "online"@
            &&& s.cpu.used is SumOfRows && s.memory.used is SumOfRows
            &&& cores > 0 ==> s.cpu.percent is OfTotal
            &&& cores <= 0 && r.percents ==> s.cpu.percent is MeanOfRows
            &&& cores <= 0 && !r.percents ==> s.cpu.percent is Unknown
            &&& r.disk == Ok::<Option<(u64, u64)>, String>(Some((u, t))) ==> s.disk.used
                == Amount::Bytes(u) && s.disk.total == Amount::Bytes(t) && s.disk.percent is OfTotal
                && s.disk.error is None
            &&& s.error == soft
        }),
{
}

/// A cluster that cannot be reached is offline, and says why; one that was read is
/// online; one that is not ready is neither.
pub proof fn law_availability_in_a_summary(c: ResourceRow, nodes: Seq<NodeCap>, inp: GatherInput)
    ensures
        match gathered(c, nodes, inp) {
            GatherV::Done(s) => {
                &&& s.availability == "unknown"@ <==> c.status@ != "ready"@
                &&& s.availability == "online"@ ==> inp.readings is Some && inp.kubeconfig is Some
                    && inp.kubeconfig->0 is Ok
                &&& s.availability == "offline"@ ==> s.error is Some
                &&& s.node_count == nodes.len() && s.cluster_id == c.id@
            },
            _ => c.status@ == "ready"@,
        },
{
    reveal_strlit("unknown");
    reveal_strlit("online");
    reveal_strlit("offline");
    assert("unknown"@.len() == 7);
    assert("online"@.len() == 6);
    assert("offline"@.len() == 7);
    assert("unknown"@[0] == 'u' && "offline"@[0] == 'o');
}

/// The last summary is served while it is young and of the same status; an older
/// one is served while a new one is asked for, unless the status has changed.
pub proof fn law_what_is_served(s: Seq<char>, age: u64, status: Seq<char>)
    ensures
        serving(Some((s, age)), status) is Last <==> s == status && age <= 20_000,
        serving(Some((s, age)), status) is CapacityAndAsk <==> s != status && age > 20_000,
        serving(Some((s, age)), status) is LastAndAsk <==> (s == status) != (age <= 20_000),
        serving(None, status) is CapacityAndAsk,
{
}

/// The control planes that are asked are those of the nodes that have that role
/// and an address.
pub proof fn law_control_planes_are_asked(nodes: Seq<NodeCap>, n: int, k: int)
    requires
        0 <= n <= nodes.len(),
    ensures
        0 <= k < n && nodes[k].role@ == "controlplane"@ && nodes[k].ip is Some && trim(
            nodes[k].ip->0@,
        ).len() > 0 ==> cp_ips(nodes, n).contains(trim(nodes[k].ip->0@)),
        0 <= k < cp_ips(nodes, n).len() ==> exists|i: int|
            0 <= i < n && (#[trigger] nodes[i]).role@ == "controlplane"@ && nodes[i].ip is Some
                && cp_ips(nodes, n)[k] == trim(nodes[i].ip->0@),
    decreases n,
{
    if n > 0 {
        law_control_planes_are_asked(nodes, n - 1, k);
        let b = cp_ips(nodes, n - 1);
        let r = cp_ips(nodes, n);
        if r.len() > b.len() {
            assert(r[r.len() - 1] == trim(nodes[n - 1].ip->0@));
        }
        if 0 <= k < n - 1 && nodes[k].ip is Some && b.contains(trim(nodes[k].ip->0@)) {
            let i = choose|i: int| 0 <= i < b.len() && b[i] == trim(nodes[k].ip->0@);
            assert(r[i] == trim(nodes[k].ip->0@));
        }
        if 0 <= k < r.len() {
            if k < b.len() {
                assert(r[k] == b[k]);
            } else {
                assert(nodes[n - 1].role@ == "controlplane"@);
            }
        }
    }
}

/// A server that answered in place of the kubeconfig's own is used; with one
/// control plane it becomes the kubeconfig's. Where nobody answers there is an
/// error and nothing is changed.
pub proof fn law_choice_of_a_server(
    server: Seq<char>,
    nodes: Seq<NodeCap>,
    c: ResourceRow,
    kc: Option<Seq<char>>,
)
    ensures
        ({
            let other = api_choice(Some(Some(server)), nodes, c, kc);
            let own = api_choice(Some(None), nodes, c, kc);
            let nobody = api_choice(None, nodes, c, kc);
            &&& other.error is None && own.error is None && nobody.error is Some
            &&& c.controlplanes > 1 ==> other.server == Some(server) && other.rewrite is None
            &&& c.controlplanes <= 1 ==> other.rewrite == Some(server)
            &&& own.server is None
            &&& c.controlplanes > 1 ==> own.rewrite is None
            &&& own.rewrite is Some ==> at_vip(kc, c)
            &&& nobody.server is None && nobody.rewrite is None
        }),
{
}

/// A quantity is its number and the unit behind it.
pub proof fn law_units_of_a_quantity(n: Seq<char>)
    requires
        n.len() > 0,
        is_digit(n[0]),
        is_digit(n.last()),
    ensures
        cpu_quantity(n + "m"@) == (n, Unit::Milli),
        cpu_quantity(n) == (n, Unit::One),
        memory_quantity(n + "Ki"@) == (n, Unit::Ki),
        memory_quantity(n + "Mi"@) == (n, Unit::Mi),
        memory_quantity(n + "Gi"@) == (n, Unit::Gi),
        memory_quantity(n + "K"@) == (n, Unit::K),
        memory_quantity(n + "M"@) == (n, Unit::M),
        memory_quantity(n + "G"@) == (n, Unit::G),
        memory_quantity(n) == (n, Unit::One),
{
    reveal_strlit("m");
    reveal_strlit("Ki");
    reveal_strlit("Mi");
    reveal_strlit("Gi");
    reveal_strlit("K");
    reveal_strlit("M");
    reveal_strlit("G");
    let t0 = n + "m"@;
    lemma_trimmed(t0);
    assert(t0.subrange(0, t0.len() - 1) =~= n);
    assert(t0.take(t0.len() - 1) =~= n);
    assert(t0.subrange(t0.len() - 1, t0.len() as int) =~= "m"@);
    assert(t0.skip(t0.len() - 1) =~= "m"@);
    assert(ends_with(t0, "m"@));
    assert(t0.last() == 'm');
    let t1 = n + "Ki"@;
    lemma_trimmed(t1);
    assert(t1.subrange(0, t1.len() - 2) =~= n);
    assert(t1.take(t1.len() - 2) =~= n);
    assert(t1.subrange(t1.len() - 2, t1.len() as int) =~= "Ki"@);
    assert(t1.skip(t1.len() - 2) =~= "Ki"@);
    assert(ends_with(t1, "Ki"@));
    assert(t1.last() == 'i');
    let t2 = n + "Mi"@;
    lemma_trimmed(t2);
    assert(t2.subrange(0, t2.len() - 2) =~= n);
    assert(t2.take(t2.len() - 2) =~= n);
    assert(t2.subrange(t2.len() - 2, t2.len() as int) =~= "Mi"@);
    assert(t2.skip(t2.len() - 2) =~= "Mi"@);
    assert(ends_with(t2, "Mi"@));
    assert(t2.last() == 'i');
    let t3 = n + "Gi"@;
    lemma_trimmed(t3);
    assert(t3.subrange(0, t3.len() - 2) =~= n);
    assert(t3.take(t3.len() - 2) =~= n);
    assert(t3.subrange(t3.len() - 2, t3.len() as int) =~= "Gi"@);
    assert(t3.skip(t3.len() - 2) =~= "Gi"@);
    assert(ends_with(t3, "Gi"@));
    assert(t3.last() == 'i');
    let t4 = n + "K"@;
    lemma_trimmed(t4);
    assert(t4.subrange(0, t4.len() - 1) =~= n);
    assert(t4.take(t4.len() - 1) =~= n);
    assert(t4.subrange(t4.len() - 1, t4.len() as int) =~= "K"@);
    assert(t4.skip(t4.len() - 1) =~= "K"@);
    assert(ends_with(t4, "K"@));
    assert(t4.last() == 'K');
    let t5 = n + "M"@;
    lemma_trimmed(t5);
    assert(t5.subrange(0, t5.len() - 1) =~= n);
    assert(t5.take(t5.len() - 1) =~= n);
    assert(t5.subrange(t5.len() - 1, t5.len() as int) =~= "M"@);
    assert(t5.skip(t5.len() - 1) =~= "M"@);
    assert(ends_with(t5, "M"@));
    assert(t5.last() == 'M');
    let t6 = n + "G"@;
    lemma_trimmed(t6);
    assert(t6.subrange(0, t6.len() - 1) =~= n);
    assert(t6.take(t6.len() - 1) =~= n);
    assert(t6.subrange(t6.len() - 1, t6.len() as int) =~= "G"@);
    assert(t6.skip(t6.len() - 1) =~= "G"@);
    assert(ends_with(t6, "G"@));
    assert(t6.last() == 'G');
    lemma_trimmed(n);
    lemma_last_of_suffix(n);
    lemma_last_of_suffix(t0);
    lemma_last_of_suffix(t1);
    lemma_last_of_suffix(t2);
    lemma_last_of_suffix(t3);
    lemma_last_of_suffix(t4);
    lemma_last_of_suffix(t5);
    lemma_last_of_suffix(t6);
}

/// What a text ends with ends as the text does.
proof fn lemma_last_of_suffix(t: Seq<char>)
    requires
        t.len() > 1 || t.len() == 1 && is_digit(t[0]),
    ensures
        ends_with(t, "m"@) ==> t.last() == 'm',
        ends_with(t, "Ki"@) ==> t.last() == 'i' && t[t.len() - 2] == 'K',
        ends_with(t, "Mi"@) ==> t.last() == 'i' && t[t.len() - 2] == 'M',
        ends_with(t, "Gi"@) ==> t.last() == 'i' && t[t.len() - 2] == 'G',
        ends_with(t, "K"@) ==> t.last() == 'K',
        ends_with(t, "M"@) ==> t.last() == 'M',
        ends_with(t, "G"@) ==> t.last() == 'G',
{
    reveal_strlit("m");
    if ends_with(t, "m"@) {
        let p = "m"@;
        assert(t.subrange(t.len() - 1, t.len() as int)[0] == p[0]);
    }
    reveal_strlit("Ki");
    if ends_with(t, "Ki"@) {
        let p = "Ki"@;
        assert(t.subrange(t.len() - 2, t.len() as int)[1] == p[1]);
        assert(t.subrange(t.len() - 2, t.len() as int)[0] == p[0]);
    }
    reveal_strlit("Mi");
    if ends_with(t, "Mi"@) {
        let p = "Mi"@;
        assert(t.subrange(t.len() - 2, t.len() as int)[1] == p[1]);
        assert(t.subrange(t.len() - 2, t.len() as int)[0] == p[0]);
    }
    reveal_strlit("Gi");
    if ends_with(t, "Gi"@) {
        let p = "Gi"@;
        assert(t.subrange(t.len() - 2, t.len() as int)[1] == p[1]);
        assert(t.subrange(t.len() - 2, t.len() as int)[0] == p[0]);
    }
    reveal_strlit("K");
    if ends_with(t, "K"@) {
        let p = "K"@;
        assert(t.subrange(t.len() - 1, t.len() as int)[0] == p[0]);
    }
    reveal_strlit("M");
    if ends_with(t, "M"@) {
        let p = "M"@;
        assert(t.subrange(t.len() - 1, t.len() as int)[0] == p[0]);
    }
    reveal_strlit("G");
    if ends_with(t, "G"@) {
        let p = "G"@;
        assert(t.subrange(t.len() - 1, t.len() as int)[0] == p[0]);
    }
}

/// A line of use gives processor, share, memory, share, in that order.
pub proof fn law_line_of_use(line: Seq<char>)
    ensures
        ({
            let w = words(line);
            &&& w.len() < 5 <==> top_line(line) is None
            &&& w.len() >= 5 ==> {
                let r = top_line(line)->0;
                &&& r.cpu == cpu_quantity(w[1])
                &&& r.cpu_percent == trim_end_char(w[2], '%')
                &&& r.memory == memory_quantity(w[3])
                &&& r.memory_percent == trim_end_char(w[4], '%')
            }
        }),
{
}

/// The disk of a node is what its file system uses of what it holds, and unknown
/// where it holds nothing.
pub proof fn law_disk_of_a_node(j: JsonV, u: nat, c: nat)
    requires
        j.get3("node"@, "fs"@, "usedBytes"@) is Some,
        j.get3("node"@, "fs"@, "capacityBytes"@) is Some,
        j.get3("node"@, "fs"@, "usedBytes"@)->0.as_nat() == Some(u),
        j.get3("node"@, "fs"@, "capacityBytes"@)->0.as_nat() == Some(c),
    ensures
        c > 0 ==> node_fs_of(j) == Some((u as int, c as int)),
        c == 0 ==> node_fs_of(j) is None,
{
}

/// A node's disk is added to those before it, as far as it fits; one that could
/// not be read adds nothing.
pub proof fn law_disks_add_up(
    v: Seq<Result<Option<(u64, u64)>, String>>,
    n: int,
    u: u64,
    c: u64,
)
    requires
        0 < n <= v.len(),
    ensures
        v[n - 1] == Ok::<Option<(u64, u64)>, String>(Some((u, c))) ==> {
            &&& fs_sum(v, n).any
            &&& fs_sum(v, n - 1).used + u <= u64::MAX ==> fs_sum(v, n).used == fs_sum(v, n - 1).used
                + u
            &&& fs_sum(v, n - 1).total + c <= u64::MAX ==> fs_sum(v, n).total == fs_sum(
                v,
                n - 1,
            ).total + c
        },
        v[n - 1] is Err ==> fs_sum(v, n).used == fs_sum(v, n - 1).used && fs_sum(v, n).total
            == fs_sum(v, n - 1).total && fs_sum(v, n).error == Some(v[n - 1]->Err_0@),
        fs_sum(v, v.len() as int).any ==> cluster_fs(v) == Ok::<Option<(int, int)>, Seq<char>>(
            Some((fs_sum(v, v.len() as int).used, fs_sum(v, v.len() as int).total)),
        ),
        !fs_sum(v, v.len() as int).any ==> cluster_fs(v) is Err,
{
}

/// Every line of use that can be read is summed, and no other.
pub proof fn law_lines_that_are_summed(ls: Seq<Seq<char>>, n: int, k: int)
    requires
        0 <= n <= ls.len(),
    ensures
        0 <= k < n && (words(ls[k]).len() >= 5) ==> top_rows(ls, n).contains(top_line(ls[k])->0),
        0 <= k < top_rows(ls, n).len() ==> exists|i: int|
            #![trigger ls[i]]
            0 <= i < n && (words(ls[i]).len() >= 5) && top_rows(ls, n)[k] == top_line(ls[i])->0,
    decreases n,
{
    if n > 0 {
        law_lines_that_are_summed(ls, n - 1, k);
        let b = top_rows(ls, n - 1);
        let r = top_rows(ls, n);
        if r.len() > b.len() {
            assert(r[r.len() - 1] == top_line(ls[n - 1])->0);
        }
        if 0 <= k < n - 1 && b.contains(top_line(ls[k])->0) {
            let i = choose|i: int| 0 <= i < b.len() && b[i] == top_line(ls[k])->0;
            assert(r[i] == b[i]);
        }
        if 0 <= k < r.len() && k < b.len() {
            assert(r[k] == b[k]);
        }
    }
}

} // verus!
