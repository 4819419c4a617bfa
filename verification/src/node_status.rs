//! What a node says of itself: health, metrics, use and logs.
use crate::k8s::kubectl::{
    CommandOutput, error_text, is_tls_error, kubeconfig_tls_error, message_or,
};
use crate::num::{dec, u64_str};
use crate::text::{
    cat, char_is_ws, chars_of, contains, idx_pos, is_ws, lines, lit, lower, no_texts, opt_text, pos,
    put, slice_str, split_once, starts_with, str_contains, str_eq, str_lines, str_lower,
    str_split_once, str_starts, str_strip_prefix, str_trim, str_trim_end_char, str_trim_start_char,
    str_words, strip_prefix, texts, trim, trim_end_char, trim_start_char, words,
};
use vstd::prelude::*;
use vstd::string::*;

verus! {

// ---------------------------------------------------------------------------
// Health
// ---------------------------------------------------------------------------

#[derive(Debug, PartialEq, Eq)]
pub struct HealthOut {
    pub ready: Option<bool>,
    pub containerd: Option<String>,
    pub kubelet: Option<String>,
    pub message: Option<String>,
    pub error: Option<String>,
}

#[verifier::ext_equal]
pub ghost struct HealthOutV {
    pub ready: Option<bool>,
    pub containerd: Option<Seq<char>>,
    pub kubelet: Option<Seq<char>>,
    pub message: Option<Seq<char>>,
    pub error: Option<Seq<char>>,
}

impl View for HealthOut {
    type V = HealthOutV;

    open spec fn view(&self) -> HealthOutV {
        HealthOutV {
            ready: self.ready,
            containerd: opt_text(self.containerd),
            kubelet: opt_text(self.kubelet),
            message: opt_text(self.message),
            error: opt_text(self.error),
        }
    }
}

/// The health of which only an error is known.
pub open spec fn health_error(msg: Seq<char>) -> HealthOutV {
    HealthOutV { ready: None, containerd: None, kubelet: None, message: None, error: Some(msg) }
}

impl HealthOut {
    pub fn err(msg: String) -> (r: HealthOut)
        ensures
            r@ == health_error(msg@),
    {
        HealthOut { ready: None, containerd: None, kubelet: None, message: None, error: Some(msg) }
    }
}

/// The fields of a line and the message after its dash.
pub open spec fn health_parts(line: Seq<char>) -> (Seq<char>, Option<Seq<char>>) {
    match split_once(line, " — "@) {
        Some((a, b)) => (a, Some(b)),
        None => match split_once(line, " - "@) {
            Some((a, b)) => (a, Some(b)),
            None => (line, None),
        },
    }
}

/// What is known after the first `n` fields.
pub open spec fn health_fields(w: Seq<Seq<char>>, n: int) -> HealthOutV
    decreases n,
{
    if 0 < n <= w.len() {
        let h = health_fields(w, n - 1);
        match split_once(w[n - 1], "="@) {
            Some((k, v)) => if k == "ready"@ {
                HealthOutV { ready: Some(v == "true"@ || v == "1"@), ..h }
            } else if k == "containerd"@ {
                HealthOutV { containerd: Some(v), ..h }
            } else if k == "kubelet"@ {
                HealthOutV { kubelet: Some(v), ..h }
            } else {
                h
            },
            None => h,
        }
    } else {
        HealthOutV { ready: None, containerd: None, kubelet: None, message: None, error: None }
    }
}

/// The health that a line such as `ready=true containerd=up kubelet=up — fine`
/// gives.
pub open spec fn health_line(line: Seq<char>) -> HealthOutV {
    let (main, message) = health_parts(line);
    let h = health_fields(words(main), words(main).len() as int);
    if h.ready is None && h.containerd is None && h.kubelet is None {
        health_error("unrecognized health output: "@ + line)
    } else {
        HealthOutV { message, ..h }
    }
}

pub fn parse_health_line(line: &str) -> (r: HealthOut)
    ensures
        r@ == health_line(line@),
{
    let (main, message) = match str_split_once(line, " — ") {
        Some((a, b)) => (a, Some(b)),
        None => match str_split_once(line, " - ") {
            Some((a, b)) => (a, Some(b)),
            None => (lit(line), None),
        },
    };
    let w = str_words(&main);
    let ghost want = texts(w@);
    let mut ready: Option<bool> = None;
    let mut containerd: Option<String> = None;
    let mut kubelet: Option<String> = None;
    let mut i: usize = 0;
    while i < w.len()
        invariant
            i <= w.len(),
            want == texts(w@),
            health_fields(want, i as int) == (HealthOutV {
                ready,
                containerd: opt_text(containerd),
                kubelet: opt_text(kubelet),
                message: None,
                error: None,
            }),
        decreases w.len() - i,
    {
        assert(want[i as int] == w@[i as int]@);
        match str_split_once(&w[i], "=") {
            Some((k, v)) => {
                if str_eq(&k, "ready") {
                    ready = Some(str_eq(&v, "true") || str_eq(&v, "1"));
                } else if str_eq(&k, "containerd") {
                    containerd = Some(v);
                } else if str_eq(&k, "kubelet") {
                    kubelet = Some(v);
                }
            },
            None => {},
        }
        i += 1;
    }
    assert(want.len() == w.len());
    if ready.is_none() && containerd.is_none() && kubelet.is_none() {
        return HealthOut::err(cat("unrecognized health output: ", line));
    }
    HealthOut { ready, containerd, kubelet, message, error: None }
}

/// The health of a node, from what `pertiskctl health` left behind; `exit` is
/// how it ended.
pub fn fetch_health(out: &CommandOutput, exit: &str) -> (r: HealthOut)
    ensures
        r@ == (if out.success {
            health_line(trim(out.stdout@))
        } else {
            health_error(
                message_or(
                    out.stderr@,
                    "pertiskctl health failed (exit "@ + exit@ + ")"@,
                ),
            )
        }),
{
    if !out.success {
        return HealthOut::err(
            error_text(
                &out.stderr,
                &lit("pertiskctl health failed (exit ").concat(exit).concat(")"),
            ),
        );
    }
    parse_health_line(&str_trim(&out.stdout))
}

/// The address to ask a node at, or why there is none.
pub open spec fn live_ip(ip: Option<Seq<char>>) -> Result<Seq<char>, Seq<char>> {
    match ip {
        Some(a) => if trim(a).len() > 0 {
            Ok(trim(a))
        } else {
            Err("node has no IPv4 address yet"@)
        },
        None => Err("node has no IPv4 address yet"@),
    }
}

/// The mathematical form of a text or an error.
pub open spec fn text_result(r: Result<String, String>) -> Result<Seq<char>, Seq<char>> {
    match r {
        Ok(s) => Ok(s@),
        Err(e) => Err(e@),
    }
}

/// The address to ask a node at; where there is none, the error that stands for
/// its health, metrics and use.
pub fn node_address(ip: &Option<String>) -> (r: Result<String, String>)
    ensures
        text_result(r) == live_ip(opt_text(*ip)),
{
    match ip {
        Some(a) => {
            let t = str_trim(a);
            if t.is_empty() {
                Err(lit("node has no IPv4 address yet"))
            } else {
                Ok(t)
            }
        },
        None => Err(lit("node has no IPv4 address yet")),
    }
}

/// The error where the tool is not there.
pub fn missing_tool(path: &str) -> (r: String)
    ensures
        r@ == "pertiskctl not found at "@ + path@,
{
    cat("pertiskctl not found at ", path)
}

// ---------------------------------------------------------------------------
// Metrics
// ---------------------------------------------------------------------------

/// Where the metrics of a node are.
pub fn metrics_url(ip: &str, tls: bool) -> (r: String)
    ensures
        r@ == (if tls {
            "https"@
        } else {
            "http"@
        }) + "://"@ + ip@ + ":50001/metrics"@,
{
    let scheme = if tls {
        "https"
    } else {
        "http"
    };
    lit(scheme).concat("://").concat(ip).concat(":50001/metrics")
}

/// A metric that is shown.
#[derive(Debug, PartialEq, Eq)]
pub enum Metric {
    /// Requests by their method.
    Requests(String),
    DurationSum,
    DurationCount,
    Gauge(String),
}

#[verifier::ext_equal]
pub ghost enum MetricV {
    Requests(Seq<char>),
    DurationSum,
    DurationCount,
    Gauge(Seq<char>),
}

impl View for Metric {
    type V = MetricV;

    open spec fn view(&self) -> MetricV {
        match self {
            Metric::Requests(m) => MetricV::Requests(m@),
            Metric::DurationSum => MetricV::DurationSum,
            Metric::DurationCount => MetricV::DurationCount,
            Metric::Gauge(n) => MetricV::Gauge(n@),
        }
    }
}

/// The last white space before `b`, -1 if there is none.
pub open spec fn last_ws(s: Seq<char>, b: int) -> int
    decreases b,
{
    if 0 < b <= s.len() {
        if is_ws(s[b - 1]) {
            b - 1
        } else {
            last_ws(s, b - 1)
        }
    } else {
        -1
    }
}

/// Name with labels, and value, of a line of metrics: what stands before and
/// after the last white space.
pub open spec fn metric_parts(line: Seq<char>) -> Option<(Seq<char>, Seq<char>)> {
    let k = last_ws(line, line.len() as int);
    if k < 0 {
        None
    } else {
        let value = trim(line.subrange(k + 1, line.len() as int));
        let name = trim(line.subrange(0, k));
        if name.len() == 0 || value.len() == 0 {
            None
        } else {
            Some((name, value))
        }
    }
}

/// The mathematical form of a pair of texts.
pub open spec fn pair_view(o: Option<(String, String)>) -> Option<(Seq<char>, Seq<char>)> {
    match o {
        Some(p) => Some((p.0@, p.1@)),
        None => None,
    }
}

fn split_metric_line(line: &str) -> (r: Option<(String, String)>)
    ensures
        pair_view(r) == metric_parts(line@),
{
    let v = chars_of(line);
    let mut k: usize = v.len();
    while k > 0 && !char_is_ws(v[k - 1])
        invariant
            k <= v.len(),
            v@ == line@,
            last_ws(line@, v.len() as int) == last_ws(line@, k as int),
        decreases k,
    {
        k -= 1;
    }
    if k == 0 {
        return None;
    }
    let value = str_trim(&slice_str(&v, k, v.len()));
    let name = str_trim(&slice_str(&v, 0, k - 1));
    if name.is_empty() || value.is_empty() {
        None
    } else {
        Some((name, value))
    }
}

/// The name without the labels, and the labels.
pub open spec fn name_labels(s: Seq<char>) -> (Seq<char>, Seq<char>) {
    let i = pos(s, '{', 0);
    (s.subrange(0, i), s.subrange(i, s.len() as int))
}

fn split_name_labels(s: &str) -> (r: (String, String))
    ensures
        (r.0@, r.1@) == name_labels(s@),
{
    let v = chars_of(s);
    let i = idx_pos(&v, '{', 0);
    (slice_str(&v, 0, i), slice_str(&v, i, v.len()))
}

/// The value of a label.
pub open spec fn label_of(labels: Seq<char>, key: Seq<char>) -> Option<Seq<char>> {
    match split_once(labels, key + "=\""@) {
        Some((_, rest)) => match split_once(rest, "\""@) {
            Some((value, _)) => Some(value),
            None => None,
        },
        None => None,
    }
}

pub fn label_value(labels: &str, key: &str) -> (r: Option<String>)
    ensures
        opt_text(r) == label_of(labels@, key@),
{
    match str_split_once(labels, &cat(key, "=\"")) {
        Some((_, rest)) => match str_split_once(&rest, "\"") {
            Some((value, _)) => Some(value),
            None => None,
        },
        None => None,
    }
}

/// The gauge is shown.
pub open spec fn is_gauge(name: Seq<char>) -> bool {
    name == "pertisk_node_ready"@ || name == "pertisk_containerd_up"@ || name
        == "pertisk_kubelet_up"@ || name == "pertisk_boot_ok"@ || name == "pertisk_boot_attempts"@
        || name == "pertisk_active_slot"@ || name == "pertisk_metrics_scrapes_total"@
}

/// The metric with the name and the labels, where it is shown.
pub open spec fn metric_of(name: Seq<char>, labels: Seq<char>) -> Option<MetricV> {
    if name == "pertisk_api_requests_total"@ {
        match label_of(labels, "method"@) {
            Some(m) => if m.len() == 0 {
                None
            } else {
                Some(MetricV::Requests(m))
            },
            None => None,
        }
    } else if name == "pertisk_api_request_duration_seconds_sum"@ {
        Some(MetricV::DurationSum)
    } else if name == "pertisk_api_request_duration_seconds_count"@ {
        Some(MetricV::DurationCount)
    } else if is_gauge(name) {
        Some(MetricV::Gauge(name))
    } else {
        None
    }
}

/// The mathematical form of an optional metric.
pub open spec fn opt_metric(o: Option<Metric>) -> Option<MetricV> {
    match o {
        Some(m) => Some(m@),
        None => None,
    }
}

fn find_metric(name: &str, labels: &str) -> (r: Option<Metric>)
    ensures
        opt_metric(r) == metric_of(name@, labels@),
{
    if str_eq(name, "pertisk_api_requests_total") {
        match label_value(labels, "method") {
            Some(m) => if m.is_empty() {
                None
            } else {
                Some(Metric::Requests(m))
            },
            None => None,
        }
    } else if str_eq(name, "pertisk_api_request_duration_seconds_sum") {
        Some(Metric::DurationSum)
    } else if str_eq(name, "pertisk_api_request_duration_seconds_count") {
        Some(Metric::DurationCount)
    } else if str_eq(name, "pertisk_node_ready") || str_eq(name, "pertisk_containerd_up")
        || str_eq(name, "pertisk_kubelet_up") || str_eq(name, "pertisk_boot_ok") || str_eq(
        name,
        "pertisk_boot_attempts",
    ) || str_eq(name, "pertisk_active_slot") || str_eq(name, "pertisk_metrics_scrapes_total") {
        Some(Metric::Gauge(lit(name)))
    } else {
        None
    }
}

/// A metric and the text of its value.
#[derive(Debug, PartialEq, Eq)]
pub struct Sample {
    pub metric: Metric,
    pub value: String,
}

#[verifier::ext_equal]
pub ghost struct SampleV {
    pub metric: MetricV,
    pub value: Seq<char>,
}

impl View for Sample {
    type V = SampleV;

    open spec fn view(&self) -> SampleV {
        SampleV { metric: self.metric@, value: self.value@ }
    }
}

/// The mathematical forms of samples.
pub open spec fn sample_views(v: Seq<Sample>) -> Seq<SampleV> {
    Seq::new(v.len(), |i: int| v[i]@)
}

/// The sample in a line. A comment holds none.
pub open spec fn sample_line(raw: Seq<char>) -> Option<SampleV> {
    let line = trim(raw);
    if line.len() == 0 || starts_with(line, "#"@) {
        None
    } else {
        match metric_parts(line) {
            Some((name, value)) => {
                let (n, labels) = name_labels(name);
                match metric_of(n, labels) {
                    Some(metric) => Some(SampleV { metric, value }),
                    None => None,
                }
            },
            None => None,
        }
    }
}

/// The samples in the first `n` lines.
pub open spec fn samples(ls: Seq<Seq<char>>, n: int) -> Seq<SampleV>
    decreases n,
{
    if 0 < n <= ls.len() {
        match sample_line(ls[n - 1]) {
            Some(s) => samples(ls, n - 1).push(s),
            None => samples(ls, n - 1),
        }
    } else {
        Seq::empty()
    }
}

/// The mathematical form of an optional sample.
pub open spec fn opt_sample(o: Option<Sample>) -> Option<SampleV> {
    match o {
        Some(s) => Some(s@),
        None => None,
    }
}

fn read_sample(raw: &str) -> (r: Option<Sample>)
    ensures
        opt_sample(r) == sample_line(raw@),
{
    let line = str_trim(raw);
    if line.is_empty() || str_starts(&line, "#") {
        return None;
    }
    match split_metric_line(&line) {
        Some((name, value)) => {
            let (n, labels) = split_name_labels(&name);
            match find_metric(&n, &labels) {
                Some(metric) => Some(Sample { metric, value }),
                None => None,
            }
        },
        None => None,
    }
}

/// The samples that are shown, in order. Of one metric the last value that is a
/// number counts.
pub fn parse_prometheus(body: &str) -> (r: Vec<Sample>)
    ensures
        sample_views(r@) == samples(lines(body@), lines(body@).len() as int),
{
    let ls = str_lines(body);
    let ghost want = lines(body@);
    let mut out: Vec<Sample> = Vec::new();
    assert(sample_views(out@) =~= Seq::empty());
    let mut i: usize = 0;
    while i < ls.len()
        invariant
            i <= ls.len(),
            want == texts(ls@),
            sample_views(out@) == samples(want, i as int),
        decreases ls.len() - i,
    {
        assert(want[i as int] == ls@[i as int]@);
        match read_sample(&ls[i]) {
            Some(s) => {
                let ghost before = out@;
                let ghost sv = s@;
                out.push(s);
                assert(sample_views(out@) =~= sample_views(before).push(sv));
            },
            None => {},
        }
        i += 1;
    }
    assert(want.len() == ls.len());
    out
}

// ---------------------------------------------------------------------------
// Use
// ---------------------------------------------------------------------------

/// What `kubectl top node` says; percentages as text, without the sign.
#[derive(Debug, PartialEq, Eq)]
pub struct ResourcesOut {
    pub cpu: Option<String>,
    pub cpu_percent: Option<String>,
    pub memory: Option<String>,
    pub memory_percent: Option<String>,
    pub error: Option<String>,
}

#[verifier::ext_equal]
pub ghost struct ResourcesOutV {
    pub cpu: Option<Seq<char>>,
    pub cpu_percent: Option<Seq<char>>,
    pub memory: Option<Seq<char>>,
    pub memory_percent: Option<Seq<char>>,
    pub error: Option<Seq<char>>,
}

impl View for ResourcesOut {
    type V = ResourcesOutV;

    open spec fn view(&self) -> ResourcesOutV {
        ResourcesOutV {
            cpu: opt_text(self.cpu),
            cpu_percent: opt_text(self.cpu_percent),
            memory: opt_text(self.memory),
            memory_percent: opt_text(self.memory_percent),
            error: opt_text(self.error),
        }
    }
}

/// The use of which only an error is known.
pub open spec fn use_error(msg: Seq<char>) -> ResourcesOutV {
    ResourcesOutV {
        cpu: None,
        cpu_percent: None,
        memory: None,
        memory_percent: None,
        error: Some(msg),
    }
}

impl ResourcesOut {
    pub fn err(msg: String) -> (r: ResourcesOut)
        ensures
            r@ == use_error(msg@),
    {
        ResourcesOut {
            cpu: None,
            cpu_percent: None,
            memory: None,
            memory_percent: None,
            error: Some(msg),
        }
    }
}

/// The use in a line of `kubectl top`: name, CPU, CPU%, memory, memory%.
pub open spec fn use_line(line: Seq<char>) -> ResourcesOutV {
    let w = words(line);
    if w.len() < 5 {
        use_error("unexpected kubectl top output: "@ + line)
    } else {
        ResourcesOutV {
            cpu: Some(w[1]),
            cpu_percent: Some(trim_end_char(w[2], '%')),
            memory: Some(w[3]),
            memory_percent: Some(trim_end_char(w[4], '%')),
            error: None,
        }
    }
}

pub fn parse_kubectl_top(line: &str) -> (r: ResourcesOut)
    ensures
        r@ == use_line(line@),
{
    let w = str_words(line);
    let ghost v = texts(w@);
    assert(v.len() == w.len());
    if w.len() < 5 {
        return ResourcesOut::err(cat("unexpected kubectl top output: ", line));
    }
    assert(v[1] == w@[1]@ && v[2] == w@[2]@ && v[3] == w@[3]@ && v[4] == w@[4]@);
    ResourcesOut {
        cpu: Some(lit(&w[1])),
        cpu_percent: Some(str_trim_end_char(&w[2], '%')),
        memory: Some(lit(&w[3])),
        memory_percent: Some(str_trim_end_char(&w[4], '%')),
        error: None,
    }
}

/// What `kubectl top node` left behind: its output, or why it failed.
pub fn kubectl_top_node(out: &CommandOutput) -> (r: Result<String, String>)
    ensures
        text_result(r) == (if out.success {
            Ok(trim(out.stdout@))
        } else {
            Err(
                message_or(
                    out.stderr@,
                    "kubectl top node failed (is metrics-server installed?)"@,
                ),
            )
        }),
{
    if out.success {
        Ok(str_trim(&out.stdout))
    } else {
        Err(error_text(&out.stderr, "kubectl top node failed (is metrics-server installed?)"))
    }
}

/// What comes next for the use of a node.
#[derive(Debug, PartialEq, Eq)]
pub enum FetchUse {
    Done(ResourcesOut),
    /// Fetch a new kubeconfig from this guest, then ask again.
    Refresh(String),
}

#[verifier::ext_equal]
pub ghost enum FetchUseV {
    Done(ResourcesOutV),
    Refresh(Seq<char>),
}

impl View for FetchUse {
    type V = FetchUseV;

    open spec fn view(&self) -> FetchUseV {
        match self {
            FetchUse::Done(r) => FetchUseV::Done(r@),
            FetchUse::Refresh(ip) => FetchUseV::Refresh(ip@),
        }
    }
}

/// The error where the certificate of the API is not accepted and no new
/// kubeconfig was fetched.
pub open spec fn stale_ca(error: Seq<char>) -> Seq<char> {
    error + " — leftover kubeconfig CA from a previous cluster of this name?"@
}

/// The use of a node after `kubectl top` was run once. Where the certificate of
/// the API was not accepted, the control plane is asked for a new kubeconfig.
pub open spec fn first_use(top: Result<Seq<char>, Seq<char>>, cp_ip: Option<Seq<char>>) ->
    FetchUseV {
    match top {
        Ok(line) => FetchUseV::Done(use_line(line)),
        Err(e) => if is_tls_error(e) {
            match cp_ip {
                Some(ip) => if ip.len() > 0 {
                    FetchUseV::Refresh(ip)
                } else {
                    FetchUseV::Done(use_error(stale_ca(e)))
                },
                None => FetchUseV::Done(use_error(stale_ca(e))),
            }
        } else {
            FetchUseV::Done(use_error(e))
        },
    }
}

/// The use of a node after `kubectl top` was run once; `cp_ip` is the address of
/// a control plane.
pub fn fetch_resources(top: &Result<String, String>, cp_ip: &Option<String>) -> (r: FetchUse)
    ensures
        r@ == first_use(text_result(*top), opt_text(*cp_ip)),
{
    match top {
        Ok(line) => FetchUse::Done(parse_kubectl_top(line)),
        Err(e) => {
            if !kubeconfig_tls_error(e) {
                return FetchUse::Done(ResourcesOut::err(lit(e)));
            }
            match cp_ip {
                Some(ip) => {
                    if !ip.is_empty() {
                        return FetchUse::Refresh(lit(ip));
                    }
                },
                None => {},
            }
            FetchUse::Done(
                ResourcesOut::err(
                    cat(e, " — leftover kubeconfig CA from a previous cluster of this name?"),
                ),
            )
        },
    }
}

/// The use of a node after a new kubeconfig was asked for: `again` is what
/// `kubectl top` gave with it, nothing if it was not fetched.
pub fn refreshed_resources(first_error: &str, again: &Option<Result<String, String>>) -> (r:
    ResourcesOut)
    ensures
        r@ == match *again {
            Some(Ok(line)) => use_line(line@),
            Some(Err(e)) => use_error(e@),
            None => use_error(stale_ca(first_error@)),
        },
{
    match again {
        Some(Ok(line)) => parse_kubectl_top(line),
        Some(Err(e)) => ResourcesOut::err(lit(e)),
        None => ResourcesOut::err(
            cat(first_error, " — leftover kubeconfig CA from a previous cluster of this name?"),
        ),
    }
}

// ---------------------------------------------------------------------------
// Logs
// ---------------------------------------------------------------------------

#[derive(Debug, PartialEq, Eq)]
pub struct NodeLogsOut {
    pub service: String,
    pub source: Option<String>,
    pub lines: Vec<String>,
    pub error: Option<String>,
}

#[verifier::ext_equal]
pub ghost struct NodeLogsOutV {
    pub service: Seq<char>,
    pub source: Option<Seq<char>>,
    pub lines: Seq<Seq<char>>,
    pub error: Option<Seq<char>>,
}

impl View for NodeLogsOut {
    type V = NodeLogsOutV;

    open spec fn view(&self) -> NodeLogsOutV {
        NodeLogsOutV {
            service: self.service@,
            source: opt_text(self.source),
            lines: texts(self.lines@),
            error: opt_text(self.error),
        }
    }
}

/// Logs of which only an error is known.
pub open spec fn log_error(service: Seq<char>, msg: Seq<char>) -> NodeLogsOutV {
    NodeLogsOutV { service, source: None, lines: Seq::empty(), error: Some(msg) }
}

/// The logs that could not be fetched.
pub fn logs_failed(service: &str, msg: String) -> (r: NodeLogsOut)
    ensures
        r@ == log_error(service@, msg@),
{
    NodeLogsOut { service: lit(service), source: None, lines: no_texts(), error: Some(msg) }
}

/// A service whose logs can be read.
pub open spec fn is_log_service(s: Seq<char>) -> bool {
    s == "pertiskd"@ || s == "containerd"@ || s == "kubelet"@ || s == "dmesg"@
}

/// What is to be done to read logs.
#[derive(Debug, PartialEq, Eq)]
pub enum FetchLogs {
    Done(NodeLogsOut),
    /// Run `pertiskctl` with these arguments for the service.
    Run { service: String, args: Vec<String> },
}

#[verifier::ext_equal]
pub ghost enum FetchLogsV {
    Done(NodeLogsOutV),
    Run { service: Seq<char>, args: Seq<Seq<char>> },
}

impl View for FetchLogs {
    type V = FetchLogsV;

    open spec fn view(&self) -> FetchLogsV {
        match self {
            FetchLogs::Done(o) => FetchLogsV::Done(o@),
            FetchLogs::Run { service, args } => FetchLogsV::Run {
                service: service@,
                args: texts(args@),
            },
        }
    }
}

/// The number of lines that is asked for: at least one, at most 2000.
pub open spec fn log_tail(n: nat) -> nat {
    if n < 1 {
        1
    } else if n > 2000 {
        2000
    } else {
        n
    }
}

/// Logs are read of a known service, from a node that has an address.
pub open spec fn logs_plan(service: Seq<char>, tail: nat, ip: Option<Seq<char>>) -> FetchLogsV {
    let s = lower(trim(service));
    if !is_log_service(s) {
        FetchLogsV::Done(
            log_error(s, "unknown service (want pertiskd|containerd|kubelet|dmesg)"@),
        )
    } else {
        match live_ip(ip) {
            Err(e) => FetchLogsV::Done(log_error(s, e)),
            Ok(a) => FetchLogsV::Run {
                service: s,
                args: seq!["-e"@, a + ":50000"@, "logs"@, s, "-n"@, dec(log_tail(tail))],
            },
        }
    }
}

/// What is to be done to read the last lines of a log.
pub fn fetch_logs(service: &str, tail: u32, ip: &Option<String>) -> (r: FetchLogs)
    ensures
        r@ == logs_plan(service@, tail as nat, opt_text(*ip)),
{
    let s = str_lower(&str_trim(service));
    if !str_eq(&s, "pertiskd") && !str_eq(&s, "containerd") && !str_eq(&s, "kubelet") && !str_eq(
        &s,
        "dmesg",
    ) {
        return FetchLogs::Done(
            logs_failed(&s, lit("unknown service (want pertiskd|containerd|kubelet|dmesg)")),
        );
    }
    match node_address(ip) {
        Err(e) => FetchLogs::Done(logs_failed(&s, e)),
        Ok(a) => {
            let n: u64 = if tail < 1 {
                1
            } else if tail > 2000 {
                2000
            } else {
                tail as u64
            };
            let mut args = no_texts();
            put(&mut args, "-e");
            put(&mut args, &cat(&a, ":50000"));
            put(&mut args, "logs");
            put(&mut args, &s);
            put(&mut args, "-n");
            put(&mut args, &u64_str(n));
            assert(texts(args@) =~= seq![
                "-e"@,
                a@ + ":50000"@,
                "logs"@,
                s@,
                "-n"@,
                dec(log_tail(tail as nat)),
            ]);
            FetchLogs::Run { service: s, args }
        },
    }
}

/// Where a log comes from, as a line of the tool says.
pub open spec fn source_line(line: Seq<char>, service: Seq<char>) -> Option<Seq<char>> {
    let t = trim(trim_start_char(trim(line), '#'));
    match strip_prefix(t, service + " from "@) {
        Some(s) => Some(trim(s)),
        None => if contains(t, " from "@) {
            Some(t)
        } else {
            None
        },
    }
}

/// What the first line at or after `i` that says it says of where a log comes
/// from.
pub open spec fn log_source(ls: Seq<Seq<char>>, service: Seq<char>, i: int) -> Option<Seq<char>>
    decreases ls.len() - i,
{
    if 0 <= i < ls.len() {
        match source_line(ls[i], service) {
            Some(s) => Some(s),
            None => log_source(ls, service, i + 1),
        }
    } else {
        None
    }
}

/// The lines among the first `n` that are not empty.
pub open spec fn filled_lines(ls: Seq<Seq<char>>, n: int) -> Seq<Seq<char>>
    decreases n,
{
    if 0 < n <= ls.len() {
        if ls[n - 1].len() == 0 {
            filled_lines(ls, n - 1)
        } else {
            filled_lines(ls, n - 1).push(ls[n - 1])
        }
    } else {
        Seq::empty()
    }
}

fn find_source(stderr: &str, service: &str) -> (r: Option<String>)
    ensures
        opt_text(r) == log_source(lines(stderr@), service@, 0),
{
    let ls = str_lines(stderr);
    let ghost want = lines(stderr@);
    let prefix = cat(service, " from ");
    let mut i: usize = 0;
    while i < ls.len()
        invariant
            i <= ls.len(),
            want == lines(stderr@),
            want == texts(ls@),
            prefix@ == service@ + " from "@,
            log_source(want, service@, 0) == log_source(want, service@, i as int),
        decreases ls.len() - i,
    {
        assert(want[i as int] == ls@[i as int]@);
        let t = str_trim(&str_trim_start_char(&str_trim(&ls[i]), '#'));
        match str_strip_prefix(&t, &prefix) {
            Some(s) => {
                return Some(str_trim(&s));
            },
            None => {
                if str_contains(&t, " from ") {
                    return Some(t);
                }
            },
        }
        i += 1;
    }
    assert(want.len() == ls.len());
    None
}

/// The logs that `pertiskctl` left behind; `exit` is how it ended.
pub fn logs_read(service: &str, out: &CommandOutput, exit: &str) -> (r: NodeLogsOut)
    ensures
        r@ == (if out.success {
            NodeLogsOutV {
                service: service@,
                source: log_source(lines(out.stderr@), service@, 0),
                lines: filled_lines(lines(out.stdout@), lines(out.stdout@).len() as int),
                error: None,
            }
        } else {
            log_error(
                service@,
                message_or(out.stderr@, "pertiskctl logs failed (exit "@ + exit@ + ")"@),
            )
        }),
{
    if !out.success {
        return logs_failed(
            service,
            error_text(
                &out.stderr,
                &lit("pertiskctl logs failed (exit ").concat(exit).concat(")"),
            ),
        );
    }
    let ls = str_lines(&out.stdout);
    let ghost want = lines(out.stdout@);
    let mut kept = no_texts();
    let mut i: usize = 0;
    while i < ls.len()
        invariant
            i <= ls.len(),
            want == texts(ls@),
            texts(kept@) == filled_lines(want, i as int),
        decreases ls.len() - i,
    {
        assert(want[i as int] == ls@[i as int]@);
        if !ls[i].is_empty() {
            put(&mut kept, &ls[i]);
        }
        i += 1;
    }
    assert(want.len() == ls.len());
    NodeLogsOut {
        service: lit(service),
        source: find_source(&out.stderr, service),
        lines: kept,
        error: None,
    }
}

/// A tool is run only for the logs of a known service.
pub proof fn law_logs_only_of_known_services(service: Seq<char>, tail: nat, ip: Option<Seq<char>>)
    ensures
        logs_plan(service, tail, ip) matches FetchLogsV::Run { service: s, args }
            ==> is_log_service(s) && args[3] == s,
{
}

// ---------------------------------------------------------------------------
// Requests
// ---------------------------------------------------------------------------

/// Requests by method, and all of them; no sum where it is beyond 64 bits.
#[derive(Debug, PartialEq, Eq)]
pub struct RequestCounts {
    pub by_method: Vec<(String, u64)>,
    pub total: Option<u64>,
}

/// The mathematical form of counts.
pub open spec fn counts_view(v: Seq<(String, u64)>) -> Seq<(Seq<char>, nat)> {
    Seq::new(v.len(), |i: int| (v[i].0@, v[i].1 as nat))
}

/// The place of the first count of a method, the number of counts where there is
/// none.
pub open spec fn method_place(c: Seq<(Seq<char>, nat)>, method: Seq<char>, i: int) -> int
    decreases c.len() - i,
{
    if 0 <= i < c.len() && c[i].0 != method {
        method_place(c, method, i + 1)
    } else {
        i
    }
}

/// The first `n` samples as counts: of one method the last sample counts.
pub open spec fn counted(v: Seq<(Seq<char>, nat)>, n: int) -> Seq<(Seq<char>, nat)>
    decreases n,
{
    if 0 < n <= v.len() {
        let c = counted(v, n - 1);
        let k = method_place(c, v[n - 1].0, 0);
        if k < c.len() {
            c.update(k, v[n - 1])
        } else {
            c.push(v[n - 1])
        }
    } else {
        Seq::empty()
    }
}

/// The sum of the first `n` counts.
pub open spec fn sum_of(c: Seq<(Seq<char>, nat)>, n: int) -> nat
    decreases n,
{
    if 0 < n <= c.len() {
        sum_of(c, n - 1) + c[n - 1].1
    } else {
        0
    }
}

proof fn lemma_method_place(c: Seq<(Seq<char>, nat)>, method: Seq<char>, i: int)
    requires
        0 <= i <= c.len(),
    ensures
        i <= method_place(c, method, i) <= c.len(),
        method_place(c, method, i) < c.len() ==> c[method_place(c, method, i)].0 == method,
        forall|j: int| i <= j < method_place(c, method, i) ==> (#[trigger] c[j]).0 != method,
    decreases c.len() - i,
{
    if i < c.len() && c[i].0 != method {
        lemma_method_place(c, method, i + 1);
    }
}

proof fn lemma_sum_grows(c: Seq<(Seq<char>, nat)>, n: int)
    requires
        0 <= n <= c.len(),
    ensures
        sum_of(c, n) <= sum_of(c, c.len() as int),
    decreases c.len() - n,
{
    if n < c.len() {
        lemma_sum_grows(c, n + 1);
    }
}

fn find_method(c: &Vec<(String, u64)>, method: &str) -> (r: usize)
    ensures
        r == method_place(counts_view(c@), method@, 0),
        r <= c.len(),
{
    let ghost g = counts_view(c@);
    let mut i: usize = 0;
    while i < c.len()
        invariant
            i <= c.len(),
            g == counts_view(c@),
            method_place(g, method@, 0) == method_place(g, method@, i as int),
        decreases c.len() - i,
    {
        assert(g[i as int].0 == c@[i as int].0@);
        if str_eq(&c[i].0, method) {
            return i;
        }
        i += 1;
    }
    i
}

fn sum_counts(c: &Vec<(String, u64)>) -> (r: Option<u64>)
    ensures
        r == (if sum_of(counts_view(c@), c@.len() as int) <= u64::MAX {
            Some(sum_of(counts_view(c@), c@.len() as int) as u64)
        } else {
            None::<u64>
        }),
{
    let ghost g = counts_view(c@);
    let mut sum: u64 = 0;
    let mut i: usize = 0;
    while i < c.len()
        invariant
            i <= c.len(),
            g == counts_view(c@),
            sum == sum_of(g, i as int),
        decreases c.len() - i,
    {
        assert(g[i as int].1 == c@[i as int].1);
        match sum.checked_add(c[i].1) {
            Some(n) => {
                sum = n;
            },
            None => {
                proof {
                    lemma_sum_grows(g, i + 1);
                }
                return None;
            },
        }
        i += 1;
    }
    Some(sum)
}

/// Counts requests: of one method the last sample counts.
pub fn count_requests(v: &Vec<(String, u64)>) -> (r: RequestCounts)
    ensures
        ({
            let c = counted(counts_view(v@), v@.len() as int);
            &&& counts_view(r.by_method@) == c
            &&& r.total == (if sum_of(c, c.len() as int) <= u64::MAX {
                Some(sum_of(c, c.len() as int) as u64)
            } else {
                None::<u64>
            })
        }),
{
    let ghost g = counts_view(v@);
    let mut out: Vec<(String, u64)> = Vec::new();
    assert(counts_view(out@) =~= Seq::empty());
    let mut i: usize = 0;
    while i < v.len()
        invariant
            i <= v.len(),
            g == counts_view(v@),
            counts_view(out@) == counted(g, i as int),
        decreases v.len() - i,
    {
        let ghost c = counts_view(out@);
        assert(g[i as int] == (v@[i as int].0@, v@[i as int].1 as nat));
        let k: usize = find_method(&out, &v[i].0);
        let sample = (lit(&v[i].0), v[i].1);
        if k < out.len() {
            out.set(k, sample);
            assert(counts_view(out@) =~= c.update(k as int, g[i as int]));
        } else {
            out.push(sample);
            assert(counts_view(out@) =~= c.push(g[i as int]));
        }
        i += 1;
    }
    let total = sum_counts(&out);
    RequestCounts { by_method: out, total }
}

/// No method is counted twice.
pub proof fn law_each_method_counts_once(v: Seq<(Seq<char>, nat)>, n: int)
    requires
        0 <= n <= v.len(),
    ensures
        forall|i: int, j: int|
            0 <= i < j < counted(v, n).len() ==> (#[trigger] counted(v, n)[i]).0 != (
            #[trigger] counted(v, n)[j]).0,
    decreases n,
{
    if n > 0 {
        law_each_method_counts_once(v, n - 1);
        lemma_method_place(counted(v, n - 1), v[n - 1].0, 0);
    }
}

/// The fields of a line of health: a word `name=value` sets its field, and the
/// last one counts; other words set nothing.
pub proof fn law_fields_of_health(w: Seq<Seq<char>>, n: int, k: Seq<char>, v: Seq<char>)
    requires
        0 < n <= w.len(),
        split_once(w[n - 1], "="@) == Some((k, v)),
    ensures
        ({
            let h = health_fields(w, n);
            let b = health_fields(w, n - 1);
            &&& k == "ready"@ ==> h.ready == Some(v == "true"@ || v == "1"@)
            &&& k != "ready"@ ==> h.ready == b.ready
            &&& k == "kubelet"@ ==> h.kubelet == Some(v)
            &&& k != "kubelet"@ ==> h.kubelet == b.kubelet
            &&& k == "containerd"@ ==> h.containerd == Some(v)
            &&& k != "containerd"@ ==> h.containerd == b.containerd
        }),
{
    reveal_strlit("ready");
    reveal_strlit("kubelet");
    reveal_strlit("containerd");
    assert("ready"@.len() == 5);
    assert("kubelet"@.len() == 7);
    assert("containerd"@.len() == 10);
}

/// A line of health has no error exactly where it sets a field; its remark is what
/// stands behind the dash.
pub proof fn law_line_of_health(line: Seq<char>)
    ensures
        ({
            let (main, remark) = health_parts(line);
            let f = health_fields(words(main), words(main).len() as int);
            let h = health_line(line);
            let any = f.ready is Some || f.kubelet is Some || f.containerd is Some;
            &&& any ==> h.error is None && h.message == remark && h.ready == f.ready && h.kubelet
                == f.kubelet && h.containerd == f.containerd
            &&& !any ==> h.error is Some && h.ready is None
        }),
{
    let (main, _) = health_parts(line);
    lemma_no_error(words(main), words(main).len() as int);
}

proof fn lemma_no_error(w: Seq<Seq<char>>, n: int)
    ensures
        health_fields(w, n).error is None,
    decreases n,
{
    if 0 < n <= w.len() {
        lemma_no_error(w, n - 1);
    }
}

/// The logs of a service are asked of the node's address: at least one line and at
/// most two thousand, and as many as were asked for between these.
pub proof fn law_logs_that_are_asked_for(service: Seq<char>, tail: nat, ip: Seq<char>)
    requires
        trim(ip).len() > 0,
    ensures
        ({
            let s = lower(trim(service));
            let known = s == "pertiskd"@ || s == "containerd"@ || s == "kubelet"@ || s == "dmesg"@;
            let p = logs_plan(service, tail, Some(ip));
            &&& known <==> p is Run
            &&& known ==> p->args == seq![
                "-e"@,
                trim(ip) + ":50000"@,
                "logs"@,
                s,
                "-n"@,
                dec(
                    if tail < 1 {
                        1
                    } else if tail > 2000 {
                        2000
                    } else {
                        tail
                    },
                ),
            ]
            &&& logs_plan(service, tail, None) is Done
        }),
{
}

/// Use of a node: a line that can be read is shown; an error about certificates
/// makes a new kubeconfig be fetched where there is a control plane to ask; any
/// other error is shown.
pub proof fn law_use_of_a_node(line: Seq<char>, e: Seq<char>, ip: Seq<char>)
    ensures
        first_use(Ok(line), Some(ip)) == FetchUseV::Done(use_line(line)),
        is_tls_error(e) && ip.len() > 0 ==> first_use(Err(e), Some(ip)) == FetchUseV::Refresh(ip),
        is_tls_error(e) ==> first_use(Err(e), None) is Done,
        !is_tls_error(e) ==> first_use(Err(e), Some(ip)) == FetchUseV::Done(use_error(e)),
        words(line).len() >= 5 ==> {
            let u = use_line(line);
            &&& u.cpu == Some(words(line)[1]) && u.memory == Some(words(line)[3])
            &&& u.cpu_percent == Some(trim_end_char(words(line)[2], '%'))
            &&& u.memory_percent == Some(trim_end_char(words(line)[4], '%'))
            &&& u.error is None
        },
        words(line).len() < 5 ==> use_line(line).error is Some,
{
}

/// What is measured goes by its name.
pub proof fn law_names_of_measures(labels: Seq<char>, m: Seq<char>)
    ensures
        metric_of("pertisk_api_request_duration_seconds_sum"@, labels) == Some(
            MetricV::DurationSum,
        ),
        metric_of("pertisk_api_request_duration_seconds_count"@, labels) == Some(
            MetricV::DurationCount,
        ),
        metric_of("pertisk_kubelet_up"@, labels) == Some(MetricV::Gauge("pertisk_kubelet_up"@)),
        metric_of("pertisk_node_ready"@, labels) == Some(MetricV::Gauge("pertisk_node_ready"@)),
        label_of(labels, "method"@) == Some(m) && m.len() > 0 ==> metric_of(
            "pertisk_api_requests_total"@,
            labels,
        ) == Some(MetricV::Requests(m)),
        label_of(labels, "method"@) is None ==> metric_of("pertisk_api_requests_total"@, labels)
            is None,
{
    reveal_strlit("pertisk_api_request_duration_seconds_sum");
    reveal_strlit("pertisk_api_request_duration_seconds_count");
    reveal_strlit("pertisk_kubelet_up");
    reveal_strlit("pertisk_node_ready");
    reveal_strlit("pertisk_api_requests_total");
    assert("pertisk_api_request_duration_seconds_sum"@.len() == 40);
    assert("pertisk_api_request_duration_seconds_count"@.len() == 42);
    assert("pertisk_kubelet_up"@.len() == 18);
    assert("pertisk_node_ready"@.len() == 18);
    assert("pertisk_api_requests_total"@.len() == 26);
    assert("pertisk_kubelet_up"@[8] == 'k' && "pertisk_node_ready"@[8] == 'n');
}

/// The lines of a log that are shown are those that hold anything.
pub proof fn law_lines_that_are_kept(ls: Seq<Seq<char>>, n: int, k: int)
    requires
        0 <= n <= ls.len(),
    ensures
        0 <= k < n && (ls[k].len() > 0) ==> filled_lines(ls, n).contains(ls[k]),
        0 <= k < filled_lines(ls, n).len() ==> exists|i: int|
            #![trigger ls[i]]
            0 <= i < n && (ls[i].len() > 0) && filled_lines(ls, n)[k] == ls[i],
    decreases n,
{
    if n > 0 {
        law_lines_that_are_kept(ls, n - 1, k);
        let b = filled_lines(ls, n - 1);
        let r = filled_lines(ls, n);
        if r.len() > b.len() {
            assert(r[r.len() - 1] == ls[n - 1]);
        }
        if 0 <= k < n - 1 && b.contains(ls[k]) {
            let i = choose|i: int| 0 <= i < b.len() && b[i] == ls[k];
            assert(r[i] == b[i]);
        }
        if 0 <= k < r.len() && k < b.len() {
            assert(r[k] == b[k]);
        }
    }
}

/// The samples of a page are those of its lines that give one.
pub proof fn law_measures_that_are_read(ls: Seq<Seq<char>>, n: int, k: int)
    requires
        0 <= n <= ls.len(),
    ensures
        0 <= k < n && (sample_line(ls[k]) is Some) ==> samples(ls, n).contains(sample_line(ls[k])->0),
        0 <= k < samples(ls, n).len() ==> exists|i: int|
            #![trigger ls[i]]
            0 <= i < n && (sample_line(ls[i]) is Some) && samples(ls, n)[k] == sample_line(ls[i])->0,
    decreases n,
{
    if n > 0 {
        law_measures_that_are_read(ls, n - 1, k);
        let b = samples(ls, n - 1);
        let r = samples(ls, n);
        if r.len() > b.len() {
            assert(r[r.len() - 1] == sample_line(ls[n - 1])->0);
        }
        if 0 <= k < n - 1 && b.contains(sample_line(ls[k])->0) {
            let i = choose|i: int| 0 <= i < b.len() && b[i] == sample_line(ls[k])->0;
            assert(r[i] == b[i]);
        }
        if 0 <= k < r.len() && k < b.len() {
            assert(r[k] == b[k]);
        }
    }
}

/// The total of the requests is the sum over the methods.
pub proof fn law_requests_add_up(c: Seq<(Seq<char>, nat)>, m: Seq<char>, x: nat)
    ensures
        sum_of(c.push((m, x)), c.len() as int + 1) == sum_of(c, c.len() as int) + x,
{
    lemma_sum_prefix(c.push((m, x)), c, c.len() as int);
}

proof fn lemma_sum_prefix(a: Seq<(Seq<char>, nat)>, b: Seq<(Seq<char>, nat)>, n: int)
    requires
        0 <= n <= a.len(),
        n <= b.len(),
        forall|i: int| 0 <= i < n ==> a[i] == b[i],
    ensures
        sum_of(a, n) == sum_of(b, n),
    decreases n,
{
    if n > 0 {
        lemma_sum_prefix(a, b, n - 1);
    }
}

} // verus!
