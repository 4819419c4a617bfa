//! Addresses and versions of nodes, from `kubectl`, from job logs, from the nodes
//! and from the hypervisor.
use crate::ip::{ip_addr, ipv4, ipv6, parse_ip, parse_v4, parse_v6};
use crate::json::{
    Json, JsonV, is_text, item_at, items_in, items_len, opt_view, str_in, str_of, str_or, text_or,
};
use crate::text::{
    again, cat, contains, first_word, lemma_trim_ends, lemma_trimmed, lines, lit, lower, opt_eq,
    opt_str, opt_text, skip_char, starts_with, str_contains, str_eq, str_first_word, str_has_char,
    str_lines, str_lower, str_starts, str_strip_prefix, str_trim, str_trim_parens,
    str_trim_start_char, str_words, strip_prefix, texts, trim, trim_parens, trim_start_char, words,
};
use vstd::prelude::*;
use vstd::string::*;

verus! {

/// The addresses of a cluster are not looked for again within this time, in
/// milliseconds.
pub const REDISCOVER_TTL_MS: u64 = 60_000;

/// A kubelet is not started again within this time, in milliseconds.
pub const KUBELET_HEAL_TTL_MS: u64 = 90_000;

/// What is known of a node.
#[derive(Debug, PartialEq, Eq)]
pub struct NodeSnapshot {
    pub ip: Option<String>,
    pub ip6: Option<String>,
    pub k8s_version: Option<String>,
    pub kernel_version: Option<String>,
    pub container_runtime: Option<String>,
    pub kubelet_status: Option<String>,
    pub os_version: Option<String>,
}

#[verifier::ext_equal]
pub ghost struct NodeSnapshotV {
    pub ip: Option<Seq<char>>,
    pub ip6: Option<Seq<char>>,
    pub k8s_version: Option<Seq<char>>,
    pub kernel_version: Option<Seq<char>>,
    pub container_runtime: Option<Seq<char>>,
    pub kubelet_status: Option<Seq<char>>,
    pub os_version: Option<Seq<char>>,
}

impl View for NodeSnapshot {
    type V = NodeSnapshotV;

    open spec fn view(&self) -> NodeSnapshotV {
        NodeSnapshotV {
            ip: opt_text(self.ip),
            ip6: opt_text(self.ip6),
            k8s_version: opt_text(self.k8s_version),
            kernel_version: opt_text(self.kernel_version),
            container_runtime: opt_text(self.container_runtime),
            kubelet_status: opt_text(self.kubelet_status),
            os_version: opt_text(self.os_version),
        }
    }
}

/// Nothing is known of a node.
pub open spec fn nothing_known() -> NodeSnapshotV {
    NodeSnapshotV {
        ip: None,
        ip6: None,
        k8s_version: None,
        kernel_version: None,
        container_runtime: None,
        kubelet_status: None,
        os_version: None,
    }
}

impl Default for NodeSnapshot {
    fn default() -> (r: NodeSnapshot)
        ensures
            r@ == nothing_known(),
    {
        NodeSnapshot {
            ip: None,
            ip6: None,
            k8s_version: None,
            kernel_version: None,
            container_runtime: None,
            kubelet_status: None,
            os_version: None,
        }
    }
}

/// Names and what is known of the nodes.
pub open spec fn row_views(v: Seq<(String, NodeSnapshot)>) -> Seq<(Seq<char>, NodeSnapshotV)> {
    Seq::new(v.len(), |i: int| (v[i].0@, v[i].1@))
}

fn push_row(v: &mut Vec<(String, NodeSnapshot)>, name: String, snap: NodeSnapshot)
    ensures
        row_views(final(v)@) == row_views(old(v)@).push((name@, snap@)),
{
    let ghost before = v@;
    let ghost pair = (name@, snap@);
    v.push((name, snap));
    assert(row_views(v@) =~= row_views(before).push(pair));
}

// ---------------------------------------------------------------------------
// Versions
// ---------------------------------------------------------------------------

/// The version of a seed image, which says nothing of what runs.
pub open spec fn is_placeholder(v: Option<Seq<char>>) -> bool {
    match v {
        Some(s) => trim(s).len() == 0 || trim(s) == "0.1.0"@ || trim(s) == "v0.1.0"@,
        None => true,
    }
}

pub fn is_placeholder_os_version(v: Option<&str>) -> (r: bool)
    ensures
        r == is_placeholder(opt_str(v)),
{
    match v {
        Some(s) => {
            let t = str_trim(s);
            t.is_empty() || str_eq(&t, "0.1.0") || str_eq(&t, "v0.1.0")
        },
        None => true,
    }
}

/// Whether the stored version of a node is to be replaced by the one that it
/// gave.
pub fn os_version_changed(current: &Option<String>, given: &Option<String>) -> (r: bool)
    ensures
        r == (given is Some && given->0@.len() > 0 && opt_text(*current) != opt_text(*given)),
{
    match given {
        Some(v) => !v.is_empty() && !opt_eq(current, v),
        None => false,
    }
}

/// The version in a line of `pertiskctl version` that speaks of the node.
pub open spec fn version_line(raw: Seq<char>) -> Option<Seq<char>> {
    match strip_prefix(trim(raw), "node "@) {
        Some(rest) => if starts_with(rest, "unreachable"@) || first_word(rest).len() == 0 {
            None
        } else {
            Some(first_word(rest))
        },
        None => None,
    }
}

/// The version in the first line at or after `i` that has one.
pub open spec fn version_in(ls: Seq<Seq<char>>, i: int) -> Option<Seq<char>>
    decreases ls.len() - i,
{
    if 0 <= i < ls.len() {
        match version_line(ls[i]) {
            Some(v) => Some(v),
            None => version_in(ls, i + 1),
        }
    } else {
        None
    }
}

/// The version of a node, from what `pertiskctl version` printed.
pub fn parse_pertiskctl_node_version(stdout: &str) -> (r: Option<String>)
    ensures
        opt_text(r) == version_in(lines(stdout@), 0),
{
    let ls = str_lines(stdout);
    let ghost want = lines(stdout@);
    let mut i: usize = 0;
    while i < ls.len()
        invariant
            i <= ls.len(),
            want == lines(stdout@),
            want == texts(ls@),
            version_in(want, 0) == version_in(want, i as int),
        decreases ls.len() - i,
    {
        assert(want[i as int] == ls@[i as int]@);
        match str_strip_prefix(&str_trim(&ls[i]), "node ") {
            Some(rest) => {
                let ver = str_first_word(&rest);
                if !str_starts(&rest, "unreachable") && !ver.is_empty() {
                    return Some(ver);
                }
            },
            None => {},
        }
        i += 1;
    }
    assert(want.len() == ls.len());
    None
}

/// The host name in the first part at or after `i` that has one.
pub open spec fn host_part(w: Seq<Seq<char>>, i: int) -> Option<Seq<char>>
    decreases w.len() - i,
{
    if 0 <= i < w.len() {
        match strip_prefix(w[i], "hostname="@) {
            Some(h) => if trim_parens(h).len() > 0 {
                Some(trim_parens(h))
            } else {
                host_part(w, i + 1)
            },
            None => host_part(w, i + 1),
        }
    } else {
        None
    }
}

/// The host name in a line of `pertiskctl version` that speaks of the node.
pub open spec fn host_line(raw: Seq<char>) -> Option<Seq<char>> {
    match strip_prefix(trim(raw), "node "@) {
        Some(rest) => host_part(words(rest), 0),
        None => None,
    }
}

/// The host name in the first line at or after `i` that has one.
pub open spec fn hostname_in(ls: Seq<Seq<char>>, i: int) -> Option<Seq<char>>
    decreases ls.len() - i,
{
    if 0 <= i < ls.len() {
        match host_line(ls[i]) {
            Some(v) => Some(v),
            None => hostname_in(ls, i + 1),
        }
    } else {
        None
    }
}

fn find_host(rest: &str) -> (r: Option<String>)
    ensures
        opt_text(r) == host_part(words(rest@), 0),
{
    let w = str_words(rest);
    let ghost want = words(rest@);
    let mut i: usize = 0;
    while i < w.len()
        invariant
            i <= w.len(),
            want == words(rest@),
            want == texts(w@),
            host_part(want, 0) == host_part(want, i as int),
        decreases w.len() - i,
    {
        assert(want[i as int] == w@[i as int]@);
        match str_strip_prefix(&w[i], "hostname=") {
            Some(h) => {
                let host = str_trim_parens(&h);
                if !host.is_empty() {
                    return Some(host);
                }
            },
            None => {},
        }
        i += 1;
    }
    assert(want.len() == w.len());
    None
}

/// The host name of a node, from what `pertiskctl version` printed.
pub fn parse_pertiskctl_hostname(stdout: &str) -> (r: Option<String>)
    ensures
        opt_text(r) == hostname_in(lines(stdout@), 0),
{
    let ls = str_lines(stdout);
    let ghost want = lines(stdout@);
    let mut i: usize = 0;
    while i < ls.len()
        invariant
            i <= ls.len(),
            want == lines(stdout@),
            want == texts(ls@),
            hostname_in(want, 0) == hostname_in(want, i as int),
        decreases ls.len() - i,
    {
        assert(want[i as int] == ls@[i as int]@);
        match str_strip_prefix(&str_trim(&ls[i]), "node ") {
            Some(rest) => {
                match find_host(&rest) {
                    Some(h) => {
                        return Some(h);
                    },
                    None => {},
                }
            },
            None => {},
        }
        i += 1;
    }
    assert(want.len() == ls.len());
    None
}

/// The trimmed text, where it is not blank.
pub open spec fn unblanked(s: Seq<char>) -> Option<Seq<char>> {
    if trim(s).len() == 0 {
        None
    } else {
        Some(trim(s))
    }
}

fn trimmed(s: &str) -> (r: Option<String>)
    ensures
        opt_text(r) == unblanked(s@),
{
    let t = str_trim(s);
    if t.is_empty() {
        None
    } else {
        Some(t)
    }
}

/// The version in the name of an operating system: of `pertisk-kos 0.2.87` the
/// number, of another name all of it.
pub open spec fn os_image(raw: Seq<char>) -> Option<Seq<char>> {
    let s = trim(raw);
    match strip_prefix(s, "pertisk-kos"@) {
        Some(rest) => unblanked(trim_start_char(trim(rest), '/')),
        None => unblanked(s),
    }
}

pub fn parse_os_image(raw: &str) -> (r: Option<String>)
    ensures
        opt_text(r) == os_image(raw@),
{
    let s = str_trim(raw);
    match str_strip_prefix(&s, "pertisk-kos") {
        Some(rest) => trimmed(&str_trim_start_char(&str_trim(&rest), '/')),
        None => trimmed(&s),
    }
}

/// The version of a container runtime: of `containerd://2.3.4` the number, of
/// another runtime all of it.
pub open spec fn runtime_version(raw: Seq<char>) -> Option<Seq<char>> {
    let s = trim(raw);
    match strip_prefix(s, "containerd://"@) {
        Some(v) => unblanked(v),
        None => unblanked(s),
    }
}

pub fn parse_container_runtime(raw: &str) -> (r: Option<String>)
    ensures
        opt_text(r) == runtime_version(raw@),
{
    let s = str_trim(raw);
    match str_strip_prefix(&s, "containerd://") {
        Some(v) => trimmed(&v),
        None => trimmed(&s),
    }
}

// ---------------------------------------------------------------------------
// Nodes as kubectl shows them
// ---------------------------------------------------------------------------

/// The addresses among the first `n` that are internal: the first IPv4 and the
/// first IPv6 one.
pub open spec fn internal_ips(s: Seq<JsonV>, n: int) -> (Option<Seq<char>>, Option<Seq<char>>)
    decreases n,
{
    if 0 < n <= s.len() {
        let (v4, v6) = internal_ips(s, n - 1);
        let ty = text_or(str_in(s[n - 1].get("type"@)), ""@);
        let ip = text_or(str_in(s[n - 1].get("address"@)), ""@);
        if ty == "InternalIP"@ && ip.len() > 0 && parse_ip(ip) is Some {
            if ip.contains(':') {
                (
                    v4,
                    if v6 is Some {
                        v6
                    } else {
                        Some(ip)
                    },
                )
            } else {
                (
                    if v4 is Some {
                        v4
                    } else {
                        Some(ip)
                    },
                    v6,
                )
            }
        } else {
            (v4, v6)
        }
    } else {
        (None, None)
    }
}

/// What the conditions among the first `n` say of the kubelet.
pub open spec fn readiness(s: Seq<JsonV>, n: int) -> Option<Seq<char>>
    decreases n,
{
    if 0 < n <= s.len() {
        if str_in(s[n - 1].get("type"@)) == Some("Ready"@) {
            Some(
                if str_in(s[n - 1].get("status"@)) == Some("True"@) {
                    "ready"@
                } else {
                    "not_ready"@
                },
            )
        } else {
            readiness(s, n - 1)
        }
    } else {
        None
    }
}

/// A field of what a node says of itself.
pub open spec fn node_info(j: JsonV, key: Seq<char>) -> Option<Seq<char>> {
    str_in(j.get3("status"@, "nodeInfo"@, key))
}

/// What an object says of a node.
pub open spec fn node_snapshot(j: JsonV) -> NodeSnapshotV {
    let addrs = items_in(j.get2("status"@, "addresses"@));
    let conds = items_in(j.get2("status"@, "conditions"@));
    let (ip, ip6) = internal_ips(addrs, addrs.len() as int);
    NodeSnapshotV {
        ip,
        ip6,
        k8s_version: match node_info(j, "kubeletVersion"@) {
            Some(v) => unblanked(v),
            None => None,
        },
        kernel_version: match node_info(j, "kernelVersion"@) {
            Some(v) => unblanked(v),
            None => None,
        },
        container_runtime: match node_info(j, "containerRuntimeVersion"@) {
            Some(v) => runtime_version(v),
            None => None,
        },
        kubelet_status: readiness(conds, conds.len() as int),
        os_version: match node_info(j, "osImage"@) {
            Some(v) => os_image(v),
            None => None,
        },
    }
}

/// The nodes among the first `n` objects. One without a name is none.
pub open spec fn node_rows(s: Seq<JsonV>, n: int) -> Seq<(Seq<char>, NodeSnapshotV)>
    decreases n,
{
    if 0 < n <= s.len() {
        let name = text_or(str_in(s[n - 1].get2("metadata"@, "name"@)), ""@);
        if name.len() == 0 {
            node_rows(s, n - 1)
        } else {
            node_rows(s, n - 1).push((name, node_snapshot(s[n - 1])))
        }
    } else {
        Seq::empty()
    }
}

/// The mathematical forms of two optional texts.
pub open spec fn two_texts(p: (Option<String>, Option<String>)) -> (
    Option<Seq<char>>,
    Option<Seq<char>>,
) {
    (opt_text(p.0), opt_text(p.1))
}

fn read_ips(o: Option<&Json>) -> (r: (Option<String>, Option<String>))
    ensures
        two_texts(r) == internal_ips(items_in(opt_view(o)), items_in(opt_view(o)).len() as int),
{
    let ghost s = items_in(opt_view(o));
    let n = items_len(o);
    let mut v4: Option<String> = None;
    let mut v6: Option<String> = None;
    let mut i: usize = 0;
    while i < n
        invariant
            i <= n,
            s == items_in(opt_view(o)),
            n == s.len(),
            (opt_text(v4), opt_text(v6)) == internal_ips(s, i as int),
        decreases n - i,
    {
        let a = item_at(o, i);
        let ip = str_or(a.get("address"), "");
        if str_eq(&str_or(a.get("type"), ""), "InternalIP") && !ip.is_empty() && ip_addr(
            &ip,
        ).is_some() {
            if str_has_char(&ip, ':') {
                if v6.is_none() {
                    v6 = Some(ip);
                }
            } else if v4.is_none() {
                v4 = Some(ip);
            }
        }
        i += 1;
    }
    (v4, v6)
}

fn read_readiness(o: Option<&Json>) -> (r: Option<String>)
    ensures
        opt_text(r) == readiness(items_in(opt_view(o)), items_in(opt_view(o)).len() as int),
{
    let ghost s = items_in(opt_view(o));
    let n = items_len(o);
    let mut out: Option<String> = None;
    let mut i: usize = 0;
    while i < n
        invariant
            i <= n,
            s == items_in(opt_view(o)),
            n == s.len(),
            opt_text(out) == readiness(s, i as int),
        decreases n - i,
    {
        let c = item_at(o, i);
        if is_text(c.get("type"), "Ready") {
            out = Some(
                if is_text(c.get("status"), "True") {
                    lit("ready")
                } else {
                    lit("not_ready")
                },
            );
        }
        i += 1;
    }
    out
}

fn read_node(j: &Json) -> (r: NodeSnapshot)
    ensures
        r@ == node_snapshot(j@),
{
    let (ip, ip6) = read_ips(j.get2("status", "addresses"));
    NodeSnapshot {
        ip,
        ip6,
        k8s_version: match str_of(j.get3("status", "nodeInfo", "kubeletVersion")) {
            Some(v) => trimmed(&v),
            None => None,
        },
        kernel_version: match str_of(j.get3("status", "nodeInfo", "kernelVersion")) {
            Some(v) => trimmed(&v),
            None => None,
        },
        container_runtime: match str_of(j.get3("status", "nodeInfo", "containerRuntimeVersion")) {
            Some(v) => parse_container_runtime(&v),
            None => None,
        },
        kubelet_status: read_readiness(j.get2("status", "conditions")),
        os_version: match str_of(j.get3("status", "nodeInfo", "osImage")) {
            Some(v) => parse_os_image(&v),
            None => None,
        },
    }
}

/// The nodes in the list that `kubectl get nodes` printed.
pub fn nodes_from_kubectl(list: &Json) -> (r: Result<Vec<(String, NodeSnapshot)>, String>)
    ensures
        ({
            let o = list@.get("items"@);
            let is_list = o is Some && o->0.as_arr() is Some;
            &&& r is Ok == is_list
            &&& match r {
                Ok(v) => row_views(v@) == node_rows(items_in(o), items_in(o).len() as int),
                Err(e) => e@ == "kubectl nodes json missing items"@,
            }
        }),
{
    let o = list.get("items");
    let is_list = match o {
        Some(j) => match j {
            Json::Arr(_) => true,
            _ => false,
        },
        None => false,
    };
    if !is_list {
        return Err(lit("kubectl nodes json missing items"));
    }
    let ghost s = items_in(opt_view(o));
    let n = items_len(o);
    let mut rows: Vec<(String, NodeSnapshot)> = Vec::new();
    assert(row_views(rows@) =~= Seq::empty());
    let mut i: usize = 0;
    while i < n
        invariant
            i <= n,
            s == items_in(opt_view(o)),
            n == s.len(),
            row_views(rows@) == node_rows(s, i as int),
        decreases n - i,
    {
        let item = item_at(o, i);
        let name = str_or(item.get2("metadata", "name"), "");
        if !name.is_empty() {
            push_row(&mut rows, name, read_node(item));
        }
        i += 1;
    }
    Ok(rows)
}

// ---------------------------------------------------------------------------
// Nodes as a job log shows them
// ---------------------------------------------------------------------------

/// The first word at or after `i` that looks like a version.
pub open spec fn version_word(w: Seq<Seq<char>>, i: int) -> Option<Seq<char>>
    decreases w.len() - i,
{
    if 0 <= i < w.len() {
        if starts_with(w[i], "v"@) && contains(w[i], "."@) {
            Some(w[i])
        } else {
            version_word(w, i + 1)
        }
    } else {
        None
    }
}

/// The first word at or after `i` that is an IPv4 address.
pub open spec fn v4_word(w: Seq<Seq<char>>, i: int) -> Option<Seq<char>>
    decreases w.len() - i,
{
    if 0 <= i < w.len() {
        if parse_v4(w[i]) is Some {
            Some(w[i])
        } else {
            v4_word(w, i + 1)
        }
    } else {
        None
    }
}

/// The first word at or after `i` that is an IPv6 address.
pub open spec fn v6_word(w: Seq<Seq<char>>, i: int) -> Option<Seq<char>>
    decreases w.len() - i,
{
    if 0 <= i < w.len() {
        if w[i] != "<none>"@ && parse_v6(w[i]) is Some {
            Some(w[i])
        } else {
            v6_word(w, i + 1)
        }
    } else {
        None
    }
}

/// The node in a line of the wide table: name, status, roles, age, version,
/// internal address and more.
pub open spec fn wide_line(line: Seq<char>) -> Option<(Seq<char>, NodeSnapshotV)> {
    let w = words(line);
    if w.len() < 6 || !w[0].contains('-') {
        None
    } else {
        Some(
            (
                w[0],
                NodeSnapshotV {
                    ip: v4_word(w, 0),
                    ip6: v6_word(w, 0),
                    k8s_version: version_word(w, 0),
                    kubelet_status: Some(lower(w[1])),
                    ..nothing_known()
                },
            ),
        )
    }
}

fn find_words(w: &Vec<String>) -> (r: (Option<String>, Option<String>, Option<String>))
    ensures
        opt_text(r.0) == v4_word(texts(w@), 0),
        opt_text(r.1) == v6_word(texts(w@), 0),
        opt_text(r.2) == version_word(texts(w@), 0),
{
    let ghost t = texts(w@);
    let mut v4: Option<String> = None;
    let mut v6: Option<String> = None;
    let mut ver: Option<String> = None;
    let mut i: usize = 0;
    while i < w.len()
        invariant
            i <= w.len(),
            t == texts(w@),
            v4_word(t, 0) == (if v4 is Some {
                opt_text(v4)
            } else {
                v4_word(t, i as int)
            }),
            v6_word(t, 0) == (if v6 is Some {
                opt_text(v6)
            } else {
                v6_word(t, i as int)
            }),
            version_word(t, 0) == (if ver is Some {
                opt_text(ver)
            } else {
                version_word(t, i as int)
            }),
        decreases w.len() - i,
    {
        assert(t[i as int] == w@[i as int]@);
        if v4.is_none() && ipv4(&w[i]).is_some() {
            v4 = Some(lit(&w[i]));
        }
        if v6.is_none() && !str_eq(&w[i], "<none>") && ipv6(&w[i]).is_some() {
            v6 = Some(lit(&w[i]));
        }
        if ver.is_none() && str_starts(&w[i], "v") && str_contains(&w[i], ".") {
            ver = Some(lit(&w[i]));
        }
        i += 1;
    }
    (v4, v6, ver)
}

/// The mathematical form of an optional node.
pub open spec fn opt_node(o: Option<(String, NodeSnapshot)>) -> Option<
    (Seq<char>, NodeSnapshotV),
> {
    match o {
        Some(p) => Some((p.0@, p.1@)),
        None => None,
    }
}

pub fn parse_wide_line(line: &str) -> (r: Option<(String, NodeSnapshot)>)
    ensures
        opt_node(r) == wide_line(line@),
{
    let w = str_words(line);
    let ghost t = texts(w@);
    assert(t.len() == w.len());
    if w.len() < 6 {
        return None;
    }
    assert(t[0] == w@[0]@ && t[1] == w@[1]@);
    if !str_has_char(&w[0], '-') {
        return None;
    }
    let (ip, ip6, k8s_version) = find_words(&w);
    Some(
        (
            lit(&w[0]),
            NodeSnapshot {
                ip,
                ip6,
                k8s_version,
                kernel_version: None,
                container_runtime: None,
                kubelet_status: Some(str_lower(&w[1])),
                os_version: None,
            },
        ),
    )
}

/// The line heads a table of nodes.
pub open spec fn is_heading(t: Seq<char>) -> bool {
    starts_with(t, "NAME "@) && contains(t, "INTERNAL-IP"@)
}

/// The line ends a table of nodes.
pub open spec fn ends_table(t: Seq<char>) -> bool {
    t.len() == 0 || starts_with(t, "==>"@) || starts_with(t, "kubectl "@)
}

/// After the first `n` lines: whether a table is open, and the nodes of all
/// tables.
pub open spec fn wide_rows(ls: Seq<Seq<char>>, n: int) -> (bool, Seq<(Seq<char>, NodeSnapshotV)>)
    decreases n,
{
    if 0 < n <= ls.len() {
        let (open, rows) = wide_rows(ls, n - 1);
        let t = trim(ls[n - 1]);
        if is_heading(t) {
            (true, rows)
        } else if !open || ends_table(t) {
            (false, rows)
        } else {
            match wide_line(t) {
                Some(p) => (true, rows.push(p)),
                None => (true, rows),
            }
        }
    } else {
        (false, Seq::empty())
    }
}

/// The nodes in the wide tables of a job log.
pub fn parse_kubectl_wide_from_log(log: &str) -> (r: Vec<(String, NodeSnapshot)>)
    ensures
        row_views(r@) == wide_rows(lines(log@), lines(log@).len() as int).1,
{
    let ls = str_lines(log);
    let ghost want = lines(log@);
    let mut rows: Vec<(String, NodeSnapshot)> = Vec::new();
    assert(row_views(rows@) =~= Seq::empty());
    let mut open = false;
    let mut i: usize = 0;
    while i < ls.len()
        invariant
            i <= ls.len(),
            want == texts(ls@),
            (open, row_views(rows@)) == wide_rows(want, i as int),
        decreases ls.len() - i,
    {
        assert(want[i as int] == ls@[i as int]@);
        let t = str_trim(&ls[i]);
        if str_starts(&t, "NAME ") && str_contains(&t, "INTERNAL-IP") {
            open = true;
        } else if open {
            if t.is_empty() || str_starts(&t, "==>") || str_starts(&t, "kubectl ") {
                open = false;
            } else {
                match parse_wide_line(&t) {
                    Some((name, snap)) => push_row(&mut rows, name, snap),
                    None => {},
                }
            }
        }
        i += 1;
    }
    assert(want.len() == ls.len());
    rows
}

/// The nodes to store: those that `kubectl` gave, or where it gave none those of
/// the job log.
pub fn nodes_to_store(kubectl: Vec<(String, NodeSnapshot)>, log: Option<&str>) -> (r: Vec<
    (String, NodeSnapshot),
>)
    ensures
        row_views(r@) == (if kubectl@.len() > 0 || log is None {
            row_views(kubectl@)
        } else {
            wide_rows(lines(log->0@), lines(log->0@).len() as int).1
        }),
{
    if kubectl.len() > 0 {
        return kubectl;
    }
    match log {
        Some(l) => parse_kubectl_wide_from_log(l),
        None => kubectl,
    }
}

// ---------------------------------------------------------------------------
// Waiting for addresses
// ---------------------------------------------------------------------------

/// How the wait for the addresses of a node goes on.
#[derive(Debug, PartialEq, Eq)]
pub enum AddressWait {
    Done(NodeSnapshot),
    /// Ask again; what is known so far.
    Again(NodeSnapshot),
    Failed(String),
}

#[verifier::ext_equal]
pub ghost enum AddressWaitV {
    Done(NodeSnapshotV),
    Again(NodeSnapshotV),
    Failed(Seq<char>),
}

impl View for AddressWait {
    type V = AddressWaitV;

    open spec fn view(&self) -> AddressWaitV {
        match self {
            AddressWait::Done(s) => AddressWaitV::Done(s@),
            AddressWait::Again(s) => AddressWaitV::Again(s@),
            AddressWait::Failed(e) => AddressWaitV::Failed(e@),
        }
    }
}

/// The first node at or after `i` with the name; the number of nodes if none has
/// it.
pub open spec fn node_named(
    rows: Seq<(Seq<char>, NodeSnapshotV)>,
    name: Seq<char>,
    i: int,
) -> int
    decreases rows.len() - i,
{
    if 0 <= i < rows.len() && rows[i].0 != name {
        node_named(rows, name, i + 1)
    } else {
        i
    }
}

/// The text is there and not empty.
pub open spec fn has_text_in(o: Option<Seq<char>>) -> bool {
    o is Some && o->0.len() > 0
}

/// The node has an address, and an IPv6 one if that is wanted.
pub open spec fn is_addressed(s: NodeSnapshotV, want_ip6: bool) -> bool {
    (has_text_in(s.ip) || has_text_in(s.ip6)) && (!want_ip6 || has_text_in(s.ip6))
}

/// How the wait ends when its time is over.
pub open spec fn wait_over(last: NodeSnapshotV, name: Seq<char>, want_ip6: bool) -> AddressWaitV {
    if want_ip6 && last.ip is Some && last.ip6 is None {
        AddressWaitV::Failed(
            name + " has IPv4 ("@ + last.ip->0
                + ") but no IPv6 InternalIP after dual-stack wait"@,
        )
    } else if last.ip is Some || last.ip6 is Some {
        AddressWaitV::Done(last)
    } else {
        AddressWaitV::Failed("timed out waiting for addresses on "@ + name)
    }
}

/// How the wait goes on, given what `kubectl` shows if it answered.
pub open spec fn address_wait(
    last: NodeSnapshotV,
    rows: Option<Seq<(Seq<char>, NodeSnapshotV)>>,
    name: Seq<char>,
    want_ip6: bool,
    over: bool,
) -> AddressWaitV {
    let now = if rows is Some && node_named(rows->0, name, 0) < rows->0.len() {
        Some(rows->0[node_named(rows->0, name, 0)].1)
    } else {
        None
    };
    let next = if now is Some {
        now->0
    } else {
        last
    };
    if now is Some && is_addressed(now->0, want_ip6) {
        AddressWaitV::Done(now->0)
    } else if over {
        wait_over(next, name, want_ip6)
    } else {
        AddressWaitV::Again(next)
    }
}

/// The mathematical form of the nodes that `kubectl` showed.
pub open spec fn opt_rows(o: Option<Vec<(String, NodeSnapshot)>>) -> Option<
    Seq<(Seq<char>, NodeSnapshotV)>,
> {
    match o {
        Some(v) => Some(row_views(v@)),
        None => None,
    }
}

fn copy_of(s: &NodeSnapshot) -> (r: NodeSnapshot)
    ensures
        r@ == s@,
{
    NodeSnapshot {
        ip: again(&s.ip),
        ip6: again(&s.ip6),
        k8s_version: again(&s.k8s_version),
        kernel_version: again(&s.kernel_version),
        container_runtime: again(&s.container_runtime),
        kubelet_status: again(&s.kubelet_status),
        os_version: again(&s.os_version),
    }
}

fn filled_text(o: &Option<String>) -> (r: bool)
    ensures
        r == has_text_in(opt_text(*o)),
{
    match o {
        Some(s) => !s.is_empty(),
        None => false,
    }
}

fn find_node(rows: &Vec<(String, NodeSnapshot)>, name: &str) -> (r: Option<NodeSnapshot>)
    ensures
        ({
            let v = row_views(rows@);
            let k = node_named(v, name@, 0);
            match r {
                Some(s) => k < v.len() && s@ == v[k].1,
                None => k >= v.len(),
            }
        }),
{
    let ghost v = row_views(rows@);
    let mut i: usize = 0;
    while i < rows.len()
        invariant
            i <= rows.len(),
            v == row_views(rows@),
            node_named(v, name@, 0) == node_named(v, name@, i as int),
        decreases rows.len() - i,
    {
        if str_eq(&rows[i].0, name) {
            return Some(copy_of(&rows[i].1));
        }
        i += 1;
    }
    None
}

/// One round of the wait for the addresses of a node: what was known, what
/// `kubectl` shows if it answered, and whether the time is over.
pub fn wait_node_addresses(
    last: NodeSnapshot,
    rows: &Option<Vec<(String, NodeSnapshot)>>,
    node_name: &str,
    want_ip6: bool,
    over: bool,
) -> (r: AddressWait)
    ensures
        r@ == address_wait(last@, opt_rows(*rows), node_name@, want_ip6, over),
{
    let now = match rows {
        Some(v) => find_node(v, node_name),
        None => None,
    };
    let next = match now {
        Some(s) => {
            let v6 = filled_text(&s.ip6);
            if (filled_text(&s.ip) || v6) && (!want_ip6 || v6) {
                return AddressWait::Done(s);
            }
            s
        },
        None => last,
    };
    if !over {
        return AddressWait::Again(next);
    }
    if want_ip6 && next.ip6.is_none() {
        match &next.ip {
            Some(ip) => {
                return AddressWait::Failed(
                    lit(node_name).concat(" has IPv4 (").concat(ip).concat(
                        ") but no IPv6 InternalIP after dual-stack wait",
                    ),
                );
            },
            None => {},
        }
    }
    if next.ip.is_some() || next.ip6.is_some() {
        AddressWait::Done(next)
    } else {
        AddressWait::Failed(cat("timed out waiting for addresses on ", node_name))
    }
}

/// A wait for an IPv6 address does not end well without one, where an IPv4
/// address is known.
pub proof fn law_dual_stack_wait(
    last: NodeSnapshotV,
    rows: Option<Seq<(Seq<char>, NodeSnapshotV)>>,
    name: Seq<char>,
    over: bool,
)
    requires
        address_wait(last, rows, name, true, over) matches AddressWaitV::Done(s) && s.ip is Some,
    ensures
        address_wait(last, rows, name, true, over)->Done_0.ip6 is Some,
{
}

// ---------------------------------------------------------------------------
// What is stored of a node
// ---------------------------------------------------------------------------

/// The new value, else the old one.
pub open spec fn newer(new: Option<Seq<char>>, old_value: Option<Seq<char>>) -> Option<Seq<char>> {
    if new is Some {
        new
    } else {
        old_value
    }
}

fn pick_newer(new: &Option<String>, old_value: &Option<String>) -> (r: Option<String>)
    ensures
        opt_text(r) == newer(opt_text(*new), opt_text(*old_value)),
{
    match (new, old_value) {
        (Some(s), _) => Some(lit(s)),
        (None, Some(s)) => Some(lit(s)),
        (None, None) => None,
    }
}

/// The stored version of the operating system is none that was read.
pub open spec fn os_unset(v: Option<Seq<char>>) -> bool {
    v is None || v->0.len() == 0 || v == Some("0.1.0"@) || v == Some("v0.1.0"@)
}

/// What is stored of a node once it was read: what was read, else what was
/// known. A version of the operating system is replaced only where it is none
/// that was read from the node itself.
pub open spec fn stored_after(row: NodeSnapshotV, read: NodeSnapshotV) -> NodeSnapshotV {
    NodeSnapshotV {
        ip: newer(read.ip, row.ip),
        ip6: newer(read.ip6, row.ip6),
        k8s_version: newer(read.k8s_version, row.k8s_version),
        kernel_version: newer(read.kernel_version, row.kernel_version),
        container_runtime: newer(read.container_runtime, row.container_runtime),
        kubelet_status: row.kubelet_status,
        os_version: if os_unset(row.os_version) {
            newer(read.os_version, row.os_version)
        } else {
            row.os_version
        },
    }
}

/// What is stored of a node once it was read.
pub fn persist_snapshot(row: &NodeSnapshot, read: &NodeSnapshot) -> (r: NodeSnapshot)
    ensures
        r@ == stored_after(row@, read@),
{
    let unset = match &row.os_version {
        Some(v) => v.is_empty() || str_eq(v, "0.1.0") || str_eq(v, "v0.1.0"),
        None => true,
    };
    let none: Option<String> = None;
    NodeSnapshot {
        ip: pick_newer(&read.ip, &row.ip),
        ip6: pick_newer(&read.ip6, &row.ip6),
        k8s_version: pick_newer(&read.k8s_version, &row.k8s_version),
        kernel_version: pick_newer(&read.kernel_version, &row.kernel_version),
        container_runtime: pick_newer(&read.container_runtime, &row.container_runtime),
        kubelet_status: pick_newer(&none, &row.kubelet_status),
        os_version: if unset {
            pick_newer(&read.os_version, &row.os_version)
        } else {
            pick_newer(&none, &row.os_version)
        },
    }
}

/// Reading a node loses nothing: what is known stays known, a node of which
/// nothing could be read stays as it is, and reading it a second time changes
/// nothing.
pub proof fn law_reading_loses_nothing(row: NodeSnapshotV, read: NodeSnapshotV)
    ensures
        row.ip is Some ==> stored_after(row, read).ip is Some,
        row.os_version is Some ==> stored_after(row, read).os_version is Some,
        stored_after(row, nothing_known()) == row,
        stored_after(stored_after(row, read), read) == stored_after(row, read),
{
    assert(stored_after(row, nothing_known()) =~= row);
    assert(stored_after(stored_after(row, read), read) =~= stored_after(row, read));
}

/// A version that the node itself gave is never replaced by one that
/// `kubectl` shows.
pub proof fn law_given_os_version_stays(row: NodeSnapshotV, read: NodeSnapshotV)
    requires
        !os_unset(row.os_version),
    ensures
        stored_after(row, read).os_version == row.os_version,
{
}

// ---------------------------------------------------------------------------
// What is read of a node
// ---------------------------------------------------------------------------

/// The entry of a node's addresses is the internal one `ip`.
pub open spec fn is_internal(j: JsonV, ip: Seq<char>) -> bool {
    &&& j.get("type"@) == Some(JsonV::Str("InternalIP"@))
    &&& j.get("address"@) == Some(JsonV::Str(ip))
    &&& ip.len() > 0
    &&& parse_ip(ip) is Some
}

/// The addresses of a node are its internal ones, the first of each family: one of
/// the newer family exactly where it has a colon. None is missed.
pub proof fn law_addresses_of_a_node(s: Seq<JsonV>, n: int, k: int, ip: Seq<char>)
    requires
        0 <= n <= s.len(),
        0 <= k < n,
        is_internal(s[k], ip),
    ensures
        ip.contains(':') ==> internal_ips(s, n).1 is Some && internal_ips(
            s,
            n,
        ).1->0.contains(':'),
        !ip.contains(':') ==> internal_ips(s, n).0 is Some && !internal_ips(
            s,
            n,
        ).0->0.contains(':'),
        (forall|i: int, q: Seq<char>|
            0 <= i < k && #[trigger] is_internal(s[i], q) ==> q.contains(':') != ip.contains(':'))
            ==> (if ip.contains(':') {
            internal_ips(s, n).1 == Some(ip)
        } else {
            internal_ips(s, n).0 == Some(ip)
        }),
    decreases n,
{
    lemma_internal(s, n - 1);
    if k < n - 1 {
        law_addresses_of_a_node(s, n - 1, k, ip);
    } else {
        if (forall|i: int, q: Seq<char>|
            0 <= i < k && #[trigger] is_internal(s[i], q) ==> q.contains(':') != ip.contains(':')) {
            if ip.contains(':') {
                if internal_ips(s, n - 1).1 is Some {
                    let q = internal_ips(s, n - 1).1->0;
                    let i = choose|i: int| 0 <= i < n - 1 && is_internal(#[trigger] s[i], q);
                    assert(is_internal(s[i], q));
                }
            } else {
                if internal_ips(s, n - 1).0 is Some {
                    let q = internal_ips(s, n - 1).0->0;
                    let i = choose|i: int| 0 <= i < n - 1 && is_internal(#[trigger] s[i], q);
                    assert(is_internal(s[i], q));
                }
            }
        }
    }
}

proof fn lemma_internal(s: Seq<JsonV>, n: int)
    requires
        0 <= n <= s.len(),
    ensures
        internal_ips(s, n).0 is Some ==> !internal_ips(s, n).0->0.contains(':') && exists|i: int|
            0 <= i < n && is_internal(#[trigger] s[i], internal_ips(s, n).0->0),
        internal_ips(s, n).1 is Some ==> internal_ips(s, n).1->0.contains(':') && exists|i: int|
            0 <= i < n && is_internal(#[trigger] s[i], internal_ips(s, n).1->0),
    decreases n,
{
    if n > 0 {
        lemma_internal(s, n - 1);
        let ty = text_or(str_in(s[n - 1].get("type"@)), ""@);
        let ip = text_or(str_in(s[n - 1].get("address"@)), ""@);
        reveal_strlit("");
        reveal_strlit("InternalIP");
        assert("InternalIP"@.len() == 10);
        if ty == "InternalIP"@ && ip.len() > 0 && parse_ip(ip) is Some {
            assert(is_internal(s[n - 1], ip));
        }
        if internal_ips(s, n - 1).0 is Some {
            let i = choose|i: int|
                0 <= i < n - 1 && is_internal(#[trigger] s[i], internal_ips(s, n - 1).0->0);
            assert(is_internal(s[i], internal_ips(s, n - 1).0->0));
        }
        if internal_ips(s, n - 1).1 is Some {
            let i = choose|i: int|
                0 <= i < n - 1 && is_internal(#[trigger] s[i], internal_ips(s, n - 1).1->0);
            assert(is_internal(s[i], internal_ips(s, n - 1).1->0));
        }
    }
}

/// An address that is read of a node is one of its internal addresses, of the
/// family it is stored as.
pub proof fn law_read_addresses_are_the_nodes(j: JsonV)
    ensures
        ({
            let s = items_in(j.get2("status"@, "addresses"@));
            let r = node_snapshot(j);
            &&& r.ip is Some ==> !r.ip->0.contains(':') && exists|i: int|
                0 <= i < s.len() && is_internal(#[trigger] s[i], r.ip->0)
            &&& r.ip6 is Some ==> r.ip6->0.contains(':') && exists|i: int|
                0 <= i < s.len() && is_internal(#[trigger] s[i], r.ip6->0)
        }),
{
    let s = items_in(j.get2("status"@, "addresses"@));
    lemma_internal(s, s.len() as int);
}

/// A node is ready exactly where its condition of that name is true.
pub proof fn law_ready_condition(s: Seq<JsonV>, n: int, k: int)
    requires
        0 <= k < n <= s.len(),
        s[k].get("type"@) == Some(JsonV::Str("Ready"@)),
        forall|i: int| k < i < n ==> (#[trigger] s[i]).get("type"@) != Some(JsonV::Str("Ready"@)),
    ensures
        readiness(s, n) == Some("ready"@) <==> s[k].get("status"@) == Some(JsonV::Str("True"@)),
        readiness(s, n) == Some("not_ready"@) <==> s[k].get("status"@) != Some(
            JsonV::Str("True"@),
        ),
    decreases n,
{
    reveal_strlit("ready");
    reveal_strlit("not_ready");
    assert("ready"@.len() == 5);
    assert("not_ready"@.len() == 9);
    if k < n - 1 {
        assert(s[n - 1].get("type"@) != Some(JsonV::Str("Ready"@)));
        law_ready_condition(s, n - 1, k);
    }
}

/// The versions that are read of a node are those that it gives of itself, each
/// under its own name.
pub proof fn law_read_versions(j: JsonV, v: Seq<char>)
    requires
        trim(v).len() > 0,
    ensures
        ({
            let r = node_snapshot(j);
            let info = j.get2("status"@, "nodeInfo"@);
            let says = |k: Seq<char>| info is Some && info->0.get(k) == Some(JsonV::Str(v));
            &&& says("kubeletVersion"@) ==> r.k8s_version == Some(trim(v))
            &&& says("kernelVersion"@) ==> r.kernel_version == Some(trim(v))
            &&& says("containerRuntimeVersion"@) && !starts_with(trim(v), "containerd://"@)
                ==> r.container_runtime == Some(trim(v))
            &&& says("osImage"@) && !starts_with(trim(v), "pertisk-kos"@) ==> r.os_version == Some(
                trim(v),
            )
        }),
{
    lemma_trim_ends(v);
    lemma_trimmed(trim(v));
}

/// The prefixes of the runtime and of the image are taken off.
pub proof fn law_read_names_without_prefix(v: Seq<char>)
    requires
        trim(v) == v,
        v.len() > 0,
        trim("containerd://"@ + v) == "containerd://"@ + v,
        trim("pertisk-kos/"@ + v) == "pertisk-kos/"@ + v,
        v[0] != '/',
        trim("/"@ + v) == "/"@ + v,
    ensures
        runtime_version("containerd://"@ + v) == Some(v),
        os_image("pertisk-kos/"@ + v) == Some(v),
{
    reveal_strlit("containerd://");
    reveal_strlit("pertisk-kos");
    reveal_strlit("pertisk-kos/");
    reveal_strlit("/");
    let a = "containerd://"@ + v;
    let b = "pertisk-kos/"@ + v;
    assert(a.subrange(0, 13) =~= "containerd://"@);
    assert(a.subrange(13, a.len() as int) =~= v);
    assert(b.subrange(0, 11) =~= "pertisk-kos"@);
    assert(b.subrange(11, b.len() as int) =~= "/"@ + v);
    assert(a.take(13) =~= "containerd://"@);
    assert(a.skip(13) =~= v);
    assert(b.take(11) =~= "pertisk-kos"@);
    assert(b.skip(11) =~= "/"@ + v);
    reveal_with_fuel(skip_char, 3);
    let c = "/"@ + v;
    assert(c.subrange(1, c.len() as int) =~= v);
    assert(c.skip(1) =~= v);
}

/// A version of the system is a placeholder exactly where it is missing, blank or
/// the one that images are made with.
pub proof fn law_placeholders(v: Seq<char>)
    ensures
        is_placeholder(None),
        is_placeholder(Some(v)) <==> trim(v).len() == 0 || trim(v) == "0.1.0"@ || trim(v)
            == "v0.1.0"@,
        os_unset(None),
        v.len() > 0 && v != "0.1.0"@ && v != "v0.1.0"@ ==> !os_unset(Some(v)),
        os_unset(Some("0.1.0"@)) && os_unset(Some("v0.1.0"@)),
{
}

/// What is read of a node is stored, each value in its own place; what was not
/// read stays.
pub proof fn law_read_values_are_stored(row: NodeSnapshotV, read: NodeSnapshotV)
    ensures
        ({
            let r = stored_after(row, read);
            &&& read.ip is Some ==> r.ip == read.ip
            &&& read.ip is None ==> r.ip == row.ip
            &&& read.ip6 is Some ==> r.ip6 == read.ip6
            &&& read.ip6 is None ==> r.ip6 == row.ip6
            &&& read.k8s_version is Some ==> r.k8s_version == read.k8s_version
            &&& read.k8s_version is None ==> r.k8s_version == row.k8s_version
            &&& read.kernel_version is Some ==> r.kernel_version == read.kernel_version
            &&& read.kernel_version is None ==> r.kernel_version == row.kernel_version
            &&& read.container_runtime is Some ==> r.container_runtime == read.container_runtime
            &&& read.container_runtime is None ==> r.container_runtime == row.container_runtime
            &&& r.kubelet_status == row.kubelet_status
            &&& row.os_version is None ==> r.os_version == read.os_version
        }),
{
}

/// Every named node of a list has a row under its name, and no row has no name.
pub proof fn law_rows_are_the_named_nodes(s: Seq<JsonV>, n: int, k: int, name: Seq<char>)
    requires
        0 <= n <= s.len(),
    ensures
        0 <= k < n && s[k].get2("metadata"@, "name"@) == Some(JsonV::Str(name)) && name.len() > 0
            ==> node_rows(s, n).contains((name, node_snapshot(s[k]))),
        0 <= k < node_rows(s, n).len() ==> node_rows(s, n)[k].0.len() > 0,
        node_rows(s, n).len() <= n,
    decreases n,
{
    if n > 0 {
        law_rows_are_the_named_nodes(s, n - 1, k, name);
        let b = node_rows(s, n - 1);
        let r = node_rows(s, n);
        if 0 <= k < n && s[k].get2("metadata"@, "name"@) == Some(JsonV::Str(name)) && name.len()
            > 0 {
            if k < n - 1 {
                let i = choose|i: int|
                    0 <= i < b.len() && b[i] == (name, node_snapshot(s[k]));
                assert(r[i] == (name, node_snapshot(s[k])));
            } else {
                assert(r[r.len() - 1] == (name, node_snapshot(s[k])));
            }
        }
        if 0 <= k < r.len() {
            if k < b.len() {
                assert(r[k] == b[k]);
            }
        }
    }
}

/// A row of the table of nodes: its name, its state in small letters, and the
/// addresses and the version among its words.
pub proof fn law_rows_of_the_table(line: Seq<char>)
    ensures
        ({
            let w = words(line);
            let r = wide_line(line);
            &&& w.len() < 6 ==> r is None
            &&& w.len() >= 6 && w[0].contains('-') ==> {
                &&& r matches Some((name, x)) && {
                    &&& name == w[0]
                    &&& x.kubelet_status == Some(lower(w[1]))
                    &&& x.ip is Some ==> w.contains(x.ip->0) && parse_v4(x.ip->0) is Some
                    &&& x.ip6 is Some ==> w.contains(x.ip6->0) && parse_v6(x.ip6->0) is Some
                    &&& x.k8s_version is Some ==> w.contains(x.k8s_version->0) && starts_with(
                        x.k8s_version->0,
                        "v"@,
                    )
                }
            }
        }),
{
    lemma_words_that_fit(words(line), 0);
}

proof fn lemma_words_that_fit(w: Seq<Seq<char>>, i: int)
    requires
        0 <= i <= w.len(),
    ensures
        v4_word(w, i) is Some ==> w.contains(v4_word(w, i)->0) && parse_v4(v4_word(w, i)->0) is Some,
        v6_word(w, i) is Some ==> w.contains(v6_word(w, i)->0) && parse_v6(v6_word(w, i)->0) is Some,
        version_word(w, i) is Some ==> w.contains(version_word(w, i)->0) && starts_with(
            version_word(w, i)->0,
            "v"@,
        ),
    decreases w.len() - i,
{
    if i < w.len() {
        lemma_words_that_fit(w, i + 1);
        assert(w.contains(w[i]));
    }
}

} // verus!
