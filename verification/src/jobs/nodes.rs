//! Adding, adopting, removing, resizing and rebooting nodes.
use crate::jobs::create::{DEFAULT_CP_VMID, i64_of, int_in, int_or, node_name, node_seeds};
use crate::jobs::rows::{ClusterRow, arg2};
use crate::json::{
    Json, JsonV, item_at, items_in, items_len, opt_view, str_in, str_of, str_or, text_or,
};
use crate::num::{dec, i64_str, sdec, usize_str};
use crate::text::{
    lines, lit, opt_text, str_eq, str_lines, str_strip_prefix, str_trim, strip_prefix, texts, trim,
};
use crate::time::opt_int;
use vstd::prelude::*;
use vstd::string::*;

verus! {

pub open spec fn clamp(n: int, lo: int, hi: int) -> int {
    if n < lo {
        lo
    } else if n > hi {
        hi
    } else {
        n
    }
}

// ---------------------------------------------------------------------------
// Adding machines
// ---------------------------------------------------------------------------

/// A request for new machines.
#[derive(Debug, PartialEq, Eq)]
pub struct AddRequest {
    pub role: String,
    pub count: i64,
    pub memory: i64,
    pub cores: i64,
    pub disk_gb: i64,
}

/// Memory, cores and disk that the cluster gives a role by default.
pub open spec fn default_hardware(c: ClusterRow, role: Seq<char>) -> (int, int, int) {
    if role == "controlplane"@ {
        (c.cp_memory as int, c.cp_cores as int, c.cp_disk_gb as int)
    } else {
        (c.worker_memory as int, c.worker_cores as int, c.worker_disk_gb as int)
    }
}

pub fn role_hardware(c: &ClusterRow, role: &str) -> (r: (i64, i64, i64))
    ensures
        (r.0 as int, r.1 as int, r.2 as int) == default_hardware(*c, role@),
{
    if str_eq(role, "controlplane") {
        (c.cp_memory, c.cp_cores, c.cp_disk_gb)
    } else {
        (c.worker_memory, c.worker_cores, c.worker_disk_gb)
    }
}

/// The role that a request names, `worker` where it names none.
pub open spec fn requested_role(p: JsonV) -> Seq<char> {
    text_or(str_in(p.get("role"@)), "worker"@)
}

/// Reads a request for new machines: one to sixteen at once, with the cluster's
/// hardware where the request names no other.
pub fn add_request(c: &ClusterRow, p: &Json) -> (r: AddRequest)
    ensures
        r.role@ == requested_role(p@),
        r.count == clamp(int_or(int_in(p@.get("count"@)), 1), 1, 16),
        r.memory == int_or(int_in(p@.get("memory"@)), default_hardware(*c, r.role@).0),
        r.cores == int_or(int_in(p@.get("cores"@)), default_hardware(*c, r.role@).1),
        r.disk_gb == int_or(int_in(p@.get("disk_gb"@)), default_hardware(*c, r.role@).2),
{
    let role = str_or(p.get("role"), "worker");
    let asked: i64 = match i64_of(p.get("count")) {
        Some(n) => n,
        None => 1,
    };
    let count: i64 = if asked < 1 {
        1
    } else if asked > 16 {
        16
    } else {
        asked
    };
    let (m, k, d) = role_hardware(c, &role);
    let memory: i64 = match i64_of(p.get("memory")) {
        Some(n) => n,
        None => m,
    };
    let cores: i64 = match i64_of(p.get("cores")) {
        Some(n) => n,
        None => k,
    };
    let disk_gb: i64 = match i64_of(p.get("disk_gb")) {
        Some(n) => n,
        None => d,
    };
    AddRequest { role, count, memory, cores, disk_gb }
}

/// The next node of a role, and the counts of the cluster once it is there.
#[derive(Debug, PartialEq, Eq)]
pub struct NextNode {
    pub name: String,
    pub vmid: i64,
    /// The number of a new control plane.
    pub cp_index: Option<i64>,
    pub controlplanes: i64,
    pub workers: i64,
    /// The number of control planes becomes even, which is worse for quorum.
    pub even_warning: bool,
}

/// The first machine number of a cluster.
pub open spec fn base_vmid(c: ClusterRow) -> int {
    match c.cp_vmid {
        Some(v) => v as int,
        None => DEFAULT_CP_VMID as int,
    }
}

/// The counts and machine numbers fit their type.
pub open spec fn next_fits(c: ClusterRow, cps: int, workers: int) -> bool {
    &&& cps < i64::MAX
    &&& workers < i64::MAX
    &&& i64::MIN <= base_vmid(c) + cps <= i64::MAX
    &&& i64::MIN <= base_vmid(c) + cps + workers <= i64::MAX
}

/// Plans the next node for a cluster that has `cps` control planes and
/// `workers` workers now.
pub fn next_node(c: &ClusterRow, role: &str, cps: i64, workers: i64) -> (r: NextNode)
    requires
        next_fits(*c, cps as int, workers as int),
    ensures
        role@ == "controlplane"@ ==> {
            &&& r.name@ == node_name(c.name@, "-cp-"@, cps + 1)
            &&& r.vmid == base_vmid(*c) + cps
            &&& r.cp_index == Some((cps + 1) as i64)
            &&& r.controlplanes == cps + 1
            &&& r.workers == workers
            &&& r.even_warning == ((cps + 1) % 2 == 0)
        },
        role@ != "controlplane"@ ==> {
            &&& r.name@ == node_name(c.name@, "-wk-"@, workers + 1)
            &&& r.vmid == base_vmid(*c) + cps + workers
            &&& r.cp_index is None
            &&& r.controlplanes == cps
            &&& r.workers == workers + 1
            &&& !r.even_warning
        },
        role@ == "controlplane"@ && cps >= 0 && workers >= 0 ==> {
            let row = node_seeds((ClusterRow { controlplanes: r.controlplanes, workers, ..*c }))[cps as int];
            r.name@ == row.name && row.role == "controlplane"@ && (c.cp_vmid is Some ==> row.vmid
                == Some(r.vmid as int))
        },
        role@ != "controlplane"@ && cps >= 0 && workers >= 0 ==> {
            let row = node_seeds(
                (ClusterRow { controlplanes: cps, workers: r.workers, ..*c }),
            )[cps + workers];
            r.name@ == row.name && row.role == "worker"@ && row.vmid == Some(r.vmid as int)
        },
{
    let base: i64 = match c.cp_vmid {
        Some(v) => v,
        None => DEFAULT_CP_VMID,
    };
    if str_eq(role, "controlplane") {
        let n: i64 = cps + 1;
        NextNode {
            name: lit(&c.name).concat("-cp-").concat(&i64_str(n)),
            vmid: base + cps,
            cp_index: Some(n),
            controlplanes: n,
            workers,
            even_warning: is_even(n),
        }
    } else {
        let n: i64 = workers + 1;
        NextNode {
            name: lit(&c.name).concat("-wk-").concat(&i64_str(n)),
            vmid: base + cps + workers,
            cp_index: None,
            controlplanes: cps,
            workers: n,
            even_warning: false,
        }
    }
}

fn is_even(n: i64) -> (r: bool)
    ensures
        r == (n % 2 == 0),
{
    let u: u64 = if n < 0 {
        (-(n as i128)) as u64
    } else {
        n as u64
    };
    u % 2 == 0
}

/// How long the script waits for the machine's API after it has an address, in
/// seconds: large disks take longer on first boot.
pub open spec fn api_wait(disk_gb: int) -> int {
    clamp(disk_gb * 15, 900, 1800)
}

pub fn api_after_ip_timeout(disk_gb: i64) -> (r: i64)
    ensures
        r == api_wait(disk_gb as int),
{
    if disk_gb < 60 {
        900
    } else if disk_gb > 120 {
        1800
    } else {
        disk_gb * 15
    }
}

/// The arguments of the script that adds a machine.
pub open spec fn add_args(
    c: ClusterRow,
    bridge: Seq<char>,
    q: AddRequest,
    n: NextNode,
    cluster_out: Seq<char>,
    cp_ip: Seq<char>,
    arch: Seq<char>,
) -> Seq<Seq<char>> {
    let a = Seq::<Seq<char>>::empty().push("--role"@).push(q.role@).push("--vmid"@).push(
        sdec(n.vmid as int),
    ).push("--name"@).push(n.name@).push("--memory"@).push(sdec(q.memory as int)).push(
        "--cores"@,
    ).push(sdec(q.cores as int)).push("--disk-gb"@).push(sdec(q.disk_gb as int)).push(
        "--cluster-out"@,
    ).push(cluster_out).push("--cluster-name"@).push(c.name@).push("--cp-ip"@).push(cp_ip).push(
        "--bridge"@,
    ).push(bridge).push("--arch"@).push(arch);
    match n.cp_index {
        Some(i) => a.push("--controlplane-index"@).push(sdec(i as int)),
        None => a,
    }
}

pub fn add_arguments(
    c: &ClusterRow,
    bridge: &str,
    q: &AddRequest,
    n: &NextNode,
    cluster_out: &str,
    cp_ip: &str,
    arch: &str,
) -> (r: Vec<String>)
    ensures
        texts(r@) == add_args(*c, bridge@, *q, *n, cluster_out@, cp_ip@, arch@),
{
    let mut v: Vec<String> = Vec::new();
    assert(texts(v@) =~= Seq::<Seq<char>>::empty());
    arg2(&mut v, "--role", &q.role);
    arg2(&mut v, "--vmid", &i64_str(n.vmid));
    arg2(&mut v, "--name", &n.name);
    arg2(&mut v, "--memory", &i64_str(q.memory));
    arg2(&mut v, "--cores", &i64_str(q.cores));
    arg2(&mut v, "--disk-gb", &i64_str(q.disk_gb));
    arg2(&mut v, "--cluster-out", cluster_out);
    arg2(&mut v, "--cluster-name", &c.name);
    arg2(&mut v, "--cp-ip", cp_ip);
    arg2(&mut v, "--bridge", bridge);
    arg2(&mut v, "--arch", arch);
    match n.cp_index {
        Some(i) => {
            arg2(&mut v, "--controlplane-index", &i64_str(i));
        },
        None => {},
    }
    v
}

/// The address in the last `NODE_IP=` line among the first `n` lines.
pub open spec fn last_node_ip(ls: Seq<Seq<char>>, n: int) -> Option<Seq<char>>
    decreases n,
{
    if n <= 0 {
        None
    } else {
        match strip_prefix(ls[n - 1], "NODE_IP="@) {
            Some(ip) => Some(ip),
            None => last_node_ip(ls, n - 1),
        }
    }
}

/// The address that the script reports last.
pub fn reported_node_ip(output: &str) -> (r: Option<String>)
    ensures
        opt_text(r) == last_node_ip(lines(output@), lines(output@).len() as int),
{
    let ls = str_lines(output);
    let ghost want = lines(output@);
    let mut i: usize = ls.len();
    assert(want.len() == ls.len());
    while i > 0
        invariant
            i <= ls.len(),
            want == lines(output@),
            texts(ls@) == want,
            last_node_ip(want, want.len() as int) == last_node_ip(want, i as int),
        decreases i,
    {
        assert(want[i - 1] == ls@[i - 1]@);
        match str_strip_prefix(&ls[i - 1], "NODE_IP=") {
            Some(ip) => {
                return Some(ip);
            },
            None => {},
        }
        i -= 1;
    }
    None
}

/// How long to wait for a joined node's addresses, in seconds.
pub fn address_wait_secs(want_ip6: bool) -> (r: u64)
    ensures
        r == if want_ip6 {
            300u64
        } else {
            180u64
        },
{
    if want_ip6 {
        300
    } else {
        180
    }
}

/// The address at which a new node finds the control plane: a control plane
/// node's, else the virtual one.
pub open spec fn cp_address(node_ip: Option<Seq<char>>, vip: Option<Seq<char>>) -> Option<
    Seq<char>,
> {
    match node_ip {
        Some(ip) => Some(ip),
        None => match vip {
            Some(v) => if v.len() > 0 {
                Some(v)
            } else {
                None
            },
            None => None,
        },
    }
}

pub fn resolve_cp_ip(node_ip: &Option<String>, vip: &Option<String>) -> (r: Result<String, String>)
    ensures
        match r {
            Ok(ip) => cp_address(opt_text(*node_ip), opt_text(*vip)) == Some(ip@),
            Err(e) => cp_address(opt_text(*node_ip), opt_text(*vip)) is None && e@
                == "no control-plane IP found — wait until CP nodes have IPs before adding nodes"@,
        },
{
    match node_ip {
        Some(ip) => Ok(lit(ip)),
        None => {
            match vip {
                Some(v) => if !v.is_empty() {
                    return Ok(lit(v));
                },
                None => {},
            }
            Err(
                lit(
                    "no control-plane IP found — wait until CP nodes have IPs before adding nodes",
                ),
            )
        },
    }
}

// ---------------------------------------------------------------------------
// Adopting machines that exist
// ---------------------------------------------------------------------------

/// A request to join a machine that exists.
#[derive(Debug, PartialEq, Eq)]
pub struct AdoptRequest {
    pub role: String,
    pub ip: String,
    pub source: String,
    pub name: Option<String>,
}

/// The trimmed text of a string member, where anything is left of it.
pub open spec fn trimmed_member(p: JsonV, k: Seq<char>) -> Option<Seq<char>> {
    match str_in(p.get(k)) {
        Some(s) => if trim(s).len() > 0 {
            Some(trim(s))
        } else {
            None
        },
        None => None,
    }
}

pub fn trimmed_text(p: &Json, k: &str) -> (r: Option<String>)
    ensures
        opt_text(r) == trimmed_member(p@, k@),
{
    match str_of(p.get(k)) {
        Some(s) => {
            let t = str_trim(&s);
            if t.is_empty() {
                None
            } else {
                Some(t)
            }
        },
        None => None,
    }
}

/// Reads a request to adopt a machine; it must give an address.
pub fn adopt_request(p: &Json) -> (r: Result<AdoptRequest, String>)
    ensures
        match r {
            Ok(q) => {
                &&& trimmed_member(p@, "ip"@) == Some(q.ip@)
                &&& q.role@ == requested_role(p@)
                &&& q.source@ == text_or(str_in(p@.get("source"@)), "adopted"@)
                &&& opt_text(q.name) == trimmed_member(p@, "name"@)
            },
            Err(e) => trimmed_member(p@, "ip"@) is None && e@ == "ip required"@,
        },
{
    match trimmed_text(p, "ip") {
        Some(ip) => Ok(
            AdoptRequest {
                role: str_or(p.get("role"), "worker"),
                ip,
                source: str_or(p.get("source"), "adopted"),
                name: trimmed_text(p, "name"),
            },
        ),
        None => Err(lit("ip required")),
    }
}

/// The name and index of an adopted node, and the counts once it is there.
#[derive(Debug, PartialEq, Eq)]
pub struct AdoptPlan {
    pub name: String,
    pub cp_index: Option<i64>,
    pub controlplanes: i64,
    pub workers: i64,
    pub even_warning: bool,
}

pub fn adopt_plan(c: &ClusterRow, q: &AdoptRequest, cps: i64, workers: i64) -> (r: AdoptPlan)
    requires
        cps < i64::MAX,
        workers < i64::MAX,
    ensures
        r.name@ == text_or(
            opt_text(q.name),
            if q.role@ == "controlplane"@ {
                node_name(c.name@, "-cp-"@, cps + 1)
            } else {
                node_name(c.name@, "-wk-"@, workers + 1)
            },
        ),
        q.role@ == "controlplane"@ ==> {
            &&& r.cp_index == Some((cps + 1) as i64)
            &&& r.controlplanes == cps + 1
            &&& r.workers == workers
            &&& r.even_warning == ((cps + 1) % 2 == 0)
        },
        q.role@ != "controlplane"@ ==> {
            &&& r.cp_index is None
            &&& r.controlplanes == cps
            &&& r.workers == workers + 1
            &&& !r.even_warning
        },
{
    if str_eq(&q.role, "controlplane") {
        let n: i64 = cps + 1;
        let name = match &q.name {
            Some(s) => lit(s),
            None => lit(&c.name).concat("-cp-").concat(&i64_str(n)),
        };
        AdoptPlan {
            name,
            cp_index: Some(n),
            controlplanes: n,
            workers,
            even_warning: is_even(n),
        }
    } else {
        let n: i64 = workers + 1;
        let name = match &q.name {
            Some(s) => lit(s),
            None => lit(&c.name).concat("-wk-").concat(&i64_str(n)),
        };
        AdoptPlan { name, cp_index: None, controlplanes: cps, workers: n, even_warning: false }
    }
}

/// The counts of a cluster once a node of the role is taken out; workers never
/// fall below zero.
pub open spec fn counts_without(role: Seq<char>, cps: int, workers: int) -> (int, int) {
    if role == "controlplane"@ {
        (cps - 1, workers)
    } else {
        (
            cps,
            if workers - 1 < 0 {
                0
            } else {
                workers - 1
            },
        )
    }
}

/// The counts once a node is gone: after a removal, and when an adopted node's
/// name turns out to be taken.
pub fn counts_after_removal(role: &str, cps: i64, workers: i64) -> (r: (i64, i64))
    requires
        cps > i64::MIN,
        workers > i64::MIN,
    ensures
        (r.0 as int, r.1 as int) == counts_without(role@, cps as int, workers as int),
{
    if str_eq(role, "controlplane") {
        (cps - 1, workers)
    } else {
        let w: i64 = workers - 1;
        (
            cps,
            if w < 0 {
                0
            } else {
                w
            },
        )
    }
}

/// Taking a node out undoes putting it in: the counts are what they were.
pub proof fn law_rollback_restores_counts(role: Seq<char>, cps: int, workers: int)
    requires
        workers >= 0,
    ensures
        role == "controlplane"@ ==> counts_without(role, cps + 1, workers) == (cps, workers),
        role != "controlplane"@ ==> counts_without(role, cps, workers + 1) == (cps, workers),
{
}

/// The arguments of the script that joins an existing machine.
pub open spec fn adopt_args(
    c: ClusterRow,
    q: AdoptRequest,
    n: AdoptPlan,
    cluster_out: Seq<char>,
    cp_ip: Seq<char>,
) -> Seq<Seq<char>> {
    let a = Seq::<Seq<char>>::empty().push("--role"@).push(q.role@).push("--name"@).push(
        n.name@,
    ).push("--node-ip"@).push(q.ip@).push("--cp-ip"@).push(cp_ip).push("--cluster-out"@).push(
        cluster_out,
    ).push("--cluster-name"@).push(c.name@);
    match n.cp_index {
        Some(i) => a.push("--controlplane-index"@).push(sdec(i as int)),
        None => a,
    }
}

pub fn adopt_arguments(
    c: &ClusterRow,
    q: &AdoptRequest,
    n: &AdoptPlan,
    cluster_out: &str,
    cp_ip: &str,
) -> (r: Vec<String>)
    ensures
        texts(r@) == adopt_args(*c, *q, *n, cluster_out@, cp_ip@),
{
    let mut v: Vec<String> = Vec::new();
    assert(texts(v@) =~= Seq::<Seq<char>>::empty());
    arg2(&mut v, "--role", &q.role);
    arg2(&mut v, "--name", &n.name);
    arg2(&mut v, "--node-ip", &q.ip);
    arg2(&mut v, "--cp-ip", cp_ip);
    arg2(&mut v, "--cluster-out", cluster_out);
    arg2(&mut v, "--cluster-name", &c.name);
    match n.cp_index {
        Some(i) => {
            arg2(&mut v, "--controlplane-index", &i64_str(i));
        },
        None => {},
    }
    v
}

/// The complaint about an adopted node whose name is taken.
pub fn name_taken(name: &str) -> (r: String)
    ensures
        r@ == "node name "@ + name@ + " already exists on this cluster"@,
{
    lit("node name ").concat(name).concat(" already exists on this cluster")
}

// ---------------------------------------------------------------------------
// Removing nodes
// ---------------------------------------------------------------------------

/// The strings among the first `n` elements.
pub open spec fn strings_among(v: Seq<JsonV>, n: int) -> Seq<Seq<char>>
    decreases n,
{
    if n <= 0 {
        Seq::empty()
    } else {
        let before = strings_among(v, n - 1);
        match v[n - 1].as_str() {
            Some(s) => before.push(s),
            None => before,
        }
    }
}

/// The strings in an optional array.
pub open spec fn strings_in(o: Option<JsonV>) -> Seq<Seq<char>> {
    strings_among(items_in(o), items_in(o).len() as int)
}

pub fn strings_of(o: Option<&Json>) -> (r: Vec<String>)
    ensures
        texts(r@) == strings_in(opt_view(o)),
{
    let ghost items = items_in(opt_view(o));
    let n: usize = items_len(o);
    let mut out: Vec<String> = Vec::new();
    let mut i: usize = 0;
    assert(texts(out@) =~= Seq::<Seq<char>>::empty());
    while i < n
        invariant
            items == items_in(opt_view(o)),
            n == items.len(),
            i <= n,
            texts(out@) == strings_among(items, i as int),
        decreases n - i,
    {
        match item_at(o, i).as_str() {
            Some(s) => {
                let ghost before = out@;
                out.push(s);
                assert(texts(out@) =~= texts(before).push(s@));
            },
            None => {},
        }
        i += 1;
    }
    out
}

/// The node ids of a request: the list, or else the single one.
pub open spec fn requested_ids(p: JsonV) -> Seq<Seq<char>> {
    let many = strings_in(p.get("node_ids"@));
    if many.len() > 0 {
        many
    } else {
        match str_in(p.get("node_id"@)) {
            Some(one) => seq![one],
            None => Seq::empty(),
        }
    }
}

pub fn node_ids(p: &Json) -> (r: Vec<String>)
    ensures
        texts(r@) == requested_ids(p@),
{
    let mut ids = strings_of(p.get("node_ids"));
    assert(texts(ids@).len() == ids.len());
    if ids.len() == 0 {
        match str_of(p.get("node_id")) {
            Some(one) => {
                ids.push(one);
                assert(texts(ids@) =~= seq![one@]);
            },
            None => {
                assert(texts(ids@) =~= Seq::<Seq<char>>::empty());
            },
        }
    }
    ids
}

/// The members that a quorum of `n` needs.
pub open spec fn majority(n: int) -> int {
    n / 2 + 1
}

/// Whether a node may be removed: the last control plane may not, nor one
/// whose loss would leave fewer members than a majority.
pub open spec fn removable(role: Seq<char>, cps: int) -> bool {
    role != "controlplane"@ || (cps - 1 >= 1 && cps - 1 >= majority(cps))
}

/// Checks that a node may be removed.
pub fn check_removal(role: &str, name: &str, cps: i64) -> (r: Result<(), String>)
    requires
        cps > i64::MIN,
    ensures
        match r {
            Ok(()) => removable(role@, cps as int),
            Err(e) => !removable(role@, cps as int) && e@ == if cps - 1 < 1 {
                "cannot remove last control plane ("@ + name@ + ")"@
            } else {
                "removing "@ + name@ + " would break etcd quorum (have "@ + sdec(cps as int)
                    + ", need majority "@ + sdec(majority(cps as int)) + ")"@
            },
        },
{
    if str_eq(role, "controlplane") {
        let remaining: i64 = cps - 1;
        if remaining < 1 {
            return Err(lit("cannot remove last control plane (").concat(name).concat(")"));
        }
        let need: i64 = cps / 2 + 1;
        if remaining < need {
            return Err(
                lit("removing ").concat(name).concat(" would break etcd quorum (have ").concat(
                    &i64_str(cps),
                ).concat(", need majority ").concat(&i64_str(need)).concat(")"),
            );
        }
    }
    Ok(())
}

/// A removal that is allowed leaves a control plane, and as many members as a
/// majority of the old set.
pub proof fn law_removal_keeps_quorum(cps: int)
    requires
        removable("controlplane"@, cps),
    ensures
        cps - 1 >= 1,
        2 * (cps - 1) > cps,
{
}

/// A cluster of three or more control planes can always lose one; smaller ones
/// never can.
pub proof fn law_removal_needs_three(cps: int)
    requires
        cps >= 0,
    ensures
        removable("controlplane"@, cps) <==> cps >= 3,
{
}

// ---------------------------------------------------------------------------
// Deleting the machines of a cluster
// ---------------------------------------------------------------------------

/// The machine belongs to the cluster: it is a node's, or, where no node has a
/// number, one of the planned run.
pub open spec fn owned_vmid(
    vmids: Seq<Option<i64>>,
    cp_vmid: Option<i64>,
    planned: int,
    x: int,
) -> bool {
    if exists|i: int| 0 <= i < vmids.len() && (#[trigger] vmids[i]) is Some {
        exists|i: int| 0 <= i < vmids.len() && (#[trigger] vmids[i]) == Some(x as i64) && x
            == x as i64
    } else {
        match cp_vmid {
            Some(b) => b <= x < b + planned,
            None => false,
        }
    }
}

/// No node has a machine number.
pub open spec fn all_unnumbered(vmids: Seq<Option<i64>>) -> bool {
    forall|i: int| 0 <= i < vmids.len() ==> (#[trigger] vmids[i]) is None
}

fn insert_vmid(v: &mut Vec<i64>, x: i64)
    requires
        forall|i: int, j: int| 0 <= i < j < old(v).len() ==> old(v)@[i] < old(v)@[j],
    ensures
        forall|i: int, j: int| 0 <= i < j < final(v).len() ==> final(v)@[i] < final(v)@[j],
        forall|y: i64| #[trigger]
            final(v)@.contains(y) <==> old(v)@.contains(y) || y == x,
{
    let ghost before = v@;
    let mut i: usize = 0;
    while i < v.len() && v[i] < x
        invariant
            i <= v.len(),
            before == v@,
            forall|k: int| 0 <= k < i ==> before[k] < x,
        decreases v.len() - i,
    {
        i += 1;
    }
    if i < v.len() && v[i] == x {
        assert(before[i as int] == x);
        return ;
    }
    let ghost at = i as int;
    v.insert(i, x);
    proof {
        let after = v@;
        assert(after =~= before.insert(at, x));
        assert forall|y: i64| #[trigger] after.contains(y) <==> before.contains(y) || y == x by {
            if after.contains(y) {
                let k = choose|k: int| 0 <= k < after.len() && after[k] == y;
                if k < at {
                    assert(before[k] == y);
                } else if k > at {
                    assert(before[k - 1] == y);
                }
            }
            if before.contains(y) {
                let k = choose|k: int| 0 <= k < before.len() && before[k] == y;
                if k < at {
                    assert(after[k] == y);
                } else {
                    assert(after[k + 1] == y);
                }
            }
            assert(after[at] == x);
        }
    }
}

/// The numbers of the machines to delete with a cluster, each once, in
/// ascending order.
pub fn purge_vmids(vmids: &Vec<Option<i64>>, cp_vmid: Option<i64>, cps: i64, workers: i64) -> (r:
    Vec<i64>)
    requires
        all_unnumbered(vmids@) && cp_vmid is Some ==> i64::MIN <= cps + workers <= i64::MAX
            && cp_vmid->0 + cps + workers - 1 <= i64::MAX,
    ensures
        forall|i: int, j: int| 0 <= i < j < r.len() ==> r@[i] < r@[j],
        forall|x: i64| #[trigger]
            r@.contains(x) <==> owned_vmid(vmids@, cp_vmid, cps + workers, x as int),
{
    let mut out: Vec<i64> = Vec::new();
    let mut i: usize = 0;
    let mut any = false;
    while i < vmids.len()
        invariant
            i <= vmids.len(),
            any == exists|k: int| 0 <= k < i && (#[trigger] vmids@[k]) is Some,
            forall|a: int, b: int| 0 <= a < b < out.len() ==> out@[a] < out@[b],
            forall|x: i64| #[trigger]
                out@.contains(x) <==> exists|k: int| 0 <= k < i && (#[trigger] vmids@[k]) == Some(x),
        decreases vmids.len() - i,
    {
        let ghost before = out@;
        let ghost any_before = any;
        match vmids[i] {
            Some(x) => {
                insert_vmid(&mut out, x);
                any = true;
                proof {
                    assert(vmids@[i as int] is Some);
                    assert forall|y: i64| #[trigger]
                        out@.contains(y) <==> exists|k: int|
                            0 <= k < i + 1 && (#[trigger] vmids@[k]) == Some(y) by {
                        assert(out@.contains(y) <==> before.contains(y) || y == x);
                        if before.contains(y) {
                            let k = choose|k: int|
                                0 <= k < i && (#[trigger] vmids@[k]) == Some(y);
                            assert(vmids@[k] == Some(y));
                        }
                        if y == x {
                            assert(vmids@[i as int] == Some(y));
                        }
                    }
                }
            },
            None => {
                proof {
                    assert forall|y: i64| #[trigger]
                        out@.contains(y) <==> exists|k: int|
                            0 <= k < i + 1 && (#[trigger] vmids@[k]) == Some(y) by {
                        assert(out@.contains(y) <==> before.contains(y));
                        if before.contains(y) {
                            let k = choose|k: int|
                                0 <= k < i && (#[trigger] vmids@[k]) == Some(y);
                            assert(vmids@[k] == Some(y));
                        }
                    }
                    if any_before {
                        let k = choose|k: int| 0 <= k < i && (#[trigger] vmids@[k]) is Some;
                        assert(vmids@[k] is Some);
                    }
                }
            },
        }
        i += 1;
    }
    if !any {
        match cp_vmid {
            Some(b) => {
                assert(all_unnumbered(vmids@));
                let total: i64 = cps + workers;
                assert(out@ =~= Seq::<i64>::empty()) by {
                    if out.len() > 0 {
                        assert(out@.contains(out@[0]));
                        let k = choose|k: int|
                            0 <= k < vmids.len() && (#[trigger] vmids@[k]) == Some(out@[0]);
                        assert(vmids@[k] is Some);
                    }
                }
                let mut n: i64 = 0;
                while n < total
                    invariant
                        total == cps + workers,
                        b + total - 1 <= i64::MAX,
                        0 <= n,
                        n <= total || n == 0,
                        out.len() == n,
                        forall|a: int| 0 <= a < out.len() ==> (#[trigger] out@[a]) == b + a,
                    decreases total - n,
                {
                    out.push(b + n);
                    n += 1;
                }
                assert forall|x: i64| #[trigger]
                    out@.contains(x) <==> b <= x < b + total by {
                    if out@.contains(x) {
                        let k = choose|k: int| 0 <= k < out@.len() && out@[k] == x;
                        assert(out@[k] == b + k);
                    }
                    if b <= x < b + total {
                        assert(out@[x - b] == x);
                    }
                }
            },
            None => {
                assert forall|x: i64| !(#[trigger] out@.contains(x)) by {
                    if out@.contains(x) {
                        let k = choose|k: int|
                            0 <= k < vmids.len() && (#[trigger] vmids@[k]) == Some(x);
                        assert(vmids@[k] is Some);
                    }
                }
            },
        }
    }
    out
}

// ---------------------------------------------------------------------------
// Resizing
// ---------------------------------------------------------------------------

/// The hardware of a node as it is recorded.
#[derive(Debug, PartialEq, Eq)]
pub struct Hardware {
    pub memory: Option<i64>,
    pub cores: Option<i64>,
    pub disk_gb: Option<i64>,
}

/// What a resize changes.
#[derive(Debug, PartialEq, Eq)]
pub struct ResizePlan {
    /// The hardware to record.
    pub memory: Option<i64>,
    pub cores: Option<i64>,
    pub disk_gb: Option<i64>,
    /// What to hand to the hypervisor, where it changes.
    pub set_memory: Option<i64>,
    pub set_cores: Option<i64>,
    /// The request names a disk size.
    pub disk_requested: bool,
    /// The request asks for a smaller disk, which is not made.
    pub shrink_refused: bool,
}

/// What the request asks for, else what there is.
pub open spec fn wanted(asked: Option<int>, now: Option<i64>) -> Option<int> {
    match asked {
        Some(n) => Some(n),
        None => match now {
            Some(n) => Some(n as int),
            None => None,
        },
    }
}

/// The disk to record: the wanted size, but never less than what there is.
pub open spec fn grown_disk(asked: Option<int>, now: Option<i64>) -> Option<int> {
    match (wanted(asked, now), now) {
        (Some(d), Some(cur)) => Some(
            if d < cur {
                cur as int
            } else {
                d
            },
        ),
        (w, _n) => w,
    }
}

fn want(asked: Option<i64>, now: Option<i64>) -> (r: Option<i64>)
    ensures
        opt_int(r) == wanted(opt_int(asked), now),
{
    match asked {
        Some(n) => Some(n),
        None => now,
    }
}

/// Plans a resize. Disks only grow.
pub fn resize_plan(p: &Json, now: &Hardware) -> (r: ResizePlan)
    ensures
        opt_int(r.memory) == wanted(int_in(p@.get("memory"@)), now.memory),
        opt_int(r.cores) == wanted(int_in(p@.get("cores"@)), now.cores),
        opt_int(r.disk_gb) == grown_disk(int_in(p@.get("disk_gb"@)), now.disk_gb),
        r.set_memory == if r.memory != now.memory {
            r.memory
        } else {
            None
        },
        r.set_cores == if r.cores != now.cores {
            r.cores
        } else {
            None
        },
        r.disk_requested == (int_in(p@.get("disk_gb"@)) is Some),
        r.shrink_refused == (int_in(p@.get("disk_gb"@)) matches Some(d) && now.disk_gb matches Some(
            cur,
        ) && d < cur),
{
    let asked_disk = i64_of(p.get("disk_gb"));
    let memory = want(i64_of(p.get("memory")), now.memory);
    let cores = want(i64_of(p.get("cores")), now.cores);
    let disk = want(asked_disk, now.disk_gb);
    let mut shrink = false;
    let disk_gb: Option<i64> = match (disk, now.disk_gb) {
        (Some(d), Some(cur)) => if d < cur {
            shrink = true;
            Some(cur)
        } else {
            Some(d)
        },
        (d, _) => d,
    };
    let same_memory = same(memory, now.memory);
    let same_cores = same(cores, now.cores);
    ResizePlan {
        memory,
        cores,
        disk_gb,
        set_memory: if same_memory {
            None
        } else {
            memory
        },
        set_cores: if same_cores {
            None
        } else {
            cores
        },
        disk_requested: asked_disk.is_some(),
        shrink_refused: shrink,
    }
}

fn same(a: Option<i64>, b: Option<i64>) -> (r: bool)
    ensures
        r == (a == b),
{
    match (a, b) {
        (Some(x), Some(y)) => x == y,
        (None, None) => true,
        _ => false,
    }
}

impl ResizePlan {
    /// The machine must restart for the change to take effect.
    pub open spec fn restarts(self) -> bool {
        self.set_cores is Some || self.set_memory is Some
    }

    pub fn needs_restart(&self) -> (r: bool)
        ensures
            r == self.restarts(),
    {
        self.set_cores.is_some() || self.set_memory.is_some()
    }
}

/// What to do about the disk on the hypervisor.
#[derive(Debug, Clone, Copy, PartialEq, Eq, Structural)]
pub enum DiskStep {
    /// Nothing to do.
    Keep,
    /// The disk is large enough; the guest's file system may still grow.
    AlreadyLarge(i64),
    /// Grow the disk from one size to another.
    Grow(i64, i64),
}

/// The disk step for a hypervisor disk of `actual` GiB.
pub open spec fn disk_step(plan: ResizePlan, actual: int) -> DiskStep {
    match plan.disk_gb {
        Some(w) => if w > actual {
            DiskStep::Grow(actual as i64, w)
        } else if plan.disk_requested {
            DiskStep::AlreadyLarge(w)
        } else {
            DiskStep::Keep
        },
        None => DiskStep::Keep,
    }
}

/// The disk step; `measured` is what the hypervisor reports, `recorded` what
/// the node's row says.
pub fn plan_disk(plan: &ResizePlan, measured: Option<i64>, recorded: Option<i64>) -> (r: DiskStep)
    ensures
        r == disk_step(
            *plan,
            match (measured, recorded) {
                (Some(m), _n) => m as int,
                (None, Some(c)) => c as int,
                (None, None) => 0,
            },
        ),
{
    let actual: i64 = match measured {
        Some(m) => m,
        None => match recorded {
            Some(c) => c,
            None => 0,
        },
    };
    match plan.disk_gb {
        Some(w) => if w > actual {
            DiskStep::Grow(actual, w)
        } else if plan.disk_requested {
            DiskStep::AlreadyLarge(w)
        } else {
            DiskStep::Keep
        },
        None => DiskStep::Keep,
    }
}

/// A resize never records a smaller disk, and never shrinks one.
pub proof fn law_disk_never_shrinks(asked: Option<int>, now: i64, plan: ResizePlan, actual: int)
    requires
        opt_int(plan.disk_gb) == grown_disk(asked, Some(now)),
    ensures
        plan.disk_gb is Some,
        plan.disk_gb->0 >= now,
        disk_step(plan, actual) matches DiskStep::Grow(_a, b) ==> b > actual,
{
}

// ---------------------------------------------------------------------------
// Rebooting
// ---------------------------------------------------------------------------

/// The outcome of a reboot job in which `failures` nodes failed.
pub fn reboot_result(failures: usize) -> (r: Result<(), String>)
    ensures
        match r {
            Ok(()) => failures == 0,
            Err(e) => failures > 0 && e@ == dec(failures as nat) + " node(s) failed to reboot"@,
        },
{
    if failures > 0 {
        Err(usize_str(failures).concat(" node(s) failed to reboot"))
    } else {
        Ok(())
    }
}

} // verus!
