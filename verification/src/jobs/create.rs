//! Creating a cluster: the call of the lab script, the addresses it may use, the
//! node rows that show up at once, and what is recorded at the end.
use crate::jobs::lab::{Hypervisor, family, hypervisor};
use crate::jobs::provider::{gateway_from_subnet, swap_last_part};
use crate::jobs::rows::{
    ClusterRow, EnvOp, EnvV, arg, arg2, env_get, env_get_nonempty, env_nonempty, envs, host_env,
    set_env,
};
use crate::json::{Json, JsonV, opt_view};
use crate::num::{i64_str, law_parse_rendered_signed, parse_int, sdec};
use crate::text::{
    join, lines, lit, lower, opt_text, split, str_eq, str_join, str_lines, str_lower,
    str_strip_prefix, str_trim, str_trim_start, str_trim_start_str, str_until, strip_prefix, texts,
    trim, trim_start, trim_start_str,
};
use vstd::prelude::*;
use vstd::string::*;

verus! {

/// Where machine numbers start when nothing else is said.
pub const DEFAULT_CP_VMID: i64 = 210;

/// The integer in an optional document, where `i64` holds it.
pub open spec fn int_in(o: Option<JsonV>) -> Option<int> {
    match o {
        Some(j) => match j.as_int() {
            Some(n) => if n >= i64::MIN {
                Some(n)
            } else {
                None
            },
            None => None,
        },
        None => None,
    }
}

/// The integer in an optional document.
pub fn i64_of(o: Option<&Json>) -> (r: Option<i64>)
    ensures
        match r {
            Some(n) => int_in(opt_view(o)) == Some(n as int),
            None => int_in(opt_view(o)) is None,
        },
{
    match o {
        Some(j) => j.as_i64(),
        None => None,
    }
}

pub open spec fn int_or(o: Option<int>, d: int) -> int {
    match o {
        Some(n) => n,
        None => d,
    }
}

/// The number of the first control plane's machine: the cluster's own, else the
/// request's, else the default.
pub open spec fn first_vmid(c: ClusterRow, payload: JsonV) -> int {
    match c.cp_vmid {
        Some(v) => v as int,
        None => int_or(int_in(payload.get("cp_vmid"@)), DEFAULT_CP_VMID as int),
    }
}

pub fn create_vmid(c: &ClusterRow, payload: &Json) -> (r: i64)
    ensures
        r == first_vmid(*c, payload@),
{
    match c.cp_vmid {
        Some(v) => v,
        None => match i64_of(payload.get("cp_vmid")) {
            Some(v) => v,
            None => DEFAULT_CP_VMID,
        },
    }
}

// ---------------------------------------------------------------------------
// The call of the lab script
// ---------------------------------------------------------------------------

/// The arguments that every cluster has.
pub open spec fn base_args(c: ClusterRow, vmid: int) -> Seq<Seq<char>> {
    Seq::empty().push("--skip-build"@).push("--cluster"@).push(c.name@).push("--prefix"@).push(
        c.name@,
    ).push("--controlplanes"@).push(sdec(c.controlplanes as int)).push("--workers"@).push(
        sdec(c.workers as int),
    ).push("--cni"@).push(c.cni@).push("--cp-vmid"@).push(sdec(vmid)).push("--cp-memory"@).push(
        sdec(c.cp_memory as int),
    ).push("--cp-cores"@).push(sdec(c.cp_cores as int)).push("--cp-disk-gb"@).push(
        sdec(c.cp_disk_gb as int),
    ).push("--worker-memory"@).push(sdec(c.worker_memory as int)).push("--worker-cores"@).push(
        sdec(c.worker_cores as int),
    ).push("--worker-disk-gb"@).push(sdec(c.worker_disk_gb as int)).push("--k8s"@).push(
        c.k8s_version@,
    ).push("--max-pods"@).push(sdec(c.max_pods as int)).push("--pod-subnet"@).push(
        c.pod_subnet@,
    ).push("--service-subnet"@).push(c.service_subnet@)
}

/// The network mode asks for IPv6.
pub open spec fn wants_ipv6(mode: Seq<char>) -> bool {
    lower(mode) == "dual-stack"@ || lower(mode) == "ipv6"@
}

pub fn mode_wants_ipv6(mode: &str) -> (r: bool)
    ensures
        r == wants_ipv6(mode@),
{
    let m = str_lower(mode);
    str_eq(&m, "dual-stack") || str_eq(&m, "ipv6")
}

/// The text where it is present and not empty.
pub open spec fn nonempty_or(o: Option<String>, d: Seq<char>) -> Seq<char> {
    match o {
        Some(s) => if s@.len() > 0 {
            s@
        } else {
            d
        },
        None => d,
    }
}

fn nonempty_text(o: &Option<String>, d: &str) -> (r: String)
    ensures
        r@ == nonempty_or(*o, d@),
{
    match o {
        Some(s) => if s.is_empty() {
            lit(d)
        } else {
            lit(s)
        },
        None => lit(d),
    }
}

/// The subnets of a cluster with IPv6.
pub open spec fn ipv6_args(args: Seq<Seq<char>>, c: ClusterRow) -> Seq<Seq<char>> {
    if wants_ipv6(c.network_mode@) {
        args.push("--dual-stack"@).push("--pod-subnet-ipv6"@).push(
            nonempty_or(c.pod_subnet_ipv6, "2001:db8:10:0::/56"@),
        ).push("--service-subnet-ipv6"@).push(
            nonempty_or(c.service_subnet_ipv6, "2001:db8:96:1::/112"@),
        )
    } else {
        args
    }
}

/// The address is given, and the cluster's network mode is not `without`.
pub open spec fn vip_used(c: ClusterRow, vip: Option<String>, without: Seq<char>) -> bool {
    c.controlplanes > 1 && vip is Some && vip->0@.len() > 0 && lower(c.network_mode@) != without
}

/// The virtual addresses: only a cluster with several control planes has them.
pub open spec fn vip_args(args: Seq<Seq<char>>, c: ClusterRow) -> Seq<Seq<char>> {
    let a = if vip_used(c, c.vip, "ipv6"@) {
        args.push("--vip"@).push(c.vip->0@)
    } else {
        args
    };
    if vip_used(c, c.vip6, "ipv4"@) {
        a.push("--vip6"@).push(c.vip6->0@)
    } else {
        a
    }
}

/// The arguments of the lab script.
pub open spec fn create_args(c: ClusterRow, vmid: int, arch: Seq<char>) -> Seq<Seq<char>> {
    vip_args(ipv6_args(base_args(c, vmid), c).push("--arch"@).push(arch), c)
}

/// The arguments of the lab script for a cluster whose first machine is `vmid`
/// and whose guests are of architecture `arch`.
pub fn create_arguments(c: &ClusterRow, vmid: i64, arch: &str) -> (r: Vec<String>)
    ensures
        texts(r@) == create_args(*c, vmid as int, arch@),
{
    let mut v: Vec<String> = Vec::new();
    assert(texts(v@) =~= Seq::<Seq<char>>::empty());
    arg(&mut v, "--skip-build");
    arg2(&mut v, "--cluster", &c.name);
    arg2(&mut v, "--prefix", &c.name);
    arg2(&mut v, "--controlplanes", &i64_str(c.controlplanes));
    arg2(&mut v, "--workers", &i64_str(c.workers));
    arg2(&mut v, "--cni", &c.cni);
    arg2(&mut v, "--cp-vmid", &i64_str(vmid));
    arg2(&mut v, "--cp-memory", &i64_str(c.cp_memory));
    arg2(&mut v, "--cp-cores", &i64_str(c.cp_cores));
    arg2(&mut v, "--cp-disk-gb", &i64_str(c.cp_disk_gb));
    arg2(&mut v, "--worker-memory", &i64_str(c.worker_memory));
    arg2(&mut v, "--worker-cores", &i64_str(c.worker_cores));
    arg2(&mut v, "--worker-disk-gb", &i64_str(c.worker_disk_gb));
    arg2(&mut v, "--k8s", &c.k8s_version);
    arg2(&mut v, "--max-pods", &i64_str(c.max_pods));
    arg2(&mut v, "--pod-subnet", &c.pod_subnet);
    arg2(&mut v, "--service-subnet", &c.service_subnet);
    assert(texts(v@) == base_args(*c, vmid as int));
    if mode_wants_ipv6(&c.network_mode) {
        arg(&mut v, "--dual-stack");
        arg2(
            &mut v,
            "--pod-subnet-ipv6",
            &nonempty_text(&c.pod_subnet_ipv6, "2001:db8:10:0::/56"),
        );
        arg2(
            &mut v,
            "--service-subnet-ipv6",
            &nonempty_text(&c.service_subnet_ipv6, "2001:db8:96:1::/112"),
        );
    }
    arg2(&mut v, "--arch", arch);
    if c.controlplanes > 1 {
        let mode = str_lower(&c.network_mode);
        match &c.vip {
            Some(vip) => if !vip.is_empty() && !str_eq(&mode, "ipv6") {
                arg2(&mut v, "--vip", vip);
            },
            None => {},
        }
        match &c.vip6 {
            Some(vip6) => if !vip6.is_empty() && !str_eq(&mode, "ipv4") {
                arg2(&mut v, "--vip6", vip6);
            },
            None => {},
        }
    }
    v
}

/// A cluster with one control plane gets no virtual address: its call is the
/// one of the same cluster without any.
pub proof fn law_single_control_plane_has_no_vip(c: ClusterRow, args: Seq<Seq<char>>)
    requires
        c.controlplanes <= 1,
    ensures
        vip_args(args, c) == args,
{
}

// ---------------------------------------------------------------------------
// Static addresses
// ---------------------------------------------------------------------------

/// What is known when static addresses are chosen.
#[derive(Debug, PartialEq, Eq)]
pub struct StaticInput {
    pub kind: String,
    pub subnet: String,
    /// How many machines there will be.
    pub need: i64,
    /// The service's own environment.
    pub env: Vec<(String, String)>,
    /// The gateway of the service's own host.
    pub route_gateway: Option<String>,
    /// Addresses in use.
    pub excluded: Vec<String>,
}

/// The variable is set to more than white space.
pub open spec fn env_set(env: Seq<(String, String)>, key: Seq<char>) -> bool {
    match host_env(env, key) {
        Some(v) => trim(v).len() > 0,
        None => false,
    }
}

/// The operator has settled the addresses: of the Proxmox variables the first
/// one that is present counts.
pub open spec fn operator_static(kind: Seq<char>, env: Seq<(String, String)>) -> bool {
    match family(kind) {
        Hypervisor::Nutanix => env_set(env, "NUTANIX_STATIC_IPS"@),
        Hypervisor::Vsphere => env_set(env, "VSPHERE_STATIC_IPS"@),
        Hypervisor::Proxmox => if host_env(env, "PROXMOX_STATIC_BASE"@) is Some {
            env_set(env, "PROXMOX_STATIC_BASE"@)
        } else if host_env(env, "PROXMOX_STATIC_SUBNET"@) is Some {
            env_set(env, "PROXMOX_STATIC_SUBNET"@)
        } else {
            env_set(env, "PROXMOX_STATIC_IPS"@)
        },
    }
}

fn env_is_set(env: &Vec<(String, String)>, key: &str) -> (r: bool)
    ensures
        r == env_set(env@, key@),
{
    match env_get(env, key) {
        Some(v) => !str_trim(&v).is_empty(),
        None => false,
    }
}

/// Whether the operator has settled the addresses, so that no scan is made.
pub fn operator_has_static(kind: &str, env: &Vec<(String, String)>) -> (r: bool)
    ensures
        r == operator_static(kind@, env@),
{
    match hypervisor(kind) {
        Hypervisor::Nutanix => env_is_set(env, "NUTANIX_STATIC_IPS"),
        Hypervisor::Vsphere => env_is_set(env, "VSPHERE_STATIC_IPS"),
        Hypervisor::Proxmox => {
            if env_get(env, "PROXMOX_STATIC_BASE").is_some() {
                env_is_set(env, "PROXMOX_STATIC_BASE")
            } else if env_get(env, "PROXMOX_STATIC_SUBNET").is_some() {
                env_is_set(env, "PROXMOX_STATIC_SUBNET")
            } else {
                env_is_set(env, "PROXMOX_STATIC_IPS")
            }
        },
    }
}

/// The first `need` of the free addresses.
pub open spec fn used_ips(free: Seq<Seq<char>>, need: int) -> Seq<Seq<char>> {
    if 0 <= need < free.len() {
        free.take(need)
    } else {
        free
    }
}

/// The gateway of the guests: the operator's, the service host's, the subnet's
/// first address, or a fixed one.
pub open spec fn guest_gateway(i: StaticInput) -> Seq<char> {
    let op = if host_env(i.env@, "PROXMOX_STATIC_GATEWAY"@) is Some {
        env_nonempty(i.env@, "PROXMOX_STATIC_GATEWAY"@)
    } else {
        env_nonempty(i.env@, "LAB_GATEWAY"@)
    };
    match op {
        Some(g) => g,
        None => match i.route_gateway {
            Some(g) => g@,
            None => match swap_last_part(split(i.subnet@, '/')[0], ".1"@) {
                Some(g) => g,
                None => "10.1.1.1"@,
            },
        },
    }
}

pub fn static_gateway(i: &StaticInput) -> (r: String)
    ensures
        r@ == guest_gateway(*i),
{
    let op = if env_get(&i.env, "PROXMOX_STATIC_GATEWAY").is_some() {
        env_get_nonempty(&i.env, "PROXMOX_STATIC_GATEWAY")
    } else {
        env_get_nonempty(&i.env, "LAB_GATEWAY")
    };
    match op {
        Some(g) => g,
        None => match &i.route_gateway {
            Some(g) => lit(g),
            None => match gateway_from_subnet(&i.subnet) {
                Some(g) => g,
                None => lit("10.1.1.1"),
            },
        },
    }
}

/// The environment and the log line of a scan that found `free` addresses
/// (empty: the scan failed or found none).
pub open spec fn static_ops(i: StaticInput, free: Seq<Seq<char>>) -> (Seq<EnvV>, Seq<char>) {
    let none = Seq::<EnvV>::empty();
    let ips = used_ips(free, i.need as int);
    let dhcp = "=> could not auto-assign IPs in "@ + i.subnet@ + ", falling back to DHCP\n"@;
    match family(i.kind@) {
        Hypervisor::Nutanix => if free.len() > 0 {
            (
                none.push(("NUTANIX_STATIC_IPS"@, Some(join(ips, " "@)))),
                "=> auto-assigned Nutanix IPAM reserved IPs: "@ + join(ips, ", "@) + "\n"@,
            )
        } else {
            (none, dhcp)
        },
        Hypervisor::Vsphere => if free.len() > 0 {
            (
                none.push(("VSPHERE_STATIC_IPS"@, Some(join(ips, " "@)))),
                "=> auto-assigned vSphere guest IPs: "@ + join(ips, ", "@) + "\n"@,
            )
        } else {
            (none, dhcp)
        },
        Hypervisor::Proxmox => if free.len() > 0 {
            (
                none.push(("PROXMOX_STATIC_IPS"@, Some(join(ips, " "@)))).push(
                    ("PROXMOX_STATIC_GATEWAY"@, Some(guest_gateway(i))),
                ),
                "=> auto-assigned Proxmox static IPs (TCP-scanned free): "@ + join(ips, ", "@)
                    + " gateway="@ + guest_gateway(i) + "\n"@,
            )
        } else {
            (
                none.push(("PROXMOX_STATIC_EXCLUDE"@, Some(join(texts(i.excluded@), ","@)))),
                "=> could not auto-scan, falling back to exclusion-based DHCP: "@ + join(
                    texts(i.excluded@),
                    ", "@,
                ) + "\n"@,
            )
        },
    }
}

fn first_free(free: &Vec<String>, need: i64) -> (r: Vec<String>)
    ensures
        texts(r@) == used_ips(texts(free@), need as int),
{
    let mut out: Vec<String> = Vec::new();
    let n: usize = if need >= 0 && (need as u64) < free.len() as u64 {
        need as usize
    } else {
        free.len()
    };
    let mut i: usize = 0;
    while i < n
        invariant
            i <= n <= free.len(),
            out.len() == i,
            forall|k: int| 0 <= k < i ==> (#[trigger] out@[k])@ == free@[k]@,
        decreases n - i,
    {
        out.push(lit(&free[i]));
        i += 1;
    }
    assert(texts(out@) =~= used_ips(texts(free@), need as int));
    out
}

/// The environment and the log line once the scan has been made.
pub fn static_env(i: &StaticInput, free: &Vec<String>) -> (r: (Vec<EnvOp>, String))
    ensures
        (envs(r.0@), r.1@) == static_ops(*i, texts(free@)),
{
    let mut ops: Vec<EnvOp> = Vec::new();
    assert(envs(ops@) =~= Seq::<EnvV>::empty());
    assert(texts(free@).len() == free.len());
    let f = hypervisor(&i.kind);
    if free.len() > 0 {
        let ips = first_free(free, i.need);
        let spaced = str_join(&ips, " ");
        let listed = str_join(&ips, ", ");
        match f {
            Hypervisor::Nutanix => {
                set_env(&mut ops, "NUTANIX_STATIC_IPS", &spaced);
                let note = lit("=> auto-assigned Nutanix IPAM reserved IPs: ").concat(
                    &listed,
                ).concat("\n");
                (ops, note)
            },
            Hypervisor::Vsphere => {
                set_env(&mut ops, "VSPHERE_STATIC_IPS", &spaced);
                let note = lit("=> auto-assigned vSphere guest IPs: ").concat(&listed).concat("\n");
                (ops, note)
            },
            Hypervisor::Proxmox => {
                set_env(&mut ops, "PROXMOX_STATIC_IPS", &spaced);
                let gw = static_gateway(i);
                set_env(&mut ops, "PROXMOX_STATIC_GATEWAY", &gw);
                let note = lit("=> auto-assigned Proxmox static IPs (TCP-scanned free): ").concat(
                    &listed,
                ).concat(" gateway=").concat(&gw).concat("\n");
                (ops, note)
            },
        }
    } else {
        match f {
            Hypervisor::Nutanix | Hypervisor::Vsphere => {
                let note = lit("=> could not auto-assign IPs in ").concat(&i.subnet).concat(
                    ", falling back to DHCP\n",
                );
                (ops, note)
            },
            Hypervisor::Proxmox => {
                set_env(&mut ops, "PROXMOX_STATIC_EXCLUDE", &str_join(&i.excluded, ","));
                let note = lit(
                    "=> could not auto-scan, falling back to exclusion-based DHCP: ",
                ).concat(&str_join(&i.excluded, ", ")).concat("\n");
                (ops, note)
            },
        }
    }
}

// ---------------------------------------------------------------------------
// The rows of the planned nodes
// ---------------------------------------------------------------------------

/// A planned node.
#[derive(Debug, PartialEq, Eq)]
pub struct NodeSeed {
    pub name: String,
    pub role: String,
    pub vmid: Option<i64>,
    pub memory: i64,
    pub cores: i64,
    pub disk_gb: i64,
}

pub ghost struct NodeSeedV {
    pub name: Seq<char>,
    pub role: Seq<char>,
    pub vmid: Option<int>,
    pub memory: int,
    pub cores: int,
    pub disk_gb: int,
}

impl View for NodeSeed {
    type V = NodeSeedV;

    open spec fn view(&self) -> NodeSeedV {
        NodeSeedV {
            name: self.name@,
            role: self.role@,
            vmid: match self.vmid {
                Some(v) => Some(v as int),
                None => None,
            },
            memory: self.memory as int,
            cores: self.cores as int,
            disk_gb: self.disk_gb as int,
        }
    }
}

pub open spec fn seeds(v: Seq<NodeSeed>) -> Seq<NodeSeedV> {
    Seq::new(v.len(), |i: int| v[i]@)
}

/// The name of the control plane or worker with number `n`.
pub open spec fn node_name(cluster: Seq<char>, mid: Seq<char>, n: int) -> Seq<char> {
    cluster + mid + sdec(n)
}

/// Control plane number `n`.
pub open spec fn cp_seed(c: ClusterRow, n: int) -> NodeSeedV {
    NodeSeedV {
        name: node_name(c.name@, "-cp-"@, n),
        role: "controlplane"@,
        vmid: match c.cp_vmid {
            Some(v) => Some(v + n - 1),
            None => None,
        },
        memory: c.cp_memory as int,
        cores: c.cp_cores as int,
        disk_gb: c.cp_disk_gb as int,
    }
}

/// Worker number `n`: workers are numbered after the control planes.
pub open spec fn worker_seed(c: ClusterRow, n: int) -> NodeSeedV {
    let base = match c.cp_vmid {
        Some(v) => v as int,
        None => DEFAULT_CP_VMID as int,
    };
    NodeSeedV {
        name: node_name(c.name@, "-wk-"@, n),
        role: "worker"@,
        vmid: Some(base + c.controlplanes + n - 1),
        memory: c.worker_memory as int,
        cores: c.worker_cores as int,
        disk_gb: c.worker_disk_gb as int,
    }
}

pub open spec fn at_least_zero(n: int) -> nat {
    if n < 0 {
        0
    } else {
        n as nat
    }
}

/// All planned nodes: the control planes, then the workers, each from one on.
pub open spec fn node_seeds(c: ClusterRow) -> Seq<NodeSeedV> {
    Seq::new(at_least_zero(c.controlplanes as int), |i: int| cp_seed(c, i + 1)) + Seq::new(
        at_least_zero(c.workers as int),
        |i: int| worker_seed(c, i + 1),
    )
}

/// The machine numbers of all planned nodes fit their type.
pub open spec fn vmids_fit(c: ClusterRow) -> bool {
    let base = match c.cp_vmid {
        Some(v) => v as int,
        None => DEFAULT_CP_VMID as int,
    };
    let all = at_least_zero(c.controlplanes as int) + at_least_zero(c.workers as int);
    &&& i64::MIN < base + c.controlplanes
    &&& base + all <= i64::MAX
    &&& all <= usize::MAX
}

fn numbered(cluster: &str, mid: &str, n: i64) -> (r: String)
    ensures
        r@ == node_name(cluster@, mid@, n as int),
{
    lit(cluster).concat(mid).concat(&i64_str(n))
}

/// The planned nodes of a cluster.
pub fn plan_nodes(c: &ClusterRow) -> (r: Vec<NodeSeed>)
    requires
        vmids_fit(*c),
    ensures
        seeds(r@) == node_seeds(*c),
{
    let mut out: Vec<NodeSeed> = Vec::new();
    let mut i: i64 = 0;
    while i < c.controlplanes
        invariant
            vmids_fit(*c),
            0 <= i <= at_least_zero(c.controlplanes as int),
            out.len() == i,
            forall|k: int| 0 <= k < out.len() ==> (#[trigger] out@[k])@ == cp_seed(*c, k + 1),
        decreases c.controlplanes - i,
    {
        let vmid: Option<i64> = match c.cp_vmid {
            Some(v) => Some(v + i),
            None => None,
        };
        out.push(
            NodeSeed {
                name: numbered(&c.name, "-cp-", i + 1),
                role: lit("controlplane"),
                vmid,
                memory: c.cp_memory,
                cores: c.cp_cores,
                disk_gb: c.cp_disk_gb,
            },
        );
        i += 1;
    }
    let ghost cps = at_least_zero(c.controlplanes as int) as int;
    let base: i64 = match c.cp_vmid {
        Some(v) => v,
        None => DEFAULT_CP_VMID,
    };
    let worker_base: i64 = base + c.controlplanes;
    let mut j: i64 = 0;
    while j < c.workers
        invariant
            vmids_fit(*c),
            cps == at_least_zero(c.controlplanes as int),
            base == match c.cp_vmid {
                Some(v) => v,
                None => DEFAULT_CP_VMID,
            },
            worker_base == base + c.controlplanes,
            0 <= j <= at_least_zero(c.workers as int),
            out.len() == cps + j,
            forall|k: int| 0 <= k < cps ==> (#[trigger] out@[k])@ == cp_seed(*c, k + 1),
            forall|k: int|
                cps <= k < out.len() ==> (#[trigger] out@[k])@ == worker_seed(*c, k - cps + 1),
        decreases c.workers - j,
    {
        out.push(
            NodeSeed {
                name: numbered(&c.name, "-wk-", j + 1),
                role: lit("worker"),
                vmid: Some(worker_base + j),
                memory: c.worker_memory,
                cores: c.worker_cores,
                disk_gb: c.worker_disk_gb,
            },
        );
        j += 1;
    }
    assert(seeds(out@) =~= node_seeds(*c));
    out
}

/// The planned machine numbers of a cluster are all different: one number per
/// node, in one run.
pub proof fn law_planned_vmids_distinct(c: ClusterRow, i: int, j: int)
    requires
        c.cp_vmid is Some,
        c.controlplanes >= 0,
        0 <= i < j < node_seeds(c).len(),
    ensures
        node_seeds(c)[i].vmid is Some,
        node_seeds(c)[j].vmid is Some,
        node_seeds(c)[j].vmid->0 - node_seeds(c)[i].vmid->0 == j - i,
        node_seeds(c)[i].vmid->0 == c.cp_vmid->0 + i,
{
}

// ---------------------------------------------------------------------------
// The recorded endpoint
// ---------------------------------------------------------------------------

/// The host of a `server:` value; empty text counts as none for a plain host.
pub open spec fn server_value_host(v: Seq<char>) -> Option<Seq<char>> {
    let hostport = trim_start_str(trim_start_str(trim(v), "https://"@), "http://"@);
    match strip_prefix(hostport, "["@) {
        Some(rest) => Some(split(rest, ']')[0]),
        None => {
            let h = split(hostport, ':')[0];
            if h.len() > 0 {
                Some(h)
            } else {
                None
            }
        },
    }
}

/// The host of the first `server:` line at or after `i` that names one.
pub open spec fn endpoint_from(ls: Seq<Seq<char>>, i: int) -> Option<Seq<char>>
    decreases ls.len() - i,
{
    if 0 <= i < ls.len() {
        match strip_prefix(trim_start(ls[i]), "server:"@) {
            Some(rest) => match server_value_host(rest) {
                Some(h) => Some(h),
                None => endpoint_from(ls, i + 1),
            },
            None => endpoint_from(ls, i + 1),
        }
    } else {
        None
    }
}

fn host_of_server(v: &str) -> (r: Option<String>)
    ensures
        opt_text(r) == server_value_host(v@),
{
    let hostport = str_trim_start_str(&str_trim_start_str(&str_trim(v), "https://"), "http://");
    match str_strip_prefix(&hostport, "[") {
        Some(rest) => Some(str_until(&rest, ']')),
        None => {
            let h = str_until(&hostport, ':');
            if h.is_empty() {
                None
            } else {
                Some(h)
            }
        },
    }
}

/// The host of the kubeconfig's server.
pub fn endpoint_from_kubeconfig(text: &str) -> (r: Option<String>)
    ensures
        opt_text(r) == endpoint_from(lines(text@), 0),
{
    let ls = str_lines(text);
    let ghost want = lines(text@);
    let mut i: usize = 0;
    while i < ls.len()
        invariant
            i <= ls.len(),
            want == lines(text@),
            texts(ls@) == want,
            endpoint_from(want, 0) == endpoint_from(want, i as int),
        decreases ls.len() - i,
    {
        assert(want[i as int] == ls@[i as int]@);
        let t = str_trim_start(&ls[i]);
        match str_strip_prefix(&t, "server:") {
            Some(rest) => match host_of_server(&rest) {
                Some(h) => {
                    return Some(h);
                },
                None => {},
            },
            None => {},
        }
        i += 1;
    }
    assert(want.len() == ls.len());
    None
}

/// The endpoint of a new cluster: the kubeconfig's, else the virtual address of
/// a cluster with several control planes.
pub open spec fn endpoint(c: ClusterRow, kubeconfig: Seq<char>) -> Seq<char> {
    match endpoint_from(lines(kubeconfig), 0) {
        Some(h) => h,
        None => if c.controlplanes > 1 && c.vip is Some && c.vip->0@.len() > 0 {
            c.vip->0@
        } else {
            "unknown"@
        },
    }
}

pub fn cluster_endpoint(c: &ClusterRow, kubeconfig: &str) -> (r: String)
    ensures
        r@ == endpoint(*c, kubeconfig@),
{
    match endpoint_from_kubeconfig(kubeconfig) {
        Some(h) => h,
        None => match &c.vip {
            Some(v) => if c.controlplanes > 1 && !v.is_empty() {
                lit(v)
            } else {
                lit("unknown")
            },
            None => lit("unknown"),
        },
    }
}

// ---------------------------------------------------------------------------
// What the script is told
// ---------------------------------------------------------------------------

/// The word stands alone in a call of the script; any other option has a value
/// behind it.
pub open spec fn is_switch(w: Seq<char>) -> bool {
    w == "--skip-build"@ || w == "--dual-stack"@
}

/// The value of an option in a call, read word by word from `i` on.
pub open spec fn option_value(args: Seq<Seq<char>>, i: int, flag: Seq<char>) -> Option<Seq<char>>
    decreases args.len() - i,
{
    if 0 <= i < args.len() {
        if is_switch(args[i]) {
            option_value(args, i + 1, flag)
        } else if i + 1 >= args.len() {
            None
        } else if args[i] == flag {
            Some(args[i + 1])
        } else {
            option_value(args, i + 2, flag)
        }
    } else {
        None
    }
}

/// The value of an option in a call.
pub open spec fn option_in(args: Seq<Seq<char>>, flag: Seq<char>) -> Option<Seq<char>> {
    option_value(args, 0, flag)
}

/// The value of the option reads as the number.
pub open spec fn asks_for(args: Seq<Seq<char>>, flag: Seq<char>, n: int) -> bool {
    option_in(args, flag) is Some && parse_int(option_in(args, flag)->0) == Some(n)
}

proof fn lemma_option_names()
    ensures
        "--cluster"@ != "--prefix"@,
        "--cluster"@ != "--controlplanes"@,
        "--cluster"@ != "--workers"@,
        "--cluster"@ != "--cni"@,
        "--cluster"@ != "--cp-vmid"@,
        "--cluster"@ != "--cp-memory"@,
        "--cluster"@ != "--cp-cores"@,
        "--cluster"@ != "--cp-disk-gb"@,
        "--cluster"@ != "--worker-memory"@,
        "--cluster"@ != "--worker-cores"@,
        "--cluster"@ != "--worker-disk-gb"@,
        "--cluster"@ != "--k8s"@,
        "--cluster"@ != "--max-pods"@,
        "--cluster"@ != "--pod-subnet"@,
        "--cluster"@ != "--service-subnet"@,
        "--cluster"@ != "--pod-subnet-ipv6"@,
        "--cluster"@ != "--service-subnet-ipv6"@,
        "--cluster"@ != "--arch"@,
        "--cluster"@ != "--vip"@,
        "--cluster"@ != "--vip6"@,
        "--cluster"@ != "--skip-build"@,
        "--cluster"@ != "--dual-stack"@,
        "--prefix"@ != "--controlplanes"@,
        "--prefix"@ != "--workers"@,
        "--prefix"@ != "--cni"@,
        "--prefix"@ != "--cp-vmid"@,
        "--prefix"@ != "--cp-memory"@,
        "--prefix"@ != "--cp-cores"@,
        "--prefix"@ != "--cp-disk-gb"@,
        "--prefix"@ != "--worker-memory"@,
        "--prefix"@ != "--worker-cores"@,
        "--prefix"@ != "--worker-disk-gb"@,
        "--prefix"@ != "--k8s"@,
        "--prefix"@ != "--max-pods"@,
        "--prefix"@ != "--pod-subnet"@,
        "--prefix"@ != "--service-subnet"@,
        "--prefix"@ != "--pod-subnet-ipv6"@,
        "--prefix"@ != "--service-subnet-ipv6"@,
        "--prefix"@ != "--arch"@,
        "--prefix"@ != "--vip"@,
        "--prefix"@ != "--vip6"@,
        "--prefix"@ != "--skip-build"@,
        "--prefix"@ != "--dual-stack"@,
        "--controlplanes"@ != "--workers"@,
        "--controlplanes"@ != "--cni"@,
        "--controlplanes"@ != "--cp-vmid"@,
        "--controlplanes"@ != "--cp-memory"@,
        "--controlplanes"@ != "--cp-cores"@,
        "--controlplanes"@ != "--cp-disk-gb"@,
        "--controlplanes"@ != "--worker-memory"@,
        "--controlplanes"@ != "--worker-cores"@,
        "--controlplanes"@ != "--worker-disk-gb"@,
        "--controlplanes"@ != "--k8s"@,
        "--controlplanes"@ != "--max-pods"@,
        "--controlplanes"@ != "--pod-subnet"@,
        "--controlplanes"@ != "--service-subnet"@,
        "--controlplanes"@ != "--pod-subnet-ipv6"@,
        "--controlplanes"@ != "--service-subnet-ipv6"@,
        "--controlplanes"@ != "--arch"@,
        "--controlplanes"@ != "--vip"@,
        "--controlplanes"@ != "--vip6"@,
        "--controlplanes"@ != "--skip-build"@,
        "--controlplanes"@ != "--dual-stack"@,
        "--workers"@ != "--cni"@,
        "--workers"@ != "--cp-vmid"@,
        "--workers"@ != "--cp-memory"@,
        "--workers"@ != "--cp-cores"@,
        "--workers"@ != "--cp-disk-gb"@,
        "--workers"@ != "--worker-memory"@,
        "--workers"@ != "--worker-cores"@,
        "--workers"@ != "--worker-disk-gb"@,
        "--workers"@ != "--k8s"@,
        "--workers"@ != "--max-pods"@,
        "--workers"@ != "--pod-subnet"@,
        "--workers"@ != "--service-subnet"@,
        "--workers"@ != "--pod-subnet-ipv6"@,
        "--workers"@ != "--service-subnet-ipv6"@,
        "--workers"@ != "--arch"@,
        "--workers"@ != "--vip"@,
        "--workers"@ != "--vip6"@,
        "--workers"@ != "--skip-build"@,
        "--workers"@ != "--dual-stack"@,
        "--cni"@ != "--cp-vmid"@,
        "--cni"@ != "--cp-memory"@,
        "--cni"@ != "--cp-cores"@,
        "--cni"@ != "--cp-disk-gb"@,
        "--cni"@ != "--worker-memory"@,
        "--cni"@ != "--worker-cores"@,
        "--cni"@ != "--worker-disk-gb"@,
        "--cni"@ != "--k8s"@,
        "--cni"@ != "--max-pods"@,
        "--cni"@ != "--pod-subnet"@,
        "--cni"@ != "--service-subnet"@,
        "--cni"@ != "--pod-subnet-ipv6"@,
        "--cni"@ != "--service-subnet-ipv6"@,
        "--cni"@ != "--arch"@,
        "--cni"@ != "--vip"@,
        "--cni"@ != "--vip6"@,
        "--cni"@ != "--skip-build"@,
        "--cni"@ != "--dual-stack"@,
        "--cp-vmid"@ != "--cp-memory"@,
        "--cp-vmid"@ != "--cp-cores"@,
        "--cp-vmid"@ != "--cp-disk-gb"@,
        "--cp-vmid"@ != "--worker-memory"@,
        "--cp-vmid"@ != "--worker-cores"@,
        "--cp-vmid"@ != "--worker-disk-gb"@,
        "--cp-vmid"@ != "--k8s"@,
        "--cp-vmid"@ != "--max-pods"@,
        "--cp-vmid"@ != "--pod-subnet"@,
        "--cp-vmid"@ != "--service-subnet"@,
        "--cp-vmid"@ != "--pod-subnet-ipv6"@,
        "--cp-vmid"@ != "--service-subnet-ipv6"@,
        "--cp-vmid"@ != "--arch"@,
        "--cp-vmid"@ != "--vip"@,
        "--cp-vmid"@ != "--vip6"@,
        "--cp-vmid"@ != "--skip-build"@,
        "--cp-vmid"@ != "--dual-stack"@,
        "--cp-memory"@ != "--cp-cores"@,
        "--cp-memory"@ != "--cp-disk-gb"@,
        "--cp-memory"@ != "--worker-memory"@,
        "--cp-memory"@ != "--worker-cores"@,
        "--cp-memory"@ != "--worker-disk-gb"@,
        "--cp-memory"@ != "--k8s"@,
        "--cp-memory"@ != "--max-pods"@,
        "--cp-memory"@ != "--pod-subnet"@,
        "--cp-memory"@ != "--service-subnet"@,
        "--cp-memory"@ != "--pod-subnet-ipv6"@,
        "--cp-memory"@ != "--service-subnet-ipv6"@,
        "--cp-memory"@ != "--arch"@,
        "--cp-memory"@ != "--vip"@,
        "--cp-memory"@ != "--vip6"@,
        "--cp-memory"@ != "--skip-build"@,
        "--cp-memory"@ != "--dual-stack"@,
        "--cp-cores"@ != "--cp-disk-gb"@,
        "--cp-cores"@ != "--worker-memory"@,
        "--cp-cores"@ != "--worker-cores"@,
        "--cp-cores"@ != "--worker-disk-gb"@,
        "--cp-cores"@ != "--k8s"@,
        "--cp-cores"@ != "--max-pods"@,
        "--cp-cores"@ != "--pod-subnet"@,
        "--cp-cores"@ != "--service-subnet"@,
        "--cp-cores"@ != "--pod-subnet-ipv6"@,
        "--cp-cores"@ != "--service-subnet-ipv6"@,
        "--cp-cores"@ != "--arch"@,
        "--cp-cores"@ != "--vip"@,
        "--cp-cores"@ != "--vip6"@,
        "--cp-cores"@ != "--skip-build"@,
        "--cp-cores"@ != "--dual-stack"@,
        "--cp-disk-gb"@ != "--worker-memory"@,
        "--cp-disk-gb"@ != "--worker-cores"@,
        "--cp-disk-gb"@ != "--worker-disk-gb"@,
        "--cp-disk-gb"@ != "--k8s"@,
        "--cp-disk-gb"@ != "--max-pods"@,
        "--cp-disk-gb"@ != "--pod-subnet"@,
        "--cp-disk-gb"@ != "--service-subnet"@,
        "--cp-disk-gb"@ != "--pod-subnet-ipv6"@,
        "--cp-disk-gb"@ != "--service-subnet-ipv6"@,
        "--cp-disk-gb"@ != "--arch"@,
        "--cp-disk-gb"@ != "--vip"@,
        "--cp-disk-gb"@ != "--vip6"@,
        "--cp-disk-gb"@ != "--skip-build"@,
        "--cp-disk-gb"@ != "--dual-stack"@,
        "--worker-memory"@ != "--worker-cores"@,
        "--worker-memory"@ != "--worker-disk-gb"@,
        "--worker-memory"@ != "--k8s"@,
        "--worker-memory"@ != "--max-pods"@,
        "--worker-memory"@ != "--pod-subnet"@,
        "--worker-memory"@ != "--service-subnet"@,
        "--worker-memory"@ != "--pod-subnet-ipv6"@,
        "--worker-memory"@ != "--service-subnet-ipv6"@,
        "--worker-memory"@ != "--arch"@,
        "--worker-memory"@ != "--vip"@,
        "--worker-memory"@ != "--vip6"@,
        "--worker-memory"@ != "--skip-build"@,
        "--worker-memory"@ != "--dual-stack"@,
        "--worker-cores"@ != "--worker-disk-gb"@,
        "--worker-cores"@ != "--k8s"@,
        "--worker-cores"@ != "--max-pods"@,
        "--worker-cores"@ != "--pod-subnet"@,
        "--worker-cores"@ != "--service-subnet"@,
        "--worker-cores"@ != "--pod-subnet-ipv6"@,
        "--worker-cores"@ != "--service-subnet-ipv6"@,
        "--worker-cores"@ != "--arch"@,
        "--worker-cores"@ != "--vip"@,
        "--worker-cores"@ != "--vip6"@,
        "--worker-cores"@ != "--skip-build"@,
        "--worker-cores"@ != "--dual-stack"@,
        "--worker-disk-gb"@ != "--k8s"@,
        "--worker-disk-gb"@ != "--max-pods"@,
        "--worker-disk-gb"@ != "--pod-subnet"@,
        "--worker-disk-gb"@ != "--service-subnet"@,
        "--worker-disk-gb"@ != "--pod-subnet-ipv6"@,
        "--worker-disk-gb"@ != "--service-subnet-ipv6"@,
        "--worker-disk-gb"@ != "--arch"@,
        "--worker-disk-gb"@ != "--vip"@,
        "--worker-disk-gb"@ != "--vip6"@,
        "--worker-disk-gb"@ != "--skip-build"@,
        "--worker-disk-gb"@ != "--dual-stack"@,
        "--k8s"@ != "--max-pods"@,
        "--k8s"@ != "--pod-subnet"@,
        "--k8s"@ != "--service-subnet"@,
        "--k8s"@ != "--pod-subnet-ipv6"@,
        "--k8s"@ != "--service-subnet-ipv6"@,
        "--k8s"@ != "--arch"@,
        "--k8s"@ != "--vip"@,
        "--k8s"@ != "--vip6"@,
        "--k8s"@ != "--skip-build"@,
        "--k8s"@ != "--dual-stack"@,
        "--max-pods"@ != "--pod-subnet"@,
        "--max-pods"@ != "--service-subnet"@,
        "--max-pods"@ != "--pod-subnet-ipv6"@,
        "--max-pods"@ != "--service-subnet-ipv6"@,
        "--max-pods"@ != "--arch"@,
        "--max-pods"@ != "--vip"@,
        "--max-pods"@ != "--vip6"@,
        "--max-pods"@ != "--skip-build"@,
        "--max-pods"@ != "--dual-stack"@,
        "--pod-subnet"@ != "--service-subnet"@,
        "--pod-subnet"@ != "--pod-subnet-ipv6"@,
        "--pod-subnet"@ != "--service-subnet-ipv6"@,
        "--pod-subnet"@ != "--arch"@,
        "--pod-subnet"@ != "--vip"@,
        "--pod-subnet"@ != "--vip6"@,
        "--pod-subnet"@ != "--skip-build"@,
        "--pod-subnet"@ != "--dual-stack"@,
        "--service-subnet"@ != "--pod-subnet-ipv6"@,
        "--service-subnet"@ != "--service-subnet-ipv6"@,
        "--service-subnet"@ != "--arch"@,
        "--service-subnet"@ != "--vip"@,
        "--service-subnet"@ != "--vip6"@,
        "--service-subnet"@ != "--skip-build"@,
        "--service-subnet"@ != "--dual-stack"@,
        "--pod-subnet-ipv6"@ != "--service-subnet-ipv6"@,
        "--pod-subnet-ipv6"@ != "--arch"@,
        "--pod-subnet-ipv6"@ != "--vip"@,
        "--pod-subnet-ipv6"@ != "--vip6"@,
        "--pod-subnet-ipv6"@ != "--skip-build"@,
        "--pod-subnet-ipv6"@ != "--dual-stack"@,
        "--service-subnet-ipv6"@ != "--arch"@,
        "--service-subnet-ipv6"@ != "--vip"@,
        "--service-subnet-ipv6"@ != "--vip6"@,
        "--service-subnet-ipv6"@ != "--skip-build"@,
        "--service-subnet-ipv6"@ != "--dual-stack"@,
        "--arch"@ != "--vip"@,
        "--arch"@ != "--vip6"@,
        "--arch"@ != "--skip-build"@,
        "--arch"@ != "--dual-stack"@,
        "--vip"@ != "--vip6"@,
        "--vip"@ != "--skip-build"@,
        "--vip"@ != "--dual-stack"@,
        "--vip6"@ != "--skip-build"@,
        "--vip6"@ != "--dual-stack"@,
        "--skip-build"@ != "--dual-stack"@,
{
    reveal_strlit("--cluster");
    reveal_strlit("--prefix");
    reveal_strlit("--controlplanes");
    reveal_strlit("--workers");
    reveal_strlit("--cni");
    reveal_strlit("--cp-vmid");
    reveal_strlit("--cp-memory");
    reveal_strlit("--cp-cores");
    reveal_strlit("--cp-disk-gb");
    reveal_strlit("--worker-memory");
    reveal_strlit("--worker-cores");
    reveal_strlit("--worker-disk-gb");
    reveal_strlit("--k8s");
    reveal_strlit("--max-pods");
    reveal_strlit("--pod-subnet");
    reveal_strlit("--service-subnet");
    reveal_strlit("--pod-subnet-ipv6");
    reveal_strlit("--service-subnet-ipv6");
    reveal_strlit("--arch");
    reveal_strlit("--vip");
    reveal_strlit("--vip6");
    reveal_strlit("--skip-build");
    reveal_strlit("--dual-stack");
    assert("--cluster"@.len() == 9);
    assert("--prefix"@.len() == 8);
    assert("--controlplanes"@.len() == 15);
    assert("--workers"@.len() == 9);
    assert("--cni"@.len() == 5);
    assert("--cp-vmid"@.len() == 9);
    assert("--cp-memory"@.len() == 11);
    assert("--cp-cores"@.len() == 10);
    assert("--cp-disk-gb"@.len() == 12);
    assert("--worker-memory"@.len() == 15);
    assert("--worker-cores"@.len() == 14);
    assert("--worker-disk-gb"@.len() == 16);
    assert("--k8s"@.len() == 5);
    assert("--max-pods"@.len() == 10);
    assert("--pod-subnet"@.len() == 12);
    assert("--service-subnet"@.len() == 16);
    assert("--pod-subnet-ipv6"@.len() == 17);
    assert("--service-subnet-ipv6"@.len() == 21);
    assert("--arch"@.len() == 6);
    assert("--vip"@.len() == 5);
    assert("--vip6"@.len() == 6);
    assert("--skip-build"@.len() == 12);
    assert("--dual-stack"@.len() == 12);
    assert("--cluster"@[2] == 'c' && "--workers"@[2] == 'w');
    assert("--cluster"@[3] == 'l' && "--cp-vmid"@[3] == 'p');
    assert("--workers"@[2] == 'w' && "--cp-vmid"@[2] == 'c');
    assert("--controlplanes"@[2] == 'c' && "--worker-memory"@[2] == 'w');
    assert("--cni"@[2] == 'c' && "--k8s"@[2] == 'k');
    assert("--cni"@[2] == 'c' && "--vip"@[2] == 'v');
    assert("--k8s"@[2] == 'k' && "--vip"@[2] == 'v');
    assert("--cp-cores"@[2] == 'c' && "--max-pods"@[2] == 'm');
    assert("--cp-disk-gb"@[2] == 'c' && "--pod-subnet"@[2] == 'p');
    assert("--cp-disk-gb"@[2] == 'c' && "--skip-build"@[2] == 's');
    assert("--cp-disk-gb"@[2] == 'c' && "--dual-stack"@[2] == 'd');
    assert("--pod-subnet"@[2] == 'p' && "--skip-build"@[2] == 's');
    assert("--pod-subnet"@[2] == 'p' && "--dual-stack"@[2] == 'd');
    assert("--skip-build"@[2] == 's' && "--dual-stack"@[2] == 'd');
    assert("--worker-disk-gb"@[2] == 'w' && "--service-subnet"@[2] == 's');
    assert("--arch"@[2] == 'a' && "--vip6"@[2] == 'v');
}

/// The script is told what the cluster is to be: each option of the call has the
/// value of the row.
#[verifier::rlimit(60)]
pub proof fn law_script_is_told_the_cluster(c: ClusterRow, vmid: int, arch: Seq<char>)
    requires
        i64::MIN <= vmid <= i64::MAX,
    ensures
        ({
            let args = create_args(c, vmid, arch);
            &&& option_in(args, "--cluster"@) == Some(c.name@)
            &&& option_in(args, "--prefix"@) == Some(c.name@)
            &&& asks_for(args, "--controlplanes"@, c.controlplanes as int)
            &&& asks_for(args, "--workers"@, c.workers as int)
            &&& option_in(args, "--cni"@) == Some(c.cni@)
            &&& asks_for(args, "--cp-vmid"@, vmid as int)
            &&& asks_for(args, "--cp-memory"@, c.cp_memory as int)
            &&& asks_for(args, "--cp-cores"@, c.cp_cores as int)
            &&& asks_for(args, "--cp-disk-gb"@, c.cp_disk_gb as int)
            &&& asks_for(args, "--worker-memory"@, c.worker_memory as int)
            &&& asks_for(args, "--worker-cores"@, c.worker_cores as int)
            &&& asks_for(args, "--worker-disk-gb"@, c.worker_disk_gb as int)
            &&& option_in(args, "--k8s"@) == Some(c.k8s_version@)
            &&& asks_for(args, "--max-pods"@, c.max_pods as int)
            &&& option_in(args, "--pod-subnet"@) == Some(c.pod_subnet@)
            &&& option_in(args, "--service-subnet"@) == Some(c.service_subnet@)
        }),
{
    lemma_option_names();
    let base = base_args(c, vmid);
    let args = create_args(c, vmid, arch);
    assert(base.len() == 33);
    assert(args.take(33) =~= base);
    assert(forall|i: int| 0 <= i < 33 ==> args[i] == base[i]);
    assert(args[0] == "--skip-build"@);
    assert(args[1] == "--cluster"@);
    assert(args[3] == "--prefix"@);
    assert(args[5] == "--controlplanes"@);
    assert(args[7] == "--workers"@);
    assert(args[9] == "--cni"@);
    assert(args[11] == "--cp-vmid"@);
    assert(args[13] == "--cp-memory"@);
    assert(args[15] == "--cp-cores"@);
    assert(args[17] == "--cp-disk-gb"@);
    assert(args[19] == "--worker-memory"@);
    assert(args[21] == "--worker-cores"@);
    assert(args[23] == "--worker-disk-gb"@);
    assert(args[25] == "--k8s"@);
    assert(args[27] == "--max-pods"@);
    assert(args[29] == "--pod-subnet"@);
    assert(args[31] == "--service-subnet"@);
    assert(args[2] == c.name@);
    assert(args[4] == c.name@);
    assert(args[6] == sdec(c.controlplanes as int));
    assert(args[8] == sdec(c.workers as int));
    assert(args[10] == c.cni@);
    assert(args[12] == sdec(vmid as int));
    assert(args[14] == sdec(c.cp_memory as int));
    assert(args[16] == sdec(c.cp_cores as int));
    assert(args[18] == sdec(c.cp_disk_gb as int));
    assert(args[20] == sdec(c.worker_memory as int));
    assert(args[22] == sdec(c.worker_cores as int));
    assert(args[24] == sdec(c.worker_disk_gb as int));
    assert(args[26] == c.k8s_version@);
    assert(args[28] == sdec(c.max_pods as int));
    assert(args[30] == c.pod_subnet@);
    assert(args[32] == c.service_subnet@);
    reveal_with_fuel(option_value, 20);
    assert(option_value(args, 0, "--cluster"@) == Some(args[2]));
    assert(option_value(args, 0, "--prefix"@) == Some(args[4]));
    assert(option_value(args, 0, "--controlplanes"@) == Some(args[6]));
    assert(option_value(args, 0, "--workers"@) == Some(args[8]));
    assert(option_value(args, 0, "--cni"@) == Some(args[10]));
    assert(option_value(args, 0, "--cp-vmid"@) == Some(args[12]));
    assert(option_value(args, 0, "--cp-memory"@) == Some(args[14]));
    assert(option_value(args, 0, "--cp-cores"@) == Some(args[16]));
    assert(option_value(args, 0, "--cp-disk-gb"@) == Some(args[18]));
    assert(option_value(args, 0, "--worker-memory"@) == Some(args[20]));
    assert(option_value(args, 0, "--worker-cores"@) == Some(args[22]));
    assert(option_value(args, 0, "--worker-disk-gb"@) == Some(args[24]));
    assert(option_value(args, 0, "--k8s"@) == Some(args[26]));
    assert(option_value(args, 0, "--max-pods"@) == Some(args[28]));
    assert(option_value(args, 0, "--pod-subnet"@) == Some(args[30]));
    assert(option_value(args, 0, "--service-subnet"@) == Some(args[32]));
    law_parse_rendered_signed(c.controlplanes as int);
    law_parse_rendered_signed(c.workers as int);
    law_parse_rendered_signed(vmid as int);
    law_parse_rendered_signed(c.cp_memory as int);
    law_parse_rendered_signed(c.cp_cores as int);
    law_parse_rendered_signed(c.cp_disk_gb as int);
    law_parse_rendered_signed(c.worker_memory as int);
    law_parse_rendered_signed(c.worker_cores as int);
    law_parse_rendered_signed(c.worker_disk_gb as int);
    law_parse_rendered_signed(c.max_pods as int);
}

/// The rest of the call: the architecture; the subnets of IPv6 exactly where the
/// network has it; a virtual address exactly where there are several control
/// planes, one is given, and the network is not only of the other family.
#[verifier::rlimit(100)]
pub proof fn law_script_is_told_the_network(c: ClusterRow, vmid: int, arch: Seq<char>)
    ensures
        ({
            let args = create_args(c, vmid, arch);
            let mode = lower(c.network_mode@);
            let six = mode == "dual-stack"@ || mode == "ipv6"@;
            &&& option_in(args, "--arch"@) == Some(arch)
            &&& args.contains("--dual-stack"@) <== six
            &&& option_in(args, "--pod-subnet-ipv6"@) == (if !six {
                None
            } else if c.pod_subnet_ipv6 is Some && c.pod_subnet_ipv6->0@.len() > 0 {
                Some(c.pod_subnet_ipv6->0@)
            } else {
                Some("2001:db8:10:0::/56"@)
            })
            &&& option_in(args, "--service-subnet-ipv6"@) == (if !six {
                None
            } else if c.service_subnet_ipv6 is Some && c.service_subnet_ipv6->0@.len() > 0 {
                Some(c.service_subnet_ipv6->0@)
            } else {
                Some("2001:db8:96:1::/112"@)
            })
            &&& option_in(args, "--vip"@) == (if c.controlplanes > 1 && c.vip is Some
                && c.vip->0@.len() > 0 && mode != "ipv6"@ {
                Some(c.vip->0@)
            } else {
                None
            })
            &&& option_in(args, "--vip6"@) == (if c.controlplanes > 1 && c.vip6 is Some
                && c.vip6->0@.len() > 0 && mode != "ipv4"@ {
                Some(c.vip6->0@)
            } else {
                None
            })
        }),
{
    lemma_option_names();
    let base = base_args(c, vmid);
    let args = create_args(c, vmid, arch);
    assert(base.len() == 33);
    assert(args.take(33) =~= base);
    assert(forall|i: int| 0 <= i < 33 ==> args[i] == base[i]);
    assert(args[0] == "--skip-build"@);
    assert(args[1] == "--cluster"@);
    assert(args[3] == "--prefix"@);
    assert(args[5] == "--controlplanes"@);
    assert(args[7] == "--workers"@);
    assert(args[9] == "--cni"@);
    assert(args[11] == "--cp-vmid"@);
    assert(args[13] == "--cp-memory"@);
    assert(args[15] == "--cp-cores"@);
    assert(args[17] == "--cp-disk-gb"@);
    assert(args[19] == "--worker-memory"@);
    assert(args[21] == "--worker-cores"@);
    assert(args[23] == "--worker-disk-gb"@);
    assert(args[25] == "--k8s"@);
    assert(args[27] == "--max-pods"@);
    assert(args[29] == "--pod-subnet"@);
    assert(args[31] == "--service-subnet"@);
    assert forall|flag: Seq<char>|
        flag == "--arch"@ || flag == "--pod-subnet-ipv6"@ || flag == "--service-subnet-ipv6"@ || flag
            == "--vip"@ || flag == "--vip6"@ implies #[trigger] option_value(args, 0, flag)
        == option_value(args, 33, flag) by {
        reveal_with_fuel(option_value, 18);
    }
    reveal_with_fuel(option_value, 7);
    if wants_ipv6(c.network_mode@) {
        assert(args[33] == "--dual-stack"@ && args[34] == "--pod-subnet-ipv6"@ && args[36]
            == "--service-subnet-ipv6"@ && args[38] == "--arch"@ && args[39] == arch);
        assert(args.contains(args[33]));
    } else {
        assert(args[33] == "--arch"@ && args[34] == arch);
    }
}

/// How many of the first `n` planned nodes have the role.
pub open spec fn role_count(v: Seq<NodeSeedV>, role: Seq<char>, n: int) -> nat
    decreases n,
{
    if 0 < n <= v.len() {
        role_count(v, role, n - 1) + (if v[n - 1].role == role {
            1nat
        } else {
            0nat
        })
    } else {
        0
    }
}

proof fn lemma_role_count(c: ClusterRow, n: int)
    requires
        0 <= n <= node_seeds(c).len(),
    ensures
        ({
            let cps = at_least_zero(c.controlplanes as int) as int;
            &&& role_count(node_seeds(c), "controlplane"@, n) == (if n < cps {
                n
            } else {
                cps
            })
            &&& role_count(node_seeds(c), "worker"@, n) == (if n < cps {
                0
            } else {
                n - cps
            })
        }),
    decreases n,
{
    reveal_strlit("controlplane");
    reveal_strlit("worker");
    assert("controlplane"@.len() == 12 && "worker"@.len() == 6);
    if n > 0 {
        lemma_role_count(c, n - 1);
    }
}

/// The script is told of as many control planes and workers as there are planned
/// rows of the role; and two clusters with other numbers of them get other calls.
pub proof fn law_script_and_rows_agree(c: ClusterRow, d: ClusterRow, vmid: int, arch: Seq<char>)
    requires
        i64::MIN <= vmid <= i64::MAX,
        c.controlplanes >= 0,
        c.workers >= 0,
    ensures
        ({
            let args = create_args(c, vmid, arch);
            let rows = node_seeds(c);
            let n = rows.len() as int;
            &&& asks_for(args, "--workers"@, role_count(rows, "worker"@, n) as int)
            &&& asks_for(args, "--controlplanes"@, role_count(rows, "controlplane"@, n) as int)
            &&& n == c.controlplanes + c.workers
            &&& c.workers != d.workers || c.controlplanes != d.controlplanes ==> args
                != create_args(d, vmid, arch)
        }),
{
    law_script_is_told_the_cluster(c, vmid, arch);
    law_script_is_told_the_cluster(d, vmid, arch);
    lemma_role_count(c, node_seeds(c).len() as int);
}

/// A planned node has the name, the hardware and the machine number of its kind:
/// control planes first, each kind counted from one, and the numbers in one run.
pub proof fn law_planned_nodes(c: ClusterRow, i: int)
    requires
        c.controlplanes >= 0,
        c.workers >= 0,
        0 <= i < node_seeds(c).len(),
    ensures
        ({
            let s = node_seeds(c)[i];
            if i < c.controlplanes {
                &&& s.role == "controlplane"@
                &&& s.name == c.name@ + "-cp-"@ + sdec(i + 1)
                &&& s.memory == c.cp_memory && s.cores == c.cp_cores && s.disk_gb == c.cp_disk_gb
                &&& s.vmid == (match c.cp_vmid {
                    Some(v) => Some(v + i),
                    None => None,
                })
            } else {
                &&& s.role == "worker"@
                &&& s.name == c.name@ + "-wk-"@ + sdec(i - c.controlplanes + 1)
                &&& s.memory == c.worker_memory && s.cores == c.worker_cores && s.disk_gb
                    == c.worker_disk_gb
                &&& s.vmid == Some(
                    (match c.cp_vmid {
                        Some(v) => v as int,
                        None => 210,
                    }) + i,
                )
            }
        }),
{
}

/// The first machine number: the one of the cluster, else that of the request,
/// else two hundred and ten.
pub proof fn law_first_vmid(c: ClusterRow, p: JsonV, n: i64)
    ensures
        c.cp_vmid == Some(n) ==> first_vmid(c, p) == n,
        c.cp_vmid is None && p.get("cp_vmid"@) == Some(JsonV::Int(n as int)) ==> first_vmid(c, p)
            == n,
        c.cp_vmid is None && p.get("cp_vmid"@) is None ==> first_vmid(c, p) == 210,
{
}

/// The endpoint of a cluster without one in its kubeconfig is its virtual address
/// exactly where it has several control planes.
pub proof fn law_endpoint_of_a_cluster(c: ClusterRow, kubeconfig: Seq<char>, h: Seq<char>)
    ensures
        endpoint_from(lines(kubeconfig), 0) == Some(h) ==> endpoint(c, kubeconfig) == h,
        endpoint_from(lines(kubeconfig), 0) is None && c.controlplanes > 1 && c.vip is Some
            && c.vip->0@.len() > 0 ==> endpoint(c, kubeconfig) == c.vip->0@,
        endpoint_from(lines(kubeconfig), 0) is None && c.controlplanes <= 1 ==> endpoint(
            c,
            kubeconfig,
        ) == "unknown"@,
{
}

} // verus!
