//! Adding and adopting nodes, step by step.
//!
//! Each function takes the answer to the last action of the step before it and
//! says what to do next.
use crate::jobs::action::{Act, ActV, act, acts, ends, fail, failed, idle, log, logged, no_acts};
use crate::jobs::create::node_name;
use crate::jobs::lab::{guest_arch, guest_arch_of};
use crate::jobs::nodes::{
    AddRequest, AdoptPlan, AdoptRequest, NextNode, add_args, add_arguments, address_wait_secs,
    adopt_args, adopt_arguments, api_after_ip_timeout, api_wait, base_vmid, default_hardware,
    last_node_ip, name_taken, next_fits, next_node, reported_node_ip, role_hardware,
};
use crate::jobs::rows::{ClusterRow, EnvOp, EnvV, envs, set_env};
use crate::json::text_or;
use crate::num::{i64_str, sdec};
use crate::text::{cat, lines, lit, no_texts, opt_text, put, str_eq, texts};
use vstd::prelude::*;
use vstd::string::*;

verus! {

/// The nodes of a job that joins nodes: the one that is being joined, those that
/// have joined, and the one among them that is being looked at.
#[derive(Debug, PartialEq, Eq)]
pub struct Joining {
    /// The number of the node within the job, from one.
    pub n: i64,
    pub name: String,
    pub joined: Vec<String>,
    pub at: usize,
}

#[verifier::ext_equal]
pub ghost struct JoiningV {
    pub n: int,
    pub name: Seq<char>,
    pub joined: Seq<Seq<char>>,
    pub at: nat,
}

impl View for Joining {
    type V = JoiningV;

    open spec fn view(&self) -> JoiningV {
        JoiningV {
            n: self.n as int,
            name: self.name@,
            joined: texts(self.joined@),
            at: self.at as nat,
        }
    }
}

impl Joining {
    /// No node has joined yet.
    pub fn start() -> (r: Joining)
        ensures
            r@ == (JoiningV {
                n: 1,
                name: Seq::empty(),
                joined: Seq::empty(),
                at: 0,
            }),
    {
        Joining { n: 1, name: String::new(), joined: no_texts(), at: 0 }
    }
}

fn or_else(o: &Option<String>, d: &str) -> (r: String)
    ensures
        r@ == text_or(opt_text(*o), d@),
{
    match o {
        Some(s) => lit(s),
        None => lit(d),
    }
}

// ---------------------------------------------------------------------------
// After the scripts
// ---------------------------------------------------------------------------

/// Starts to look at a node that has joined.
pub open spec fn look_at(a: Seq<ActV>, name: Seq<char>, want_ip6: bool) -> Seq<ActV> {
    a.push(
        logged(
            "wait for kubectl addresses on "@ + name + (if want_ip6 {
                " (incl. IPv6)"@
            } else {
                ""@
            }) + "\n"@,
        ),
    ).push(
        ActV::WaitAddresses {
            name,
            want_ip6,
            secs: if want_ip6 {
                300
            } else {
                180
            },
        },
    )
}

fn start_look(v: &mut Vec<Act>, name: &str, want_ip6: bool)
    ensures
        acts(final(v)@) == look_at(acts(old(v)@), name@, want_ip6),
{
    let extra = if want_ip6 {
        " (incl. IPv6)"
    } else {
        ""
    };
    log(v, &lit("wait for kubectl addresses on ").concat(name).concat(extra).concat("\n"));
    act(
        v,
        Act::WaitAddresses { name: lit(name), want_ip6, secs: address_wait_secs(want_ip6) },
    );
}

/// The end of a job after which the cluster is ready.
pub open spec fn all_joined(a: Seq<ActV>, note: Seq<char>) -> Seq<ActV> {
    a.push(ActV::ClusterReady { error: None }).push(logged(note)).push(ActV::Done)
}

fn finish(v: &mut Vec<Act>, note: &str)
    ensures
        acts(final(v)@) == all_joined(acts(old(v)@), note@),
{
    act(v, Act::ClusterReady { error: None });
    log(v, note);
    act(v, Act::Done);
}

/// Looks at the nodes that have joined, one after the other, where there is a
/// kubeconfig to do it with.
pub open spec fn with_kubeconfig(st: JoiningV, exists_: bool, want_ip6: bool, note: Seq<char>) ->
    Seq<ActV> {
    if exists_ && st.joined.len() > 0 {
        look_at(idle(), st.joined[0], want_ip6)
    } else if exists_ {
        all_joined(idle().push(ActV::SyncNodes).push(ActV::ApproveCerts), note)
    } else {
        all_joined(idle(), note)
    }
}

/// After it was looked whether the cluster has a kubeconfig.
pub fn kubeconfig_checked(st: &mut Joining, there: bool, want_ip6: bool, note: &str) -> (r: Vec<Act>)
    ensures
        final(st)@ == (JoiningV { at: 0, ..old(st)@ }),
        acts(r@) == with_kubeconfig(old(st)@, there, want_ip6, note@),
{
    let mut v = no_acts();
    st.at = 0;
    assert(texts(st.joined@).len() == st.joined.len());
    if there && st.joined.len() > 0 {
        assert(texts(st.joined@)[0] == st.joined@[0]@);
        start_look(&mut v, &st.joined[0], want_ip6);
    } else if there {
        act(&mut v, Act::SyncNodes);
        act(&mut v, Act::ApproveCerts);
        finish(&mut v, note);
    } else {
        finish(&mut v, note);
    }
    v
}

/// What is done once the addresses of a node were waited for: they are stored,
/// and its certificate is waited for in any case.
pub open spec fn addressed(
    name: Seq<char>,
    got: Result<(Option<String>, Option<String>), String>,
) -> Seq<ActV> {
    let a = match got {
        Ok(p) => idle().push(ActV::StoreAddresses).push(
            logged(
                "synced "@ + name + " ip="@ + text_or(opt_text(p.0), "—"@) + " ip6="@ + text_or(
                    opt_text(p.1),
                    "—"@,
                ) + "\n"@,
            ),
        ),
        Err(e) => idle().push(logged("warn: wait addresses "@ + name + ": "@ + e@ + "\n"@)),
    };
    a.push(logged("approve kubelet serving certificate for "@ + name + "\n"@)).push(
        ActV::WaitCert { name, secs: 120 },
    )
}

/// After the addresses of a node were waited for.
pub fn addresses_waited(name: &str, got: &Result<(Option<String>, Option<String>), String>) -> (r:
    Vec<Act>)
    ensures
        acts(r@) == addressed(name@, *got),
{
    let mut v = no_acts();
    match got {
        Ok(p) => {
            act(&mut v, Act::StoreAddresses);
            log(
                &mut v,
                &lit("synced ").concat(name).concat(" ip=").concat(&or_else(&p.0, "—")).concat(
                    " ip6=",
                ).concat(&or_else(&p.1, "—")).concat("\n"),
            );
        },
        Err(e) => {
            log(
                &mut v,
                &lit("warn: wait addresses ").concat(name).concat(": ").concat(e).concat("\n"),
            );
        },
    }
    log(&mut v, &lit("approve kubelet serving certificate for ").concat(name).concat("\n"));
    act(&mut v, Act::WaitCert { name: lit(name), secs: 120 });
    v
}

/// What is done once the certificate of a node was waited for: the next node is
/// looked at, and after the last one the cluster is ready.
pub open spec fn certified(
    st: JoiningV,
    got: Result<(), String>,
    want_ip6: bool,
    note: Seq<char>,
) -> Seq<ActV> {
    let name = st.joined[st.at as int];
    let a = match got {
        Ok(_) => idle().push(logged("kubelet serving cert issued for "@ + name + "\n"@)),
        Err(e) => idle().push(
            logged("warn: kubelet serving cert "@ + name + ": "@ + e@ + "\n"@),
        ),
    };
    if st.at + 1 < st.joined.len() {
        look_at(a, st.joined[st.at as int + 1], want_ip6)
    } else {
        all_joined(a.push(ActV::SyncNodes).push(ActV::ApproveCerts), note)
    }
}

/// After the certificate of a node was waited for.
pub fn cert_waited(st: &mut Joining, got: &Result<(), String>, want_ip6: bool, note: &str) -> (r:
    Vec<Act>)
    requires
        old(st).at < old(st).joined@.len(),
    ensures
        acts(r@) == certified(old(st)@, *got, want_ip6, note@),
        final(st)@ == (if old(st)@.at + 1 < old(st)@.joined.len() {
            JoiningV { at: old(st)@.at + 1, ..old(st)@ }
        } else {
            old(st)@
        }),
{
    let mut v = no_acts();
    let total: usize = st.joined.len();
    let k: usize = st.at;
    assert(texts(st.joined@)[k as int] == st.joined@[k as int]@);
    match got {
        Ok(_) => {
            log(
                &mut v,
                &lit("kubelet serving cert issued for ").concat(&st.joined[k]).concat("\n"),
            );
        },
        Err(e) => {
            log(
                &mut v,
                &lit("warn: kubelet serving cert ").concat(&st.joined[k]).concat(": ").concat(
                    e,
                ).concat("\n"),
            );
        },
    }
    if k + 1 < total {
        assert(texts(st.joined@)[k + 1] == st.joined@[k + 1]@);
        st.at = k + 1;
        start_look(&mut v, &st.joined[k + 1], want_ip6);
    } else {
        act(&mut v, Act::SyncNodes);
        act(&mut v, Act::ApproveCerts);
        finish(&mut v, note);
    }
    v
}

/// A job that joins nodes ends well once the last node was looked at, whatever
/// the waits gave.
pub proof fn law_joined_nodes_end_the_job(
    st: JoiningV,
    got: Result<(), String>,
    want_ip6: bool,
    note: Seq<char>,
)
    requires
        st.at + 1 == st.joined.len(),
    ensures
        ends(certified(st, got, want_ip6, note)),
        certified(st, got, want_ip6, note).last() is Done,
{
}

/// What is done where the script of a node failed: the node stays as failed, so
/// that its machine can be removed, the counts stay, and the cluster is ready
/// with the error.
pub open spec fn script_failed(error: Seq<char>) -> Seq<ActV> {
    idle().push(ActV::NodeError).push(ActV::ClusterReady { error: Some(error) }).push(failed(error))
}

fn stop_on(error: &str) -> (r: Vec<Act>)
    ensures
        acts(r@) == script_failed(error@),
{
    let mut v = no_acts();
    act(&mut v, Act::NodeError);
    act(&mut v, Act::ClusterReady { error: Some(lit(error)) });
    fail(&mut v, error);
    v
}

// ---------------------------------------------------------------------------
// Adding
// ---------------------------------------------------------------------------

/// A job that adds nodes.
#[derive(Debug, PartialEq, Eq)]
pub struct AddJob {
    pub cluster: ClusterRow,
    pub request: AddRequest,
    /// The address at which new nodes find the control plane.
    pub cp_ip: String,
    pub cluster_out: String,
    pub bridge: String,
    pub script: String,
}

/// The first step of a job that adds nodes.
pub open spec fn add_started(j: AddJob, script_there: bool) -> Seq<ActV> {
    let q = j.request;
    let a = idle().push(ActV::ClusterProvisioning).push(
        logged(
            "add "@ + sdec(q.count as int) + "× "@ + q.role@ + " → cluster="@ + j.cluster.name@
                + " (cp_api="@ + j.cp_ip@ + ", "@ + sdec(q.cores as int) + "vCPU "@ + sdec(
                q.memory as int,
            ) + "MB "@ + sdec(q.disk_gb as int) + "GiB)\n"@,
        ),
    );
    if script_there {
        a.push(ActV::ReadCounts)
    } else {
        a.push(
            failed("add-node script missing at "@ + j.script@ + " — cannot provision VMs"@),
        )
    }
}

/// Starts to add nodes.
pub fn add_begin(j: &AddJob, script_there: bool) -> (r: Vec<Act>)
    ensures
        acts(r@) == add_started(*j, script_there),
{
    let mut v = no_acts();
    let q = &j.request;
    act(&mut v, Act::ClusterProvisioning);
    log(
        &mut v,
        &lit("add ").concat(&i64_str(q.count)).concat("× ").concat(&q.role).concat(
            " → cluster=",
        ).concat(&j.cluster.name).concat(" (cp_api=").concat(&j.cp_ip).concat(", ").concat(
            &i64_str(q.cores),
        ).concat("vCPU ").concat(&i64_str(q.memory)).concat("MB ").concat(
            &i64_str(q.disk_gb),
        ).concat("GiB)\n"),
    );
    if script_there {
        act(&mut v, Act::ReadCounts);
    } else {
        fail(
            &mut v,
            &lit("add-node script missing at ").concat(&j.script).concat(
                " — cannot provision VMs",
            ),
        );
    }
    v
}

/// The counts of a cluster once a node is added.
pub open spec fn counted_up(a: Seq<ActV>, role: Seq<char>, cps: int, workers: int) -> Seq<ActV> {
    if role == "controlplane"@ {
        let b = if (cps + 1) % 2 == 0 {
            a.push(logged("WARNING: even control-plane count reduces etcd quorum safety\n"@))
        } else {
            a
        };
        b.push(ActV::Controlplanes { count: cps + 1 })
    } else {
        a.push(ActV::Workers { count: workers + 1 })
    }
}

fn count_up(v: &mut Vec<Act>, role: &str, cps: i64, workers: i64, even_warning: bool)
    requires
        cps < i64::MAX,
        workers < i64::MAX,
        role@ == "controlplane"@ ==> even_warning == ((cps + 1) % 2 == 0),
    ensures
        acts(final(v)@) == counted_up(acts(old(v)@), role@, cps as int, workers as int),
{
    if str_eq(role, "controlplane") {
        if even_warning {
            log(v, "WARNING: even control-plane count reduces etcd quorum safety\n");
        }
        act(v, Act::Controlplanes { count: cps + 1 });
    } else {
        act(v, Act::Workers { count: workers + 1 });
    }
}

/// What is done once the counts of the cluster are known: the counts go up, the
/// node is stored, and its script runs.
pub open spec fn add_one(j: AddJob, n: int, node: NextNode, cps: int, workers: int) -> Seq<ActV> {
    let q = j.request;
    counted_up(idle(), q.role@, cps, workers).push(
        ActV::InsertNode {
            name: node.name@,
            role: q.role@,
            vmid: Some(node.vmid as int),
            ip: None,
            memory: q.memory as int,
            cores: q.cores as int,
            disk_gb: q.disk_gb as int,
        },
    ).push(
        logged(
            "==> ["@ + sdec(n) + "/"@ + sdec(q.count as int) + "] provisioning "@ + node.name@
                + " (vmid="@ + sdec(node.vmid as int) + ") — create VM → wait IP → join\n"@,
        ),
    ).push(
        ActV::Script {
            args: add_args(
                j.cluster,
                j.bridge@,
                q,
                node,
                j.cluster_out@,
                j.cp_ip@,
                guest_arch(j.cluster.arch@),
            ),
        },
    )
}

/// After the counts of the cluster were read.
pub fn add_counted(j: &AddJob, st: &mut Joining, cps: i64, workers: i64) -> (r: (NextNode, Vec<Act>))
    requires
        next_fits(j.cluster, cps as int, workers as int),
    ensures
        acts(r.1@) == add_one(*j, old(st)@.n, r.0, cps as int, workers as int),
        final(st)@ == (JoiningV { name: r.0.name@, ..old(st)@ }),
        r.0.name@ == (if j.request.role@ == "controlplane"@ {
            node_name(j.cluster.name@, "-cp-"@, cps + 1)
        } else {
            node_name(j.cluster.name@, "-wk-"@, workers + 1)
        }),
        r.0.vmid == base_vmid(j.cluster) + cps + (if j.request.role@ == "controlplane"@ {
            0
        } else {
            workers as int
        }),
        r.0.cp_index == (if j.request.role@ == "controlplane"@ {
            Some((cps + 1) as i64)
        } else {
            None
        }),
{
    let q = &j.request;
    let node = next_node(&j.cluster, &q.role, cps, workers);
    let mut v = no_acts();
    count_up(&mut v, &q.role, cps, workers, node.even_warning);
    act(
        &mut v,
        Act::InsertNode {
            name: lit(&node.name),
            role: lit(&q.role),
            vmid: Some(node.vmid),
            ip: None,
            memory: q.memory,
            cores: q.cores,
            disk_gb: q.disk_gb,
        },
    );
    log(
        &mut v,
        &lit("==> [").concat(&i64_str(st.n)).concat("/").concat(&i64_str(q.count)).concat(
            "] provisioning ",
        ).concat(&node.name).concat(" (vmid=").concat(&i64_str(node.vmid)).concat(
            ") — create VM → wait IP → join\n",
        ),
    );
    let arch = guest_arch_of(&j.cluster.arch);
    act(
        &mut v,
        Act::Script {
            args: add_arguments(
                &j.cluster,
                &j.bridge,
                q,
                &node,
                &j.cluster_out,
                &j.cp_ip,
                &arch,
            ),
        },
    );
    st.name = lit(&node.name);
    (node, v)
}

/// What is done once the script of a node has run: the node is ready with the
/// address that the script reported, and the next one follows.
pub open spec fn add_run(j: AddJob, st: JoiningV, ran: Result<String, String>) -> Seq<ActV> {
    match ran {
        Ok(output) => {
            let ip = last_node_ip(lines(output@), lines(output@).len() as int);
            let a = idle().push(ActV::NodeReady { ip }).push(
                logged(
                    "ready "@ + st.name + (match ip {
                        Some(i) => " @ "@ + i,
                        None => ""@,
                    }) + "\n"@,
                ),
            );
            if st.n < j.request.count {
                a.push(ActV::ReadCounts)
            } else {
                a.push(ActV::CheckKubeconfig)
            }
        },
        Err(e) => script_failed(e@),
    }
}

/// After the script of a node has run.
pub fn add_ran(j: &AddJob, st: &mut Joining, ran: &Result<String, String>) -> (r: Vec<Act>)
    ensures
        acts(r@) == add_run(*j, old(st)@, *ran),
        final(st)@ == (if ran is Ok {
            JoiningV {
                joined: old(st)@.joined.push(old(st)@.name),
                n: if old(st)@.n < j.request.count {
                    old(st)@.n + 1
                } else {
                    old(st)@.n
                },
                ..old(st)@
            }
        } else {
            old(st)@
        }),
{
    match ran {
        Ok(output) => {
            let mut v = no_acts();
            let ip = reported_node_ip(output);
            let at = match &ip {
                Some(i) => cat(" @ ", i),
                None => lit(""),
            };
            act(&mut v, Act::NodeReady { ip });
            log(&mut v, &lit("ready ").concat(&st.name).concat(&at).concat("\n"));
            let name = lit(&st.name);
            put(&mut st.joined, &name);
            if st.n < j.request.count {
                st.n = st.n + 1;
                act(&mut v, Act::ReadCounts);
            } else {
                act(&mut v, Act::CheckKubeconfig);
            }
            v
        },
        Err(e) => stop_on(e),
    }
}

/// A node that is added is stored before its script runs, under the name that
/// the script is given.
pub proof fn law_added_node_is_stored_first(
    j: AddJob,
    n: int,
    node: NextNode,
    cps: int,
    workers: int,
)
    ensures
        ({
            let a = add_one(j, n, node, cps, workers);
            let k = a.len() - 3;
            &&& a.last() is Script
            &&& a[k] matches ActV::InsertNode { name, .. } && name == node.name@
        }),
{
}

// ---------------------------------------------------------------------------
// Adopting
// ---------------------------------------------------------------------------

/// A job that joins a machine that exists.
#[derive(Debug, PartialEq, Eq)]
pub struct AdoptJob {
    pub cluster: ClusterRow,
    pub request: AdoptRequest,
    pub cp_ip: String,
    pub cluster_out: String,
    pub script: String,
}

/// The first step of a job that adopts a node.
pub open spec fn adopt_started(j: AdoptJob, script_there: bool) -> Seq<ActV> {
    let q = j.request;
    if !script_there {
        idle().push(
            failed(
                "adopt-node script missing at "@ + j.script@
                    + " — cannot join existing nodes"@,
            ),
        )
    } else {
        idle().push(ActV::ClusterProvisioning).push(
            logged(
                "adopt "@ + q.role@ + " @ "@ + q.ip@ + " → cluster="@ + j.cluster.name@
                    + " (cp_api="@ + j.cp_ip@ + ", source="@ + q.source@ + ")\n"@,
            ),
        ).push(ActV::ReadCounts)
    }
}

/// Starts to adopt a node.
pub fn adopt_begin(j: &AdoptJob, script_there: bool) -> (r: Vec<Act>)
    ensures
        acts(r@) == adopt_started(*j, script_there),
{
    let mut v = no_acts();
    let q = &j.request;
    if !script_there {
        fail(
            &mut v,
            &lit("adopt-node script missing at ").concat(&j.script).concat(
                " — cannot join existing nodes",
            ),
        );
        return v;
    }
    act(&mut v, Act::ClusterProvisioning);
    log(
        &mut v,
        &lit("adopt ").concat(&q.role).concat(" @ ").concat(&q.ip).concat(" → cluster=").concat(
            &j.cluster.name,
        ).concat(" (cp_api=").concat(&j.cp_ip).concat(", source=").concat(&q.source).concat(
            ")\n",
        ),
    );
    act(&mut v, Act::ReadCounts);
    v
}

/// What is done once the counts of the cluster are known.
pub open spec fn adopt_count(j: AdoptJob, plan: AdoptPlan, cps: int, workers: int) -> Seq<ActV> {
    counted_up(idle(), j.request.role@, cps, workers).push(ActV::CheckName { name: plan.name@ })
}

/// After the counts of the cluster were read.
pub fn adopt_counted(j: &AdoptJob, plan: &AdoptPlan, cps: i64, workers: i64) -> (r: Vec<Act>)
    requires
        cps < i64::MAX,
        workers < i64::MAX,
        j.request.role@ == "controlplane"@ ==> plan.even_warning == ((cps + 1) % 2 == 0),
    ensures
        acts(r@) == adopt_count(*j, *plan, cps as int, workers as int),
{
    let mut v = no_acts();
    count_up(&mut v, &j.request.role, cps, workers, plan.even_warning);
    act(&mut v, Act::CheckName { name: lit(&plan.name) });
    v
}

/// What is done once it is known whether the name is taken: if so the count goes
/// down again, else the node is stored and its script runs.
pub open spec fn adopt_named(j: AdoptJob, plan: AdoptPlan, taken: bool) -> Seq<ActV> {
    let q = j.request;
    let (memory, cores, disk_gb) = default_hardware(j.cluster, q.role@);
    if taken {
        idle().push(ActV::OneLess { role: q.role@ }).push(
            failed("node name "@ + plan.name@ + " already exists on this cluster"@),
        )
    } else {
        idle().push(
            ActV::InsertNode {
                name: plan.name@,
                role: q.role@,
                vmid: None,
                ip: Some(q.ip@),
                memory,
                cores,
                disk_gb,
            },
        ).push(
            logged(
                "==> joining existing "@ + plan.name@ + " @ "@ + q.ip@ + " (no VM create)\n"@,
            ),
        ).push(
            ActV::Script {
                args: adopt_args(j.cluster, q, plan, j.cluster_out@, j.cp_ip@),
            },
        )
    }
}

/// After it was looked whether the name is taken.
pub fn adopt_name_checked(j: &AdoptJob, plan: &AdoptPlan, taken: bool) -> (r: Vec<Act>)
    ensures
        acts(r@) == adopt_named(*j, *plan, taken),
{
    let mut v = no_acts();
    let q = &j.request;
    if taken {
        act(&mut v, Act::OneLess { role: lit(&q.role) });
        fail(&mut v, &name_taken(&plan.name));
        return v;
    }
    let (memory, cores, disk_gb) = role_hardware(&j.cluster, &q.role);
    act(
        &mut v,
        Act::InsertNode {
            name: lit(&plan.name),
            role: lit(&q.role),
            vmid: None,
            ip: Some(lit(&q.ip)),
            memory,
            cores,
            disk_gb,
        },
    );
    log(
        &mut v,
        &lit("==> joining existing ").concat(&plan.name).concat(" @ ").concat(&q.ip).concat(
            " (no VM create)\n",
        ),
    );
    act(
        &mut v,
        Act::Script { args: adopt_arguments(&j.cluster, q, plan, &j.cluster_out, &j.cp_ip) },
    );
    v
}

/// What is done once the script of an adopted node has run.
pub open spec fn adopt_run(j: AdoptJob, plan: AdoptPlan, ran: Result<String, String>) -> Seq<ActV> {
    match ran {
        Ok(_) => idle().push(ActV::NodeReady { ip: Some(j.request.ip@) }).push(
            logged("ready "@ + plan.name@ + " @ "@ + j.request.ip@ + "\n"@),
        ).push(ActV::CheckKubeconfig),
        Err(e) => script_failed(e@),
    }
}

/// After the script of an adopted node has run; its looks follow as those of an
/// added node.
pub fn adopt_ran(j: &AdoptJob, plan: &AdoptPlan, ran: &Result<String, String>) -> (r: (
    Joining,
    Vec<Act>,
))
    ensures
        acts(r.1@) == adopt_run(*j, *plan, *ran),
        r.0@ == (JoiningV { n: 1, name: plan.name@, joined: seq![plan.name@], at: 0 }),
{
    let mut joined = no_texts();
    put(&mut joined, &plan.name);
    assert(texts(joined@) =~= seq![plan.name@]);
    let st = Joining { n: 1, name: lit(&plan.name), joined, at: 0 };
    match ran {
        Ok(_) => {
            let mut v = no_acts();
            act(&mut v, Act::NodeReady { ip: Some(lit(&j.request.ip)) });
            log(
                &mut v,
                &lit("ready ").concat(&plan.name).concat(" @ ").concat(&j.request.ip).concat(
                    "\n",
                ),
            );
            act(&mut v, Act::CheckKubeconfig);
            (st, v)
        },
        Err(e) => (st, stop_on(e)),
    }
}

/// A job that fails after its script leaves the cluster ready, with the error.
pub proof fn law_failed_script_leaves_cluster_ready(
    j: AddJob,
    st: JoiningV,
    k: AdoptJob,
    plan: AdoptPlan,
    error: String,
)
    ensures
        add_run(j, st, Err(error)).contains(ActV::ClusterReady { error: Some(error@) }),
        adopt_run(k, plan, Err(error)).contains(ActV::ClusterReady { error: Some(error@) }),
        ends(add_run(j, st, Err(error))),
        ends(adopt_run(k, plan, Err(error))),
{
    let a = script_failed(error@);
    assert(a[1] == (ActV::ClusterReady { error: Some(error@) }));
}

// ---------------------------------------------------------------------------
// Environments of the scripts
// ---------------------------------------------------------------------------

/// The environment of the script that adds a machine: what all scripts get, the
/// hosts to leave alone, the provider, the architecture and the wait for the
/// machine's API.
pub open spec fn add_env(
    lab: Seq<EnvV>,
    excluded: Option<Seq<char>>,
    provider: Seq<EnvV>,
    arch: Seq<char>,
    arm64: Seq<EnvV>,
    disk_gb: int,
) -> Seq<EnvV> {
    let a = match excluded {
        Some(x) => lab.push(("PROXMOX_STATIC_EXCLUDE"@, Some(x))),
        None => lab,
    };
    ((a + provider).push(("PERTISK_ARCH"@, Some(arch))).push(("ARCH"@, Some(arch))) + arm64).push(
        ("API_AFTER_IP_TIMEOUT"@, Some(sdec(api_wait(disk_gb)))),
    )
}

pub fn append_env(v: &mut Vec<EnvOp>, more: Vec<EnvOp>)
    ensures
        envs(final(v)@) == envs(old(v)@) + envs(more@),
{
    let ghost before = v@;
    let mut more = more;
    let ghost m = more@;
    v.append(&mut more);
    assert(envs(v@) =~= envs(before) + envs(m));
}

pub fn add_script_env(
    lab: Vec<EnvOp>,
    excluded: &Option<String>,
    provider: Vec<EnvOp>,
    arch: &str,
    arm64: Vec<EnvOp>,
    disk_gb: i64,
) -> (r: Vec<EnvOp>)
    ensures
        envs(r@) == add_env(
            envs(lab@),
            opt_text(*excluded),
            envs(provider@),
            arch@,
            envs(arm64@),
            disk_gb as int,
        ),
{
    let mut v = lab;
    match excluded {
        Some(x) => set_env(&mut v, "PROXMOX_STATIC_EXCLUDE", x),
        None => {},
    }
    append_env(&mut v, provider);
    set_env(&mut v, "PERTISK_ARCH", arch);
    set_env(&mut v, "ARCH", arch);
    append_env(&mut v, arm64);
    set_env(&mut v, "API_AFTER_IP_TIMEOUT", &i64_str(api_after_ip_timeout(disk_gb)));
    v
}

} // verus!
