//! Creating a cluster, step by step.
//!
//! Each function takes the answer to the last action of the step before it and
//! says what to do next.
use crate::jobs::action::{Act, ActV, act, acts, fail, failed, idle, log, logged, no_acts};
use crate::jobs::create::{cluster_endpoint, create_args, create_arguments, endpoint};
use crate::jobs::join::append_env;
use crate::jobs::lab::{Hypervisor, create_family, create_hypervisor};
use crate::jobs::rows::{ClusterRow, EnvOp, EnvV, env_flag, env_is_on, envs, set_env};
use crate::json::text_or;
use crate::num::{i64_str, sdec};
use crate::text::{
    cat, join, lit, lower, opt_text, quote, quoted, str_eq, str_join, str_lower, texts,
};
use vstd::prelude::*;
use vstd::string::*;

verus! {

/// A job that creates a cluster.
#[derive(Debug, PartialEq, Eq)]
pub struct CreateJob {
    pub cluster: ClusterRow,
    /// The first machine number.
    pub vmid: i64,
    /// The architecture of the guests.
    pub arch: String,
    /// The script that builds the machines.
    pub script: String,
}

/// Where there is no script, a cluster may count as ready.
pub fn allows_stub(env: &Vec<(String, String)>) -> (r: bool)
    ensures
        r == env_flag(env@, "MGMT_ALLOW_LAB_STUB"@),
{
    env_is_on(env, "MGMT_ALLOW_LAB_STUB")
}

/// The script for a provider kind that stands beside the configured one, where
/// there is one of its own.
pub fn lab_script_name(kind: &str) -> (r: Option<String>)
    ensures
        opt_text(r) == (match create_family(kind@) {
            Hypervisor::Vsphere => Some("vsphere-lab-up.sh"@),
            Hypervisor::Nutanix => Some("nutanix-lab-up.sh"@),
            Hypervisor::Proxmox => None,
        }),
{
    match create_hypervisor(kind) {
        Hypervisor::Vsphere => Some(lit("vsphere-lab-up.sh")),
        Hypervisor::Nutanix => Some(lit("nutanix-lab-up.sh")),
        Hypervisor::Proxmox => None,
    }
}

/// The environment of the script that creates a cluster: where it leaves its
/// files, the version, the provider, the static addresses, what all scripts get,
/// the hosts to leave alone, and the architecture.
pub open spec fn create_env(
    cluster_out: Seq<char>,
    version: Seq<char>,
    provider: Seq<EnvV>,
    addresses: Seq<EnvV>,
    lab: Seq<EnvV>,
    excluded: Option<Seq<char>>,
    arch: Seq<char>,
    arm64: Seq<EnvV>,
) -> Seq<EnvV> {
    let a = Seq::<EnvV>::empty().push(("CLUSTER_OUT"@, Some(cluster_out))).push(
        ("K8S_VER"@, Some(version)),
    ) + provider + addresses + lab;
    let b = match excluded {
        Some(x) => a.push(("PROXMOX_STATIC_EXCLUDE"@, Some(x))),
        None => a,
    };
    b.push(("PERTISK_ARCH"@, Some(arch))).push(("ARCH"@, Some(arch))) + arm64
}

pub fn create_script_env(
    cluster_out: &str,
    version: &str,
    provider: Vec<EnvOp>,
    addresses: Vec<EnvOp>,
    lab: Vec<EnvOp>,
    excluded: &Option<String>,
    arch: &str,
    arm64: Vec<EnvOp>,
) -> (r: Vec<EnvOp>)
    ensures
        envs(r@) == create_env(
            cluster_out@,
            version@,
            envs(provider@),
            envs(addresses@),
            envs(lab@),
            opt_text(*excluded),
            arch@,
            envs(arm64@),
        ),
{
    let mut v: Vec<EnvOp> = Vec::new();
    assert(envs(v@) =~= Seq::<EnvV>::empty());
    set_env(&mut v, "CLUSTER_OUT", cluster_out);
    set_env(&mut v, "K8S_VER", version);
    append_env(&mut v, provider);
    append_env(&mut v, addresses);
    append_env(&mut v, lab);
    match excluded {
        Some(x) => set_env(&mut v, "PROXMOX_STATIC_EXCLUDE", x),
        None => {},
    }
    set_env(&mut v, "PERTISK_ARCH", arch);
    set_env(&mut v, "ARCH", arch);
    append_env(&mut v, arm64);
    v
}

/// A text that may be missing, as diagnostics show it.
pub open spec fn shown_text(o: Option<String>) -> Seq<char> {
    match o {
        Some(s) => "Some("@ + quoted(s@) + ")"@,
        None => "None"@,
    }
}

fn show_text(o: &Option<String>) -> (r: String)
    ensures
        r@ == shown_text(*o),
{
    match o {
        Some(s) => lit("Some(").concat(&quote(s)).concat(")"),
        None => lit("None"),
    }
}

/// What the log says of a cluster before it is created.
pub open spec fn create_note(j: CreateJob) -> Seq<char> {
    let c = j.cluster;
    "create cluster="@ + c.name@ + " arch="@ + j.arch@ + " cps="@ + sdec(c.controlplanes as int)
        + " workers="@ + sdec(c.workers as int) + " k8s="@ + c.k8s_version@ + " network="@ + lower(
        c.network_mode@,
    ) + " pod="@ + c.pod_subnet@ + " svc="@ + c.service_subnet@ + " vip="@ + shown_text(c.vip)
        + " vip6="@ + shown_text(c.vip6) + "\n"@
}

fn note_create(j: &CreateJob) -> (r: String)
    ensures
        r@ == create_note(*j),
{
    let c = &j.cluster;
    lit("create cluster=").concat(&c.name).concat(" arch=").concat(&j.arch).concat(" cps=").concat(
        &i64_str(c.controlplanes),
    ).concat(" workers=").concat(&i64_str(c.workers)).concat(" k8s=").concat(
        &c.k8s_version,
    ).concat(" network=").concat(&str_lower(&c.network_mode)).concat(" pod=").concat(
        &c.pod_subnet,
    ).concat(" svc=").concat(&c.service_subnet).concat(" vip=").concat(&show_text(&c.vip)).concat(
        " vip6=",
    ).concat(&show_text(&c.vip6)).concat("\n")
}

/// The complaint about a script that is missing.
pub open spec fn script_missing(path: Seq<char>) -> Seq<char> {
    "lab-up script not found at "@ + path
        + "\nSet MGMT_LAB_UP to an absolute path (RPM default: /usr/share/pertisk-mgmt/scripts/proxmox-lab-up.sh),\nor set MGMT_ALLOW_LAB_STUB=1 for local UI-only stub."@
}

/// What the log says before files of an earlier cluster of the name go away.
pub fn leftover_note(dir: &str) -> (r: String)
    ensures
        r@ == "clear leftover kubeconfig dir "@ + dir@
            + " from a previous cluster of this name\n"@,
{
    lit("clear leftover kubeconfig dir ").concat(dir).concat(
        " from a previous cluster of this name\n",
    )
}

/// The first step of a creation: the planned nodes show up, and the script runs.
/// Without a script the creation fails, or where that is allowed counts as done.
pub open spec fn create_started(j: CreateJob, script_there: bool, stub: bool) -> Seq<ActV> {
    let c = j.cluster;
    let a = idle().push(logged("$ "@ + quoted(j.script@) + "\n"@)).push(
        logged(create_note(j)),
    ).push(ActV::StoreVmid { vmid: j.vmid as int }).push(
        ActV::SeedNodes { status: "provisioning"@ },
    ).push(
        logged(
            "seeded "@ + sdec(c.controlplanes as int) + " CP + "@ + sdec(c.workers as int)
                + " worker node rows (status=provisioning)\n"@,
        ),
    );
    if script_there {
        a.push(ActV::Script { args: create_args(c, j.vmid as int, j.arch@) })
    } else if stub {
        a.push(
            logged(
                "WARNING: lab-up script not found; MGMT_ALLOW_LAB_STUB=1 — marking cluster ready (dev stub)\n"@,
            ),
        ).push(ActV::SeedNodes { status: "ready"@ }).push(
            ActV::StubCluster {
                endpoint: text_or(opt_text(c.vip), "127.0.0.1"@),
                error: "dev stub: lab-up missing at "@ + j.script@ + " — not a real cluster"@,
            },
        ).push(ActV::Done)
    } else {
        a.push(ActV::NodesFailed).push(failed(script_missing(j.script@)))
    }
}

/// Starts to create a cluster.
pub fn create_begin(j: &CreateJob, script_there: bool, stub: bool) -> (r: Vec<Act>)
    ensures
        acts(r@) == create_started(*j, script_there, stub),
{
    let mut v = no_acts();
    let c = &j.cluster;
    log(&mut v, &lit("$ ").concat(&quote(&j.script)).concat("\n"));
    log(&mut v, &note_create(j));
    act(&mut v, Act::StoreVmid { vmid: j.vmid });
    act(&mut v, Act::SeedNodes { status: lit("provisioning") });
    log(
        &mut v,
        &lit("seeded ").concat(&i64_str(c.controlplanes)).concat(" CP + ").concat(
            &i64_str(c.workers),
        ).concat(" worker node rows (status=provisioning)\n"),
    );
    if script_there {
        act(&mut v, Act::Script { args: create_arguments(c, j.vmid, &j.arch) });
    } else if stub {
        log(
            &mut v,
            "WARNING: lab-up script not found; MGMT_ALLOW_LAB_STUB=1 — marking cluster ready (dev stub)\n",
        );
        act(&mut v, Act::SeedNodes { status: lit("ready") });
        let endpoint = match &c.vip {
            Some(s) => lit(s),
            None => lit("127.0.0.1"),
        };
        act(
            &mut v,
            Act::StubCluster {
                endpoint,
                error: lit("dev stub: lab-up missing at ").concat(&j.script).concat(
                    " — not a real cluster",
                ),
            },
        );
        act(&mut v, Act::Done);
    } else {
        act(&mut v, Act::NodesFailed);
        fail(
            &mut v,
            &lit("lab-up script not found at ").concat(&j.script).concat(
                "\nSet MGMT_LAB_UP to an absolute path (RPM default: /usr/share/pertisk-mgmt/scripts/proxmox-lab-up.sh),\nor set MGMT_ALLOW_LAB_STUB=1 for local UI-only stub.",
            ),
        );
    }
    v
}

/// What is done once the script has run. An error is how it ended.
pub open spec fn create_run(ran: Result<(), String>) -> Seq<ActV> {
    match ran {
        Ok(_) => idle().push(ActV::ResolveKubeconfig),
        Err(status) => idle().push(ActV::NodesFailed).push(
            failed("lab-up exited with "@ + status@),
        ),
    }
}

/// After the script has run.
pub fn create_ran(ran: &Result<(), String>) -> (r: Vec<Act>)
    ensures
        acts(r@) == create_run(*ran),
{
    let mut v = no_acts();
    match ran {
        Ok(_) => {
            act(&mut v, Act::ResolveKubeconfig);
        },
        Err(status) => {
            act(&mut v, Act::NodesFailed);
            fail(&mut v, &cat("lab-up exited with ", status));
        },
    }
    v
}

/// Where the kubeconfig of a new cluster comes from.
#[derive(Debug, PartialEq, Eq)]
pub enum KubeconfigSource {
    /// It is where it should be.
    Own,
    /// It is copied from this place.
    Copy(String),
    Missing(String),
}

#[verifier::ext_equal]
pub ghost enum KubeconfigSourceV {
    Own,
    Copy(Seq<char>),
    Missing(Seq<char>),
}

impl View for KubeconfigSource {
    type V = KubeconfigSourceV;

    open spec fn view(&self) -> KubeconfigSourceV {
        match self {
            KubeconfigSource::Own => KubeconfigSourceV::Own,
            KubeconfigSource::Copy(s) => KubeconfigSourceV::Copy(s@),
            KubeconfigSource::Missing(s) => KubeconfigSourceV::Missing(s@),
        }
    }
}

/// The first place at or after `i` where a file is; the number of places if
/// there is none.
pub open spec fn first_there(there: Seq<bool>, i: int) -> int
    decreases there.len() - i,
{
    if 0 <= i < there.len() && !there[i] {
        first_there(there, i + 1)
    } else {
        i
    }
}

/// Where the kubeconfig comes from, given whether it is where it should be and
/// at which other places one is.
pub open spec fn kubeconfig_source(
    dest: Seq<char>,
    own: bool,
    others: Seq<Seq<char>>,
    there: Seq<bool>,
) -> KubeconfigSourceV {
    let k = first_there(there, 0);
    if own {
        KubeconfigSourceV::Own
    } else if k < others.len() {
        KubeconfigSourceV::Copy(others[k])
    } else {
        KubeconfigSourceV::Missing(
            "admin.conf not found at "@ + dest
                + " or out/cluster/admin.conf after lab-up"@,
        )
    }
}

/// Where the kubeconfig of a new cluster comes from.
pub fn resolve_kubeconfig(dest: &str, own: bool, others: &Vec<String>, there: &Vec<bool>) -> (r:
    KubeconfigSource)
    requires
        there@.len() == others@.len(),
    ensures
        r@ == kubeconfig_source(dest@, own, texts(others@), there@),
{
    if own {
        return KubeconfigSource::Own;
    }
    let mut i: usize = 0;
    while i < others.len()
        invariant
            i <= others.len(),
            !own,
            there@.len() == others@.len(),
            first_there(there@, 0) == first_there(there@, i as int),
        decreases others.len() - i,
    {
        if there[i] {
            assert(texts(others@)[i as int] == others@[i as int]@);
            return KubeconfigSource::Copy(lit(&others[i]));
        }
        i += 1;
    }
    KubeconfigSource::Missing(
        lit("admin.conf not found at ").concat(dest).concat(
            " or out/cluster/admin.conf after lab-up",
        ),
    )
}

/// What the log says of a kubeconfig that was copied.
pub fn copied_note(from: &str, to: &str, cluster: &str) -> (r: String)
    ensures
        r@ == "copied kubeconfig "@ + from@ + " → "@ + to@ + " (cluster="@ + cluster@ + ")\n"@,
{
    lit("copied kubeconfig ").concat(from).concat(" → ").concat(to).concat(" (cluster=").concat(
        cluster,
    ).concat(")\n")
}

/// What is done once the kubeconfig was looked for: the cluster is ready at its
/// endpoint, its nodes are, and what they run is read.
pub open spec fn create_found(c: ClusterRow, got: Result<String, String>) -> Seq<ActV> {
    match got {
        Ok(kubeconfig) => idle().push(
            ActV::ClusterCreated { endpoint: endpoint(c, kubeconfig@) },
        ).push(ActV::SeedNodes { status: "ready"@ }).push(ActV::SyncNodes).push(
            ActV::ApproveCerts,
        ),
        Err(e) => idle().push(failed(e@)),
    }
}

/// After the kubeconfig was looked for.
pub fn create_kubeconfig_found(c: &ClusterRow, got: &Result<String, String>) -> (r: Vec<Act>)
    ensures
        acts(r@) == create_found(*c, *got),
{
    let mut v = no_acts();
    match got {
        Ok(kubeconfig) => {
            act(&mut v, Act::ClusterCreated { endpoint: cluster_endpoint(c, kubeconfig) });
            act(&mut v, Act::SeedNodes { status: lit("ready") });
            act(&mut v, Act::SyncNodes);
            act(&mut v, Act::ApproveCerts);
        },
        Err(e) => {
            fail(&mut v, e);
        },
    }
    v
}

/// A list in the log, or why there is none; nothing for an empty one.
pub open spec fn listed_note(
    a: Seq<ActV>,
    good: Seq<char>,
    bad: Seq<char>,
    got: Result<Vec<String>, String>,
) -> Seq<ActV> {
    match got {
        Ok(names) => if names@.len() > 0 {
            a.push(logged(good + join(texts(names@), ", "@) + "\n"@))
        } else {
            a
        },
        Err(e) => a.push(logged(bad + e@ + "\n"@)),
    }
}

fn note_list(v: &mut Vec<Act>, good: &str, bad: &str, got: &Result<Vec<String>, String>)
    ensures
        acts(final(v)@) == listed_note(acts(old(v)@), good@, bad@, *got),
{
    match got {
        Ok(names) => {
            if names.len() > 0 {
                log(v, &lit(good).concat(&str_join(names, ", ")).concat("\n"));
            }
        },
        Err(e) => {
            log(v, &lit(bad).concat(e).concat("\n"));
        },
    }
}

/// After the certificates of the nodes were approved, well or not.
pub fn create_approved(got: &Result<Vec<String>, String>) -> (r: Vec<Act>)
    ensures
        acts(r@) == listed_note(
            idle(),
            "approved kubelet serving CSRs: "@,
            "warn: kubelet serving CSR approval: "@,
            *got,
        ).push(ActV::RestoreAddons),
{
    let mut v = no_acts();
    note_list(
        &mut v,
        "approved kubelet serving CSRs: ",
        "warn: kubelet serving CSR approval: ",
        got,
    );
    act(&mut v, Act::RestoreAddons);
    v
}

/// After the add-ons were queued, well or not.
pub fn create_restored(got: &Result<Vec<String>, String>) -> (r: Vec<Act>)
    ensures
        acts(r@) == listed_note(
            idle(),
            "reinstall add-ons from saved config: "@,
            "warn: could not queue saved add-ons: "@,
            *got,
        ).push(ActV::Done),
{
    let mut v = no_acts();
    note_list(
        &mut v,
        "reinstall add-ons from saved config: ",
        "warn: could not queue saved add-ons: ",
        got,
    );
    act(&mut v, Act::Done);
    v
}

/// A creation that fails leaves no node that still counts as being built.
pub proof fn law_failed_creation_fails_its_nodes(j: CreateJob, status: String)
    ensures
        create_started(j, false, false).contains(ActV::NodesFailed),
        create_started(j, false, false).last() is Fail,
        create_run(Err(status)).contains(ActV::NodesFailed),
        create_run(Err(status)).last() is Fail,
{
    let a = create_started(j, false, false);
    assert(a[5] == ActV::NodesFailed);
    let b = create_run(Err(status));
    assert(b[0] == ActV::NodesFailed);
}

/// Which row of a node a line of the log speaks of.
#[derive(Debug, Clone, Copy, PartialEq, Eq, Structural)]
pub enum Touch {
    /// The row of the name.
    Name,
    /// The row of the machine number.
    Number,
    /// A new row.
    Insert,
}

/// A row of a node: its name and machine number.
#[derive(Debug, PartialEq, Eq)]
pub struct NodeKey {
    pub name: String,
    pub vmid: Option<i64>,
}

/// A row has the name.
pub open spec fn has_name(rows: Seq<NodeKey>, name: Seq<char>) -> bool {
    exists|i: int| 0 <= i < rows.len() && (#[trigger] rows[i]).name@ == name
}

/// A row has the number.
pub open spec fn has_number(rows: Seq<NodeKey>, vmid: i64) -> bool {
    exists|i: int| 0 <= i < rows.len() && (#[trigger] rows[i]).vmid == Some(vmid)
}

/// The row that a line speaks of: that of the name, else that of the number,
/// else a new one. A machine whose name at the hypervisor differs from that of
/// its planned node is thus not stored twice.
pub open spec fn touched(rows: Seq<NodeKey>, name: Seq<char>, vmid: Option<i64>) -> Touch {
    if has_name(rows, name) {
        Touch::Name
    } else if vmid is Some && has_number(rows, vmid->0) {
        Touch::Number
    } else {
        Touch::Insert
    }
}

/// Which row of a cluster a line of the log speaks of.
pub fn touch_node_progress(rows: &Vec<NodeKey>, name: &str, vmid: Option<i64>) -> (r: Touch)
    ensures
        r == touched(rows@, name@, vmid),
{
    let mut number = false;
    let mut i: usize = 0;
    while i < rows.len()
        invariant
            i <= rows.len(),
            forall|k: int| 0 <= k < i ==> (#[trigger] rows@[k]).name@ != name@,
            number == (vmid is Some && exists|k: int|
                0 <= k < i && (#[trigger] rows@[k]).vmid == vmid),
        decreases rows.len() - i,
    {
        if str_eq(&rows[i].name, name) {
            assert(rows@[i as int].name@ == name@);
            return Touch::Name;
        }
        match (vmid, rows[i].vmid) {
            (Some(a), Some(b)) => {
                if a == b {
                    assert(rows@[i as int].vmid == vmid);
                    number = true;
                }
            },
            _ => {},
        }
        i += 1;
    }
    if number {
        Touch::Number
    } else {
        Touch::Insert
    }
}

/// A row is added only where neither its name nor its number is stored.
pub proof fn law_no_second_row(rows: Seq<NodeKey>, name: Seq<char>, vmid: Option<i64>)
    requires
        touched(rows, name, vmid) == Touch::Insert,
    ensures
        forall|i: int| 0 <= i < rows.len() ==> (#[trigger] rows[i]).name@ != name,
        vmid is Some ==> forall|i: int| 0 <= i < rows.len() ==> (#[trigger] rows[i]).vmid != vmid,
{
}

/// A creation seeds its rows, then runs the script with what the cluster is to be;
/// without the script it fails, or, only where that is allowed, ends as a stub.
pub proof fn law_creation_runs_its_script(j: CreateJob, stub: bool)
    ensures
        ({
            let yes = create_started(j, true, stub);
            let no = create_started(j, false, false);
            let as_stub = create_started(j, false, true);
            &&& yes.last() is Script && yes.last()->Script_args == create_args(
                j.cluster,
                j.vmid as int,
                j.arch@,
            )
            &&& yes.contains(ActV::SeedNodes { status: "provisioning"@ })
            &&& yes.contains(ActV::StoreVmid { vmid: j.vmid as int })
            &&& no.last() is Fail && no.contains(ActV::NodesFailed)
            &&& as_stub.last() is Done && as_stub.contains(ActV::SeedNodes { status: "ready"@ })
        }),
{
    let yes = create_started(j, true, stub);
    assert(yes[2] == (ActV::StoreVmid { vmid: j.vmid as int }));
    assert(yes[3] == (ActV::SeedNodes { status: "provisioning"@ }));
    let no = create_started(j, false, false);
    assert(no[5] == ActV::NodesFailed);
    let as_stub = create_started(j, false, true);
    assert(as_stub[6] == (ActV::SeedNodes { status: "ready"@ }));
}

/// A cluster is ready once its kubeconfig was found, and not before: a script that
/// failed, or a kubeconfig that is missing, fails the job.
pub proof fn law_created_with_its_kubeconfig(c: ClusterRow, kc: String, e: String)
    ensures
        create_run(Ok::<(), String>(())).last() is ResolveKubeconfig,
        create_run(Err::<(), String>(e)).last() is Fail && create_run(Err::<(), String>(e))[0]
            is NodesFailed,
        ({
            let a = create_found(c, Ok::<String, String>(kc));
            &&& a[0] == (ActV::ClusterCreated { endpoint: endpoint(c, kc@) })
            &&& a[1] == (ActV::SeedNodes { status: "ready"@ })
            &&& create_found(c, Err::<String, String>(e)).len() == 1 && create_found(
                c,
                Err::<String, String>(e),
            )[0] is Fail
        }),
{
}

/// The kubeconfig is the cluster's own where it is there, else the first of the
/// others that is, else it is missing.
pub proof fn law_source_of_a_kubeconfig(
    dest: Seq<char>,
    others: Seq<Seq<char>>,
    there: Seq<bool>,
    k: int,
)
    requires
        others.len() == there.len(),
    ensures
        kubeconfig_source(dest, true, others, there) is Own,
        0 <= k < there.len() && there[k] && (forall|i: int| 0 <= i < k ==> !(#[trigger] there[i]))
            ==> kubeconfig_source(dest, false, others, there) == KubeconfigSourceV::Copy(others[k]),
        (forall|i: int| 0 <= i < there.len() ==> !(#[trigger] there[i])) ==> kubeconfig_source(
            dest,
            false,
            others,
            there,
        ) is Missing,
{
    lemma_first_there(there, 0);
}

proof fn lemma_first_there(there: Seq<bool>, i: int)
    requires
        0 <= i <= there.len(),
    ensures
        i <= first_there(there, i) <= there.len(),
        first_there(there, i) < there.len() ==> there[first_there(there, i)],
        forall|n: int| i <= n < first_there(there, i) ==> !(#[trigger] there[n]),
    decreases there.len() - i,
{
    if i < there.len() && !there[i] {
        lemma_first_there(there, i + 1);
    }
}

/// What a script reports goes to the row of the name, else to that of the number,
/// else to a new one.
pub proof fn law_reported_node_has_its_row(
    rows: Seq<NodeKey>,
    name: Seq<char>,
    vmid: i64,
    i: int,
)
    ensures
        0 <= i < rows.len() && rows[i].name@ == name ==> touched(rows, name, Some(vmid)) is Name,
        0 <= i < rows.len() && rows[i].vmid == Some(vmid) && !has_name(rows, name) ==> touched(
            rows,
            name,
            Some(vmid),
        ) is Number,
        rows.len() == 0 ==> touched(rows, name, Some(vmid)) is Insert,
        !has_name(rows, name) ==> touched(rows, name, None) is Insert,
{
}

} // verus!
