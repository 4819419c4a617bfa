//! What adding, adopting, removing and resizing a node do, whatever the cluster.
use crate::jobs::action::ActV;
use crate::jobs::create::{asks_for, option_in, option_value};
use crate::jobs::join::{
    AddJob, AdoptJob, JoiningV, add_one, add_run, add_started, adopt_count, adopt_named, adopt_run,
    adopt_started, with_kubeconfig,
};
use crate::jobs::lab::guest_arch;
use crate::jobs::node_upgrade::kubelet_wait;
use crate::jobs::nodes::{
    AddRequest, AdoptPlan, AdoptRequest, DiskStep, NextNode, ResizePlan, add_args, adopt_args,
    api_wait, base_vmid, counts_without, cp_address, disk_step, grown_disk, last_node_ip,
    owned_vmid, requested_ids, requested_role, strings_among, trimmed_member,
};
use crate::jobs::removal::{
    RemovalJob, removal_last, removal_left, removal_machine, removal_started,
};
use crate::jobs::rows::ClusterRow;
use crate::json::JsonV;
use crate::num::law_parse_rendered_signed;
use crate::text::{lines, starts_with, trim};
use vstd::prelude::*;

verus! {

/// The script that adds a machine is told the machine that was asked for, and the
/// number of a control plane exactly where it is one.
#[verifier::rlimit(60)]
pub proof fn law_add_script_is_told_the_node(c: ClusterRow, bridge: Seq<char>, q: AddRequest, n: NextNode, out: Seq<char>, cp_ip: Seq<char>, arch: Seq<char>)
    ensures
        ({
            let args = add_args(c, bridge, q, n, out, cp_ip, arch);
            &&& option_in(args, "--role"@) == Some(q.role@)
            &&& asks_for(args, "--vmid"@, n.vmid as int)
            &&& option_in(args, "--name"@) == Some(n.name@)
            &&& asks_for(args, "--memory"@, q.memory as int)
            &&& asks_for(args, "--cores"@, q.cores as int)
            &&& asks_for(args, "--disk-gb"@, q.disk_gb as int)
            &&& option_in(args, "--cluster-out"@) == Some(out)
            &&& option_in(args, "--cluster-name"@) == Some(c.name@)
            &&& option_in(args, "--cp-ip"@) == Some(cp_ip)
            &&& option_in(args, "--bridge"@) == Some(bridge)
            &&& option_in(args, "--arch"@) == Some(arch)
            &&& n.cp_index is None ==> option_in(args, "--controlplane-index"@) is None
            &&& n.cp_index is Some ==> asks_for(
                args,
                "--controlplane-index"@,
                n.cp_index->0 as int,
            )
        }),
{
    let args = add_args(c, bridge, q, n, out, cp_ip, arch);
    reveal_strlit("--role");
    reveal_strlit("--vmid");
    reveal_strlit("--name");
    reveal_strlit("--memory");
    reveal_strlit("--cores");
    reveal_strlit("--disk-gb");
    reveal_strlit("--cluster-out");
    reveal_strlit("--cluster-name");
    reveal_strlit("--cp-ip");
    reveal_strlit("--bridge");
    reveal_strlit("--arch");
    reveal_strlit("--controlplane-index");
    reveal_strlit("--skip-build");
    reveal_strlit("--dual-stack");
    assert("--role"@.len() == 6);
    assert("--vmid"@.len() == 6);
    assert("--name"@.len() == 6);
    assert("--memory"@.len() == 8);
    assert("--cores"@.len() == 7);
    assert("--disk-gb"@.len() == 9);
    assert("--cluster-out"@.len() == 13);
    assert("--cluster-name"@.len() == 14);
    assert("--cp-ip"@.len() == 7);
    assert("--bridge"@.len() == 8);
    assert("--arch"@.len() == 6);
    assert("--controlplane-index"@.len() == 20);
    assert("--skip-build"@.len() == 12);
    assert("--dual-stack"@.len() == 12);
    assert("--role"@[2] == 'r' && "--vmid"@[2] == 'v');
    assert("--role"@[2] == 'r' && "--name"@[2] == 'n');
    assert("--role"@[2] == 'r' && "--arch"@[2] == 'a');
    assert("--vmid"@[2] == 'v' && "--name"@[2] == 'n');
    assert("--vmid"@[2] == 'v' && "--arch"@[2] == 'a');
    assert("--name"@[2] == 'n' && "--arch"@[2] == 'a');
    assert("--memory"@[2] == 'm' && "--bridge"@[2] == 'b');
    assert("--cores"@[3] == 'o' && "--cp-ip"@[3] == 'p');
    assert("--skip-build"@[2] == 's' && "--dual-stack"@[2] == 'd');
    assert(args[0] == "--role"@);
    assert(args[2] == "--vmid"@);
    assert(args[4] == "--name"@);
    assert(args[6] == "--memory"@);
    assert(args[8] == "--cores"@);
    assert(args[10] == "--disk-gb"@);
    assert(args[12] == "--cluster-out"@);
    assert(args[14] == "--cluster-name"@);
    assert(args[16] == "--cp-ip"@);
    assert(args[18] == "--bridge"@);
    assert(args[20] == "--arch"@);
    if n.cp_index is Some {
        assert(args[22] == "--controlplane-index"@);
        law_parse_rendered_signed(n.cp_index->0 as int);
    }
    reveal_with_fuel(option_value, 14);
    assert(option_value(args, 0, "--role"@) == Some(args[1]));
    assert(option_value(args, 0, "--vmid"@) == Some(args[3]));
    assert(option_value(args, 0, "--name"@) == Some(args[5]));
    assert(option_value(args, 0, "--memory"@) == Some(args[7]));
    assert(option_value(args, 0, "--cores"@) == Some(args[9]));
    assert(option_value(args, 0, "--disk-gb"@) == Some(args[11]));
    assert(option_value(args, 0, "--cluster-out"@) == Some(args[13]));
    assert(option_value(args, 0, "--cluster-name"@) == Some(args[15]));
    assert(option_value(args, 0, "--cp-ip"@) == Some(args[17]));
    assert(option_value(args, 0, "--bridge"@) == Some(args[19]));
    assert(option_value(args, 0, "--arch"@) == Some(args[21]));
    law_parse_rendered_signed(n.vmid as int);
    law_parse_rendered_signed(q.memory as int);
    law_parse_rendered_signed(q.cores as int);
    law_parse_rendered_signed(q.disk_gb as int);
}

/// The script that adopts a machine is told where it is and what it becomes.
#[verifier::rlimit(60)]
pub proof fn law_adopt_script_is_told_the_node(c: ClusterRow, q: AdoptRequest, n: AdoptPlan, out: Seq<char>, cp_ip: Seq<char>)
    ensures
        ({
            let args = adopt_args(c, q, n, out, cp_ip);
            &&& option_in(args, "--role"@) == Some(q.role@)
            &&& option_in(args, "--name"@) == Some(n.name@)
            &&& option_in(args, "--node-ip"@) == Some(q.ip@)
            &&& option_in(args, "--cp-ip"@) == Some(cp_ip)
            &&& option_in(args, "--cluster-out"@) == Some(out)
            &&& option_in(args, "--cluster-name"@) == Some(c.name@)
            &&& n.cp_index is None ==> option_in(args, "--controlplane-index"@) is None
            &&& n.cp_index is Some ==> asks_for(
                args,
                "--controlplane-index"@,
                n.cp_index->0 as int,
            )
        }),
{
    let args = adopt_args(c, q, n, out, cp_ip);
    reveal_strlit("--role");
    reveal_strlit("--name");
    reveal_strlit("--node-ip");
    reveal_strlit("--cp-ip");
    reveal_strlit("--cluster-out");
    reveal_strlit("--cluster-name");
    reveal_strlit("--controlplane-index");
    reveal_strlit("--skip-build");
    reveal_strlit("--dual-stack");
    assert("--role"@.len() == 6);
    assert("--name"@.len() == 6);
    assert("--node-ip"@.len() == 9);
    assert("--cp-ip"@.len() == 7);
    assert("--cluster-out"@.len() == 13);
    assert("--cluster-name"@.len() == 14);
    assert("--controlplane-index"@.len() == 20);
    assert("--skip-build"@.len() == 12);
    assert("--dual-stack"@.len() == 12);
    assert("--role"@[2] == 'r' && "--name"@[2] == 'n');
    assert("--skip-build"@[2] == 's' && "--dual-stack"@[2] == 'd');
    assert(args[0] == "--role"@);
    assert(args[2] == "--name"@);
    assert(args[4] == "--node-ip"@);
    assert(args[6] == "--cp-ip"@);
    assert(args[8] == "--cluster-out"@);
    assert(args[10] == "--cluster-name"@);
    if n.cp_index is Some {
        assert(args[12] == "--controlplane-index"@);
        law_parse_rendered_signed(n.cp_index->0 as int);
    }
    reveal_with_fuel(option_value, 9);
    assert(option_value(args, 0, "--role"@) == Some(args[1]));
    assert(option_value(args, 0, "--name"@) == Some(args[3]));
    assert(option_value(args, 0, "--node-ip"@) == Some(args[5]));
    assert(option_value(args, 0, "--cp-ip"@) == Some(args[7]));
    assert(option_value(args, 0, "--cluster-out"@) == Some(args[9]));
    assert(option_value(args, 0, "--cluster-name"@) == Some(args[11]));

}

/// A node that is added is counted with its role, recorded with the hardware that
/// was asked for, and then made by the script, which is told the same.
pub proof fn law_added_node_is_recorded_as_made(
    j: AddJob,
    k: int,
    n: NextNode,
    cps: int,
    workers: int,
)
    ensures
        ({
            let a = add_one(j, k, n, cps, workers);
            let q = j.request;
            let cp = q.role@ == "controlplane"@;
            let at = a.len() - 1;
            &&& at >= 3
            &&& a[at] is Script
            &&& asks_for(a[at]->Script_args, "--memory"@, q.memory as int)
            &&& asks_for(a[at]->Script_args, "--vmid"@, n.vmid as int)
            &&& option_in(a[at]->Script_args, "--name"@) == Some(n.name@)
            &&& option_in(a[at]->Script_args, "--role"@) == Some(q.role@)
            &&& a[at - 2] == (ActV::InsertNode {
                name: n.name@,
                role: q.role@,
                vmid: Some(n.vmid as int),
                ip: None,
                memory: q.memory as int,
                cores: q.cores as int,
                disk_gb: q.disk_gb as int,
            })
            &&& a[at - 3] == (if cp {
                ActV::Controlplanes { count: cps + 1 }
            } else {
                ActV::Workers { count: workers + 1 }
            })
            &&& a.len() == 5 <==> cp && (cps + 1) % 2 == 0
            &&& a.len() == 4 <==> !(cp && (cps + 1) % 2 == 0)
        }),
{
    law_add_script_is_told_the_node(
        j.cluster,
        j.bridge@,
        j.request,
        n,
        j.cluster_out@,
        j.cp_ip@,
        guest_arch(j.cluster.arch@),
    );
}

/// A machine whose name is taken is not adopted: its count is taken back, and the
/// job fails. Any other is recorded at its address, without a machine number, with
/// the hardware of its role.
pub proof fn law_adopted_node(j: AdoptJob, n: AdoptPlan)
    ensures
        ({
            let no = adopt_named(j, n, true);
            let yes = adopt_named(j, n, false);
            let q = j.request;
            let c = j.cluster;
            let cp = q.role@ == "controlplane"@;
            &&& no.len() == 2 && no[0] == (ActV::OneLess { role: q.role@ }) && no[1] is Fail
            &&& yes.len() == 3 && yes[2] is Script
            &&& yes[0] == (ActV::InsertNode {
                name: n.name@,
                role: q.role@,
                vmid: None,
                ip: Some(q.ip@),
                memory: if cp {
                    c.cp_memory as int
                } else {
                    c.worker_memory as int
                },
                cores: if cp {
                    c.cp_cores as int
                } else {
                    c.worker_cores as int
                },
                disk_gb: if cp {
                    c.cp_disk_gb as int
                } else {
                    c.worker_disk_gb as int
                },
            })
            &&& option_in(yes[2]->Script_args, "--node-ip"@) == Some(q.ip@)
            &&& option_in(yes[2]->Script_args, "--name"@) == Some(n.name@)
        }),
{
    law_adopt_script_is_told_the_node(j.cluster, j.request, n, j.cluster_out@, j.cp_ip@);
}

/// A node is ready once its script has run: at the address that the script
/// reported last, or at the one that it was adopted by. The next node is begun
/// until as many have joined as were asked for.
pub proof fn law_ready_after_the_script(
    j: AddJob,
    st: JoiningV,
    a: AdoptJob,
    n: AdoptPlan,
    output: String,
    e: String,
)
    ensures
        ({
            let ls = lines(output@);
            let done = add_run(j, st, Ok::<String, String>(output));
            let taken = adopt_run(a, n, Ok::<String, String>(output));
            &&& done[0] == (ActV::NodeReady { ip: last_node_ip(ls, ls.len() as int) })
            &&& st.n < j.request.count <==> done.last() is ReadCounts
            &&& st.n >= j.request.count <==> done.last() is CheckKubeconfig
            &&& taken[0] == (ActV::NodeReady { ip: Some(a.request.ip@) })
            &&& taken.last() is CheckKubeconfig
            &&& add_run(j, st, Err::<String, String>(e)).last() is Fail
            &&& adopt_run(a, n, Err::<String, String>(e)).last() is Fail
            &&& add_run(j, st, Err::<String, String>(e))[0] is NodeError
            &&& adopt_run(a, n, Err::<String, String>(e))[0] is NodeError
            &&& add_run(j, st, Err::<String, String>(e))[1] == (ActV::ClusterReady {
                error: Some(e@),
            })
        }),
{
}

/// The address that is reported last counts.
pub proof fn law_last_reported_address(ls: Seq<Seq<char>>, n: int, k: int, ip: Seq<char>)
    requires
        0 <= k < n <= ls.len(),
        ls[k] == "NODE_IP="@ + ip,
        forall|i: int| k < i < n ==> !starts_with(#[trigger] ls[i], "NODE_IP="@),
    ensures
        last_node_ip(ls, n) == Some(ip),
    decreases n,
{
    reveal_strlit("NODE_IP=");
    if n - 1 > k {
        assert(!starts_with(ls[n - 1], "NODE_IP="@));
        law_last_reported_address(ls, n - 1, k, ip);
    } else {
        let s = ls[k];
        assert(s.take("NODE_IP="@.len() as int) =~= "NODE_IP="@);
        assert(s.subrange("NODE_IP="@.len() as int, s.len() as int) =~= ip);
        assert(s.skip("NODE_IP="@.len() as int) =~= ip);
    }
}

/// New nodes find the control plane at the address of a control plane, else at the
/// virtual one.
pub proof fn law_control_plane_address(node_ip: Option<Seq<char>>, vip: Option<Seq<char>>)
    ensures
        node_ip is Some ==> cp_address(node_ip, vip) == node_ip,
        node_ip is None && vip is Some && vip->0.len() > 0 ==> cp_address(node_ip, vip) == vip,
        node_ip is None && (vip is None || vip->0.len() == 0) ==> cp_address(node_ip, vip) is None,
{
}

/// The time that the script waits for a machine grows with its disk, from fifteen
/// minutes to half an hour.
pub proof fn law_larger_disks_wait_longer(a: int, b: int)
    requires
        a <= b,
    ensures
        api_wait(a) <= api_wait(b),
        900 <= api_wait(a) <= 1800,
        60 <= a <= 120 ==> api_wait(a) == 15 * a,
{
}

/// A node that is taken out is no longer counted: the others are.
pub proof fn law_counts_without_a_node(cps: int, workers: int)
    requires
        cps >= 0,
        workers > 0,
    ensures
        counts_without("controlplane"@, cps, workers) == (cps - 1, workers),
        counts_without("worker"@, cps, workers) == (cps, workers - 1),
        counts_without("worker"@, cps, 0) == (cps, 0int),
{
    reveal_strlit("controlplane");
    reveal_strlit("worker");
    assert("controlplane"@.len() == 12);
    assert("worker"@.len() == 6);
}

/// The nodes that a request names are those of its list, in its order; one by
/// itself counts where there is no list.
pub proof fn law_requested_nodes(p: JsonV, s: Seq<JsonV>, one: Seq<char>, i: int)
    requires
        p.get("node_ids"@) == Some(JsonV::Arr(s)),
        forall|k: int| 0 <= k < s.len() ==> (#[trigger] s[k]) is Str,
    ensures
        s.len() > 0 ==> requested_ids(p).len() == s.len(),
        s.len() > 0 && 0 <= i < s.len() ==> s[i] == JsonV::Str(requested_ids(p)[i]),
        s.len() == 0 && p.get("node_id"@) == Some(JsonV::Str(one)) ==> requested_ids(p) == seq![
            one,
        ],
{
    lemma_strings_among(s, s.len() as int);
}

proof fn lemma_strings_among(s: Seq<JsonV>, n: int)
    requires
        0 <= n <= s.len(),
        forall|k: int| 0 <= k < s.len() ==> (#[trigger] s[k]) is Str,
    ensures
        strings_among(s, n).len() == n,
        forall|k: int| 0 <= k < n ==> #[trigger] s[k] == JsonV::Str(strings_among(s, n)[k]),
    decreases n,
{
    if n > 0 {
        lemma_strings_among(s, n - 1);
        let b = strings_among(s, n - 1);
        let r = strings_among(s, n);
        assert(s[n - 1] is Str);
        assert forall|k: int| 0 <= k < n implies #[trigger] s[k] == JsonV::Str(r[k]) by {
            if k < n - 1 {
                assert(r[k] == b[k]);
            }
        }
    }
}

/// A disk ends at the size that was asked for unless it is larger already; the
/// hypervisor is told to grow it exactly where it is smaller.
pub proof fn law_disk_grows_to_what_was_asked(
    plan: ResizePlan,
    asked: int,
    now: i64,
    actual: int,
    want: i64,
)
    requires
        i64::MIN <= actual <= i64::MAX,
    ensures
        grown_disk(Some(asked), Some(now)) == Some(
            if asked >= now {
                asked
            } else {
                now as int
            },
        ),
        grown_disk(None, Some(now)) == Some(now as int),
        grown_disk(Some(asked), None) == Some(asked),
        grown_disk(None, None) is None,
        plan.disk_gb == Some(want) ==> (disk_step(plan, actual) is Grow <==> want > actual),
        plan.disk_gb == Some(want) && want > actual ==> disk_step(plan, actual) == DiskStep::Grow(
            actual as i64,
            want,
        ),
        plan.disk_gb == Some(want) && want <= actual ==> (disk_step(plan, actual) is AlreadyLarge
            <==> plan.disk_requested),
        plan.disk_gb is None ==> disk_step(plan, actual) is Keep,
{
}

/// A machine counts as the cluster's by the numbers of its nodes; only where none
/// is recorded, by the run of planned numbers.
pub proof fn law_machines_of_a_cluster(
    vmids: Seq<Option<i64>>,
    cp_vmid: Option<i64>,
    planned: int,
    x: i64,
    i: int,
)
    ensures
        0 <= i < vmids.len() && vmids[i] == Some(x) ==> owned_vmid(
            vmids,
            cp_vmid,
            planned,
            x as int,
        ),
        0 <= i < vmids.len() && vmids[i] is Some && !vmids.contains(Some(x)) ==> !owned_vmid(
            vmids,
            cp_vmid,
            planned,
            x as int,
        ),
        vmids.len() == 0 && cp_vmid is Some ==> (owned_vmid(vmids, cp_vmid, planned, x as int)
            <==> cp_vmid->0 <= x < cp_vmid->0 + planned),
        vmids.len() == 0 && cp_vmid is None ==> !owned_vmid(vmids, cp_vmid, planned, x as int),
{
}

/// A node that may leave is drained and deleted in the cluster, in that order,
/// where there is a kubeconfig, and nowhere else; its count goes with it, and its
/// row is deleted last.
pub proof fn law_node_leaves_in_order(j: RemovalJob, kubeconfig_there: bool)
    requires
        j.role@ != "controlplane"@ || j.controlplanes >= 3,
    ensures
        ({
            let a = removal_started(j, kubeconfig_there);
            let given = j.kubeconfig_path is Some && j.kubeconfig_path->0@.len() > 0;
            &&& given && kubeconfig_there ==> {
                &&& a.len() == 4
                &&& a[1] is Kubectl && a[1]->Kubectl_args[0] == "drain"@ && a[1]->Kubectl_args[1] == j.name@
                &&& a[3] is DeleteFromCluster && a[3]->DeleteFromCluster_args == seq![
                    "delete"@,
                    "node"@,
                    j.name@,
                    "--wait=true"@,
                ]
            }
            &&& !(given && kubeconfig_there) ==> {
                &&& a[0] is Log
                &&& a[1] == (ActV::OneLess { role: j.role@ })
                &&& j.vmid is Some ==> a.len() == 3 && a[2] is ReadProvider
                &&& j.vmid is None ==> a.len() == 5 && a[2] is DeleteNode && a[4] is Done
            }
        }),
{
    assert(j.controlplanes / 2 + 1 <= j.controlplanes - 1 || j.controlplanes < 3);
}

/// Whether or not the cluster let it go, a node that was deleted there is counted
/// out, and its machine is looked for exactly where it has one.
pub proof fn law_node_is_counted_out(j: RemovalJob, got: Result<(), String>)
    ensures
        ({
            let a = removal_left(j, got);
            let at: int = if got is Ok {
                0
            } else {
                1
            };
            &&& got is Err ==> a[0] is Log
            &&& a[at] == (ActV::OneLess { role: j.role@ })
            &&& j.vmid is Some ==> a.len() == at + 2 && a[at + 1] is ReadProvider
            &&& j.vmid is None ==> a.len() == at + 4 && a[at + 1] is DeleteNode && a[at + 3] is Done
        }),
{
}

/// The machine is deleted by name on the hypervisors that know it by name, and by
/// number on the others; then the row is.
pub proof fn law_machine_is_deleted(j: RemovalJob, kind: Seq<char>, vmid: i64)
    requires
        j.vmid == Some(vmid),
    ensures
        ({
            let a = removal_machine(j, Some(kind));
            let by_name = kind == "vsphere"@ || kind == "nutanix"@;
            &&& by_name ==> a.len() == 2 && a[1] == (ActV::DeleteVm { name: j.name@ })
            &&& !by_name ==> a.len() == 5 && a[1] == (ActV::DeleteVmNumber { vmid: vmid as int })
                && a[2] is DeleteNode && a[4] is Done
            &&& removal_machine(j, None)[0] is DeleteNode
        }),
{
}

/// The row goes last, also where the machine could not be deleted; a machine that
/// may have an older name is deleted by its number too.
pub proof fn law_row_goes_last(j: RemovalJob, legacy: Seq<char>, got: Result<(), String>)
    ensures
        ({
            let a = removal_last(j, legacy, got);
            let n = a.len() as int;
            &&& n >= 3 && a[n - 3] is DeleteNode && a[n - 1] is Done
            &&& legacy != j.name@ && j.vmid is Some ==> n >= 4 && a[n - 4]
                == (ActV::DeleteVmNumber { vmid: j.vmid->0 as int })
            &&& got is Err ==> a[0] is Log
        }),
{
}

/// A new node is a worker unless the request says otherwise; numbers begin where
/// the cluster's do, or at two hundred and ten.
pub proof fn law_defaults_of_a_request(p: JsonV, k: Seq<char>, t: Seq<char>, c: ClusterRow)
    ensures
        p.get("role"@) is None ==> requested_role(p) == "worker"@,
        p.get("role"@) == Some(JsonV::Str(t)) ==> requested_role(p) == t,
        p.get(k) == Some(JsonV::Str(t)) && trim(t).len() > 0 ==> trimmed_member(p, k) == Some(
            trim(t),
        ),
        p.get(k) == Some(JsonV::Str(t)) && trim(t).len() == 0 ==> trimmed_member(p, k) is None,
        p.get(k) is None ==> trimmed_member(p, k) is None,
        c.cp_vmid is Some ==> base_vmid(c) == c.cp_vmid->0,
        c.cp_vmid is None ==> base_vmid(c) == 210,
{
}

/// Adding and adopting begin with the cluster being worked on, and need their
/// script.
pub proof fn law_joining_needs_its_script(j: AddJob, a: AdoptJob)
    ensures
        add_started(j, true)[0] is ClusterProvisioning && add_started(j, true).last() is ReadCounts,
        add_started(j, false).last() is Fail,
        adopt_started(a, true)[0] is ClusterProvisioning && adopt_started(a, true).last()
            is ReadCounts,
        adopt_started(a, false).len() == 1 && adopt_started(a, false)[0] is Fail,
{
}

/// An adopted node is counted with its role, and its name is looked for first.
pub proof fn law_adopted_node_is_counted(j: AdoptJob, n: AdoptPlan, cps: int, workers: int)
    ensures
        ({
            let a = adopt_count(j, n, cps, workers);
            let cp = j.request.role@ == "controlplane"@;
            &&& a.last() == (ActV::CheckName { name: n.name@ })
            &&& cp ==> a[a.len() - 2] == (ActV::Controlplanes { count: cps + 1 })
            &&& !cp ==> a[a.len() - 2] == (ActV::Workers { count: workers + 1 })
        }),
{
}

/// Once the nodes have joined, the first of them is waited for where there is a
/// kubeconfig; without one the cluster is ready at once.
pub proof fn law_joined_nodes_are_waited_for(st: JoiningV, want_ip6: bool, note: Seq<char>)
    ensures
        st.joined.len() > 0 ==> with_kubeconfig(st, true, want_ip6, note).last() == (
        ActV::WaitAddresses {
            name: st.joined[0],
            want_ip6,
            secs: if want_ip6 {
                300
            } else {
                180
            },
        }),
        with_kubeconfig(st, false, want_ip6, note)[0] == (ActV::ClusterReady { error: None }),
        with_kubeconfig(st, false, want_ip6, note).last() is Done,
{
}

/// The kubelet of a node is waited for until it runs the version that is wanted, or
/// the time is over.
pub proof fn law_kubelet_is_waited_for(name: Seq<char>, want: Seq<char>, running: Option<Seq<char>>)
    ensures
        kubelet_wait(name, want, running, false) is Done <==> running == Some(want),
        kubelet_wait(name, want, running, false) is Again <==> running != Some(want),
        kubelet_wait(name, want, running, true) is Failed,
{
}

} // verus!
