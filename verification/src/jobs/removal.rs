//! Removing a node, step by step, and the machines that go with a cluster.
use crate::jobs::action::{Act, ActV, act, acts, fail, failed, idle, log, logged, no_acts};
use crate::jobs::nodes::{check_removal, majority, removable};
use crate::num::{i64_str, sdec};
use crate::text::{lit, no_texts, opt_text, put, str_eq, texts};
use vstd::prelude::*;
use vstd::string::*;

verus! {

/// A job that removes a node.
#[derive(Debug, PartialEq, Eq)]
pub struct RemovalJob {
    pub name: String,
    pub role: String,
    pub vmid: Option<i64>,
    /// The control planes that the cluster has.
    pub controlplanes: i64,
    pub kubeconfig_path: Option<String>,
}

/// The end of a removal.
pub open spec fn removed(a: Seq<ActV>, j: RemovalJob) -> Seq<ActV> {
    a.push(ActV::DeleteNode).push(logged("removed node "@ + j.name@ + "\n"@)).push(ActV::Done)
}

fn finish(v: &mut Vec<Act>, j: &RemovalJob)
    ensures
        acts(final(v)@) == removed(acts(old(v)@), *j),
{
    act(v, Act::DeleteNode);
    log(v, &lit("removed node ").concat(&j.name).concat("\n"));
    act(v, Act::Done);
}

/// After Kubernetes: the counts go down and the machine goes away.
pub open spec fn then_machine(a: Seq<ActV>, j: RemovalJob) -> Seq<ActV> {
    let b = a.push(ActV::OneLess { role: j.role@ });
    if j.vmid is Some {
        b.push(ActV::ReadProvider)
    } else {
        removed(b, j)
    }
}

fn go_machine(v: &mut Vec<Act>, j: &RemovalJob)
    ensures
        acts(final(v)@) == then_machine(acts(old(v)@), *j),
{
    act(v, Act::OneLess { role: lit(&j.role) });
    if j.vmid.is_some() {
        act(v, Act::ReadProvider);
    } else {
        finish(v, j);
    }
}

/// The arguments of `kubectl` that move workloads away from a node for good.
pub open spec fn leave_args(name: Seq<char>) -> Seq<Seq<char>> {
    seq![
        "drain"@,
        name,
        "--ignore-daemonsets"@,
        "--delete-emptydir-data"@,
        "--force"@,
        "--grace-period=30"@,
        "--timeout=3m"@,
    ]
}

fn leave_arguments(name: &str) -> (r: Vec<String>)
    ensures
        texts(r@) == leave_args(name@),
{
    let mut v = no_texts();
    put(&mut v, "drain");
    put(&mut v, name);
    put(&mut v, "--ignore-daemonsets");
    put(&mut v, "--delete-emptydir-data");
    put(&mut v, "--force");
    put(&mut v, "--grace-period=30");
    put(&mut v, "--timeout=3m");
    assert(texts(v@) =~= leave_args(name@));
    v
}

/// The first step of a removal. A node that must stay is not touched; another
/// one leaves Kubernetes where the kubeconfig is there.
pub open spec fn removal_started(j: RemovalJob, kubeconfig_there: bool) -> Seq<ActV> {
    let cps = j.controlplanes as int;
    if !removable(j.role@, cps) {
        idle().push(
            failed(
                if cps - 1 < 1 {
                    "cannot remove last control plane ("@ + j.name@ + ")"@
                } else {
                    "removing "@ + j.name@ + " would break etcd quorum (have "@ + sdec(cps)
                        + ", need majority "@ + sdec(majority(cps)) + ")"@
                },
            ),
        )
    } else if j.kubeconfig_path is Some && j.kubeconfig_path->0@.len() > 0 {
        if kubeconfig_there {
            idle().push(logged("drain "@ + j.name@ + "\n"@)).push(
                ActV::Kubectl { server: None, args: leave_args(j.name@) },
            ).push(logged("kubectl delete node "@ + j.name@ + "\n"@)).push(
                ActV::DeleteFromCluster {
                    args: seq!["delete"@, "node"@, j.name@, "--wait=true"@],
                },
            )
        } else {
            then_machine(
                idle().push(
                    logged(
                        "skip k8s delete (kubeconfig missing: "@ + j.kubeconfig_path->0@
                            + ")\n"@,
                    ),
                ),
                j,
            )
        }
    } else {
        then_machine(idle().push(logged("skip k8s delete (no kubeconfig_path)\n"@)), j)
    }
}

/// Starts to remove a node.
pub fn removal_begin(j: &RemovalJob, kubeconfig_there: bool) -> (r: Vec<Act>)
    requires
        j.controlplanes > i64::MIN,
    ensures
        acts(r@) == removal_started(*j, kubeconfig_there),
{
    let mut v = no_acts();
    match check_removal(&j.role, &j.name, j.controlplanes) {
        Ok(_) => {},
        Err(e) => {
            fail(&mut v, &e);
            return v;
        },
    }
    match &j.kubeconfig_path {
        Some(kc) => {
            if !kc.is_empty() {
                if kubeconfig_there {
                    log(&mut v, &lit("drain ").concat(&j.name).concat("\n"));
                    act(&mut v, Act::Kubectl { server: None, args: leave_arguments(&j.name) });
                    log(&mut v, &lit("kubectl delete node ").concat(&j.name).concat("\n"));
                    let mut args = no_texts();
                    put(&mut args, "delete");
                    put(&mut args, "node");
                    put(&mut args, &j.name);
                    put(&mut args, "--wait=true");
                    assert(texts(args@) =~= seq!["delete"@, "node"@, j.name@, "--wait=true"@]);
                    act(&mut v, Act::DeleteFromCluster { args });
                } else {
                    log(
                        &mut v,
                        &lit("skip k8s delete (kubeconfig missing: ").concat(kc).concat(")\n"),
                    );
                    go_machine(&mut v, j);
                }
                return v;
            }
        },
        None => {},
    }
    log(&mut v, "skip k8s delete (no kubeconfig_path)\n");
    go_machine(&mut v, j);
    v
}

/// What is done once the node was to leave Kubernetes, whether it did or not.
pub open spec fn removal_left(j: RemovalJob, got: Result<(), String>) -> Seq<ActV> {
    match got {
        Ok(_) => then_machine(idle(), j),
        Err(e) => then_machine(
            idle().push(
                logged(
                    "warn: kubectl delete node "@ + j.name@ + ": "@ + e@ + " (continuing)\n"@,
                ),
            ),
            j,
        ),
    }
}

/// After the node was to leave Kubernetes.
pub fn removal_deleted(j: &RemovalJob, got: &Result<(), String>) -> (r: Vec<Act>)
    ensures
        acts(r@) == removal_left(*j, *got),
{
    let mut v = no_acts();
    match got {
        Ok(_) => {},
        Err(e) => {
            log(
                &mut v,
                &lit("warn: kubectl delete node ").concat(&j.name).concat(": ").concat(e).concat(
                    " (continuing)\n",
                ),
            );
        },
    }
    go_machine(&mut v, j);
    v
}

/// What is done once the provider is known: the machine is deleted, by its name
/// or by its number. Without a provider only the row goes.
pub open spec fn removal_machine(j: RemovalJob, kind: Option<Seq<char>>) -> Seq<ActV> {
    if kind is Some && j.vmid is Some {
        let vmid = j.vmid->0;
        if kind->0 == "vsphere"@ || kind->0 == "nutanix"@ {
            idle().push(logged("deleting VM "@ + j.name@ + "\n"@)).push(
                ActV::DeleteVm { name: j.name@ },
            )
        } else {
            removed(
                idle().push(
                    logged("deleting VM "@ + sdec(vmid as int) + " ("@ + j.name@ + ")\n"@),
                ).push(ActV::DeleteVmNumber { vmid: vmid as int }),
                j,
            )
        }
    } else {
        removed(idle(), j)
    }
}

/// After the provider was read; nothing stands for one that is missing or whose
/// secret cannot be opened.
pub fn removal_provider_read(j: &RemovalJob, kind: &Option<String>) -> (r: Vec<Act>)
    ensures
        acts(r@) == removal_machine(*j, opt_text(*kind)),
{
    let mut v = no_acts();
    match (kind, j.vmid) {
        (Some(k), Some(vmid)) => {
            if str_eq(k, "vsphere") || str_eq(k, "nutanix") {
                log(&mut v, &lit("deleting VM ").concat(&j.name).concat("\n"));
                act(&mut v, Act::DeleteVm { name: lit(&j.name) });
                return v;
            }
            log(
                &mut v,
                &lit("deleting VM ").concat(&i64_str(vmid)).concat(" (").concat(&j.name).concat(
                    ")\n",
                ),
            );
            act(&mut v, Act::DeleteVmNumber { vmid });
        },
        _ => {},
    }
    finish(&mut v, j);
    v
}

/// What is done once the machine was to be deleted by its name: a machine of the
/// name that was used before goes too.
pub open spec fn removal_last(j: RemovalJob, legacy: Seq<char>, got: Result<(), String>) -> Seq<
    ActV,
> {
    let a = match got {
        Ok(_) => idle(),
        Err(e) => idle().push(logged("warn: delete "@ + j.name@ + ": "@ + e@ + "\n"@)),
    };
    let b = if legacy != j.name@ && j.vmid is Some {
        a.push(ActV::DeleteVmNumber { vmid: j.vmid->0 as int })
    } else {
        a
    };
    removed(b, j)
}

/// After the machine was to be deleted by its name; `legacy` is the name that
/// its number stood for before.
pub fn removal_vm_deleted(j: &RemovalJob, legacy: &str, got: &Result<(), String>) -> (r: Vec<Act>)
    ensures
        acts(r@) == removal_last(*j, legacy@, *got),
{
    let mut v = no_acts();
    match got {
        Ok(_) => {},
        Err(e) => {
            log(
                &mut v,
                &lit("warn: delete ").concat(&j.name).concat(": ").concat(e).concat("\n"),
            );
        },
    }
    if !str_eq(legacy, &j.name) {
        match j.vmid {
            Some(vmid) => {
                act(&mut v, Act::DeleteVmNumber { vmid });
            },
            None => {},
        }
    }
    finish(&mut v, j);
    v
}

/// A node that must stay is not touched: its removal only fails.
pub proof fn law_refused_removal_touches_nothing(j: RemovalJob, kubeconfig_there: bool)
    requires
        !removable(j.role@, j.controlplanes as int),
    ensures
        removal_started(j, kubeconfig_there).len() == 1,
        removal_started(j, kubeconfig_there)[0] is Fail,
{
}

/// A removal goes on whether or not Kubernetes and the hypervisor did their
/// part, and ends with the row gone.
pub proof fn law_removal_goes_on(j: RemovalJob, legacy: Seq<char>, left: Result<(), String>, gone: Result<(), String>)
    ensures
        !(removal_left(j, left).last() is Fail),
        removal_last(j, legacy, gone).last() is Done,
        removal_last(j, legacy, gone).contains(ActV::DeleteNode),
{
    let a = removal_last(j, legacy, gone);
    assert(a[a.len() - 3] == ActV::DeleteNode);
}

// ---------------------------------------------------------------------------
// The machines of a cluster
// ---------------------------------------------------------------------------

/// The places among the first `n` of names that did not come up before.
pub open spec fn fresh_places(all: Seq<Seq<char>>, n: int) -> Seq<int>
    decreases n,
{
    if 0 < n <= all.len() {
        if all.take(n - 1).contains(all[n - 1]) {
            fresh_places(all, n - 1)
        } else {
            fresh_places(all, n - 1).push(n - 1)
        }
    } else {
        Seq::empty()
    }
}

/// Places as numbers.
pub open spec fn places(v: Seq<usize>) -> Seq<int> {
    Seq::new(v.len(), |i: int| v[i] as int)
}

fn came_before(all: &Vec<String>, n: usize) -> (r: bool)
    requires
        n < all@.len(),
    ensures
        r == texts(all@).take(n as int).contains(texts(all@)[n as int]),
{
    let ghost t = texts(all@);
    let mut i: usize = 0;
    while i < n
        invariant
            i <= n < all@.len(),
            t == texts(all@),
            forall|k: int| 0 <= k < i ==> t[k] != t[n as int],
        decreases n - i,
    {
        if str_eq(&all[i], &all[n]) {
            assert(t.take(n as int)[i as int] == t[n as int]);
            return true;
        }
        i += 1;
    }
    assert forall|k: int| 0 <= k < n implies t.take(n as int)[k] != t[n as int] by {
        assert(t.take(n as int)[k] == t[k]);
    }
    false
}

/// Which machines to delete with a cluster, given the names of its nodes and
/// then the names that their numbers stood for before: each name once.
pub fn machines_to_delete(all: &Vec<String>) -> (r: Vec<usize>)
    ensures
        places(r@) == fresh_places(texts(all@), all@.len() as int),
{
    let ghost t = texts(all@);
    let mut out: Vec<usize> = Vec::new();
    assert(places(out@) =~= Seq::empty());
    let mut i: usize = 0;
    while i < all.len()
        invariant
            i <= all.len(),
            t == texts(all@),
            places(out@) == fresh_places(t, i as int),
        decreases all.len() - i,
    {
        if !came_before(all, i) {
            let ghost before = out@;
            out.push(i);
            assert(places(out@) =~= places(before).push(i as int));
        }
        i += 1;
    }
    out
}

/// Every name is deleted, and none twice.
pub proof fn law_each_machine_is_deleted_once(all: Seq<Seq<char>>, n: int)
    requires
        0 <= n <= all.len(),
    ensures
        forall|i: int|
            0 <= i < fresh_places(all, n).len() ==> 0 <= #[trigger] fresh_places(all, n)[i] < n,
        forall|i: int, j: int|
            0 <= i < j < fresh_places(all, n).len() ==> all[#[trigger] fresh_places(all, n)[i]]
                != all[#[trigger] fresh_places(all, n)[j]],
        forall|k: int|
            0 <= k < n ==> exists|i: int|
                0 <= i < fresh_places(all, n).len() && all[#[trigger] fresh_places(all, n)[i]]
                    == #[trigger] all[k],
    decreases n,
{
    if n > 0 {
        law_each_machine_is_deleted_once(all, n - 1);
        let before = fresh_places(all, n - 1);
        let now = fresh_places(all, n);
        let seen = all.take(n - 1).contains(all[n - 1]);
        assert forall|i: int, j: int| 0 <= i < j < now.len() implies all[#[trigger] now[i]]
            != all[#[trigger] now[j]] by {
            if j == before.len() {
                assert(now[i] == before[i]);
                assert(all.take(n - 1)[before[i]] == all[before[i]]);
            } else {
                assert(now[i] == before[i] && now[j] == before[j]);
            }
        }
        assert forall|k: int| 0 <= k < n implies exists|i: int|
            0 <= i < now.len() && all[#[trigger] now[i]] == #[trigger] all[k] by {
            if k < n - 1 {
                let i = choose|i: int|
                    0 <= i < before.len() && all[#[trigger] before[i]] == all[k];
                assert(now[i] == before[i]);
            } else if seen {
                let earlier = all.take(n - 1);
                let m = choose|m: int| 0 <= m < earlier.len() && earlier[m] == all[n - 1];
                assert(all[m] == all[n - 1]);
                let i = choose|i: int|
                    0 <= i < before.len() && all[#[trigger] before[i]] == all[m];
                assert(now[i] == before[i]);
            } else {
                assert(now[before.len() as int] == n - 1);
            }
        }
    }
}

/// The note on a machine that is deleted with its cluster. A machine of the name
/// that its number stood for is marked.
pub fn delete_note(name: &str, hypervisor: &str, by_number: bool) -> (r: String)
    ensures
        r@ == "deleting VM "@ + name@ + " on "@ + hypervisor@ + (if by_number {
            " (by vmid)\n"@
        } else {
            "\n"@
        }),
{
    let tail = if by_number {
        " (by vmid)\n"
    } else {
        "\n"
    };
    lit("deleting VM ").concat(name).concat(" on ").concat(hypervisor).concat(tail)
}

/// What the log says once a machine was to be deleted. What went well is
/// mentioned on Proxmox only.
pub fn deleted_note(name: &str, got: &Result<(), String>, proxmox: bool) -> (r: Option<String>)
    ensures
        opt_text(r) == (match *got {
            Ok(_) => if proxmox {
                Some("deleted or already gone: "@ + name@ + "\n"@)
            } else {
                None
            },
            Err(e) => Some("warn: delete "@ + name@ + ": "@ + e@ + "\n"@),
        }),
{
    match got {
        Ok(_) => if proxmox {
            Some(lit("deleted or already gone: ").concat(name).concat("\n"))
        } else {
            None
        },
        Err(e) => Some(lit("warn: delete ").concat(name).concat(": ").concat(e).concat("\n")),
    }
}

} // verus!
