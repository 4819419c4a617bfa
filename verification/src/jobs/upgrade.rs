//! Rolling upgrades of Kubernetes and of the node operating system.
use crate::jobs::nodes::{strings_in, strings_of};
use crate::jobs::rows::{arg, arg2};
use crate::json::{Json, JsonV, bool_in, str_in, str_of, text_or};
use crate::num::{dec, usize_str};
use crate::order::{less, str_less};
use crate::text::{
    again, cat, contains, ends_with, is_ws, join, law_parts_are_found, lemma_trim_ends,
    lemma_trimmed, lit, opt_text, starts_with, str_contains, str_ends, str_eq, str_join, str_starts,
    str_strip_prefix, str_trim, strip_prefix, texts, trim,
};
use vstd::prelude::*;
use vstd::string::*;

verus! {

/// A node: id, name, role and address.
pub type NodeTuple = (String, String, String, Option<String>);

// ---------------------------------------------------------------------------
// Order of nodes
// ---------------------------------------------------------------------------

/// Which nodes are meant.
#[derive(Debug, Clone, Copy, PartialEq, Eq, Structural)]
pub enum Pick {
    ControlPlanes,
    /// Nodes whose role is `worker`.
    Workers,
    /// All nodes but control planes.
    Others,
}

pub open spec fn picked(p: Pick, role: Seq<char>) -> bool {
    match p {
        Pick::ControlPlanes => role == "controlplane"@,
        Pick::Workers => role == "worker"@,
        Pick::Others => role != "controlplane"@,
    }
}

fn is_picked(p: Pick, role: &str) -> (r: bool)
    ensures
        r == picked(p, role@),
{
    match p {
        Pick::ControlPlanes => str_eq(role, "controlplane"),
        Pick::Workers => str_eq(role, "worker"),
        Pick::Others => !str_eq(role, "controlplane"),
    }
}

/// Node `i` comes before node `j`: by name, and nodes of one name keep their
/// order.
pub open spec fn before(nodes: Seq<NodeTuple>, i: int, j: int) -> bool {
    less(nodes[i].1@, nodes[j].1@) || (!less(nodes[j].1@, nodes[i].1@) && i < j)
}

/// The list holds just the picked nodes, each once, by name.
pub open spec fn in_order(nodes: Seq<NodeTuple>, p: Pick, v: Seq<usize>) -> bool {
    &&& forall|a: int| 0 <= a < v.len() ==> (#[trigger] v[a]) < nodes.len()
    &&& forall|a: int, b: int|
        0 <= a < b < v.len() ==> before(nodes, #[trigger] v[a] as int, #[trigger] v[b] as int)
    &&& forall|i: usize| (#[trigger] v.contains(i)) <==> i < nodes.len() && picked(
        p,
        nodes[i as int].2@,
    )
}

/// The picked nodes by name.
pub fn nodes_by_name(nodes: &Vec<NodeTuple>, p: Pick) -> (r: Vec<usize>)
    ensures
        in_order(nodes@, p, r@),
{
    let mut out: Vec<usize> = Vec::new();
    let mut i: usize = 0;
    while i < nodes.len()
        invariant
            i <= nodes.len(),
            forall|a: int| 0 <= a < out.len() ==> (#[trigger] out@[a]) < i,
            forall|a: int, b: int|
                0 <= a < b < out.len() ==> before(
                    nodes@,
                    #[trigger] out@[a] as int,
                    #[trigger] out@[b] as int,
                ),
            forall|k: usize| (#[trigger] out@.contains(k)) <==> k < i && picked(
                p,
                nodes@[k as int].2@,
            ),
        decreases nodes.len() - i,
    {
        if is_picked(p, &nodes[i].2) {
            insert_by_name(nodes, &mut out, i, p);
        }
        i += 1;
    }
    out
}

fn insert_by_name(nodes: &Vec<NodeTuple>, v: &mut Vec<usize>, x: usize, p: Pick)
    requires
        x < nodes.len(),
        picked(p, nodes@[x as int].2@),
        forall|a: int| 0 <= a < old(v).len() ==> (#[trigger] old(v)@[a]) < x,
        forall|a: int, b: int|
            0 <= a < b < old(v).len() ==> before(
                nodes@,
                #[trigger] old(v)@[a] as int,
                #[trigger] old(v)@[b] as int,
            ),
        forall|k: usize| (#[trigger] old(v)@.contains(k)) <==> k < x && picked(
            p,
            nodes@[k as int].2@,
        ),
    ensures
        forall|a: int| 0 <= a < final(v).len() ==> (#[trigger] final(v)@[a]) < x + 1,
        forall|a: int, b: int|
            0 <= a < b < final(v).len() ==> before(
                nodes@,
                #[trigger] final(v)@[a] as int,
                #[trigger] final(v)@[b] as int,
            ),
        forall|k: usize| (#[trigger] final(v)@.contains(k)) <==> k < x + 1 && picked(
            p,
            nodes@[k as int].2@,
        ),
{
    let ghost old_v = v@;
    let mut i: usize = v.len();
    while i > 0 && str_less(&nodes[x].1, &nodes[v[i - 1]].1)
        invariant
            i <= v.len(),
            v@ == old_v,
            x < nodes.len(),
            forall|a: int| 0 <= a < old_v.len() ==> (#[trigger] old_v[a]) < x,
            forall|a: int|
                i <= a < old_v.len() ==> less(
                    nodes@[x as int].1@,
                    nodes@[(#[trigger] old_v[a]) as int].1@,
                ),
        decreases i,
    {
        i -= 1;
    }
    let ghost at = i as int;
    v.insert(i, x);
    proof {
        let after = v@;
        assert(after =~= old_v.insert(at, x));
        assert forall|a: int, b: int| 0 <= a < b < after.len() implies before(
            nodes@,
            #[trigger] after[a] as int,
            #[trigger] after[b] as int,
        ) by {
            if b == at {
                // everything before the place does not come after the new node
                let last = old_v[at - 1] as int;
                if a < at - 1 {
                    assert(before(nodes@, old_v[a] as int, last));
                    lemma_not_less_chain(nodes@, old_v[a] as int, last, x as int);
                }
            } else if a == at {
                assert(less(nodes@[x as int].1@, nodes@[old_v[b - 1] as int].1@));
            } else {
                let c = if a < at {
                    a
                } else {
                    a - 1
                };
                let d = if b < at {
                    b
                } else {
                    b - 1
                };
                assert(before(nodes@, old_v[c] as int, old_v[d] as int));
            }
        }
        assert forall|k: usize| (#[trigger] after.contains(k)) <==> k < x + 1 && picked(
            p,
            nodes@[k as int].2@,
        ) by {
            if after.contains(k) {
                let m = choose|m: int| 0 <= m < after.len() && after[m] == k;
                if m < at {
                    assert(old_v[m] == k);
                    assert(old_v.contains(k));
                } else if m > at {
                    assert(old_v[m - 1] == k);
                    assert(old_v.contains(k));
                }
            }
            if k < x + 1 && picked(p, nodes@[k as int].2@) {
                if k < x {
                    assert(old_v.contains(k));
                    let m = choose|m: int| 0 <= m < old_v.len() && old_v[m] == k;
                    if m < at {
                        assert(after[m] == k);
                    } else {
                        assert(after[m + 1] == k);
                    }
                } else {
                    assert(after[at] == x);
                }
            }
        }
    }
}

/// If `a` comes before `b` and the name of `x` is not before that of `b`, the
/// name of `x` is not before that of `a` either.
proof fn lemma_not_less_chain(nodes: Seq<NodeTuple>, a: int, b: int, x: int)
    requires
        before(nodes, a, b),
        !less(nodes[x].1@, nodes[b].1@),
        a < x,
    ensures
        before(nodes, a, x),
{
    let na = nodes[a].1@;
    let nb = nodes[b].1@;
    let nx = nodes[x].1@;
    crate::order::lemma_less_total(nx, na);
    crate::order::lemma_less_total(na, nb);
    crate::order::lemma_less_total(nb, nx);
    if less(nx, na) {
        if less(na, nb) {
            crate::order::lemma_less_transitive(nx, na, nb);
        } else {
            // the names of a and b are the same
            assert(na == nb);
        }
    }
}

/// One node of a rolling upgrade.
#[derive(Debug, Clone, Copy, PartialEq, Eq, Structural)]
pub struct UpgradeStep {
    /// Its place in the node list.
    pub node: usize,
    pub control_plane: bool,
    /// The first control plane, on which the upgrade is applied first.
    pub primary: bool,
    /// Workloads are moved away first.
    pub drain: bool,
}

/// Three or more control planes upgrade without downtime of the API.
pub open spec fn zero_downtime(controlplanes: int) -> bool {
    controlplanes >= 3
}

pub fn is_zero_downtime(controlplanes: i64) -> (r: bool)
    ensures
        r == zero_downtime(controlplanes as int),
{
    controlplanes >= 3
}

/// The steps of a Kubernetes upgrade: control planes by name, then workers by
/// name. Workers are always drained, control planes where there are enough.
pub open spec fn upgrade_steps(cps: Seq<usize>, wks: Seq<usize>, controlplanes: int) -> Seq<
    UpgradeStep,
> {
    Seq::new(
        cps.len(),
        |i: int|
            UpgradeStep {
                node: cps[i],
                control_plane: true,
                primary: i == 0,
                drain: zero_downtime(controlplanes),
            },
    ) + Seq::new(
        wks.len(),
        |i: int|
            UpgradeStep { node: wks[i], control_plane: false, primary: false, drain: true },
    )
}

/// Plans a Kubernetes upgrade.
pub fn plan_upgrade(nodes: &Vec<NodeTuple>, controlplanes: i64) -> (r: Vec<UpgradeStep>)
    ensures
        exists|cps: Seq<usize>, wks: Seq<usize>|
            #![trigger in_order(nodes@, Pick::ControlPlanes, cps), in_order(nodes@, Pick::Workers, wks)]
            in_order(nodes@, Pick::ControlPlanes, cps) && in_order(nodes@, Pick::Workers, wks)
                && r@ == upgrade_steps(cps, wks, controlplanes as int),
{
    let cps = nodes_by_name(nodes, Pick::ControlPlanes);
    let wks = nodes_by_name(nodes, Pick::Workers);
    let mut out: Vec<UpgradeStep> = Vec::new();
    let zd = is_zero_downtime(controlplanes);
    let mut i: usize = 0;
    while i < cps.len()
        invariant
            i <= cps.len(),
            zd == zero_downtime(controlplanes as int),
            out@ == upgrade_steps(cps@, wks@, controlplanes as int).take(i as int),
        decreases cps.len() - i,
    {
        out.push(UpgradeStep { node: cps[i], control_plane: true, primary: i == 0, drain: zd });
        i += 1;
        assert(out@ =~= upgrade_steps(cps@, wks@, controlplanes as int).take(i as int));
    }
    let mut j: usize = 0;
    while j < wks.len()
        invariant
            j <= wks.len(),
            cps.len() + wks.len() <= usize::MAX + wks.len(),
            out@ == upgrade_steps(cps@, wks@, controlplanes as int).take(cps.len() + j),
        decreases wks.len() - j,
    {
        out.push(UpgradeStep { node: wks[j], control_plane: false, primary: false, drain: true });
        j += 1;
        assert(out@ =~= upgrade_steps(cps@, wks@, controlplanes as int).take(cps.len() + j));
    }
    proof {
        let all = upgrade_steps(cps@, wks@, controlplanes as int);
        assert(all.take(all.len() as int) =~= all);
        assert(in_order(nodes@, Pick::ControlPlanes, cps@) && in_order(
            nodes@,
            Pick::Workers,
            wks@,
        ));
    }
    out
}

/// In a Kubernetes upgrade no worker comes before a control plane, and no node
/// comes twice.
pub proof fn law_upgrade_order(
    nodes: Seq<NodeTuple>,
    cps: Seq<usize>,
    wks: Seq<usize>,
    controlplanes: int,
    i: int,
    j: int,
)
    requires
        in_order(nodes, Pick::ControlPlanes, cps),
        in_order(nodes, Pick::Workers, wks),
        0 <= i < j < upgrade_steps(cps, wks, controlplanes).len(),
    ensures
        upgrade_steps(cps, wks, controlplanes)[j].control_plane ==> upgrade_steps(
            cps,
            wks,
            controlplanes,
        )[i].control_plane,
        upgrade_steps(cps, wks, controlplanes)[i].node != upgrade_steps(
            cps,
            wks,
            controlplanes,
        )[j].node,
{
    let all = upgrade_steps(cps, wks, controlplanes);
    reveal_strlit("controlplane");
    reveal_strlit("worker");
    assert("controlplane"@.len() != "worker"@.len());
    if j < cps.len() {
        assert(before(nodes, cps[i] as int, cps[j] as int));
        crate::order::lemma_less_irreflexive(nodes[cps[i] as int].1@);
    } else if i < cps.len() {
        assert(cps.contains(cps[i]));
        assert(wks.contains(wks[j - cps.len()]));
    } else {
        assert(before(
            nodes,
            wks[i - cps.len()] as int,
            wks[j - cps.len()] as int,
        ));
        crate::order::lemma_less_irreflexive(nodes[wks[i - cps.len()] as int].1@);
    }
}

// ---------------------------------------------------------------------------
// Operating system upgrades
// ---------------------------------------------------------------------------

/// A request for an OS upgrade.
#[derive(Debug, PartialEq, Eq)]
pub struct OsRequest {
    pub bundle_dir: String,
    pub reboot: bool,
    /// The nodes to upgrade, where not all are.
    pub node_ids: Option<Vec<String>>,
}

/// Reads a request for an OS upgrade; it must name the bundle. Nodes reboot
/// unless the request says otherwise.
pub fn os_request(p: &Json) -> (r: Result<OsRequest, String>)
    ensures
        match r {
            Ok(q) => {
                &&& str_in(p@.get("bundle_dir"@)) == Some(q.bundle_dir@)
                &&& q.reboot == (bool_in(p@.get("reboot"@)) != Some(false))
                &&& match q.node_ids {
                    Some(ids) => p@.get("node_ids"@) matches Some(JsonV::Arr(_v)) && texts(ids@)
                        == strings_in(p@.get("node_ids"@)),
                    None => !(p@.get("node_ids"@) matches Some(JsonV::Arr(_v))),
                }
            },
            Err(e) => str_in(p@.get("bundle_dir"@)) is None && e@ == "bundle_dir required"@,
        },
{
    match str_of(p.get("bundle_dir")) {
        Some(bundle_dir) => {
            let reboot = match p.get("reboot") {
                Some(j) => match j.as_bool() {
                    Some(b) => b,
                    None => true,
                },
                None => true,
            };
            let ids = p.get("node_ids");
            let is_list = match ids {
                Some(Json::Arr(_v)) => true,
                _ => false,
            };
            let node_ids = if is_list {
                Some(strings_of(ids))
            } else {
                None
            };
            Ok(OsRequest { bundle_dir, reboot, node_ids })
        },
        None => Err(lit("bundle_dir required")),
    }
}

/// The node is among those to upgrade.
pub open spec fn wanted_node(ids: Option<Seq<Seq<char>>>, id: Seq<char>) -> bool {
    match ids {
        Some(v) => v.contains(id),
        None => true,
    }
}

pub open spec fn opt_texts(o: Option<Vec<String>>) -> Option<Seq<Seq<char>>> {
    match o {
        Some(v) => Some(texts(v@)),
        None => None,
    }
}

fn holds_text(v: &Vec<String>, t: &str) -> (r: bool)
    ensures
        r == texts(v@).contains(t@),
{
    let ghost ts = texts(v@);
    let mut i: usize = 0;
    while i < v.len()
        invariant
            i <= v.len(),
            ts == texts(v@),
            forall|k: int| 0 <= k < i ==> ts[k] != t@,
        decreases v.len() - i,
    {
        assert(ts[i as int] == v@[i as int]@);
        if str_eq(&v[i], t) {
            return true;
        }
        i += 1;
    }
    false
}

/// The list holds just the picked nodes that are wanted, each once, by name.
pub open spec fn wanted_in_order(
    nodes: Seq<NodeTuple>,
    p: Pick,
    ids: Option<Seq<Seq<char>>>,
    v: Seq<usize>,
) -> bool {
    &&& forall|a: int| 0 <= a < v.len() ==> (#[trigger] v[a]) < nodes.len()
    &&& forall|a: int, b: int|
        0 <= a < b < v.len() ==> before(nodes, #[trigger] v[a] as int, #[trigger] v[b] as int)
    &&& forall|i: usize| (#[trigger] v.contains(i)) <==> i < nodes.len() && picked(
        p,
        nodes[i as int].2@,
    ) && wanted_node(ids, nodes[i as int].0@)
}

fn keep_wanted(
    nodes: &Vec<NodeTuple>,
    ids: &Option<Vec<String>>,
    p: Pick,
    v: &Vec<usize>,
) -> (r: Vec<usize>)
    requires
        in_order(nodes@, p, v@),
    ensures
        wanted_in_order(nodes@, p, opt_texts(*ids), r@),
{
    let mut out: Vec<usize> = Vec::new();
    let mut from: Ghost<Seq<int>> = Ghost(Seq::empty());
    let mut i: usize = 0;
    while i < v.len()
        invariant
            i <= v.len(),
            in_order(nodes@, p, v@),
            from@.len() == out.len(),
            forall|a: int| 0 <= a < out.len() ==> 0 <= #[trigger] from@[a] < i,
            forall|a: int| 0 <= a < out.len() ==> #[trigger] out@[a] == v@[from@[a]],
            forall|a: int, b: int| 0 <= a < b < from@.len() ==> from@[a] < from@[b],
            forall|k: int|
                0 <= k < i && wanted_node(opt_texts(*ids), nodes@[(#[trigger] v@[k]) as int].0@)
                    ==> out@.contains(v@[k]),
            forall|a: int|
                0 <= a < out.len() ==> wanted_node(
                    opt_texts(*ids),
                    nodes@[(#[trigger] out@[a]) as int].0@,
                ),
        decreases v.len() - i,
    {
        let x: usize = v[i];
        assert(v@[i as int] < nodes.len());
        let keep = match ids {
            Some(list) => holds_text(list, &nodes[x].0),
            None => true,
        };
        if keep {
            let ghost seen = out@;
            out.push(x);
            proof {
                from@ = from@.push(i as int);
                assert forall|k: int|
                    0 <= k < i + 1 && wanted_node(
                        opt_texts(*ids),
                        nodes@[(#[trigger] v@[k]) as int].0@,
                    ) implies out@.contains(v@[k]) by {
                    if k < i {
                        assert(seen.contains(v@[k]));
                        let m = choose|m: int| 0 <= m < seen.len() && seen[m] == v@[k];
                        assert(out@[m] == v@[k]);
                    } else {
                        assert(out@[seen.len() as int] == x);
                    }
                }
            }
        }
        i += 1;
    }
    proof {
        assert forall|a: int, b: int| 0 <= a < b < out.len() implies before(
            nodes@,
            #[trigger] out@[a] as int,
            #[trigger] out@[b] as int,
        ) by {
            assert(from@[a] < from@[b]);
            assert(before(nodes@, v@[from@[a]] as int, v@[from@[b]] as int));
        }
        assert forall|k: usize| (#[trigger] out@.contains(k)) <==> k < nodes.len() && picked(
            p,
            nodes@[k as int].2@,
        ) && wanted_node(opt_texts(*ids), nodes@[k as int].0@) by {
            if out@.contains(k) {
                let m = choose|m: int| 0 <= m < out@.len() && out@[m] == k;
                assert(v@[from@[m]] == k);
                assert(v@.contains(k));
            }
            if k < nodes.len() && picked(p, nodes@[k as int].2@) && wanted_node(
                opt_texts(*ids),
                nodes@[k as int].0@,
            ) {
                assert(v@.contains(k));
                let m = choose|m: int| 0 <= m < v@.len() && v@[m] == k;
                assert(out@.contains(v@[m]));
            }
        }
    }
    out
}

/// The order of an OS upgrade: first the workers, then the control planes.
#[derive(Debug, PartialEq, Eq)]
pub struct OsPlan {
    pub workers: Vec<usize>,
    pub control_planes: Vec<usize>,
}

/// No node is wanted.
pub open spec fn none_wanted(nodes: Seq<NodeTuple>, ids: Option<Seq<Seq<char>>>) -> bool {
    forall|i: int| 0 <= i < nodes.len() ==> !wanted_node(ids, (#[trigger] nodes[i]).0@)
}

/// Plans an OS upgrade. A choice of nodes that matches none is an error.
pub fn plan_os_upgrade(nodes: &Vec<NodeTuple>, ids: &Option<Vec<String>>) -> (r: Result<
    OsPlan,
    String,
>)
    ensures
        match r {
            Ok(p) => {
                &&& wanted_in_order(nodes@, Pick::Others, opt_texts(*ids), p.workers@)
                &&& wanted_in_order(nodes@, Pick::ControlPlanes, opt_texts(*ids), p.control_planes@)
                &&& !(ids is Some && none_wanted(nodes@, opt_texts(*ids)))
            },
            Err(e) => ids is Some && none_wanted(nodes@, opt_texts(*ids)) && e@
                == "no matching nodes for node_ids filter"@,
        },
{
    let all_workers = nodes_by_name(nodes, Pick::Others);
    let all_cps = nodes_by_name(nodes, Pick::ControlPlanes);
    let workers = keep_wanted(nodes, ids, Pick::Others, &all_workers);
    let control_planes = keep_wanted(nodes, ids, Pick::ControlPlanes, &all_cps);
    if ids.is_some() && workers.len() == 0 && control_planes.len() == 0 {
        proof {
            assert forall|i: int| 0 <= i < nodes.len() implies !wanted_node(
                opt_texts(*ids),
                (#[trigger] nodes@[i]).0@,
            ) by {
                let k = i as usize;
                assert(!workers@.contains(k));
                assert(!control_planes@.contains(k));
            }
        }
        return Err(lit("no matching nodes for node_ids filter"));
    }
    proof {
        if workers.len() > 0 {
            assert(workers@.contains(workers@[0]));
            assert(wanted_node(opt_texts(*ids), nodes@[workers@[0] as int].0@));
        }
        if control_planes.len() > 0 {
            assert(control_planes@.contains(control_planes@[0]));
            assert(wanted_node(opt_texts(*ids), nodes@[control_planes@[0] as int].0@));
        }
    }
    Ok(OsPlan { workers, control_planes })
}

/// The arguments of the machine tool for an OS upgrade.
pub open spec fn os_upgrade_args(ip: Seq<char>, bundle: Seq<char>, reboot: bool) -> Seq<Seq<char>> {
    let a = Seq::<Seq<char>>::empty().push("-e"@).push(ip + ":50000"@).push("upgrade"@).push(
        "--bundle"@,
    ).push(bundle);
    if reboot {
        a.push("--reboot"@)
    } else {
        a
    }
}

pub fn os_upgrade_arguments(ip: &str, bundle: &str, reboot: bool) -> (r: Vec<String>)
    ensures
        texts(r@) == os_upgrade_args(ip@, bundle@, reboot),
{
    let mut v: Vec<String> = Vec::new();
    assert(texts(v@) =~= Seq::<Seq<char>>::empty());
    arg2(&mut v, "-e", &cat(ip, ":50000"));
    arg(&mut v, "upgrade");
    arg2(&mut v, "--bundle", bundle);
    if reboot {
        arg(&mut v, "--reboot");
    }
    v
}

/// The address at which a node's machine API is reached.
pub fn os_node_address(name: &str, ip: &Option<String>) -> (r: Result<String, String>)
    ensures
        match r {
            Ok(a) => opt_text(*ip) == Some(a@) && a@.len() > 0,
            Err(e) => (ip is None || ip->0@.len() == 0) && e@ == "no IP for "@ + name@
                + "; cannot reach Machine API"@,
        },
{
    match ip {
        Some(s) => if !s.is_empty() {
            return Ok(lit(s));
        },
        None => {},
    }
    Err(lit("no IP for ").concat(name).concat("; cannot reach Machine API"))
}

// ---------------------------------------------------------------------------
// Reaching the API during an upgrade
// ---------------------------------------------------------------------------

/// The servers of the control planes that have an address.
pub open spec fn cp_servers(nodes: Seq<NodeTuple>, n: int) -> Seq<Seq<char>>
    decreases n,
{
    if n <= 0 {
        Seq::empty()
    } else {
        let so_far = cp_servers(nodes, n - 1);
        let node = nodes[n - 1];
        if node.2@ == "controlplane"@ && node.3 is Some && trim(node.3->0@).len() > 0 {
            so_far.push("https://"@ + trim(node.3->0@) + ":6443"@)
        } else {
            so_far
        }
    }
}

/// The API servers of the control planes.
pub fn https_cp_servers(nodes: &[NodeTuple]) -> (r: Vec<String>)
    ensures
        texts(r@) == cp_servers(nodes@, nodes@.len() as int),
{
    let mut out: Vec<String> = Vec::new();
    let mut i: usize = 0;
    assert(texts(out@) =~= Seq::<Seq<char>>::empty());
    while i < nodes.len()
        invariant
            i <= nodes.len(),
            texts(out@) == cp_servers(nodes@, i as int),
        decreases nodes.len() - i,
    {
        if str_eq(&nodes[i].2, "controlplane") {
            match &nodes[i].3 {
                Some(ip) => {
                    let t = str_trim(ip);
                    if !t.is_empty() {
                        let server = lit("https://").concat(&t).concat(":6443");
                        arg(&mut out, &server);
                    }
                },
                None => {},
            }
        }
        i += 1;
    }
    out
}

/// Waiting for the API: the server that answered last and how often in a row.
/// The inner `None` is the kubeconfig's own server.
#[derive(Debug, PartialEq, Eq)]
pub struct ApiWait {
    pub last: Option<Option<String>>,
    pub streak: u32,
}

pub ghost struct ApiWaitV {
    pub last: Option<Option<Seq<char>>>,
    pub streak: nat,
}

pub open spec fn opt_server(o: Option<Option<String>>) -> Option<Option<Seq<char>>> {
    match o {
        Some(s) => Some(opt_text(s)),
        None => None,
    }
}

impl View for ApiWait {
    type V = ApiWaitV;

    open spec fn view(&self) -> ApiWaitV {
        ApiWaitV { last: opt_server(self.last), streak: self.streak as nat }
    }
}

/// The state after a probe that found `hit`.
pub open spec fn api_next(w: ApiWaitV, hit: Option<Option<Seq<char>>>) -> ApiWaitV {
    match hit {
        Some(s) => if w.last == Some(s) {
            ApiWaitV { last: w.last, streak: w.streak + 1 }
        } else {
            ApiWaitV { last: Some(s), streak: 1 }
        },
        None => ApiWaitV { last: None, streak: 0 },
    }
}

/// Two answers of one server in a row settle it.
pub open spec fn api_settled(w: ApiWaitV) -> bool {
    w.streak >= 2
}

fn same_server(a: &Option<String>, b: &Option<String>) -> (r: bool)
    ensures
        r == (opt_text(*a) == opt_text(*b)),
{
    match (a, b) {
        (Some(x), Some(y)) => str_eq(x, y),
        (None, None) => true,
        _ => false,
    }
}

impl ApiWait {
    pub fn start() -> (r: ApiWait)
        ensures
            r@ == (ApiWaitV { last: None, streak: 0 }),
    {
        ApiWait { last: None, streak: 0 }
    }

    /// Takes the result of a probe in; returns the server once it is settled.
    pub fn probed(&mut self, hit: Option<Option<String>>) -> (r: Option<Option<String>>)
        requires
            old(self).streak < u32::MAX,
        ensures
            final(self)@ == api_next(old(self)@, opt_server(hit)),
            opt_server(r) == if api_settled(final(self)@) {
                final(self)@.last
            } else {
                None
            },
    {
        match hit {
            Some(server) => {
                let same = match &self.last {
                    Some(s) => same_server(s, &server),
                    None => false,
                };
                if same {
                    self.streak = self.streak + 1;
                } else {
                    self.streak = 1;
                    self.last = Some(again(&server));
                }
                if self.streak >= 2 {
                    return Some(server);
                }
                None
            },
            None => {
                self.last = None;
                self.streak = 0;
                None
            },
        }
    }
}

/// A server that is settled answered the last two probes.
pub proof fn law_api_needs_two_answers(
    w: ApiWaitV,
    first: Option<Option<Seq<char>>>,
    second: Option<Option<Seq<char>>>,
)
    requires
        !api_settled(w),
        w.streak == 0 <==> w.last is None,
        !api_settled(api_next(w, first)),
        api_settled(api_next(api_next(w, first), second)),
    ensures
        first is Some,
        first == second,
        api_next(api_next(w, first), second).last == first,
{
}

/// What the log says when the wait begins.
pub fn api_wait_note(extra_servers: &Vec<String>) -> (r: String)
    ensures
        r@ == "wait API (VIP + control-plane :6443"@ + (if extra_servers.len() == 0 {
            Seq::<char>::empty()
        } else {
            "; also probing "@ + join(texts(extra_servers@), " "@)
        }) + ")…\n"@,
{
    let extras = if extra_servers.len() == 0 {
        String::new()
    } else {
        lit("; also probing ").concat(&str_join(extra_servers, " "))
    };
    lit("wait API (VIP + control-plane :6443").concat(&extras).concat(")…\n")
}

/// What the log says when the wait ends well, where it had begun to say anything.
pub fn api_reached_note(server: &Option<String>) -> (r: String)
    ensures
        r@ == (match *server {
            None => "API reachable (kubeconfig / VIP)\n"@,
            Some(s) => "API reachable via "@ + s@ + " (kube-vip down or settling)\n"@,
        }),
{
    match server {
        None => lit("API reachable (kubeconfig / VIP)\n"),
        Some(s) => lit("API reachable via ").concat(s).concat(
            " (kube-vip down or settling)\n",
        ),
    }
}

/// Why the wait ended badly.
pub const API_TIMEOUT: &'static str =
    "timed out waiting for API (kube-vip and control-plane :6443 unreachable)";

/// The first control plane's place, by its name's ending.
pub open spec fn first_cp1(nodes: Seq<NodeTuple>, i: int) -> int
    decreases nodes.len() - i,
{
    if 0 <= i < nodes.len() && !(ends_with(nodes[i].1@, "-cp-1"@) || ends_with(
        nodes[i].1@,
        "-cp1"@,
    )) {
        first_cp1(nodes, i + 1)
    } else {
        i
    }
}

/// Whether a name is that of a first control plane.
pub fn is_cp1(name: &str) -> (r: bool)
    ensures
        r == (ends_with(name@, "-cp-1"@) || ends_with(name@, "-cp1"@)),
{
    str_ends(name, "-cp-1") || str_ends(name, "-cp1")
}

/// The node on which etcd is recovered, and its address.
pub fn etcd_recovery_target(cps: &Vec<NodeTuple>) -> (r: Result<(usize, String), String>)
    ensures
        ({
            let k = first_cp1(cps@, 0);
            match r {
                Ok((i, ip)) => i == k && k < cps.len() && cps@[k].3 is Some && ip@ == trim(
                    cps@[k].3->0@,
                ) && ip@.len() > 0,
                Err(e) => if k >= cps.len() {
                    e@ == "no *-cp-1 node to recover etcd"@
                } else {
                    (cps@[k].3 is None || trim(cps@[k].3->0@).len() == 0) && e@ == "no IP for "@
                        + cps@[k].1@
                },
            }
        }),
{
    let mut i: usize = 0;
    while i < cps.len() && !is_cp1(&cps[i].1)
        invariant
            i <= cps.len(),
            first_cp1(cps@, 0) == first_cp1(cps@, i as int),
        decreases cps.len() - i,
    {
        i += 1;
    }
    if i >= cps.len() {
        return Err(lit("no *-cp-1 node to recover etcd"));
    }
    match &cps[i].3 {
        Some(ip) => {
            let t = str_trim(ip);
            if !t.is_empty() {
                return Ok((i, t));
            }
        },
        None => {},
    }
    Err(cat("no IP for ", &cps[i].1))
}

// ---------------------------------------------------------------------------
// Waiting for a node to come back
// ---------------------------------------------------------------------------

/// What to do in one round of waiting for a rebooted node.
#[derive(Debug, Clone, Copy, PartialEq, Eq, Structural)]
pub enum GuestProbe {
    /// Only wait.
    Wait,
    /// Ask the hypervisor for the node's address.
    AskHypervisor,
    /// Look for the cluster's nodes anew.
    Rediscover,
}

/// Rounds are counted from one. On Nutanix every third round asks the
/// hypervisor; elsewhere every eighth looks for the nodes.
pub fn guest_probe(round: u32, nutanix: bool) -> (r: GuestProbe)
    ensures
        r == if nutanix && round % 3 == 0 {
            GuestProbe::AskHypervisor
        } else if !nutanix && round % 8 == 0 {
            GuestProbe::Rediscover
        } else {
            GuestProbe::Wait
        },
{
    if nutanix {
        if round % 3 == 0 {
            GuestProbe::AskHypervisor
        } else {
            GuestProbe::Wait
        }
    } else if round % 8 == 0 {
        GuestProbe::Rediscover
    } else {
        GuestProbe::Wait
    }
}

/// What to try once when a node stays away.
#[derive(Debug, Clone, Copy, PartialEq, Eq, Structural)]
pub enum GuestRescue {
    Nothing,
    PowerCycle,
    Rediscover,
}

/// The rescue of round thirty.
pub fn guest_rescue(round: u32, nutanix: bool, healed: bool) -> (r: GuestRescue)
    ensures
        r == if healed || round != 30 {
            GuestRescue::Nothing
        } else if nutanix {
            GuestRescue::PowerCycle
        } else {
            GuestRescue::Rediscover
        },
{
    if healed || round != 30 {
        GuestRescue::Nothing
    } else if nutanix {
        GuestRescue::PowerCycle
    } else {
        GuestRescue::Rediscover
    }
}

/// How many rounds a rebooted node is waited for.
pub const GUEST_ROUNDS: u32 = 180;

/// The complaint about a node that did not come back.
pub fn guest_lost(name: &str, ip: &str) -> (r: String)
    ensures
        r@ == "guest API not reachable after OS reboot on "@ + name@ + " (last IP "@ + ip@
            + "). On Nutanix, Prism Serial may show 'Unable to find valid boot device' if the netcfg virtio disk stole UEFI; power off, pin boot to pci:0, detach extra disk, power on."@,
{
    lit("guest API not reachable after OS reboot on ").concat(name).concat(" (last IP ").concat(
        ip,
    ).concat(
        "). On Nutanix, Prism Serial may show 'Unable to find valid boot device' if the netcfg virtio disk stole UEFI; power off, pin boot to pci:0, detach extra disk, power on.",
    )
}

/// The provider is Nutanix, under any of its names.
pub open spec fn nutanix_kind(kind: Seq<char>) -> bool {
    kind == "nutanix"@ || kind == "ahv"@ || kind == "prism"@
}

pub fn provider_kind_is_nutanix(kind: &str) -> (r: bool)
    ensures
        r == nutanix_kind(kind@),
{
    str_eq(kind, "nutanix") || str_eq(kind, "ahv") || str_eq(kind, "prism")
}

// ---------------------------------------------------------------------------
// Versions and machine configurations
// ---------------------------------------------------------------------------

/// The version with its leading `v`.
pub open spec fn k8s_version(v: Seq<char>) -> Seq<char> {
    if starts_with(trim(v), "v"@) {
        trim(v)
    } else {
        "v"@ + trim(v)
    }
}

pub fn normalize_k8s_version(v: &str) -> (r: String)
    ensures
        r@ == k8s_version(v@),
{
    let t = str_trim(v);
    if str_starts(&t, "v") {
        t
    } else {
        cat("v", &t)
    }
}

/// A version that has its `v` keeps its form.
pub proof fn law_version_form_stays(v: Seq<char>)
    ensures
        k8s_version(k8s_version(v)) == k8s_version(v),
{
    reveal_strlit("v");
    lemma_trim_ends(v);
    let w = k8s_version(v);
    assert(w[0] == 'v') by {
        if starts_with(trim(v), "v"@) {
            assert(trim(v).subrange(0, 1)[0] == "v"@[0]);
        }
    }
    assert(w.subrange(0, 1) =~= "v"@);
    assert(!is_ws('v'));
    lemma_trimmed(w);
}

/// The files in which a node's machine configuration may be, best first: the
/// node's own by its number, the role's, and the one of its full name.
pub open spec fn config_names(cluster: Seq<char>, node: Seq<char>) -> Seq<Seq<char>> {
    let none = Seq::<Seq<char>>::empty();
    let by_role = match strip_prefix(node, cluster + "-"@) {
        Some(suffix) => match strip_prefix(suffix, "cp-"@) {
            Some(n) => if n == "1"@ {
                none.push("controlplane.yaml"@)
            } else {
                none.push("controlplane-"@ + n + ".yaml"@)
            },
            None => match strip_prefix(suffix, "wk-"@) {
                Some(n) => none.push("worker-"@ + n + ".yaml"@).push("worker.yaml"@),
                None => none,
            },
        },
        None => none,
    };
    by_role.push(node + ".yaml"@)
}

/// The names of the files in which a node's machine configuration may be, best
/// first.
pub fn machine_config_names(cluster: &str, node: &str) -> (r: Vec<String>)
    ensures
        texts(r@) == config_names(cluster@, node@),
{
    let mut v: Vec<String> = Vec::new();
    assert(texts(v@) =~= Seq::<Seq<char>>::empty());
    match str_strip_prefix(node, &cat(cluster, "-")) {
        Some(suffix) => match str_strip_prefix(&suffix, "cp-") {
            Some(n) => {
                if str_eq(&n, "1") {
                    arg(&mut v, "controlplane.yaml");
                } else {
                    arg(&mut v, &lit("controlplane-").concat(&n).concat(".yaml"));
                }
            },
            None => match str_strip_prefix(&suffix, "wk-") {
                Some(n) => {
                    arg(&mut v, &lit("worker-").concat(&n).concat(".yaml"));
                    arg(&mut v, "worker.yaml");
                },
                None => {},
            },
        },
        None => {},
    }
    arg(&mut v, &cat(node, ".yaml"));
    v
}

// ---------------------------------------------------------------------------
// Applying configurations
// ---------------------------------------------------------------------------

/// The configuration text of an update request; it must state its version.
pub fn update_config_text(p: &Json) -> (r: Result<String, String>)
    ensures
        ({
            let yaml = text_or(str_in(p@.get("config_yaml"@)), Seq::<char>::empty());
            match r {
                Ok(y) => y@ == yaml && contains(yaml, "version:"@),
                Err(e) => !contains(yaml, "version:"@) && e@
                    == "config_yaml missing version (expected v1alpha1); partial dashboard-only YAML is OK"@,
            }
        }),
{
    let yaml = match str_of(p.get("config_yaml")) {
        Some(s) => s,
        None => String::new(),
    };
    if str_contains(&yaml, "version:") {
        Ok(yaml)
    } else {
        Err(
            lit(
                "config_yaml missing version (expected v1alpha1); partial dashboard-only YAML is OK",
            ),
        )
    }
}

/// The outcome of applying a configuration when `failures` nodes failed.
pub fn apply_result(failures: usize) -> (r: Result<(), String>)
    ensures
        match r {
            Ok(()) => failures == 0,
            Err(e) => failures > 0 && e@ == dec(failures as nat)
                + " node(s) failed to apply config"@,
        },
{
    if failures > 0 {
        Err(usize_str(failures).concat(" node(s) failed to apply config"))
    } else {
        Ok(())
    }
}

/// The steps of an upgrade of Kubernetes, in terms of the nodes: every control
/// plane and every worker comes once, control planes first and each kind by name;
/// workers are always drained, control planes only where there are three or more;
/// the first control plane is the primary one.
pub proof fn law_upgrade_steps_cover_the_nodes(
    nodes: Seq<NodeTuple>,
    cps: Seq<usize>,
    wks: Seq<usize>,
    controlplanes: int,
)
    requires
        in_order(nodes, Pick::ControlPlanes, cps),
        in_order(nodes, Pick::Workers, wks),
    ensures
        ({
            let steps = upgrade_steps(cps, wks, controlplanes);
            &&& forall|i: int|
                0 <= i < steps.len() ==> {
                    let s = #[trigger] steps[i];
                    &&& s.node < nodes.len()
                    &&& s.control_plane <==> nodes[s.node as int].2@ == "controlplane"@
                    &&& !s.control_plane <==> nodes[s.node as int].2@ == "worker"@
                    &&& s.drain <==> nodes[s.node as int].2@ == "worker"@ || controlplanes >= 3
                    &&& s.primary <==> i == 0 && s.control_plane
                }
            &&& forall|n: usize|
                n < nodes.len() && ((#[trigger] nodes[n as int]).2@ == "controlplane"@
                    || nodes[n as int].2@ == "worker"@) ==> exists|i: int|
                    0 <= i < steps.len() && (#[trigger] steps[i]).node == n
            &&& forall|i: int, k: int|
                0 <= i < k < steps.len() && (#[trigger] steps[i]).control_plane == (
                #[trigger] steps[k]).control_plane ==> !less(
                    nodes[steps[k].node as int].1@,
                    nodes[steps[i].node as int].1@,
                )
        }),
{
    reveal_strlit("controlplane");
    reveal_strlit("worker");
    assert("controlplane"@.len() == 12 && "worker"@.len() == 6);
    let steps = upgrade_steps(cps, wks, controlplanes);
    assert forall|i: int| 0 <= i < steps.len() implies {
        let s = #[trigger] steps[i];
        &&& s.node < nodes.len()
        &&& s.control_plane <==> nodes[s.node as int].2@ == "controlplane"@
        &&& !s.control_plane <==> nodes[s.node as int].2@ == "worker"@
        &&& s.drain <==> nodes[s.node as int].2@ == "worker"@ || controlplanes >= 3
        &&& s.primary <==> i == 0 && s.control_plane
    } by {
        if i < cps.len() {
            assert(cps.contains(cps[i]));
        } else {
            assert(wks.contains(wks[i - cps.len()]));
        }
    }
    assert forall|n: usize|
        n < nodes.len() && ((#[trigger] nodes[n as int]).2@ == "controlplane"@ || nodes[n as int].2@
            == "worker"@) implies exists|i: int|
        0 <= i < steps.len() && (#[trigger] steps[i]).node == n by {
        let u = n;
        if nodes[n as int].2@ == "controlplane"@ {
            assert(cps.contains(u));
            let i = choose|i: int| 0 <= i < cps.len() && cps[i] == u;
            assert(steps[i].node == n);
        } else {
            assert(wks.contains(u));
            let i = choose|i: int| 0 <= i < wks.len() && wks[i] == u;
            assert(steps[cps.len() + i].node == n);
        }
    }
    assert forall|i: int, k: int|
        0 <= i < k < steps.len() && (#[trigger] steps[i]).control_plane == (
        #[trigger] steps[k]).control_plane implies !less(
        nodes[steps[k].node as int].1@,
        nodes[steps[i].node as int].1@,
    ) by {
        let p = steps[i].node as int;
        let q = steps[k].node as int;
        crate::order::lemma_less_irreflexive(nodes[p].1@);
        if less(nodes[p].1@, nodes[q].1@) && less(nodes[q].1@, nodes[p].1@) {
            crate::order::lemma_less_transitive(nodes[p].1@, nodes[q].1@, nodes[p].1@);
        }
        if k < cps.len() {
            assert(before(nodes, cps[i] as int, cps[k] as int));
            assert(before(nodes, p, q));
        } else {
            assert(i >= cps.len());
            assert(before(nodes, wks[i - cps.len()] as int, wks[k - cps.len()] as int));
            assert(before(nodes, p, q));
        }
    }
}

/// The machine tool is told to reboot exactly where a reboot is asked for: the
/// word is in the call, as its last. The call names the address with its port and
/// the bundle. (A bundle of that name would be in the call too.)
pub proof fn law_reboot_only_where_asked(ip: Seq<char>, bundle: Seq<char>, reboot: bool)
    ensures
        ({
            let args = os_upgrade_args(ip, bundle, reboot);
            &&& bundle != "--reboot"@ ==> (args.contains("--reboot"@) <==> reboot)
            &&& reboot ==> args.last() == "--reboot"@
            &&& !reboot ==> args.last() == bundle
            &&& args.take(5) == seq!["-e"@, ip + ":50000"@, "upgrade"@, "--bundle"@, bundle]
            &&& args.len() <= 6
        }),
{
    reveal_strlit("--reboot");
    reveal_strlit("-e");
    reveal_strlit("upgrade");
    reveal_strlit("--bundle");
    reveal_strlit(":50000");
    let args = os_upgrade_args(ip, bundle, reboot);
    assert(args.take(5) =~= seq!["-e"@, ip + ":50000"@, "upgrade"@, "--bundle"@, bundle]);
    assert("--reboot"@.len() == 8 && "-e"@.len() == 2 && "upgrade"@.len() == 7);
    assert("--reboot"@[2] == 'r' && "--bundle"@[2] == 'b');
    assert((ip + ":50000"@).last() == '0' && "--reboot"@.last() == 't');
    if reboot {
        assert(args[5] == "--reboot"@);
    } else if bundle != "--reboot"@ && args.contains("--reboot"@) {
        let i = choose|i: int| 0 <= i < args.len() && args[i] == "--reboot"@;
        assert(args[0] == "-e"@ && args[1] == ip + ":50000"@ && args[2] == "upgrade"@ && args[3]
            == "--bundle"@ && args[4] == bundle);
    }
}

/// An upgrade of operating systems takes each of the nodes that were asked for,
/// all of them where none were named.
pub proof fn law_os_plan_covers_the_nodes(
    nodes: Seq<NodeTuple>,
    ids: Option<Seq<Seq<char>>>,
    workers: Seq<usize>,
    cps: Seq<usize>,
    n: usize,
)
    requires
        wanted_in_order(nodes, Pick::Others, ids, workers),
        wanted_in_order(nodes, Pick::ControlPlanes, ids, cps),
        n < nodes.len(),
    ensures
        ({
            let asked = ids is None || ids->0.contains(nodes[n as int].0@);
            &&& workers.contains(n) <==> asked && nodes[n as int].2@ != "controlplane"@
            &&& cps.contains(n) <==> asked && nodes[n as int].2@ == "controlplane"@
        }),
{
}

/// The file of a node's configuration: that of its role and number before that of
/// its name; the first control plane has the one without a number.
pub proof fn law_files_of_a_configuration(cluster: Seq<char>, n: Seq<char>)
    ensures
        config_names(cluster, cluster + "-"@ + "cp-"@ + "1"@)[0] == "controlplane.yaml"@,
        n != "1"@ ==> config_names(cluster, cluster + "-"@ + "cp-"@ + n)[0] == "controlplane-"@ + n
            + ".yaml"@,
        config_names(cluster, cluster + "-"@ + "wk-"@ + n)[0] == "worker-"@ + n + ".yaml"@,
        config_names(cluster, cluster + "-"@ + "wk-"@ + n)[1] == "worker.yaml"@,
        forall|node: Seq<char>| (#[trigger] config_names(cluster, node)).last() == node + ".yaml"@,
{
    lemma_name_parts(cluster, "cp-"@, "1"@);
    lemma_name_parts(cluster, "cp-"@, n);
    lemma_name_parts(cluster, "wk-"@, n);
    reveal_strlit("cp-");
    reveal_strlit("wk-");
    let s = "wk-"@ + n;
    if starts_with(s, "cp-"@) {
        assert(s.subrange(0, 3)[0] == 'c');
    }
}

proof fn lemma_name_parts(cluster: Seq<char>, kind: Seq<char>, n: Seq<char>)
    ensures
        strip_prefix(cluster + "-"@ + kind + n, cluster + "-"@) == Some(kind + n),
        strip_prefix(kind + n, kind) == Some(n),
{
    let p = cluster + "-"@;
    assert(p + kind + n =~= p + (kind + n));
    law_parts_are_found(Seq::empty(), p, kind + n);
    law_parts_are_found(Seq::empty(), kind, n);
}

/// Control planes are left alone only where there are fewer than three; the kinds
/// of Nutanix are known by any of its names.
pub proof fn law_kinds_and_quorum(controlplanes: int, kind: Seq<char>)
    ensures
        zero_downtime(controlplanes) <==> controlplanes >= 3,
        nutanix_kind(kind) <==> kind == "nutanix"@ || kind == "ahv"@ || kind == "prism"@,
{
}

/// The servers of a cluster are its control planes that have an address.
pub proof fn law_servers_of_the_control_planes(nodes: Seq<NodeTuple>, n: int, k: int)
    requires
        0 <= n <= nodes.len(),
    ensures
        0 <= k < n && (nodes[k].2@ == "controlplane"@ && nodes[k].3 is Some && trim(nodes[k].3->0@).len() > 0) ==> cp_servers(nodes, n).contains(("https://"@ + trim(nodes[k].3->0@) + ":6443"@)),
        0 <= k < cp_servers(nodes, n).len() ==> exists|i: int|
            #![trigger nodes[i]]
            0 <= i < n && (nodes[i].2@ == "controlplane"@ && nodes[i].3 is Some && trim(nodes[i].3->0@).len() > 0) && cp_servers(nodes, n)[k] == ("https://"@ + trim(nodes[i].3->0@) + ":6443"@),
    decreases n,
{
    if n > 0 {
        law_servers_of_the_control_planes(nodes, n - 1, k);
        let b = cp_servers(nodes, n - 1);
        let r = cp_servers(nodes, n);
        if r.len() > b.len() {
            assert(r[r.len() - 1] == ("https://"@ + trim(nodes[n - 1].3->0@) + ":6443"@));
        }
        if 0 <= k < n - 1 && b.contains(("https://"@ + trim(nodes[k].3->0@) + ":6443"@)) {
            let i = choose|i: int| 0 <= i < b.len() && b[i] == ("https://"@ + trim(nodes[k].3->0@) + ":6443"@);
            assert(r[i] == b[i]);
        }
        if 0 <= k < r.len() && k < b.len() {
            assert(r[k] == b[k]);
        }
    }
}

} // verus!
