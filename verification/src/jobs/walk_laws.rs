//! What holds of the actions of a rolling upgrade, read in the order in which
//! they are done: a node is drained before anything is done to it, takes
//! workloads again before the walk goes on, and so on.
use crate::jobs::action::{ActV, idle, is_done};
use crate::jobs::node_upgrade::{
    KubeNodeJob, ToolResult, drain_args, kube_agent, kube_agent_over, kube_apply, kube_ask,
    kube_finish, kube_started, ready_args,
};
use crate::jobs::walk::{
    NO_ANSWER, UpgradeEvent, UpgradePhase, UpgradeWalk, after_node_step, asked_of_node, is_fresh,
    same_walk, upgrade_fails, upgrade_node, upgrade_run, upgrade_step,
};
use crate::text::opt_text;
use vstd::prelude::*;
use vstd::string::*;

verus! {

/// `kubectl` moves the workloads of a node away.
pub open spec fn drains(args: Seq<Seq<char>>, name: Seq<char>) -> bool {
    args == seq![
        "drain"@,
        name,
        "--ignore-daemonsets"@,
        "--delete-emptydir-data"@,
        "--force"@,
        "--grace-period=30"@,
        "--timeout=5m"@,
    ]
}

/// `kubectl` waits until a node is ready.
pub open spec fn awaits(args: Seq<Seq<char>>, name: Seq<char>) -> bool {
    args == seq!["wait"@, "--for=condition=Ready"@, "node/"@ + name, "--timeout=10m"@]
}

/// `kubectl` lets workloads back to a node.
pub open spec fn readmits(args: Seq<Seq<char>>, name: Seq<char>) -> bool {
    args == seq!["uncordon"@, name]
}

/// The word that a call of `kubectl` begins with.
pub open spec fn verb_of(args: Seq<Seq<char>>) -> Seq<char> {
    if args.len() > 0 {
        args[0]
    } else {
        Seq::empty()
    }
}

/// What the actions so far tell a reader.
#[verifier::ext_equal]
pub ghost struct Seen {
    /// How many nodes were begun.
    pub turns: nat,
    /// How many nodes have their new version.
    pub stored: nat,
    /// How often the version of the cluster was stored.
    pub cluster: nat,
    /// The API was waited for since the last node.
    pub asked: bool,
    /// The node is marked as being upgraded.
    pub marked: bool,
    /// The node whose workloads are away.
    pub away: Option<Seq<char>>,
    /// The workloads of the node were moved away.
    pub moved: bool,
    /// The node was waited for.
    pub ready: bool,
    /// The version that the kubelet of the node was waited for with.
    pub kubelet: Option<Seq<char>>,
}

/// Nothing was done yet.
pub open spec fn nothing_seen() -> Seen {
    Seen {
        turns: 0,
        stored: 0,
        cluster: 0,
        asked: false,
        marked: false,
        away: None,
        moved: false,
        ready: false,
        kubelet: None,
    }
}

/// What a reader knows after one more action.
pub open spec fn seen_next(t: Seen, x: ActV) -> Seen {
    match x {
        ActV::WaitAnyServer => Seen { asked: true, ..t },
        ActV::TurnTo { .. } => Seen {
            turns: t.turns + 1,
            asked: false,
            marked: false,
            moved: false,
            ready: false,
            kubelet: None,
            ..t
        },
        ActV::NodeUpgrading => Seen { marked: true, ..t },
        ActV::Kubectl { args, .. } => if verb_of(args) == "drain"@ {
            Seen { away: Some(args[1]), moved: true, ..t }
        } else if verb_of(args) == "uncordon"@ {
            Seen { away: None, ..t }
        } else {
            Seen { ready: true, ..t }
        },
        ActV::WaitKubelet { version } => Seen { kubelet: Some(version), ..t },
        ActV::StoreKubernetes { .. } => Seen { stored: t.stored + 1, ..t },
        ActV::StoreClusterVersion { .. } => Seen { cluster: t.cluster + 1, ..t },
        _ => t,
    }
}

/// The node is out of service exactly where it is to be drained and can be.
pub open spec fn is_apart(j: KubeNodeJob, t: Seen) -> bool {
    t.away == (if j.drain && j.kubeconfig {
        Some(j.name@)
    } else {
        None::<Seq<char>>
    })
}

/// The action may come next in an upgrade of Kubernetes.
///
/// - A node is begun only when the one before it has its version and no node is
///   drained; before a control plane the API was waited for.
/// - A node that is to be drained is drained before anything else is done to it,
///   and only such a node; it takes workloads again only once its kubelet was
///   seen with the version.
/// - A version is stored only when the node takes workloads, and, with a
///   kubeconfig, only when its kubelet was seen with that version.
/// - The version of the cluster is stored once, when every node has its own.
pub open spec fn may_come(w: UpgradeWalk, t: Seen, x: ActV) -> bool {
    let within = t.turns == t.stored + 1 && t.turns <= w.jobs.len() && t.cluster == 0;
    let j = w.jobs@[t.turns - 1];
    match x {
        ActV::Log { .. } => true,
        ActV::Fail { .. } => true,
        ActV::WaitAnyServer => t.turns == t.stored && t.turns < w.jobs.len()
            && w.jobs@[t.turns as int].control_plane && w.jobs@[t.turns as int].kubeconfig,
        ActV::TurnTo { node } => {
            &&& t.turns == t.stored && t.turns < w.jobs.len()
            &&& node == w.places@[t.turns as int]
            &&& t.away is None
            &&& w.jobs@[t.turns as int].control_plane && w.jobs@[t.turns as int].kubeconfig
                ==> t.asked
        },
        ActV::NodeUpgrading => within && !t.marked,
        ActV::Kubectl { server, args } => {
            &&& within && t.marked && j.kubeconfig && server is None
            &&& if verb_of(args) == "drain"@ {
                drains(args, j.name@) && j.drain && t.away is None && !t.moved
            } else if verb_of(args) == "uncordon"@ {
                readmits(args, j.name@) && t.away == Some(j.name@) && t.kubelet == Some(
                    j.version@,
                )
            } else {
                awaits(args, j.name@) && is_apart(j, t)
            }
        },
        ActV::ApplyConfig { version, ip } => within && t.marked && w.tool && is_apart(j, t)
            && version == j.version@ && opt_text(j.ip) == Some(ip),
        ActV::WaitApi => within && j.kubeconfig && is_apart(j, t),
        ActV::KubeletVersion => within && j.kubeconfig && is_apart(j, t),
        ActV::RunAgent { version, control_plane } => within && j.kubeconfig && is_apart(j, t)
            && version == j.version@ && control_plane == j.control_plane,
        ActV::WaitKubelet { version } => within && j.kubeconfig && is_apart(j, t) && t.ready
            && version == j.version@,
        ActV::SyncNodes => within && t.away is None && t.kubelet == Some(j.version@),
        ActV::StoreKubernetes { version } => {
            &&& within && t.marked && t.away is None
            &&& version == j.version@
            &&& j.kubeconfig ==> t.kubelet == Some(version)
            &&& j.drain && j.kubeconfig ==> t.moved
        },
        ActV::StoreClusterVersion { version } => t.turns == w.jobs.len() && t.stored
            == w.jobs.len() && t.away is None && t.cluster == 0 && version == w.version@,
        ActV::Done => t.cluster == 1 && t.stored == w.jobs.len() && t.away is None,
        _ => false,
    }
}

/// What a reader knows after actions.
pub open spec fn seen_after(s: Seq<ActV>, t: Seen) -> Seen
    decreases s.len(),
{
    if s.len() == 0 {
        t
    } else {
        seen_next(seen_after(s.drop_last(), t), s.last())
    }
}

/// Each of the actions may come where it stands.
spec fn all_may_come(w: UpgradeWalk, s: Seq<ActV>, t: Seen) -> bool
    decreases s.len(),
{
    if s.len() == 0 {
        true
    } else {
        all_may_come(w, s.drop_last(), t) && may_come(w, seen_after(s.drop_last(), t), s.last())
    }
}

broadcast proof fn lemma_push_drop(s: Seq<ActV>, x: ActV)
    ensures
        #[trigger] s.push(x).drop_last() == s,
{
    assert(s.push(x).drop_last() =~= s);
}

broadcast proof fn lemma_seen_push(s: Seq<ActV>, x: ActV, t: Seen)
    ensures
        #[trigger] seen_after(s.push(x), t) == seen_next(seen_after(s, t), x),
{
    assert(s.push(x).drop_last() =~= s);
}

broadcast proof fn lemma_may_push(w: UpgradeWalk, s: Seq<ActV>, x: ActV, t: Seen)
    ensures
        #[trigger] all_may_come(w, s.push(x), t) == (all_may_come(w, s, t) && may_come(
            w,
            seen_after(s, t),
            x,
        )),
{
    assert(s.push(x).drop_last() =~= s);
}

proof fn lemma_seen_add(w: UpgradeWalk, a: Seq<ActV>, b: Seq<ActV>, t: Seen)
    ensures
        seen_after(a + b, t) == seen_after(b, seen_after(a, t)),
        all_may_come(w, a + b, t) == (all_may_come(w, a, t) && all_may_come(
            w,
            b,
            seen_after(a, t),
        )),
    decreases b.len(),
{
    if b.len() == 0 {
        assert(a + b =~= a);
    } else {
        lemma_seen_add(w, a, b.drop_last(), t);
        assert((a + b).drop_last() =~= a + b.drop_last());
        assert((a + b).last() == b.last());
    }
}

proof fn lemma_verbs()
    ensures
        "drain"@ != "uncordon"@,
        "drain"@ != "wait"@,
        "uncordon"@ != "wait"@,
{
    reveal_strlit("drain");
    reveal_strlit("uncordon");
    reveal_strlit("wait");
    assert("drain"@.len() == 5 && "uncordon"@.len() == 8 && "wait"@.len() == 4);
}

/// What is known while the walk waits.
spec fn fits(w: UpgradeWalk, t: Seen) -> bool {
    let j = w.jobs@[w.at as int];
    let within = t.turns == w.at + 1 && t.stored == w.at && t.cluster == 0;
    let begun = within && t.marked && is_apart(j, t) && (t.moved <==> j.drain && j.kubeconfig);
    &&& w.wf()
    &&& match w.phase {
        UpgradePhase::Ready => t == nothing_seen(),
        UpgradePhase::Api => t.turns == w.at && t.stored == w.at && t.cluster == 0
            && t.away is None && t.asked,
        UpgradePhase::Turn => within && t.away is None && !t.marked && !t.moved && !t.ready
            && t.kubelet is None,
        UpgradePhase::Config => begun,
        UpgradePhase::NodeApi => begun && j.kubeconfig,
        UpgradePhase::Version => begun && j.kubeconfig,
        UpgradePhase::Agent => begun && j.kubeconfig,
        UpgradePhase::Kubelet => begun && j.kubeconfig && t.ready && t.kubelet == Some(j.version@),
        UpgradePhase::Over => true,
    }
}

proof fn lemma_upgrade_node_fits(w: UpgradeWalk, a: Seq<ActV>, i: int, t: Seen)
    requires
        w.wf(),
        0 <= i <= w.jobs.len(),
        all_may_come(w, a, t),
        ({
            let s = seen_after(a, t);
            s.turns == i && s.stored == i && s.cluster == 0 && s.away is None
        }),
    ensures
        all_may_come(w, upgrade_node(w, a, i).1, t),
        fits(upgrade_node(w, a, i).0, seen_after(upgrade_node(w, a, i).1, t)),
{
    broadcast use {lemma_seen_push, lemma_may_push};

}

/// A step of a node: its actions may come, without the end where the node is
/// done.
spec fn step_fits(w: UpgradeWalk, a: Seq<ActV>, t: Seen) -> bool {
    if is_done(a) {
        let s = seen_after(a.drop_last(), t);
        all_may_come(w, a.drop_last(), t) && s.turns == w.at + 1 && s.stored == w.at + 1
            && s.cluster == 0 && s.away is None
    } else {
        all_may_come(w, a, t) && fits(
            UpgradeWalk { phase: asked_of_node(a), ..w },
            seen_after(a, t),
        )
    }
}

proof fn lemma_step_fits(w: UpgradeWalk, a: Seq<ActV>, t: Seen)
    requires
        w.wf(),
        w.at < w.jobs.len(),
        step_fits(w, a, t),
    ensures
        all_may_come(w, after_node_step(w, a).1, t),
        fits(after_node_step(w, a).0, seen_after(after_node_step(w, a).1, t)),
{
    if is_done(a) {
        lemma_upgrade_node_fits(w, a.drop_last(), w.at + 1, t);
    }
}

#[verifier::rlimit(40)]
proof fn lemma_begins(w: UpgradeWalk, config: Option<Seq<char>>, t: Seen)
    requires
        fits(w, t),
        w.phase == UpgradePhase::Turn,
    ensures
        step_fits(w, kube_started(w.jobs@[w.at as int], w.tool, config), t),
{
    broadcast use {lemma_push_drop, lemma_seen_push, lemma_may_push};

    lemma_verbs();
    let j = w.jobs@[w.at as int];
    assert(drains(drain_args(j.name@), j.name@));
}

#[verifier::rlimit(40)]
proof fn lemma_applied(w: UpgradeWalk, got: ToolResult, t: Seen)
    requires
        fits(w, t),
        w.phase == UpgradePhase::Config,
    ensures
        step_fits(w, kube_apply(w.jobs@[w.at as int], got), t),
{
    broadcast use {lemma_push_drop, lemma_seen_push, lemma_may_push};

    lemma_verbs();
}

#[verifier::rlimit(40)]
proof fn lemma_api_came(w: UpgradeWalk, got: Result<(), String>, t: Seen)
    requires
        fits(w, t),
        w.phase == UpgradePhase::NodeApi,
    ensures
        step_fits(w, kube_ask(got), t),
{
    broadcast use {lemma_push_drop, lemma_seen_push, lemma_may_push};

    lemma_verbs();
}

#[verifier::rlimit(40)]
proof fn lemma_version_read(w: UpgradeWalk, running: Option<Seq<char>>, t: Seen)
    requires
        fits(w, t),
        w.phase == UpgradePhase::Version,
    ensures
        step_fits(w, kube_agent(w.jobs@[w.at as int], running), t),
{
    broadcast use {lemma_push_drop, lemma_seen_push, lemma_may_push};

    lemma_verbs();
    let j = w.jobs@[w.at as int];
    assert(awaits(ready_args(j.name@), j.name@));
}

#[verifier::rlimit(40)]
proof fn lemma_agent_ran(w: UpgradeWalk, got: Result<(), String>, t: Seen)
    requires
        fits(w, t),
        w.phase == UpgradePhase::Agent,
    ensures
        step_fits(w, kube_agent_over(w.jobs@[w.at as int], got), t),
{
    broadcast use {lemma_push_drop, lemma_seen_push, lemma_may_push};

    lemma_verbs();
    let j = w.jobs@[w.at as int];
    assert(awaits(ready_args(j.name@), j.name@));
}

#[verifier::rlimit(40)]
proof fn lemma_kubelet_waited(w: UpgradeWalk, got: Result<(), String>, t: Seen)
    requires
        fits(w, t),
        w.phase == UpgradePhase::Kubelet,
    ensures
        step_fits(w, kube_finish(w.jobs@[w.at as int], got), t),
{
    broadcast use {lemma_push_drop, lemma_seen_push, lemma_may_push};

    lemma_verbs();
    let j = w.jobs@[w.at as int];
    assert(readmits(seq!["uncordon"@, j.name@], j.name@));
}

proof fn lemma_api_before(w: UpgradeWalk, e: UpgradeEvent, t: Seen)
    requires
        fits(w, t),
        w.phase == UpgradePhase::Api,
    ensures
        all_may_come(w, upgrade_step(w, e).1, t),
        fits(upgrade_step(w, e).0, seen_after(upgrade_step(w, e).1, t)),
{
    broadcast use {lemma_seen_push, lemma_may_push};

}

proof fn lemma_ends(w: UpgradeWalk, error: Seq<char>, t: Seen)
    requires
        w.wf(),
    ensures
        all_may_come(w, upgrade_fails(w, error).1, t),
        fits(upgrade_fails(w, error).0, seen_after(upgrade_fails(w, error).1, t)),
{
    broadcast use {lemma_seen_push, lemma_may_push};

}

proof fn lemma_goes_on(w: UpgradeWalk, e: UpgradeEvent, t: Seen)
    requires
        fits(w, t),
    ensures
        all_may_come(w, upgrade_step(w, e).1, t),
        fits(upgrade_step(w, e).0, seen_after(upgrade_step(w, e).1, t)),
{
    let j = w.jobs@[w.at as int];
    match (w.phase, e) {
        (UpgradePhase::Ready, UpgradeEvent::Begun) => {
            lemma_upgrade_node_fits(w, idle(), 0, t);
        },
        (UpgradePhase::Api, UpgradeEvent::ApiReady(_)) => {
            lemma_api_before(w, e, t);
        },
        (UpgradePhase::Turn, UpgradeEvent::Turned(config)) => {
            lemma_begins(w, opt_text(config), t);
            lemma_step_fits(w, kube_started(j, w.tool, opt_text(config)), t);
        },
        (UpgradePhase::Config, UpgradeEvent::Applied(got)) => {
            lemma_applied(w, got, t);
            lemma_step_fits(w, kube_apply(j, got), t);
        },
        (UpgradePhase::NodeApi, UpgradeEvent::ApiReady(got)) => {
            lemma_api_came(w, got, t);
            lemma_step_fits(w, kube_ask(got), t);
        },
        (UpgradePhase::Version, UpgradeEvent::VersionRead(running)) => {
            lemma_version_read(w, opt_text(running), t);
            lemma_step_fits(w, kube_agent(j, opt_text(running)), t);
        },
        (UpgradePhase::Agent, UpgradeEvent::AgentRan(got)) => {
            lemma_agent_ran(w, got, t);
            lemma_step_fits(w, kube_agent_over(j, got), t);
        },
        (UpgradePhase::Kubelet, UpgradeEvent::KubeletWaited(got)) => {
            lemma_kubelet_waited(w, got, t);
            lemma_step_fits(w, kube_finish(j, got), t);
        },
        _ => {
            lemma_ends(w, NO_ANSWER@, t);
        },
    }
}

proof fn lemma_same(a: UpgradeWalk, b: UpgradeWalk, s: Seq<ActV>, t: Seen)
    requires
        same_walk(a, b),
    ensures
        all_may_come(a, s, t) == all_may_come(b, s, t),
    decreases s.len(),
{
    if s.len() > 0 {
        lemma_same(a, b, s.drop_last(), t);
    }
}

proof fn lemma_run_fits(w: UpgradeWalk, es: Seq<UpgradeEvent>)
    requires
        is_fresh(w),
    ensures
        all_may_come(w, upgrade_run(w, es).1, nothing_seen()),
        same_walk(w, upgrade_run(w, es).0),
        fits(upgrade_run(w, es).0, seen_after(upgrade_run(w, es).1, nothing_seen())),
    decreases es.len(),
{
    if es.len() > 0 {
        lemma_run_fits(w, es.drop_last());
        let (x, a) = upgrade_run(w, es.drop_last());
        let (y, b) = upgrade_step(x, es.last());
        let t = seen_after(a, nothing_seen());
        lemma_goes_on(x, es.last(), t);
        lemma_same(w, x, b, t);
        lemma_seen_add(w, a, b, nothing_seen());
    }
}

proof fn lemma_each(w: UpgradeWalk, s: Seq<ActV>, k: int, t: Seen)
    requires
        all_may_come(w, s, t),
        0 <= k < s.len(),
    ensures
        may_come(w, seen_after(s.take(k), t), s[k]),
    decreases s.len(),
{
    if k == s.len() - 1 {
        assert(s.take(k) =~= s.drop_last());
    } else {
        lemma_each(w, s.drop_last(), k, t);
        assert(s.drop_last().take(k) =~= s.take(k));
    }
}

/// Whatever happens to an upgrade of Kubernetes, each of its actions may come
/// where it stands: see [`may_come`].
pub proof fn law_upgrade_actions_in_order(w: UpgradeWalk, es: Seq<UpgradeEvent>, k: int)
    requires
        is_fresh(w),
        0 <= k < upgrade_run(w, es).1.len(),
    ensures
        may_come(
            w,
            seen_after(upgrade_run(w, es).1.take(k), nothing_seen()),
            upgrade_run(w, es).1[k],
        ),
{
    lemma_run_fits(w, es);
    lemma_each(w, upgrade_run(w, es).1, k, nothing_seen());
}

/// The action moves workloads away from the node.
pub open spec fn is_drain_of(x: ActV, name: Seq<char>) -> bool {
    x matches ActV::Kubectl { args, .. } && verb_of(args) == "drain"@ && args.len() > 1 && args[1]
        == name
}

/// The action lets workloads back to the node.
pub open spec fn is_uncordon_of(x: ActV, name: Seq<char>) -> bool {
    x matches ActV::Kubectl { args, .. } && args == seq!["uncordon"@, name]
}

proof fn lemma_stays_away(w: UpgradeWalk, s: Seq<ActV>, i: int, k: int, name: Seq<char>)
    requires
        all_may_come(w, s, nothing_seen()),
        0 <= i < k <= s.len(),
        is_drain_of(s[i], name),
        forall|m: int| i < m < k ==> !is_uncordon_of(#[trigger] s[m], name),
    ensures
        seen_after(s.take(k), nothing_seen()).away == Some(name),
    decreases k - i,
{
    lemma_verbs();
    assert(s.take(k).drop_last() =~= s.take(k - 1));
    assert(s.take(k).last() == s[k - 1]);
    if k > i + 1 {
        lemma_stays_away(w, s, i, k - 1, name);
        lemma_each(w, s, k - 1, nothing_seen());
        assert(!is_uncordon_of(s[k - 1], name));
    }
}

proof fn lemma_was_drained(w: UpgradeWalk, s: Seq<ActV>, k: int, name: Seq<char>)
    requires
        all_may_come(w, s, nothing_seen()),
        0 <= k <= s.len(),
        seen_after(s.take(k), nothing_seen()).away == Some(name),
    ensures
        exists|i: int|
            0 <= i < k && is_drain_of(#[trigger] s[i], name) && forall|m: int|
                i < m < k ==> !is_uncordon_of(#[trigger] s[m], name),
    decreases k,
{
    lemma_verbs();
    if k > 0 {
        assert(s.take(k).drop_last() =~= s.take(k - 1));
        assert(s.take(k).last() == s[k - 1]);
        lemma_each(w, s, k - 1, nothing_seen());
        if !is_drain_of(s[k - 1], name) {
            assert(seen_after(s.take(k - 1), nothing_seen()).away == Some(name));
            lemma_was_drained(w, s, k - 1, name);
            let i = choose|i: int|
                0 <= i < k - 1 && is_drain_of(#[trigger] s[i], name) && forall|m: int|
                    i < m < k - 1 ==> !is_uncordon_of(#[trigger] s[m], name);
            assert(!is_uncordon_of(s[k - 1], name));
            assert(forall|m: int| i < m < k ==> !is_uncordon_of(#[trigger] s[m], name));
            assert(is_drain_of(s[i], name));
        }
    }
}

/// A node that was drained takes workloads again before its version is stored,
/// before the walk turns to another node and before the job ends well; and a node
/// takes workloads again only after it was drained, once for each time.
pub proof fn law_drained_nodes_come_back(w: UpgradeWalk, es: Seq<UpgradeEvent>)
    requires
        is_fresh(w),
    ensures
        ({
            let a = upgrade_run(w, es).1;
            &&& forall|i: int, k: int, name: Seq<char>|
                #![trigger is_drain_of(a[i], name), a[k]]
                0 <= i < k < a.len() && is_drain_of(a[i], name) && (a[k] is StoreKubernetes
                    || a[k] is TurnTo || a[k] is StoreClusterVersion || a[k] is Done)
                    ==> exists|m: int| i < m < k && is_uncordon_of(#[trigger] a[m], name)
            &&& forall|k: int, name: Seq<char>|
                0 <= k < a.len() && #[trigger] is_uncordon_of(a[k], name) ==> exists|i: int|
                    0 <= i < k && is_drain_of(#[trigger] a[i], name) && forall|m: int|
                        i < m < k ==> !is_uncordon_of(#[trigger] a[m], name)
        }),
{
    lemma_run_fits(w, es);
    lemma_verbs();
    let a = upgrade_run(w, es).1;
    assert forall|i: int, k: int, name: Seq<char>|
        #![trigger is_drain_of(a[i], name), a[k]]
        0 <= i < k < a.len() && is_drain_of(a[i], name) && (a[k] is StoreKubernetes || a[k] is TurnTo
            || a[k] is StoreClusterVersion || a[k] is Done) implies exists|m: int|
        i < m < k && is_uncordon_of(#[trigger] a[m], name) by {
        if forall|m: int| i < m < k ==> !is_uncordon_of(#[trigger] a[m], name) {
            lemma_stays_away(w, a, i, k, name);
            lemma_each(w, a, k, nothing_seen());
        }
    }
    assert forall|k: int, name: Seq<char>|
        0 <= k < a.len() && #[trigger] is_uncordon_of(a[k], name) implies exists|i: int|
        0 <= i < k && is_drain_of(#[trigger] a[i], name) && forall|m: int|
            i < m < k ==> !is_uncordon_of(#[trigger] a[m], name) by {
        lemma_each(w, a, k, nothing_seen());
        lemma_was_drained(w, a, k, name);
    }
}

/// An upgrade fails only where the API or the kubelet did not come, with the
/// words of that, or where what happened is not what it waits for. Neither a
/// configuration that cannot be applied nor an agent that cannot run ends it.
pub proof fn law_upgrade_fails_only_for_a_reason(w: UpgradeWalk, e: UpgradeEvent)
    requires
        w.wf(),
    ensures
        ({
            let (x, a) = upgrade_step(w, e);
            let awaited = match e {
                UpgradeEvent::Begun => w.phase == UpgradePhase::Ready,
                UpgradeEvent::ApiReady(_) => w.phase == UpgradePhase::Api || w.phase
                    == UpgradePhase::NodeApi,
                UpgradeEvent::Turned(_) => w.phase == UpgradePhase::Turn,
                UpgradeEvent::Applied(_) => w.phase == UpgradePhase::Config,
                UpgradeEvent::VersionRead(_) => w.phase == UpgradePhase::Version,
                UpgradeEvent::AgentRan(_) => w.phase == UpgradePhase::Agent,
                UpgradeEvent::KubeletWaited(_) => w.phase == UpgradePhase::Kubelet,
            };
            let error = match e {
                UpgradeEvent::ApiReady(Err(m)) => Some(m@),
                UpgradeEvent::KubeletWaited(Err(m)) => Some(m@),
                _ => None::<Seq<char>>,
            };
            &&& a.len() > 0
            &&& awaited && error is None ==> !(a.last() is Fail)
            &&& awaited && error is Some ==> a == seq![ActV::Fail { error: error->0 }]
            &&& !awaited ==> a.last() is Fail
            &&& a.last() is Fail ==> x.phase == UpgradePhase::Over && x.at == w.at
        }),
{
    broadcast use lemma_push_drop;

}

/// The agent runs exactly where the kubelet does not have the version yet.
pub proof fn law_agent_runs_unless_the_version_is_there(
    j: KubeNodeJob,
    running: Option<Seq<char>>,
)
    ensures
        kube_agent(j, running).last() is RunAgent <==> running != Some(j.version@),
        kube_agent(j, running).last() is WaitKubelet <==> running == Some(j.version@),
{
}

/// The machine configuration of a node is applied exactly where the node has an
/// address, the tool is there and the configuration is known.
pub proof fn law_config_is_applied_where_it_can_be(
    j: KubeNodeJob,
    tool: bool,
    config: Option<Seq<char>>,
)
    ensures
        kube_started(j, tool, config).last() is ApplyConfig <==> j.ip is Some && tool
            && config is Some,
        !(kube_started(j, tool, config).last() is ApplyConfig) && j.kubeconfig ==> kube_started(
            j,
            tool,
            config,
        ).last() is WaitApi,
{
}

} // verus!
