//! Upgrades that go from node to node.
//!
//! A walk takes what happened last, the answer to the last action of its step,
//! and says what to do next, from the first node to the last.
use crate::config::Config;
use crate::jobs::action::{
    Act, ActV, act, acts, fail, failed, go_on, idle, is_done, is_failed, log, logged, no_acts,
};
use crate::jobs::node_upgrade::{
    KubeNodeJob, ToolResult, kube_agent, kube_agent_over, kube_agent_ran, kube_api_ready,
    kube_applied, kube_apply, kube_ask, kube_begin, kube_finish, kube_kubelet_waited, kube_started,
    kube_version_read,
};
use crate::jobs::rounds::{UPGRADED, cp_note, cp_step_note, worker_note, worker_step_note};
use crate::jobs::upgrade::{
    NodeTuple, Pick, UpgradeStep, in_order, k8s_version, normalize_k8s_version, plan_upgrade,
    upgrade_steps,
};
use crate::text::{again, lit, opt_text};
use vstd::prelude::*;
use vstd::string::*;

verus! {

/// The complaint about an answer that was not asked for.
pub const NO_ANSWER: &'static str = "the job ended without an answer";

// ---------------------------------------------------------------------------
// Kubernetes
// ---------------------------------------------------------------------------

/// What an upgrade of Kubernetes waits for.
#[derive(Debug, Clone, Copy, PartialEq, Eq, Structural)]
pub enum UpgradePhase {
    /// It has not begun.
    Ready,
    /// The API, before a control plane.
    Api,
    /// The turn to the node.
    Turn,
    /// The machine configuration of the node.
    Config,
    /// The API, for the node.
    NodeApi,
    /// The version that the kubelet runs.
    Version,
    /// The agent on the node.
    Agent,
    /// The kubelet with the new version.
    Kubelet,
    /// It has ended.
    Over,
}

/// What happens to an upgrade of Kubernetes.
#[derive(Debug, PartialEq, Eq)]
pub enum UpgradeEvent {
    Begun,
    ApiReady(Result<(), String>),
    /// The walk is at the node; its machine configuration is at the path.
    Turned(Option<String>),
    Applied(ToolResult),
    VersionRead(Option<String>),
    AgentRan(Result<(), String>),
    KubeletWaited(Result<(), String>),
}

/// An upgrade of Kubernetes: the nodes in the order in which they are upgraded,
/// control planes first, and how far it has come.
#[derive(Debug, PartialEq, Eq)]
pub struct UpgradeWalk {
    pub jobs: Vec<KubeNodeJob>,
    /// The places of the nodes in the list that the walk was made of.
    pub places: Vec<usize>,
    /// How many of the nodes are control planes.
    pub controlplanes: usize,
    /// The version as it was asked for.
    pub version: String,
    /// The machine tool is there.
    pub tool: bool,
    /// How many nodes are done.
    pub at: usize,
    pub phase: UpgradePhase,
}

impl UpgradeWalk {
    /// The walk is at one of its nodes, or has not begun, or has ended.
    pub open spec fn wf(self) -> bool {
        &&& self.jobs.len() == self.places.len()
        &&& self.controlplanes <= self.jobs.len()
        &&& forall|i: int|
            0 <= i < self.jobs.len() ==> ((#[trigger] self.jobs@[i]).control_plane <==> i
                < self.controlplanes)
        &&& self.at <= self.jobs.len()
        &&& self.phase != UpgradePhase::Ready && self.phase != UpgradePhase::Over ==> self.at
            < self.jobs.len()
        &&& self.phase == UpgradePhase::Ready ==> self.at == 0
    }
}

/// What the log says before the `i`th node.
pub open spec fn upgrade_step_note(w: UpgradeWalk, i: int) -> Seq<char> {
    if w.jobs@[i].control_plane {
        cp_note(i, w.controlplanes as int, w.jobs@[i].name@)
    } else {
        worker_note(i - w.controlplanes, w.jobs.len() - w.controlplanes, w.jobs@[i].name@)
    }
}

/// The walk comes to the `i`th node: before a control plane the API is waited
/// for, where there is a kubeconfig to reach it with. After the last node the
/// version of the cluster is stored.
pub open spec fn upgrade_node(w: UpgradeWalk, a: Seq<ActV>, i: int) -> (UpgradeWalk, Seq<ActV>) {
    if i >= w.jobs.len() {
        (
            UpgradeWalk { at: i as usize, phase: UpgradePhase::Over, ..w },
            a.push(ActV::StoreClusterVersion { version: w.version@ }).push(
                logged(UPGRADED@),
            ).push(ActV::Done),
        )
    } else if w.jobs@[i].control_plane && w.jobs@[i].kubeconfig {
        (
            UpgradeWalk { at: i as usize, phase: UpgradePhase::Api, ..w },
            a.push(logged(upgrade_step_note(w, i))).push(ActV::WaitAnyServer),
        )
    } else {
        (
            UpgradeWalk { at: i as usize, phase: UpgradePhase::Turn, ..w },
            a.push(logged(upgrade_step_note(w, i))).push(
                ActV::TurnTo { node: w.places@[i] as nat },
            ),
        )
    }
}

/// What is waited for after a step of a node.
pub open spec fn asked_of_node(a: Seq<ActV>) -> UpgradePhase {
    if a.len() == 0 {
        UpgradePhase::Over
    } else {
        match a.last() {
            ActV::ApplyConfig { .. } => UpgradePhase::Config,
            ActV::WaitApi => UpgradePhase::NodeApi,
            ActV::KubeletVersion => UpgradePhase::Version,
            ActV::RunAgent { .. } => UpgradePhase::Agent,
            ActV::WaitKubelet { .. } => UpgradePhase::Kubelet,
            _ => UpgradePhase::Over,
        }
    }
}

/// The walk ends with an error.
pub open spec fn upgrade_fails(w: UpgradeWalk, error: Seq<char>) -> (UpgradeWalk, Seq<ActV>) {
    (UpgradeWalk { phase: UpgradePhase::Over, ..w }, idle().push(failed(error)))
}

/// After a step of the node: the walk goes on to the next node where the step
/// ended the node well.
pub open spec fn after_node_step(w: UpgradeWalk, a: Seq<ActV>) -> (UpgradeWalk, Seq<ActV>) {
    if is_done(a) {
        upgrade_node(w, a.drop_last(), w.at + 1)
    } else {
        (UpgradeWalk { phase: asked_of_node(a), ..w }, a)
    }
}

/// What an upgrade does after an event.
pub open spec fn upgrade_step(w: UpgradeWalk, e: UpgradeEvent) -> (UpgradeWalk, Seq<ActV>) {
    let j = w.jobs@[w.at as int];
    match (w.phase, e) {
        (UpgradePhase::Ready, UpgradeEvent::Begun) => upgrade_node(w, idle(), 0),
        (UpgradePhase::Api, UpgradeEvent::ApiReady(Ok(_))) => (
            UpgradeWalk { phase: UpgradePhase::Turn, ..w },
            idle().push(ActV::TurnTo { node: w.places@[w.at as int] as nat }),
        ),
        (UpgradePhase::Api, UpgradeEvent::ApiReady(Err(m))) => upgrade_fails(w, m@),
        (UpgradePhase::Turn, UpgradeEvent::Turned(config)) => after_node_step(
            w,
            kube_started(j, w.tool, opt_text(config)),
        ),
        (UpgradePhase::Config, UpgradeEvent::Applied(got)) => after_node_step(
            w,
            kube_apply(j, got),
        ),
        (UpgradePhase::NodeApi, UpgradeEvent::ApiReady(got)) => after_node_step(w, kube_ask(got)),
        (UpgradePhase::Version, UpgradeEvent::VersionRead(running)) => after_node_step(
            w,
            kube_agent(j, opt_text(running)),
        ),
        (UpgradePhase::Agent, UpgradeEvent::AgentRan(got)) => after_node_step(
            w,
            kube_agent_over(j, got),
        ),
        (UpgradePhase::Kubelet, UpgradeEvent::KubeletWaited(got)) => after_node_step(
            w,
            kube_finish(j, got),
        ),
        _ => upgrade_fails(w, NO_ANSWER@),
    }
}

impl UpgradeWalk {
    fn note(&self, i: usize) -> (r: String)
        requires
            self.wf(),
            i < self.jobs.len(),
        ensures
            r@ == upgrade_step_note(*self, i as int),
    {
        if self.jobs[i].control_plane {
            cp_step_note(i, self.controlplanes, &self.jobs[i].name)
        } else {
            worker_step_note(
                i - self.controlplanes,
                self.jobs.len() - self.controlplanes,
                &self.jobs[i].name,
            )
        }
    }

    fn come_to(&mut self, v: &mut Vec<Act>, i: usize)
        requires
            old(self).wf(),
            i <= old(self).jobs.len(),
        ensures
            final(self).wf(),
            (*final(self), acts(final(v)@)) == upgrade_node(*old(self), acts(old(v)@), i as int),
    {
        if i >= self.jobs.len() {
            act(v, Act::StoreClusterVersion { version: lit(&self.version) });
            log(v, UPGRADED);
            act(v, Act::Done);
            self.phase = UpgradePhase::Over;
        } else {
            log(v, &self.note(i));
            if self.jobs[i].control_plane && self.jobs[i].kubeconfig {
                act(v, Act::WaitAnyServer);
                self.phase = UpgradePhase::Api;
            } else {
                act(v, Act::TurnTo { node: self.places[i] });
                self.phase = UpgradePhase::Turn;
            }
        }
        self.at = i;
    }

    fn fails(&mut self, error: &str) -> (r: Vec<Act>)
        requires
            old(self).wf(),
        ensures
            final(self).wf(),
            (*final(self), acts(r@)) == upgrade_fails(*old(self), error@),
    {
        let mut v = no_acts();
        fail(&mut v, error);
        self.phase = UpgradePhase::Over;
        v
    }

    fn stepped(&mut self, v: Vec<Act>) -> (r: Vec<Act>)
        requires
            old(self).wf(),
            old(self).at < old(self).jobs.len(),
        ensures
            final(self).wf(),
            (*final(self), acts(r@)) == after_node_step(*old(self), acts(v@)),
    {
        let mut v = v;
        let ghost a = acts(v@);
        if go_on(&mut v) {
            let next: usize = self.at + 1;
            self.come_to(&mut v, next);
        } else {
            self.phase = phase_asked(&v);
        }
        v
    }
}

fn phase_asked(v: &Vec<Act>) -> (r: UpgradePhase)
    ensures
        r == asked_of_node(acts(v@)),
        r != UpgradePhase::Ready,
{
    let n: usize = v.len();
    if n == 0 {
        return UpgradePhase::Over;
    }
    assert(acts(v@).last() == v@.last()@);
    match &v[n - 1] {
        Act::ApplyConfig { .. } => UpgradePhase::Config,
        Act::WaitApi => UpgradePhase::NodeApi,
        Act::KubeletVersion => UpgradePhase::Version,
        Act::RunAgent { .. } => UpgradePhase::Agent,
        Act::WaitKubelet { .. } => UpgradePhase::Kubelet,
        _ => UpgradePhase::Over,
    }
}

/// The next step of an upgrade of Kubernetes.
pub fn upgrade_next(w: &mut UpgradeWalk, e: UpgradeEvent) -> (r: Vec<Act>)
    requires
        old(w).wf(),
    ensures
        final(w).wf(),
        (*final(w), acts(r@)) == upgrade_step(*old(w), e),
{
    let at: usize = w.at;
    match (w.phase, e) {
        (UpgradePhase::Ready, UpgradeEvent::Begun) => {
            let mut v = no_acts();
            w.come_to(&mut v, 0);
            v
        },
        (UpgradePhase::Api, UpgradeEvent::ApiReady(got)) => match got {
            Ok(_) => {
                let mut v = no_acts();
                act(&mut v, Act::TurnTo { node: w.places[at] });
                w.phase = UpgradePhase::Turn;
                v
            },
            Err(m) => w.fails(&m),
        },
        (UpgradePhase::Turn, UpgradeEvent::Turned(config)) => {
            let v = kube_begin(&w.jobs[at], w.tool, &config);
            w.stepped(v)
        },
        (UpgradePhase::Config, UpgradeEvent::Applied(got)) => {
            let v = kube_applied(&w.jobs[at], &got);
            w.stepped(v)
        },
        (UpgradePhase::NodeApi, UpgradeEvent::ApiReady(got)) => {
            let v = kube_api_ready(&got);
            w.stepped(v)
        },
        (UpgradePhase::Version, UpgradeEvent::VersionRead(running)) => {
            let v = kube_version_read(&w.jobs[at], &running);
            w.stepped(v)
        },
        (UpgradePhase::Agent, UpgradeEvent::AgentRan(got)) => {
            let v = kube_agent_ran(&w.jobs[at], &got);
            w.stepped(v)
        },
        (UpgradePhase::Kubelet, UpgradeEvent::KubeletWaited(got)) => {
            let v = kube_kubelet_waited(&w.jobs[at], &got);
            w.stepped(v)
        },
        _ => w.fails(NO_ANSWER),
    }
}

/// The job of a node is that of its step.
pub open spec fn job_of_step(
    j: KubeNodeJob,
    place: usize,
    nodes: Seq<NodeTuple>,
    step: UpgradeStep,
    version: Seq<char>,
    kubeconfig: bool,
) -> bool {
    &&& place == step.node
    &&& j.name@ == nodes[step.node as int].1@
    &&& opt_text(j.ip) == opt_text(nodes[step.node as int].3)
    &&& j.control_plane == step.control_plane
    &&& j.drain == step.drain
    &&& j.version@ == k8s_version(version)
    &&& j.kubeconfig == kubeconfig
}

/// The walk goes over the nodes of the steps, in their order.
pub open spec fn walks_over(
    w: UpgradeWalk,
    nodes: Seq<NodeTuple>,
    steps: Seq<UpgradeStep>,
    version: Seq<char>,
    kubeconfig: bool,
) -> bool {
    &&& w.jobs.len() == steps.len()
    &&& w.places.len() == steps.len()
    &&& forall|i: int|
        0 <= i < steps.len() ==> job_of_step(
            #[trigger] w.jobs@[i],
            w.places@[i],
            nodes,
            steps[i],
            version,
            kubeconfig,
        )
}

impl UpgradeWalk {
    /// Plans an upgrade: control planes by name, then workers by name.
    pub fn plan(
        nodes: &Vec<NodeTuple>,
        controlplanes: i64,
        version: &str,
        kubeconfig: bool,
        tool: bool,
    ) -> (r: UpgradeWalk)
        ensures
            r.wf(),
            r.at == 0,
            r.phase == UpgradePhase::Ready,
            r.tool == tool,
            r.version@ == version@,
            exists|cps: Seq<usize>, wks: Seq<usize>|
                #![trigger in_order(nodes@, Pick::ControlPlanes, cps), in_order(nodes@, Pick::Workers, wks)]
                in_order(nodes@, Pick::ControlPlanes, cps) && in_order(nodes@, Pick::Workers, wks)
                    && r.controlplanes == cps.len() && walks_over(
                    r,
                    nodes@,
                    upgrade_steps(cps, wks, controlplanes as int),
                    version@,
                    kubeconfig,
                ),
    {
        let steps = plan_upgrade(nodes, controlplanes);
        let ghost (cps, wks): (Seq<usize>, Seq<usize>) = choose|cps: Seq<usize>, wks: Seq<usize>|
            #![trigger in_order(nodes@, Pick::ControlPlanes, cps), in_order(nodes@, Pick::Workers, wks)]
            in_order(nodes@, Pick::ControlPlanes, cps) && in_order(nodes@, Pick::Workers, wks)
                && steps@ == upgrade_steps(cps, wks, controlplanes as int);
        let mut jobs: Vec<KubeNodeJob> = Vec::new();
        let mut places: Vec<usize> = Vec::new();
        let mut n: usize = 0;
        let mut i: usize = 0;
        while i < steps.len()
            invariant
                i <= steps.len(),
                steps@ == upgrade_steps(cps, wks, controlplanes as int),
                in_order(nodes@, Pick::ControlPlanes, cps),
                in_order(nodes@, Pick::Workers, wks),
                n == (if i <= cps.len() {
                    i as int
                } else {
                    cps.len() as int
                }),
                jobs.len() == i,
                places.len() == i,
                forall|k: int|
                    0 <= k < i ==> job_of_step(
                        #[trigger] jobs@[k],
                        places@[k],
                        nodes@,
                        steps@[k],
                        version@,
                        kubeconfig,
                    ),
            decreases steps.len() - i,
        {
            let at: usize = steps[i].node;
            assert(steps@[i as int].control_plane <==> i < cps.len());
            assert(at < nodes.len()) by {
                if i < cps.len() {
                    assert(steps@[i as int].node == cps[i as int]);
                } else {
                    assert(steps@[i as int].node == wks[i - cps.len()]);
                }
            }
            if steps[i].control_plane {
                n += 1;
            }
            jobs.push(
                KubeNodeJob {
                    name: lit(&nodes[at].1),
                    control_plane: steps[i].control_plane,
                    ip: again(&nodes[at].3),
                    version: normalize_k8s_version(version),
                    kubeconfig,
                    drain: steps[i].drain,
                },
            );
            places.push(at);
            i += 1;
        }
        let w = UpgradeWalk {
            jobs,
            places,
            controlplanes: n,
            version: lit(version),
            tool,
            at: 0,
            phase: UpgradePhase::Ready,
        };
        proof {
            assert forall|k: int| 0 <= k < w.jobs.len() implies ((
            #[trigger] w.jobs@[k]).control_plane <==> k < w.controlplanes) by {
                assert(job_of_step(
                    w.jobs@[k],
                    w.places@[k],
                    nodes@,
                    steps@[k],
                    version@,
                    kubeconfig,
                ));
                assert(steps@[k].control_plane <==> k < cps.len());
            }
            assert(walks_over(w, nodes@, steps@, version@, kubeconfig));
        }
        w
    }
}

// ---------------------------------------------------------------------------
// What holds of every walk
// ---------------------------------------------------------------------------

/// What is counted of the actions of a walk.
pub ghost enum Milestone {
    /// The walk turns to a node.
    Turn,
    /// A node has its new version.
    Node,
    /// The version of the cluster is stored.
    Cluster,
    /// The job is done.
    End,
    /// The job has failed.
    Failure,
}

/// The action is such a milestone.
pub open spec fn is_milestone(m: Milestone, a: ActV) -> bool {
    match m {
        Milestone::Turn => a is TurnTo,
        Milestone::Node => a is StoreKubernetes || a is StoreOs,
        Milestone::Cluster => a is StoreClusterVersion,
        Milestone::End => a is Done,
        Milestone::Failure => a is Fail,
    }
}

/// How many of the actions are such a milestone.
pub open spec fn tally(s: Seq<ActV>, m: Milestone) -> nat
    decreases s.len(),
{
    if s.len() == 0 {
        0
    } else {
        tally(s.drop_last(), m) + (if is_milestone(m, s.last()) {
            1nat
        } else {
            0nat
        })
    }
}

pub broadcast proof fn lemma_tally_push(s: Seq<ActV>, a: ActV, m: Milestone)
    ensures
        #[trigger] tally(s.push(a), m) == tally(s, m) + (if is_milestone(m, a) {
            1nat
        } else {
            0nat
        }),
{
    assert(s.push(a).drop_last() =~= s);
}

pub proof fn lemma_tally_add(a: Seq<ActV>, b: Seq<ActV>, m: Milestone)
    ensures
        tally(a + b, m) == tally(a, m) + tally(b, m),
    decreases b.len(),
{
    if b.len() == 0 {
        assert(a + b =~= a);
    } else {
        lemma_tally_add(a, b.drop_last(), m);
        assert((a + b).drop_last() =~= a + b.drop_last());
        assert((a + b).last() == b.last());
    }
}

/// An upgrade after a series of events: how far it has come, and all that was
/// done.
pub open spec fn upgrade_run(w: UpgradeWalk, es: Seq<UpgradeEvent>) -> (UpgradeWalk, Seq<ActV>)
    decreases es.len(),
{
    if es.len() == 0 {
        (w, idle())
    } else {
        let (x, a) = upgrade_run(w, es.drop_last());
        let (y, b) = upgrade_step(x, es.last());
        (y, a + b)
    }
}

/// The walk has not begun.
pub open spec fn is_fresh(w: UpgradeWalk) -> bool {
    w.wf() && w.phase == UpgradePhase::Ready && w.at == 0
}

/// The actions of a step of a node: no turn, nothing of the cluster, and a
/// version of the node exactly where the step ends the node well.
spec fn is_node_step(a: Seq<ActV>) -> bool {
    &&& a.len() > 0
    &&& tally(a, Milestone::Turn) == 0
    &&& tally(a, Milestone::Cluster) == 0
    &&& tally(a, Milestone::Node) == (if is_done(a) {
        1nat
    } else {
        0nat
    })
    &&& tally(a, Milestone::End) == (if is_done(a) {
        1nat
    } else {
        0nat
    })
    &&& tally(a, Milestone::Failure) == (if is_failed(a) {
        1nat
    } else {
        0nat
    })
}

/// A step of a node ends it or asks for something.
spec fn is_asked_or_over(a: Seq<ActV>) -> bool {
    is_failed(a) || is_done(a) || asked_of_node(a) != UpgradePhase::Over
}

proof fn lemma_kube_steps(
    j: KubeNodeJob,
    tool: bool,
    config: Option<Seq<char>>,
    applied: ToolResult,
    api: Result<(), String>,
    running: Option<Seq<char>>,
)
    ensures
        is_node_step(kube_started(j, tool, config)),
        is_node_step(kube_apply(j, applied)),
        is_node_step(kube_ask(api)),
        is_node_step(kube_agent(j, running)),
        is_node_step(kube_agent_over(j, api)),
        is_node_step(kube_finish(j, api)),
        is_asked_or_over(kube_started(j, tool, config)),
        is_asked_or_over(kube_apply(j, applied)),
        is_asked_or_over(kube_ask(api)),
        is_asked_or_over(kube_agent(j, running)),
        is_asked_or_over(kube_agent_over(j, api)),
        is_asked_or_over(kube_finish(j, api)),
{
    broadcast use lemma_tally_push;

}

/// How the milestones stand to what the walk waits for.
spec fn upgrade_counts(w: UpgradeWalk, a: Seq<ActV>) -> bool {
    let turns = tally(a, Milestone::Turn);
    let ended = tally(a, Milestone::End);
    &&& w.wf()
    &&& tally(a, Milestone::Node) == w.at
    &&& tally(a, Milestone::Cluster) == ended
    &&& ended <= 1
    &&& ended == 1 ==> w.phase == UpgradePhase::Over && w.at == w.jobs.len()
    &&& w.phase != UpgradePhase::Over ==> tally(a, Milestone::Failure) == 0
    &&& w.phase == UpgradePhase::Over && tally(a, Milestone::Failure) == 0 ==> ended == 1
    &&& match w.phase {
        UpgradePhase::Ready | UpgradePhase::Api => turns == w.at,
        UpgradePhase::Over => w.at <= turns <= w.at + 1,
        _ => turns == w.at + 1,
    }
}

proof fn lemma_upgrade_node_counts(w: UpgradeWalk, a: Seq<ActV>, b: Seq<ActV>, i: int)
    requires
        w.wf(),
        0 <= i <= w.jobs.len(),
        tally(a + b, Milestone::Turn) == i,
        tally(a + b, Milestone::Node) == i,
        tally(a + b, Milestone::Cluster) == 0,
        tally(a + b, Milestone::End) == 0,
        tally(a + b, Milestone::Failure) == 0,
    ensures
        upgrade_counts(upgrade_node(w, b, i).0, a + upgrade_node(w, b, i).1),
        same_walk(w, upgrade_node(w, b, i).0),
{
    broadcast use lemma_tally_push;

    let x = upgrade_node(w, b, i).1;
    if i >= w.jobs.len() {
        assert(a + x =~= (a + b).push(ActV::StoreClusterVersion { version: w.version@ }).push(
            logged(UPGRADED@),
        ).push(ActV::Done));
    } else {
        assert(a + x =~= (a + b).push(x[x.len() - 2]).push(x[x.len() - 1]));
    }
}

/// The two walks go over the same nodes.
pub open spec fn same_walk(a: UpgradeWalk, b: UpgradeWalk) -> bool {
    a.jobs == b.jobs && a.places == b.places && a.controlplanes == b.controlplanes && a.version
        == b.version && a.tool == b.tool
}

proof fn lemma_upgrade_step_counts(w: UpgradeWalk, a: Seq<ActV>, e: UpgradeEvent)
    requires
        upgrade_counts(w, a),
    ensures
        upgrade_counts(upgrade_step(w, e).0, a + upgrade_step(w, e).1),
        same_walk(w, upgrade_step(w, e).0),
{
    broadcast use lemma_tally_push;

    let (x, b) = upgrade_step(w, e);
    let j = w.jobs@[w.at as int];
    let failing = idle().push(failed(NO_ANSWER@));
    assert(a + idle() =~= a);
    match (w.phase, e) {
        (UpgradePhase::Ready, UpgradeEvent::Begun) => {
            lemma_upgrade_node_counts(w, a, idle(), 0);
        },
        (UpgradePhase::Api, UpgradeEvent::ApiReady(_)) => {
            assert(a + b =~= a.push(b[0]));
        },
        (UpgradePhase::Turn, UpgradeEvent::Turned(config)) => {
            lemma_kube_steps(j, w.tool, opt_text(config), Err(arbitrary()), Ok(()), None);
            lemma_after_node_step(w, a, kube_started(j, w.tool, opt_text(config)));
        },
        (UpgradePhase::Config, UpgradeEvent::Applied(got)) => {
            lemma_kube_steps(j, w.tool, None, got, Ok(()), None);
            lemma_after_node_step(w, a, kube_apply(j, got));
        },
        (UpgradePhase::NodeApi, UpgradeEvent::ApiReady(got)) => {
            lemma_kube_steps(j, w.tool, None, Err(arbitrary()), got, None);
            lemma_after_node_step(w, a, kube_ask(got));
        },
        (UpgradePhase::Version, UpgradeEvent::VersionRead(running)) => {
            lemma_kube_steps(j, w.tool, None, Err(arbitrary()), Ok(()), opt_text(running));
            lemma_after_node_step(w, a, kube_agent(j, opt_text(running)));
        },
        (UpgradePhase::Agent, UpgradeEvent::AgentRan(got)) => {
            lemma_kube_steps(j, w.tool, None, Err(arbitrary()), got, None);
            lemma_after_node_step(w, a, kube_agent_over(j, got));
        },
        (UpgradePhase::Kubelet, UpgradeEvent::KubeletWaited(got)) => {
            lemma_kube_steps(j, w.tool, None, Err(arbitrary()), got, None);
            lemma_after_node_step(w, a, kube_finish(j, got));
        },
        _ => {
            assert(b == failing);
            assert(a + failing =~= a.push(failing[0]));
        },
    }
}

proof fn lemma_after_node_step(w: UpgradeWalk, a: Seq<ActV>, s: Seq<ActV>)
    requires
        upgrade_counts(w, a),
        w.phase != UpgradePhase::Ready && w.phase != UpgradePhase::Api && w.phase
            != UpgradePhase::Over,
        is_node_step(s),
        is_asked_or_over(s),
    ensures
        upgrade_counts(after_node_step(w, s).0, a + after_node_step(w, s).1),
        same_walk(w, after_node_step(w, s).0),
{
    if is_done(s) {
        let b = s.drop_last();
        lemma_tally_add(a, b, Milestone::Turn);
        lemma_tally_add(a, b, Milestone::Node);
        lemma_tally_add(a, b, Milestone::Cluster);
        lemma_tally_add(a, b, Milestone::End);
        lemma_tally_add(a, b, Milestone::Failure);
        lemma_upgrade_node_counts(w, a, b, w.at + 1);
    } else {
        lemma_tally_add(a, s, Milestone::Turn);
        lemma_tally_add(a, s, Milestone::Node);
        lemma_tally_add(a, s, Milestone::Cluster);
        lemma_tally_add(a, s, Milestone::End);
        lemma_tally_add(a, s, Milestone::Failure);
    }
}

proof fn lemma_upgrade_run(w: UpgradeWalk, es: Seq<UpgradeEvent>)
    requires
        is_fresh(w),
    ensures
        upgrade_counts(upgrade_run(w, es).0, upgrade_run(w, es).1),
        same_walk(w, upgrade_run(w, es).0),
    decreases es.len(),
{
    if es.len() > 0 {
        lemma_upgrade_run(w, es.drop_last());
        let (x, a) = upgrade_run(w, es.drop_last());
        lemma_upgrade_step_counts(x, a, es.last());
    }
}

/// Whatever happens to an upgrade, at every time: a node is begun only after all
/// nodes before it have their new version; the version of the cluster is stored
/// at most once, and only when every node has its new version; where the upgrade
/// has ended without a failure it is stored.
pub proof fn law_upgrade_goes_node_by_node(w: UpgradeWalk, es: Seq<UpgradeEvent>)
    requires
        is_fresh(w),
    ensures
        ({
            let (x, a) = upgrade_run(w, es);
            let nodes = tally(a, Milestone::Node);
            let stored = tally(a, Milestone::Cluster);
            &&& nodes <= tally(a, Milestone::Turn) <= nodes + 1
            &&& nodes <= w.jobs.len()
            &&& stored <= 1
            &&& stored == 1 ==> nodes == w.jobs.len()
            &&& x.phase == UpgradePhase::Over && tally(a, Milestone::Failure) == 0 ==> stored == 1
        }),
{
    lemma_upgrade_run(w, es);
}

/// After a failure an upgrade does nothing any more: no later node is begun and
/// no version is stored, whatever happens.
pub proof fn law_upgrade_stops_at_failure(w: UpgradeWalk, es: Seq<UpgradeEvent>, e: UpgradeEvent)
    requires
        is_fresh(w),
        tally(upgrade_run(w, es).1, Milestone::Failure) > 0,
    ensures
        ({
            let (x, a) = upgrade_run(w, es);
            x.phase == UpgradePhase::Over && upgrade_step(x, e) == (
                x,
                idle().push(failed(NO_ANSWER@)),
            )
        }),
{
    lemma_upgrade_run(w, es);
}

} // verus!
