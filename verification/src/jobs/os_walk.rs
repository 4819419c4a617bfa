//! Upgrades of operating systems, from node to node: workers first, then control
//! planes, each only after the one before it is back.
use crate::jobs::action::{
    Act, ActV, act, acts, add_acts, fail, failed, go_on, has_failed, idle, is_done, is_failed, log,
    logged, no_acts,
};
use crate::jobs::node_upgrade::{
    MARK_ATTEMPTS, OsNodeJob, ToolResult, job_address, os_after, os_api_back, os_api_ready, os_back,
    os_begin, os_finish, os_mark, os_marked, os_rebooted, os_stage, os_staged, os_started, os_state,
    os_status_read, os_upgrade, os_upgraded,
};
use crate::jobs::rounds::{
    OS_UPGRADED, api_server_note, etcd_recovered, os_note, os_step_note, recover_end,
    recover_etcd_on_cp1, recover_start, server_note,
};
use crate::jobs::upgrade::{
    NodeTuple, Pick, first_cp1, is_cp1, none_wanted, opt_texts, plan_os_upgrade, wanted_in_order,
};
use crate::jobs::walk::{Milestone, NO_ANSWER, lemma_tally_add, tally};
use crate::json::text_or;
use crate::text::{again, lit, opt_text, str_eq};
use vstd::prelude::*;
use vstd::string::*;

verus! {

/// What an upgrade of operating systems waits for.
#[derive(Debug, Clone, Copy, PartialEq, Eq, Structural)]
pub enum OsPhase {
    /// It has not begun.
    Ready,
    /// The API, before the first node.
    Api,
    /// The recovery of the store.
    Recovery,
    /// The API, after the recovery.
    ApiAgain,
    /// The API, for the node.
    NodeApi,
    /// The bundle on the node.
    Staging,
    /// The machine tool, which upgrades the node.
    Upgrading,
    /// The reboot of the node.
    Rebooting,
    /// The mark on the new slot.
    Marking,
    /// The state of the upgrade.
    Status,
    /// The API, after the node was upgraded.
    ApiBack,
    /// It has ended.
    Over,
}

/// What happens to an upgrade of operating systems.
#[derive(Debug, PartialEq, Eq)]
pub enum OsEvent {
    Begun,
    /// A server answered, or none did.
    ApiReady(Result<Option<String>, String>),
    Staged(Result<(), String>),
    /// The machine tool has run.
    Tool(ToolResult),
    /// The machine is back at an address.
    Rebooted(Result<String, String>),
    /// The state of the upgrade was asked for; the version is the one in it.
    Status(ToolResult, Option<String>),
}

/// An upgrade of operating systems: the nodes in the order in which they are
/// upgraded, and how far it has come.
#[derive(Debug, PartialEq, Eq)]
pub struct OsWalk {
    pub jobs: Vec<OsNodeJob>,
    /// The places of the nodes in the list that the walk was made of.
    pub places: Vec<usize>,
    /// How many of the nodes are workers.
    pub workers: usize,
    /// The control planes of the cluster, on one of which the store can be
    /// recovered.
    pub cps: Vec<NodeTuple>,
    /// The machine tool is there.
    pub tool: bool,
    /// How many nodes are done.
    pub at: usize,
    pub phase: OsPhase,
    /// Which try to mark the slot is waited for.
    pub attempt: usize,
    /// The server that answered for the node.
    pub server: Option<String>,
    /// Where the node is now.
    pub ip: String,
    /// The version that the state of the upgrade gave.
    pub running: Option<String>,
}

/// How far an upgrade has come.
#[verifier::ext_equal]
pub ghost struct OsState {
    pub at: int,
    pub phase: OsPhase,
    pub attempt: int,
    pub server: Option<Seq<char>>,
    pub ip: Seq<char>,
    pub running: Option<Seq<char>>,
}

impl OsWalk {
    pub open spec fn state(self) -> OsState {
        OsState {
            at: self.at as int,
            phase: self.phase,
            attempt: self.attempt as int,
            server: opt_text(self.server),
            ip: self.ip@,
            running: opt_text(self.running),
        }
    }

    /// The two go over the same nodes.
    pub open spec fn same_walk(self, o: OsWalk) -> bool {
        self.jobs == o.jobs && self.places == o.places && self.workers == o.workers && self.cps
            == o.cps && self.tool == o.tool
    }

    /// The walk holds together.
    pub open spec fn wf(self) -> bool {
        &&& self.jobs.len() == self.places.len()
        &&& self.workers <= self.jobs.len()
        &&& os_state_wf(self, self.state())
    }
}

/// The walk is at one of its nodes, or before the first, or has ended; a slot is
/// marked within the tries that it has.
pub open spec fn os_state_wf(p: OsWalk, s: OsState) -> bool {
    &&& 0 <= s.at <= p.jobs.len()
    &&& (match s.phase {
        OsPhase::Ready | OsPhase::Api | OsPhase::Recovery | OsPhase::ApiAgain => s.at == 0,
        OsPhase::Over => true,
        _ => s.at < p.jobs.len(),
    })
    &&& s.phase == OsPhase::Marking ==> 1 <= s.attempt <= MARK_ATTEMPTS
}

/// What the log says before the `i`th node.
pub open spec fn os_walk_note(p: OsWalk, i: int) -> Seq<char> {
    let j = p.jobs@[i];
    if i < p.workers {
        os_note(false, i, p.workers as int, j.name@, j.version@)
    } else {
        os_note(true, i - p.workers, p.jobs.len() - p.workers, j.name@, j.version@)
    }
}

/// The walk ends with what is to be done.
pub open spec fn os_over(s: OsState, a: Seq<ActV>) -> (OsState, Seq<ActV>) {
    (OsState { phase: OsPhase::Over, ..s }, a)
}

/// The walk goes on to what is waited for, unless the step has failed.
pub open spec fn os_goes_to(s: OsState, phase: OsPhase, a: Seq<ActV>) -> (OsState, Seq<ActV>) {
    if is_failed(a) {
        os_over(s, a)
    } else {
        (OsState { phase, ..s }, a)
    }
}

/// The walk comes to the `i`th node, or to its end.
pub open spec fn os_node(p: OsWalk, s: OsState, a: Seq<ActV>, i: int) -> (OsState, Seq<ActV>) {
    if i >= p.jobs.len() {
        os_over(OsState { at: i, ..s }, a.push(logged(OS_UPGRADED@)).push(ActV::Done))
    } else {
        os_goes_to(
            OsState { at: i, ..s },
            OsPhase::NodeApi,
            a.push(logged(os_walk_note(p, i))).push(ActV::TurnTo { node: p.places@[i] as nat })
                + os_started(p.jobs@[i], p.tool),
        )
    }
}

/// The first node, once a server has answered.
pub open spec fn os_first_node(p: OsWalk, s: OsState, server: Option<Seq<char>>) -> (
    OsState,
    Seq<ActV>,
) {
    match server_note(server) {
        Some(note) => os_node(p, s, idle().push(logged(note)), 0),
        None => os_node(p, s, idle(), 0),
    }
}

/// The slot is not to be tried again.
pub open spec fn marking_over(attempt: int, got: ToolResult) -> bool {
    (got is Ok && got->Ok_0.success) || attempt >= MARK_ATTEMPTS
}

/// What an upgrade does after an event.
pub open spec fn os_step(p: OsWalk, s: OsState, e: OsEvent) -> (OsState, Seq<ActV>) {
    let j = p.jobs@[s.at];
    match (s.phase, e) {
        (OsPhase::Ready, OsEvent::Begun) => (
            OsState { phase: OsPhase::Api, ..s },
            idle().push(ActV::WaitApi),
        ),
        (OsPhase::Api, OsEvent::ApiReady(Ok(server))) => os_first_node(p, s, opt_text(server)),
        (OsPhase::Api, OsEvent::ApiReady(Err(m))) => os_goes_to(
            s,
            OsPhase::Recovery,
            idle().push(logged(m@ + "\n"@)) + recover_start(p.cps@),
        ),
        (OsPhase::Recovery, OsEvent::Tool(got)) => os_goes_to(
            s,
            OsPhase::ApiAgain,
            recover_end(recovered_name(p.cps@), got),
        ),
        (OsPhase::ApiAgain, OsEvent::ApiReady(Ok(server))) => os_first_node(
            p,
            s,
            opt_text(server),
        ),
        (OsPhase::ApiAgain, OsEvent::ApiReady(Err(m))) => os_over(s, idle().push(failed(m@))),
        (OsPhase::NodeApi, OsEvent::ApiReady(got)) => os_goes_to(
            match got {
                Ok(server) => OsState { server: opt_text(server), ..s },
                Err(_) => s,
            },
            OsPhase::Staging,
            os_stage(j, got),
        ),
        (OsPhase::Staging, OsEvent::Staged(got)) => os_goes_to(
            s,
            OsPhase::Upgrading,
            os_upgrade(j, s.server, got),
        ),
        (OsPhase::Upgrading, OsEvent::Tool(got)) => os_goes_to(
            OsState { attempt: 1, ip: text_or(opt_text(j.ip), ""@), ..s },
            if j.reboot {
                OsPhase::Rebooting
            } else {
                OsPhase::Marking
            },
            os_after(j, got),
        ),
        (OsPhase::Rebooting, OsEvent::Rebooted(got)) => os_goes_to(
            match got {
                Ok(ip) => OsState { attempt: 1, ip: ip@, ..s },
                Err(_) => s,
            },
            OsPhase::Marking,
            os_back(got),
        ),
        (OsPhase::Marking, OsEvent::Tool(got)) => (
            if marking_over(s.attempt, got) {
                OsState { phase: OsPhase::Status, ..s }
            } else {
                OsState { attempt: s.attempt + 1, ..s }
            },
            os_mark(s.ip, s.attempt as usize, got),
        ),
        (OsPhase::Status, OsEvent::Status(got, running)) => (
            OsState { phase: OsPhase::ApiBack, running: opt_text(running), ..s },
            os_state(got),
        ),
        (OsPhase::ApiBack, OsEvent::ApiReady(got)) => {
            let a = os_finish(j, s.running, got);
            if is_done(a) {
                os_node(p, s, a.drop_last(), s.at + 1)
            } else {
                os_over(s, a)
            }
        },
        _ => os_over(s, idle().push(failed(NO_ANSWER@))),
    }
}

/// The name of the node on which the store is recovered.
pub open spec fn recovered_name(cps: Seq<NodeTuple>) -> Seq<char> {
    let k = first_cp1(cps, 0);
    if k < cps.len() {
        cps[k].1@
    } else {
        ""@
    }
}

fn name_recovered(cps: &Vec<NodeTuple>) -> (r: String)
    ensures
        r@ == recovered_name(cps@),
{
    let mut i: usize = 0;
    while i < cps.len() && !is_cp1(&cps[i].1)
        invariant
            i <= cps.len(),
            first_cp1(cps@, 0) == first_cp1(cps@, i as int),
        decreases cps.len() - i,
    {
        i += 1;
    }
    if i < cps.len() {
        lit(&cps[i].1)
    } else {
        lit("")
    }
}

impl OsWalk {
    fn note(&self, i: usize) -> (r: String)
        requires
            self.wf(),
            i < self.jobs.len(),
        ensures
            r@ == os_walk_note(*self, i as int),
    {
        let name = &self.jobs[i].name;
        let version = &self.jobs[i].version;
        if i < self.workers {
            os_step_note(false, i, self.workers, name, version)
        } else {
            os_step_note(true, i - self.workers, self.jobs.len() - self.workers, name, version)
        }
    }

    fn goes_to(&mut self, phase: OsPhase, v: &Vec<Act>)
        ensures
            final(self).same_walk(*old(self)),
            (final(self).state(), acts(v@)) == os_goes_to(old(self).state(), phase, acts(v@)),
    {
        if has_failed(v) {
            self.phase = OsPhase::Over;
        } else {
            self.phase = phase;
        }
    }

    fn come_to(&mut self, v: Vec<Act>, i: usize) -> (r: Vec<Act>)
        requires
            old(self).wf(),
            i <= old(self).jobs.len(),
        ensures
            final(self).same_walk(*old(self)),
            (final(self).state(), acts(r@)) == os_node(
                *old(self),
                old(self).state(),
                acts(v@),
                i as int,
            ),
    {
        let mut v = v;
        if i >= self.jobs.len() {
            log(&mut v, OS_UPGRADED);
            act(&mut v, Act::Done);
            self.at = i;
            self.phase = OsPhase::Over;
            v
        } else {
            log(&mut v, &self.note(i));
            act(&mut v, Act::TurnTo { node: self.places[i] });
            let more = os_begin(&self.jobs[i], self.tool);
            add_acts(&mut v, more);
            self.at = i;
            self.goes_to(OsPhase::NodeApi, &v);
            v
        }
    }

    fn first_node(&mut self, server: &Option<String>) -> (r: Vec<Act>)
        requires
            old(self).wf(),
        ensures
            final(self).same_walk(*old(self)),
            (final(self).state(), acts(r@)) == os_first_node(
                *old(self),
                old(self).state(),
                opt_text(*server),
            ),
    {
        let mut v = no_acts();
        match api_server_note(server) {
            Some(note) => log(&mut v, &note),
            None => {},
        }
        self.come_to(v, 0)
    }

    fn fails(&mut self, error: &str) -> (r: Vec<Act>)
        ensures
            final(self).same_walk(*old(self)),
            (final(self).state(), acts(r@)) == os_over(
                old(self).state(),
                idle().push(failed(error@)),
            ),
    {
        let mut v = no_acts();
        fail(&mut v, error);
        self.phase = OsPhase::Over;
        v
    }
}

/// The next step of an upgrade of operating systems.
pub fn os_next(w: &mut OsWalk, e: OsEvent) -> (r: Vec<Act>)
    requires
        old(w).wf(),
    ensures
        final(w).wf(),
        final(w).same_walk(*old(w)),
        (final(w).state(), acts(r@)) == os_step(*old(w), old(w).state(), e),
{
    let at: usize = w.at;
    match (w.phase, e) {
        (OsPhase::Ready, OsEvent::Begun) => {
            let mut v = no_acts();
            act(&mut v, Act::WaitApi);
            w.phase = OsPhase::Api;
            v
        },
        (OsPhase::Api, OsEvent::ApiReady(got)) => match got {
            Ok(server) => w.first_node(&server),
            Err(m) => {
                let mut v = no_acts();
                log(&mut v, &lit(&m).concat("\n"));
                let more = recover_etcd_on_cp1(&w.cps);
                add_acts(&mut v, more);
                w.goes_to(OsPhase::Recovery, &v);
                v
            },
        },
        (OsPhase::Recovery, OsEvent::Tool(got)) => {
            let v = etcd_recovered(&name_recovered(&w.cps), &got);
            w.goes_to(OsPhase::ApiAgain, &v);
            v
        },
        (OsPhase::ApiAgain, OsEvent::ApiReady(got)) => match got {
            Ok(server) => w.first_node(&server),
            Err(m) => w.fails(&m),
        },
        (OsPhase::NodeApi, OsEvent::ApiReady(got)) => {
            let v = os_api_ready(&w.jobs[at], &got);
            match got {
                Ok(server) => {
                    w.server = server;
                },
                Err(_) => {},
            }
            w.goes_to(OsPhase::Staging, &v);
            v
        },
        (OsPhase::Staging, OsEvent::Staged(got)) => {
            let v = os_staged(&w.jobs[at], &w.server, &got);
            w.goes_to(OsPhase::Upgrading, &v);
            v
        },
        (OsPhase::Upgrading, OsEvent::Tool(got)) => {
            let v = os_upgraded(&w.jobs[at], &got);
            w.attempt = 1;
            w.ip = job_address(&w.jobs[at]);
            let phase = if w.jobs[at].reboot {
                OsPhase::Rebooting
            } else {
                OsPhase::Marking
            };
            w.goes_to(phase, &v);
            v
        },
        (OsPhase::Rebooting, OsEvent::Rebooted(got)) => {
            let v = os_rebooted(&got);
            match got {
                Ok(ip) => {
                    w.attempt = 1;
                    w.ip = ip;
                },
                Err(_) => {},
            }
            w.goes_to(OsPhase::Marking, &v);
            v
        },
        (OsPhase::Marking, OsEvent::Tool(got)) => {
            let v = os_marked(&w.ip, w.attempt, &got);
            let good = match &got {
                Ok(out) => out.success,
                Err(_) => false,
            };
            if good || w.attempt >= MARK_ATTEMPTS {
                w.phase = OsPhase::Status;
            } else {
                w.attempt += 1;
            }
            v
        },
        (OsPhase::Status, OsEvent::Status(got, running)) => {
            let v = os_status_read(&got);
            w.running = running;
            w.phase = OsPhase::ApiBack;
            v
        },
        (OsPhase::ApiBack, OsEvent::ApiReady(got)) => {
            let mut v = os_api_back(&w.jobs[at], &w.running, &got);
            if go_on(&mut v) {
                w.come_to(v, at + 1)
            } else {
                w.phase = OsPhase::Over;
                v
            }
        },
        _ => w.fails(NO_ANSWER),
    }
}

/// The texts of a node.
pub open spec fn node_texts(n: NodeTuple) -> (Seq<char>, Seq<char>, Seq<char>, Option<Seq<char>>) {
    (n.0@, n.1@, n.2@, opt_text(n.3))
}

/// The control planes among the first `n` nodes, in their order.
pub open spec fn cp_texts(nodes: Seq<NodeTuple>, n: int) -> Seq<
    (Seq<char>, Seq<char>, Seq<char>, Option<Seq<char>>),
>
    decreases n,
{
    if 0 < n <= nodes.len() {
        let v = cp_texts(nodes, n - 1);
        if nodes[n - 1].2@ == "controlplane"@ {
            v.push(node_texts(nodes[n - 1]))
        } else {
            v
        }
    } else {
        Seq::empty()
    }
}

/// The texts of nodes.
pub open spec fn nodes_texts(v: Seq<NodeTuple>) -> Seq<
    (Seq<char>, Seq<char>, Seq<char>, Option<Seq<char>>),
> {
    Seq::new(v.len(), |i: int| node_texts(v[i]))
}

/// The control planes among nodes.
pub fn control_planes(nodes: &Vec<NodeTuple>) -> (r: Vec<NodeTuple>)
    ensures
        nodes_texts(r@) == cp_texts(nodes@, nodes@.len() as int),
{
    let mut v: Vec<NodeTuple> = Vec::new();
    assert(nodes_texts(v@) =~= Seq::empty());
    let mut i: usize = 0;
    while i < nodes.len()
        invariant
            i <= nodes.len(),
            nodes_texts(v@) == cp_texts(nodes@, i as int),
        decreases nodes.len() - i,
    {
        let n = &nodes[i];
        if str_eq(&n.2, "controlplane") {
            let ghost before = v@;
            v.push((lit(&n.0), lit(&n.1), lit(&n.2), again(&n.3)));
            assert(nodes_texts(v@) =~= nodes_texts(before).push(node_texts(nodes@[i as int])));
        }
        i += 1;
    }
    v
}

/// What is the same for every node of an upgrade of operating systems.
#[derive(Debug, PartialEq, Eq)]
pub struct OsBundle {
    /// Where the bundle is on a node.
    pub host_dir: String,
    pub version: String,
    pub reboot: bool,
    /// Where the machine tool is.
    pub tool: String,
}

/// The job of a node: every node is drained.
pub open spec fn is_os_job(j: OsNodeJob, n: NodeTuple, b: OsBundle) -> bool {
    &&& j.name@ == n.1@
    &&& opt_text(j.ip) == opt_text(n.3)
    &&& j.tool@ == b.tool@
    &&& j.host_bundle@ == b.host_dir@
    &&& j.version@ == b.version@
    &&& j.reboot == b.reboot
    &&& j.drain
}

/// The walk goes over the nodes at the places.
pub open spec fn os_walks_over(
    w: OsWalk,
    nodes: Seq<NodeTuple>,
    places: Seq<usize>,
    b: OsBundle,
) -> bool {
    &&& w.places@ == places
    &&& w.jobs.len() == places.len()
    &&& forall|i: int|
        0 <= i < places.len() ==> is_os_job(#[trigger] w.jobs@[i], nodes[places[i] as int], b)
}

fn add_jobs(
    jobs: &mut Vec<OsNodeJob>,
    places: &mut Vec<usize>,
    nodes: &Vec<NodeTuple>,
    from: &Vec<usize>,
    b: &OsBundle,
)
    requires
        old(jobs).len() == old(places).len(),
        forall|i: int| 0 <= i < from.len() ==> (#[trigger] from@[i]) < nodes.len(),
        forall|i: int|
            0 <= i < old(jobs).len() ==> is_os_job(
                #[trigger] old(jobs)@[i],
                nodes@[old(places)@[i] as int],
                *b,
            ),
    ensures
        final(places)@ == old(places)@ + from@,
        final(jobs).len() == final(places).len(),
        forall|i: int|
            0 <= i < final(jobs).len() ==> is_os_job(
                #[trigger] final(jobs)@[i],
                nodes@[final(places)@[i] as int],
                *b,
            ),
{
    let ghost before = places@;
    let mut i: usize = 0;
    assert(before + from@.take(0) =~= before);
    while i < from.len()
        invariant
            i <= from.len(),
            forall|i: int| 0 <= i < from.len() ==> (#[trigger] from@[i]) < nodes.len(),
            places@ == before + from@.take(i as int),
            jobs.len() == places.len(),
            forall|k: int|
                0 <= k < jobs.len() ==> is_os_job(
                    #[trigger] jobs@[k],
                    nodes@[places@[k] as int],
                    *b,
                ),
        decreases from.len() - i,
    {
        let at: usize = from[i];
        jobs.push(
            OsNodeJob {
                name: lit(&nodes[at].1),
                ip: again(&nodes[at].3),
                tool: lit(&b.tool),
                host_bundle: lit(&b.host_dir),
                version: lit(&b.version),
                reboot: b.reboot,
                drain: true,
            },
        );
        places.push(at);
        i += 1;
        assert(places@ =~= before + from@.take(i as int));
    }
    assert(from@.take(i as int) =~= from@);
}

impl OsWalk {
    /// Plans an upgrade of the nodes that were asked for: workers by name, then
    /// control planes by name. It is refused where none of the nodes is there.
    pub fn plan(
        nodes: &Vec<NodeTuple>,
        ids: &Option<Vec<String>>,
        b: &OsBundle,
        tool: bool,
    ) -> (r: Result<OsWalk, String>)
        ensures
            match r {
                Ok(w) => {
                    &&& w.wf()
                    &&& w.at == 0
                    &&& w.phase == OsPhase::Ready
                    &&& w.tool == tool
                    &&& nodes_texts(w.cps@) == cp_texts(nodes@, nodes@.len() as int)
                    &&& !(ids is Some && none_wanted(nodes@, opt_texts(*ids)))
                    &&& exists|workers: Seq<usize>, cps: Seq<usize>|
                        #![trigger wanted_in_order(nodes@, Pick::Others, opt_texts(*ids), workers), wanted_in_order(nodes@, Pick::ControlPlanes, opt_texts(*ids), cps)]
                        wanted_in_order(nodes@, Pick::Others, opt_texts(*ids), workers)
                            && wanted_in_order(nodes@, Pick::ControlPlanes, opt_texts(*ids), cps)
                            && w.workers == workers.len() && os_walks_over(
                            w,
                            nodes@,
                            workers + cps,
                            *b,
                        )
                },
                Err(e) => ids is Some && none_wanted(nodes@, opt_texts(*ids)) && e@
                    == "no matching nodes for node_ids filter"@,
            },
    {
        let plan = match plan_os_upgrade(nodes, ids) {
            Ok(p) => p,
            Err(e) => {
                return Err(e);
            },
        };
        let mut jobs: Vec<OsNodeJob> = Vec::new();
        let mut places: Vec<usize> = Vec::new();
        add_jobs(&mut jobs, &mut places, nodes, &plan.workers, b);
        let n: usize = places.len();
        add_jobs(&mut jobs, &mut places, nodes, &plan.control_planes, b);
        let w = OsWalk {
            jobs,
            places,
            workers: n,
            cps: control_planes(nodes),
            tool,
            at: 0,
            phase: OsPhase::Ready,
            attempt: 0,
            server: None,
            ip: String::new(),
            running: None,
        };
        proof {
            assert(w.places@ =~= plan.workers@ + plan.control_planes@);
            assert(os_walks_over(w, nodes@, plan.workers@ + plan.control_planes@, *b));
        }
        Ok(w)
    }
}

// ---------------------------------------------------------------------------
// What holds of every walk
// ---------------------------------------------------------------------------

/// An upgrade after a series of events: how far it has come, and all that was
/// done.
pub open spec fn os_run(w: OsWalk, es: Seq<OsEvent>) -> (OsState, Seq<ActV>)
    decreases es.len(),
{
    if es.len() == 0 {
        (w.state(), idle())
    } else {
        let (x, a) = os_run(w, es.drop_last());
        let (y, b) = os_step(w, x, es.last());
        (y, a + b)
    }
}

/// How the milestones stand to what the walk waits for.
spec fn os_counts(p: OsWalk, s: OsState, a: Seq<ActV>) -> bool {
    let turns = tally(a, Milestone::Turn);
    let ended = tally(a, Milestone::End);
    &&& os_state_wf(p, s)
    &&& tally(a, Milestone::Node) == s.at
    &&& ended <= 1
    &&& ended == 1 ==> s.phase == OsPhase::Over && s.at == p.jobs.len()
    &&& s.phase != OsPhase::Over ==> tally(a, Milestone::Failure) == 0
    &&& s.phase == OsPhase::Over && tally(a, Milestone::Failure) == 0 ==> ended == 1
    &&& match s.phase {
        OsPhase::Ready | OsPhase::Api | OsPhase::Recovery | OsPhase::ApiAgain => turns == 0,
        OsPhase::Over => s.at <= turns <= s.at + 1,
        _ => turns == s.at + 1,
    }
}

/// The actions of a step within a node, or before the first: no turn, no version
/// and no end, and a failure at most as the last.
spec fn is_inner_step(a: Seq<ActV>) -> bool {
    &&& tally(a, Milestone::Turn) == 0
    &&& tally(a, Milestone::Node) == 0
    &&& tally(a, Milestone::End) == 0
    &&& tally(a, Milestone::Failure) == (if is_failed(a) {
        1nat
    } else {
        0nat
    })
}

proof fn lemma_tally_all(a: Seq<ActV>, b: Seq<ActV>)
    ensures
        forall|m: Milestone| #[trigger] tally(a + b, m) == tally(a, m) + tally(b, m),
{
    assert forall|m: Milestone| #[trigger] tally(a + b, m) == tally(a, m) + tally(b, m) by {
        lemma_tally_add(a, b, m);
    }
}

proof fn lemma_os_node_counts(p: OsWalk, s: OsState, a: Seq<ActV>, b: Seq<ActV>, i: int)
    requires
        0 <= i <= p.jobs.len(),
        tally(a + b, Milestone::Turn) == i,
        tally(a + b, Milestone::Node) == i,
        tally(a + b, Milestone::End) == 0,
        tally(a + b, Milestone::Failure) == 0,
    ensures
        os_counts(p, os_node(p, s, b, i).0, a + os_node(p, s, b, i).1),
{
    broadcast use crate::jobs::walk::lemma_tally_push;

    let x = os_node(p, s, b, i).1;
    if i >= p.jobs.len() {
        assert(a + x =~= (a + b).push(logged(OS_UPGRADED@)).push(ActV::Done));
    } else {
        let d = os_started(p.jobs@[i], p.tool);
        assert(a + x =~= (a + b).push(logged(os_walk_note(p, i))).push(
            ActV::TurnTo { node: p.places@[i] as nat },
        ) + d);
        lemma_tally_all(
            (a + b).push(logged(os_walk_note(p, i))).push(
                ActV::TurnTo { node: p.places@[i] as nat },
            ),
            d,
        );
        assert(x.last() == d.last());
    }
}

proof fn lemma_os_first_node_counts(p: OsWalk, s: OsState, a: Seq<ActV>, server: Option<Seq<char>>)
    requires
        os_counts(p, s, a),
        s.phase == OsPhase::Api || s.phase == OsPhase::ApiAgain,
    ensures
        os_counts(p, os_first_node(p, s, server).0, a + os_first_node(p, s, server).1),
{
    broadcast use crate::jobs::walk::lemma_tally_push;

    match server_note(server) {
        Some(note) => {
            let b = idle().push(logged(note));
            assert(a + b =~= a.push(logged(note)));
            lemma_os_node_counts(p, s, a, b, 0);
        },
        None => {
            assert(a + idle() =~= a);
            lemma_os_node_counts(p, s, a, idle(), 0);
        },
    }
}

proof fn lemma_os_step_counts(p: OsWalk, s: OsState, a: Seq<ActV>, e: OsEvent)
    requires
        os_counts(p, s, a),
    ensures
        os_counts(p, os_step(p, s, e).0, a + os_step(p, s, e).1),
{
    broadcast use crate::jobs::walk::lemma_tally_push;

    let (x, b) = os_step(p, s, e);
    let j = p.jobs@[s.at];
    lemma_tally_all(a, b);
    match (s.phase, e) {
        (OsPhase::Api, OsEvent::ApiReady(Ok(server))) => {
            lemma_os_first_node_counts(p, s, a, opt_text(server));
        },
        (OsPhase::Api, OsEvent::ApiReady(Err(m))) => {
            lemma_tally_all(idle().push(logged(m@ + "\n"@)), recover_start(p.cps@));
            assert(b.last() == recover_start(p.cps@).last());
            assert(is_inner_step(b));
        },
        (OsPhase::ApiAgain, OsEvent::ApiReady(Ok(server))) => {
            lemma_os_first_node_counts(p, s, a, opt_text(server));
        },
        (OsPhase::ApiBack, OsEvent::ApiReady(got)) => {
            let f = os_finish(j, s.running, got);
            if is_done(f) {
                assert(tally(f, Milestone::Node) == 1);
                assert(tally(f, Milestone::End) == 1);
                assert(tally(f, Milestone::Turn) == 0);
                assert(tally(f, Milestone::Failure) == 0);
                lemma_tally_all(a, f.drop_last());
                lemma_os_node_counts(p, s, a, f.drop_last(), s.at + 1);
            }
        },
        _ => {
            assert(is_inner_step(b));
        },
    }
}

proof fn lemma_os_run(w: OsWalk, es: Seq<OsEvent>)
    requires
        is_fresh_os(w),
    ensures
        os_counts(w, os_run(w, es).0, os_run(w, es).1),
    decreases es.len(),
{
    if es.len() > 0 {
        lemma_os_run(w, es.drop_last());
        let (x, a) = os_run(w, es.drop_last());
        lemma_os_step_counts(w, x, a, es.last());
    }
}

/// The walk has not begun.
pub open spec fn is_fresh_os(w: OsWalk) -> bool {
    w.wf() && w.phase == OsPhase::Ready && w.at == 0
}

/// Whatever happens to an upgrade of operating systems, at every time: a node is
/// begun only after all nodes before it are back with their version, and the
/// upgrade ends well only when every node is.
pub proof fn law_os_upgrade_goes_node_by_node(w: OsWalk, es: Seq<OsEvent>)
    requires
        is_fresh_os(w),
    ensures
        ({
            let (x, a) = os_run(w, es);
            let nodes = tally(a, Milestone::Node);
            let ended = tally(a, Milestone::End);
            &&& nodes <= tally(a, Milestone::Turn) <= nodes + 1
            &&& nodes <= w.jobs.len()
            &&& ended <= 1
            &&& ended == 1 ==> nodes == w.jobs.len()
            &&& x.phase == OsPhase::Over && tally(a, Milestone::Failure) == 0 ==> ended == 1
        }),
{
    lemma_os_run(w, es);
}

/// After a failure an upgrade of operating systems does nothing any more.
pub proof fn law_os_upgrade_stops_at_failure(w: OsWalk, es: Seq<OsEvent>, e: OsEvent)
    requires
        is_fresh_os(w),
        tally(os_run(w, es).1, Milestone::Failure) > 0,
    ensures
        ({
            let (x, a) = os_run(w, es);
            x.phase == OsPhase::Over && os_step(w, x, e) == (
                x,
                idle().push(failed(NO_ANSWER@)),
            )
        }),
{
    lemma_os_run(w, es);
}

/// The store is recovered by force only where no server answered at the start,
/// and nothing of the kind is done once a node was begun.
pub proof fn law_store_is_recovered_only_at_the_start(w: OsWalk, es: Seq<OsEvent>, e: OsEvent)
    requires
        is_fresh_os(w),
        os_step(w, os_run(w, es).0, e).0.phase == OsPhase::Recovery,
    ensures
        os_run(w, es).0.phase == OsPhase::Api,
        e matches OsEvent::ApiReady(got) && got is Err,
        tally(os_run(w, es).1, Milestone::Turn) == 0,
{
    lemma_os_run(w, es);
}

} // verus!
