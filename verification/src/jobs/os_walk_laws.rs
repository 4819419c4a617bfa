//! What holds of the actions of an upgrade of operating systems, read in the order
//! in which they are done.
use crate::jobs::action::{ActV, idle, is_done, logged};
use crate::jobs::node_upgrade::{
    OsNodeJob, drain_args, os_after, os_finish, os_started, os_upgrade, ready_args,
};
use crate::jobs::os_walk::{
    OsEvent, OsPhase, OsState, OsWalk, is_fresh_os, os_first_node, os_node, os_run, os_state_wf,
    os_step, os_walk_note,
};
use crate::jobs::rounds::{recover_args, recover_start, server_note};
use crate::jobs::upgrade::{first_cp1, law_reboot_only_where_asked, os_upgrade_args};
use crate::jobs::walk_laws::{awaits, drains, readmits, verb_of};
use crate::json::text_or;
use crate::k8s::kubectl::CommandOutput;
use crate::text::{opt_text, trim};
use vstd::prelude::*;
use vstd::string::*;

verus! {

/// The command in a call of the machine tool.
pub open spec fn command_of(args: Seq<Seq<char>>) -> Seq<char> {
    if args.len() > 2 {
        args[2]
    } else {
        Seq::empty()
    }
}

/// What the actions so far tell a reader.
#[verifier::ext_equal]
pub ghost struct OsSeen {
    /// How many nodes were begun.
    pub turns: nat,
    /// How many nodes have their new version.
    pub stored: nat,
    /// The node is marked as being upgraded.
    pub marked: bool,
    /// The bundle is on the node.
    pub staged: bool,
    /// The node whose workloads are away.
    pub away: Option<Seq<char>>,
    /// The workloads of the node were moved away.
    pub moved: bool,
    /// The machine tool was called to upgrade the node.
    pub upgraded: bool,
    /// The call told the machine to reboot.
    pub rebooting: bool,
    /// The reboot was waited for.
    pub rebooted: bool,
    /// How often the new slot was to be marked as good.
    pub marks: nat,
    /// The state of the upgrade was asked for.
    pub status: bool,
    /// The node was waited for.
    pub ready: bool,
    /// The store was recovered by force.
    pub recovered: bool,
}

/// Nothing was done yet.
pub open spec fn nothing_seen_os() -> OsSeen {
    OsSeen {
        turns: 0,
        stored: 0,
        marked: false,
        staged: false,
        away: None,
        moved: false,
        upgraded: false,
        rebooting: false,
        rebooted: false,
        marks: 0,
        status: false,
        ready: false,
        recovered: false,
    }
}

/// What a reader knows after one more action.
pub open spec fn os_seen_next(t: OsSeen, x: ActV) -> OsSeen {
    match x {
        ActV::TurnTo { .. } => OsSeen {
            turns: t.turns + 1,
            stored: t.stored,
            away: t.away,
            recovered: t.recovered,
            ..nothing_seen_os()
        },
        ActV::NodeUpgrading => OsSeen { marked: true, ..t },
        ActV::StageBundle { .. } => OsSeen { staged: true, ..t },
        ActV::Kubectl { args, .. } => if verb_of(args) == "drain"@ {
            OsSeen { away: Some(args[1]), moved: true, ..t }
        } else if verb_of(args) == "uncordon"@ {
            OsSeen { away: None, ..t }
        } else {
            OsSeen { ready: true, ..t }
        },
        ActV::Machine { args } => if command_of(args) == "upgrade"@ {
            OsSeen { upgraded: true, rebooting: args.last() == "--reboot"@, ..t }
        } else if command_of(args) == "mark-boot-good"@ {
            OsSeen { marks: t.marks + 1, ..t }
        } else if command_of(args) == "upgrade-status"@ {
            OsSeen { status: true, ..t }
        } else {
            OsSeen { recovered: true, ..t }
        },
        ActV::WaitReboot { .. } => OsSeen { rebooted: true, ..t },
        ActV::StoreOs { .. } => OsSeen { stored: t.stored + 1, ..t },
        _ => t,
    }
}

/// The action may come next in an upgrade of operating systems.
///
/// - A node is begun only when the one before it has its version and no node is
///   drained.
/// - The bundle is on the node before the node is drained, the node is drained
///   before it is upgraded, and the machine is told to reboot exactly where the job
///   asks for it.
/// - A reboot is waited for exactly where the machine was told to reboot.
/// - The new slot is marked as good after that, at most eight times, and before
///   the state of the upgrade is asked for.
/// - The version is stored only when the node was waited for and takes workloads.
/// - The store of the cluster is recovered by force only before the first node,
///   and once.
pub open spec fn os_may_come(w: OsWalk, t: OsSeen, x: ActV) -> bool {
    let within = t.turns == t.stored + 1 && t.turns <= w.jobs.len();
    let j = w.jobs@[t.turns - 1];
    let apart = t.away == (if j.drain {
        Some(j.name@)
    } else {
        None::<Seq<char>>
    });
    match x {
        ActV::Log { .. } => true,
        ActV::Fail { .. } => true,
        ActV::TurnTo { node } => t.turns == t.stored && t.turns < w.jobs.len() && node
            == w.places@[t.turns as int] && t.away is None,
        ActV::NodeUpgrading => within && !t.marked,
        ActV::WaitApi => t.turns == 0 || (within && (t.staged ==> t.status && apart)),
        ActV::StageBundle { .. } => within && t.marked && !t.staged && w.tool && t.away is None,
        ActV::Kubectl { server, args } => within && t.staged && if verb_of(args) == "drain"@ {
            drains(args, j.name@) && j.drain && t.away is None && !t.moved && !t.upgraded
        } else if verb_of(args) == "uncordon"@ {
            readmits(args, j.name@) && t.away == Some(j.name@) && t.ready
        } else {
            awaits(args, j.name@) && apart && t.status
        },
        ActV::Machine { args } => if command_of(args) == "upgrade"@ {
            &&& within && t.staged && apart && !t.upgraded
            &&& args.take(5) == seq![
                "-e"@,
                text_or(opt_text(j.ip), ""@) + ":50000"@,
                "upgrade"@,
                "--bundle"@,
                j.host_bundle@,
            ]
            &&& j.reboot <==> args.len() == 6
            &&& j.reboot ==> args[5] == "--reboot"@
            &&& args.len() <= 6
        } else if command_of(args) == "mark-boot-good"@ {
            &&& within && t.upgraded && apart && !t.status && t.marks < 8
            &&& t.rebooted <==> j.reboot
            &&& args.len() == 3 && args[0] == "-e"@
            &&& !j.reboot ==> args[1] == text_or(opt_text(j.ip), ""@) + ":50000"@
        } else if command_of(args) == "upgrade-status"@ {
            within && t.upgraded && apart && 1 <= t.marks <= 8 && !t.status && args.len() == 3
                && args[0] == "-e"@
        } else {
            t.turns == 0 && !t.recovered && args.skip(2) == seq![
                "etcd"@,
                "recover"@,
                "--force-new-cluster"@,
                "--force"@,
            ]
        },
        ActV::WaitReboot { ip } => within && t.upgraded && j.reboot && !t.rebooted && apart && ip
            == text_or(opt_text(j.ip), ""@),
        ActV::Pause { secs } => within && t.marks > 0 && secs == 5,
        ActV::StoreOs { .. } => within && t.away is None && t.ready && t.status && (j.drain
            ==> t.moved),
        ActV::SyncNodes => t.stored == t.turns && t.away is None,
        ActV::Done => t.stored == w.jobs.len() && t.turns == w.jobs.len() && t.away is None,
        _ => false,
    }
}

/// What a reader knows after actions.
pub open spec fn os_seen_after(s: Seq<ActV>, t: OsSeen) -> OsSeen
    decreases s.len(),
{
    if s.len() == 0 {
        t
    } else {
        os_seen_next(os_seen_after(s.drop_last(), t), s.last())
    }
}

/// Each of the actions may come where it stands.
spec fn all_os_may_come(w: OsWalk, s: Seq<ActV>, t: OsSeen) -> bool
    decreases s.len(),
{
    if s.len() == 0 {
        true
    } else {
        all_os_may_come(w, s.drop_last(), t) && os_may_come(
            w,
            os_seen_after(s.drop_last(), t),
            s.last(),
        )
    }
}

broadcast proof fn lemma_push_drop_os(s: Seq<ActV>, x: ActV)
    ensures
        #[trigger] s.push(x).drop_last() == s,
{
    assert(s.push(x).drop_last() =~= s);
}

broadcast proof fn lemma_os_seen_push(s: Seq<ActV>, x: ActV, t: OsSeen)
    ensures
        #[trigger] os_seen_after(s.push(x), t) == os_seen_next(os_seen_after(s, t), x),
{
    assert(s.push(x).drop_last() =~= s);
}

broadcast proof fn lemma_os_may_push(w: OsWalk, s: Seq<ActV>, x: ActV, t: OsSeen)
    ensures
        #[trigger] all_os_may_come(w, s.push(x), t) == (all_os_may_come(w, s, t) && os_may_come(
            w,
            os_seen_after(s, t),
            x,
        )),
{
    assert(s.push(x).drop_last() =~= s);
}

proof fn lemma_os_seen_add(w: OsWalk, a: Seq<ActV>, b: Seq<ActV>, t: OsSeen)
    ensures
        os_seen_after(a + b, t) == os_seen_after(b, os_seen_after(a, t)),
        all_os_may_come(w, a + b, t) == (all_os_may_come(w, a, t) && all_os_may_come(
            w,
            b,
            os_seen_after(a, t),
        )),
    decreases b.len(),
{
    if b.len() == 0 {
        assert(a + b =~= a);
    } else {
        lemma_os_seen_add(w, a, b.drop_last(), t);
        assert((a + b).drop_last() =~= a + b.drop_last());
        assert((a + b).last() == b.last());
    }
}

proof fn lemma_commands()
    ensures
        "drain"@ != "uncordon"@ && "drain"@ != "wait"@ && "uncordon"@ != "wait"@,
        "upgrade"@ != "mark-boot-good"@ && "upgrade"@ != "upgrade-status"@ && "upgrade"@ != "etcd"@,
        "mark-boot-good"@ != "upgrade-status"@ && "mark-boot-good"@ != "etcd"@,
        "upgrade-status"@ != "etcd"@,
{
    reveal_strlit("drain");
    reveal_strlit("uncordon");
    reveal_strlit("wait");
    reveal_strlit("upgrade");
    reveal_strlit("mark-boot-good");
    reveal_strlit("upgrade-status");
    reveal_strlit("etcd");
    assert("drain"@.len() == 5 && "uncordon"@.len() == 8 && "wait"@.len() == 4);
    assert("upgrade"@.len() == 7 && "mark-boot-good"@.len() == 14 && "upgrade-status"@.len() == 14
        && "etcd"@.len() == 4);
    assert("mark-boot-good"@[0] != "upgrade-status"@[0]);
}

/// What is known while the walk waits.
spec fn os_fits(w: OsWalk, s: OsState, t: OsSeen) -> bool {
    let j = w.jobs@[s.at];
    let apart = t.away == (if j.drain {
        Some(j.name@)
    } else {
        None::<Seq<char>>
    });
    let within = t.turns == s.at + 1 && t.stored == s.at && t.marked;
    let begun = within && w.tool && t.away is None && !t.moved && !t.upgraded && !t.rebooted
        && t.marks == 0 && !t.status && !t.ready;
    let upgraded = within && t.staged && apart && (t.moved <==> j.drain) && t.upgraded && !t.ready;
    &&& os_state_wf(w, s)
    &&& match s.phase {
        OsPhase::Ready => t == nothing_seen_os(),
        OsPhase::Api => t == nothing_seen_os(),
        OsPhase::Recovery => t.turns == 0 && t.stored == 0 && t.away is None,
        OsPhase::ApiAgain => t.turns == 0 && t.stored == 0 && t.away is None,
        OsPhase::NodeApi => begun && !t.staged,
        OsPhase::Staging => begun && t.staged,
        OsPhase::Upgrading => upgraded && !t.rebooted && t.marks == 0 && !t.status,
        OsPhase::Rebooting => upgraded && t.rebooted && j.reboot && t.marks == 0 && !t.status,
        OsPhase::Marking => upgraded && (t.rebooted <==> j.reboot) && t.marks == s.attempt
            && !t.status && (!j.reboot ==> s.ip == text_or(opt_text(j.ip), ""@)),
        OsPhase::Status => upgraded && t.status,
        OsPhase::ApiBack => upgraded && t.status,
        OsPhase::Over => true,
    }
}

proof fn lemma_os_node_fits(w: OsWalk, s: OsState, a: Seq<ActV>, i: int, t: OsSeen)
    requires
        0 <= i <= w.jobs.len(),
        all_os_may_come(w, a, t),
        ({
            let u = os_seen_after(a, t);
            u.turns == i && u.stored == i && u.away is None
        }),
    ensures
        all_os_may_come(w, os_node(w, s, a, i).1, t),
        os_fits(w, os_node(w, s, a, i).0, os_seen_after(os_node(w, s, a, i).1, t)),
{
    broadcast use {lemma_os_seen_push, lemma_os_may_push};

    if i < w.jobs.len() {
        let b = a.push(logged(os_walk_note(w, i))).push(ActV::TurnTo { node: w.places@[i] as nat });
        let c = os_started(w.jobs@[i], w.tool);
        lemma_os_seen_add(w, b, c, t);
        assert((b + c).last() == c.last());
    }
}

proof fn lemma_os_first_fits(w: OsWalk, s: OsState, server: Option<Seq<char>>, t: OsSeen)
    requires
        t.turns == 0,
        t.stored == 0,
        t.away is None,
    ensures
        all_os_may_come(w, os_first_node(w, s, server).1, t),
        os_fits(w, os_first_node(w, s, server).0, os_seen_after(os_first_node(w, s, server).1, t)),
{
    broadcast use {lemma_os_seen_push, lemma_os_may_push};

    match server_note(server) {
        Some(note) => lemma_os_node_fits(w, s, idle().push(logged(note)), 0, t),
        None => lemma_os_node_fits(w, s, idle(), 0, t),
    }
}

/// The step of the walk fits.
spec fn os_step_fits(w: OsWalk, s: OsState, e: OsEvent, t: OsSeen) -> bool {
    all_os_may_come(w, os_step(w, s, e).1, t) && os_fits(
        w,
        os_step(w, s, e).0,
        os_seen_after(os_step(w, s, e).1, t),
    )
}

#[verifier::rlimit(40)]
proof fn lemma_os_recovers(w: OsWalk, s: OsState, e: OsEvent, t: OsSeen)
    requires
        os_fits(w, s, t),
        s.phase == OsPhase::Ready || s.phase == OsPhase::Api || s.phase == OsPhase::Recovery
            || s.phase == OsPhase::ApiAgain,
    ensures
        os_step_fits(w, s, e, t),
{
    broadcast use {lemma_os_seen_push, lemma_os_may_push};

    lemma_commands();
    match (s.phase, e) {
        (OsPhase::Api, OsEvent::ApiReady(Ok(server))) => {
            lemma_os_first_fits(w, s, opt_text(server), t);
        },
        (OsPhase::Api, OsEvent::ApiReady(Err(m))) => {
            let a = idle().push(logged(m@ + "\n"@));
            let b = recover_start(w.cps@);
            lemma_os_seen_add(w, a, b, t);
            assert((a + b).last() == b.last());
            let k = first_cp1(w.cps@, 0);
            if k < w.cps@.len() && w.cps@[k].3 is Some {
                let args = recover_args(trim(w.cps@[k].3->0@));
                assert(args.skip(2) =~= seq![
                    "etcd"@,
                    "recover"@,
                    "--force-new-cluster"@,
                    "--force"@,
                ]);
            }
        },
        (OsPhase::ApiAgain, OsEvent::ApiReady(Ok(server))) => {
            lemma_os_first_fits(w, s, opt_text(server), t);
        },
        _ => {},
    }
}

#[verifier::rlimit(40)]
proof fn lemma_os_stages(w: OsWalk, s: OsState, e: OsEvent, t: OsSeen)
    requires
        os_fits(w, s, t),
        s.phase == OsPhase::NodeApi || s.phase == OsPhase::Staging,
    ensures
        os_step_fits(w, s, e, t),
{
    broadcast use {lemma_os_seen_push, lemma_os_may_push};

    lemma_commands();
    let j = w.jobs@[s.at];
    let ip = text_or(opt_text(j.ip), ""@);
    let args = os_upgrade_args(ip, j.host_bundle@, j.reboot);
    assert(drains(drain_args(j.name@), j.name@));
    assert(args.take(5) =~= seq![
        "-e"@,
        ip + ":50000"@,
        "upgrade"@,
        "--bundle"@,
        j.host_bundle@,
    ]);
}

#[verifier::rlimit(40)]
proof fn lemma_os_marks(w: OsWalk, s: OsState, e: OsEvent, t: OsSeen)
    requires
        os_fits(w, s, t),
        s.phase == OsPhase::Upgrading || s.phase == OsPhase::Rebooting || s.phase
            == OsPhase::Marking || s.phase == OsPhase::Status,
    ensures
        os_step_fits(w, s, e, t),
{
    broadcast use {lemma_os_seen_push, lemma_os_may_push};

    lemma_commands();
}

#[verifier::rlimit(40)]
proof fn lemma_os_finishes(w: OsWalk, s: OsState, e: OsEvent, t: OsSeen)
    requires
        os_fits(w, s, t),
        s.phase == OsPhase::ApiBack,
    ensures
        os_step_fits(w, s, e, t),
{
    broadcast use {lemma_push_drop_os, lemma_os_seen_push, lemma_os_may_push};

    lemma_commands();
    let j = w.jobs@[s.at];
    assert(awaits(ready_args(j.name@), j.name@));
    assert(readmits(seq!["uncordon"@, j.name@], j.name@));
    match e {
        OsEvent::ApiReady(got) => {
            let a = os_finish(j, s.running, got);
            if is_done(a) {
                lemma_os_node_fits(w, s, a.drop_last(), s.at + 1, t);
            }
        },
        _ => {},
    }
}

proof fn lemma_os_run_fits(w: OsWalk, es: Seq<OsEvent>)
    requires
        is_fresh_os(w),
    ensures
        all_os_may_come(w, os_run(w, es).1, nothing_seen_os()),
        os_fits(w, os_run(w, es).0, os_seen_after(os_run(w, es).1, nothing_seen_os())),
    decreases es.len(),
{
    broadcast use {lemma_os_seen_push, lemma_os_may_push};

    if es.len() > 0 {
        lemma_os_run_fits(w, es.drop_last());
        let (x, a) = os_run(w, es.drop_last());
        let e = es.last();
        let t = os_seen_after(a, nothing_seen_os());
        match x.phase {
            OsPhase::Ready | OsPhase::Api | OsPhase::Recovery | OsPhase::ApiAgain => {
                lemma_os_recovers(w, x, e, t);
            },
            OsPhase::NodeApi | OsPhase::Staging => {
                lemma_os_stages(w, x, e, t);
            },
            OsPhase::ApiBack => {
                lemma_os_finishes(w, x, e, t);
            },
            OsPhase::Over => {},
            _ => {
                lemma_os_marks(w, x, e, t);
            },
        }
        lemma_os_seen_add(w, a, os_step(w, x, e).1, nothing_seen_os());
    }
}

proof fn lemma_os_each(w: OsWalk, s: Seq<ActV>, k: int, t: OsSeen)
    requires
        all_os_may_come(w, s, t),
        0 <= k < s.len(),
    ensures
        os_may_come(w, os_seen_after(s.take(k), t), s[k]),
    decreases s.len(),
{
    if k == s.len() - 1 {
        assert(s.take(k) =~= s.drop_last());
    } else {
        lemma_os_each(w, s.drop_last(), k, t);
        assert(s.drop_last().take(k) =~= s.take(k));
    }
}

/// Whatever happens to an upgrade of operating systems, each of its actions may
/// come where it stands: see [`os_may_come`].
pub proof fn law_os_actions_in_order(w: OsWalk, es: Seq<OsEvent>, k: int)
    requires
        is_fresh_os(w),
        0 <= k < os_run(w, es).1.len(),
    ensures
        os_may_come(
            w,
            os_seen_after(os_run(w, es).1.take(k), nothing_seen_os()),
            os_run(w, es).1[k],
        ),
{
    lemma_os_run_fits(w, es);
    lemma_os_each(w, os_run(w, es).1, k, nothing_seen_os());
}

/// An upgrade that went well is followed by a wait for the reboot exactly where
/// its call told the machine to reboot; else the new slot is marked at once, where
/// the machine is. A call that failed ends the job.
pub proof fn law_reboot_is_waited_for_where_it_was_told(
    j: OsNodeJob,
    server: Option<Seq<char>>,
    out: CommandOutput,
)
    requires
        j.host_bundle@ != "--reboot"@,
    ensures
        ({
            let before = os_upgrade(j, server, Ok(())).last();
            let after = os_after(j, Ok(out)).last();
            &&& before matches ActV::Machine { args } && args.contains("upgrade"@) && (
            args.contains("--reboot"@) <==> j.reboot) && (out.success ==> (after is WaitReboot
                <==> args.contains("--reboot"@)))
            &&& out.success && !j.reboot ==> after == (ActV::Machine {
                args: seq!["-e"@, text_or(opt_text(j.ip), ""@) + ":50000"@, "mark-boot-good"@],
            })
            &&& after is Fail <==> !out.success
        }),
{
    let ip = text_or(opt_text(j.ip), ""@);
    law_reboot_only_where_asked(ip, j.host_bundle@, j.reboot);
    let args = os_upgrade_args(ip, j.host_bundle@, j.reboot);
    assert(args[2] == "upgrade"@);
}

/// Where a machine is after its reboot, there its slot is marked and its state is
/// asked for.
pub proof fn law_machine_is_asked_where_it_is(w: OsWalk, s: OsState, e: OsEvent)
    requires
        os_state_wf(w, s),
    ensures
        ({
            let (y, a) = os_step(w, s, e);
            &&& s.phase == OsPhase::Rebooting ==> (e matches OsEvent::Rebooted(Ok(ip)) ==> y.ip
                == ip@ && a == seq![
                ActV::Machine { args: seq!["-e"@, ip@ + ":50000"@, "mark-boot-good"@] },
            ])
            &&& s.phase == OsPhase::Marking && e is Tool ==> y.ip == s.ip && (
            a.last() matches ActV::Machine { args } && args[1] == s.ip + ":50000"@ && args[2] == (
            if y.phase == OsPhase::Status {
                "upgrade-status"@
            } else {
                "mark-boot-good"@
            }))
            &&& s.phase == OsPhase::Marking ==> (e matches OsEvent::Tool(got) ==> (y.phase
                == OsPhase::Status <==> (got is Ok && got->Ok_0.success) || s.attempt == 8))
        }),
{
    if s.phase == OsPhase::Rebooting {
        match e {
            OsEvent::Rebooted(Ok(ip)) => {
                assert(os_step(w, s, e).1 =~= seq![
                    ActV::Machine { args: seq!["-e"@, ip@ + ":50000"@, "mark-boot-good"@] },
                ]);
            },
            _ => {},
        }
    }
}

/// The version that the node says it runs is stored, that of the bundle where it
/// says none; and an upgrade fails only with the words of what went wrong.
pub proof fn law_os_version_is_the_one_that_runs(
    j: OsNodeJob,
    running: Option<Seq<char>>,
    got: Result<Option<String>, String>,
)
    ensures
        match got {
            Ok(_) => {
                let a = os_finish(j, running, got);
                &&& a.last() is Done
                &&& a.contains(
                    ActV::StoreOs {
                        version: if running is Some {
                            running->0
                        } else {
                            j.version@
                        },
                    },
                )
            },
            Err(m) => os_finish(j, running, got) == seq![ActV::Fail { error: m@ }],
        },
{
    let a = os_finish(j, running, got);
    match got {
        Ok(_) => {
            assert(a[a.len() - 3] is StoreOs);
        },
        Err(m) => {
            assert(a =~= seq![ActV::Fail { error: m@ }]);
        },
    }
}

/// An upgrade of operating systems fails only for a reason: an answer that was
/// not asked for, no API, a bundle that could not be put on the node, a call that
/// did not go well, a machine that did not come back, or a node that cannot be
/// reached. A slot that cannot be marked, or a state that cannot be read, does not
/// end it.
pub proof fn law_os_upgrade_fails_only_for_a_reason(w: OsWalk, s: OsState, e: OsEvent)
    requires
        os_state_wf(w, s),
        os_step(w, s, e).1.last() is Fail,
    ensures
        s.phase != OsPhase::Marking || !(e is Tool),
        s.phase != OsPhase::Status || !(e is Status),
        s.phase == OsPhase::Staging ==> (e matches OsEvent::Staged(got) ==> got is Err),
        s.phase == OsPhase::NodeApi ==> (e matches OsEvent::ApiReady(got) ==> got is Err),
        s.phase == OsPhase::Upgrading ==> (e matches OsEvent::Tool(got) ==> got is Err
            || !got->Ok_0.success),
        s.phase == OsPhase::Rebooting ==> (e matches OsEvent::Rebooted(got) ==> got is Err),
        s.phase == OsPhase::Recovery ==> (e matches OsEvent::Tool(got) ==> got is Err
            || !got->Ok_0.success),
        s.phase == OsPhase::Api ==> (e matches OsEvent::ApiReady(got) ==> got is Err || !w.tool
            || w.jobs@[0].ip is None || w.jobs@[0].ip->0@.len() == 0),
{
}

} // verus!
