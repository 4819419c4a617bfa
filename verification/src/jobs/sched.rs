//! The job queue.
//!
//! Jobs that are exclusive run one at a time on a cluster; different clusters do
//! not wait on each other. Add-on installs overlap with other clusters and with
//! each other, up to a limit. A delete always starts: it aborts what its cluster
//! still has in flight.
use crate::text::{cat, lit, opt_text, str_eq};
use vstd::prelude::*;
use vstd::string::*;

verus! {

/// A job in flight: its cluster and its kind.
pub type Running = (Option<String>, String);

/// The mathematical form of a job in flight.
pub type RunningV = (Option<Seq<char>>, Seq<char>);

/// How many add-on installs may run at once, over all clusters.
pub const MAX_PARALLEL_ADDON_JOBS: usize = 8;

pub open spec fn runs(v: Seq<Running>) -> Seq<RunningV> {
    Seq::new(v.len(), |i: int| (opt_text(v[i].0), v[i].1@))
}

pub open spec fn exclusive(kind: Seq<char>) -> bool {
    kind != "install_addon"@
}

/// An exclusive job of the cluster is in flight.
pub open spec fn cluster_exclusive(running: Seq<RunningV>, cid: Seq<char>) -> bool {
    exists|i: int|
        0 <= i < running.len() && (#[trigger] running[i]).0 == Some(cid) && exclusive(running[i].1)
}

/// Any job of the cluster is in flight.
pub open spec fn cluster_busy(running: Seq<RunningV>, cid: Seq<char>) -> bool {
    exists|i: int| 0 <= i < running.len() && (#[trigger] running[i]).0 == Some(cid)
}

pub open spec fn any_exclusive(running: Seq<RunningV>) -> bool {
    exists|i: int| 0 <= i < running.len() && exclusive((#[trigger] running[i]).1)
}

/// Number of add-on installs in flight.
pub open spec fn addon_count(running: Seq<RunningV>) -> nat
    decreases running.len(),
{
    if running.len() == 0 {
        0
    } else {
        addon_count(running.drop_last()) + if exclusive(running.last().1) {
            0nat
        } else {
            1nat
        }
    }
}

/// Whether a queued job may start beside the jobs in flight.
pub open spec fn can_start(
    kind: Seq<char>,
    cid: Option<Seq<char>>,
    running: Seq<RunningV>,
) -> bool {
    if kind == "delete_cluster"@ {
        true
    } else if kind == "install_addon"@ {
        match cid {
            Some(c) => addon_count(running) < MAX_PARALLEL_ADDON_JOBS && !cluster_exclusive(
                running,
                c,
            ),
            None => false,
        }
    } else {
        match cid {
            Some(c) => !cluster_busy(running, c),
            None => !any_exclusive(running),
        }
    }
}

/// Everything but an add-on install is exclusive on its cluster.
pub fn job_is_exclusive(kind: &str) -> (r: bool)
    ensures
        r == exclusive(kind@),
{
    !str_eq(kind, "install_addon")
}

/// Whether an exclusive job of `cid` is in flight.
pub fn same_cluster_has_exclusive(running: &[Running], cid: &str) -> (r: bool)
    ensures
        r == cluster_exclusive(runs(running@), cid@),
{
    let ghost rs = runs(running@);
    let mut i: usize = 0;
    while i < running.len()
        invariant
            i <= running.len(),
            rs == runs(running@),
            forall|k: int|
                0 <= k < i ==> !((#[trigger] rs[k]).0 == Some(cid@) && exclusive(rs[k].1)),
        decreases running.len() - i,
    {
        assert(rs[i as int] == (opt_text(running@[i as int].0), running@[i as int].1@));
        if same_cluster(&running[i].0, cid) && job_is_exclusive(&running[i].1) {
            return true;
        }
        i += 1;
    }
    false
}

fn same_cluster(a: &Option<String>, cid: &str) -> (r: bool)
    ensures
        r == (opt_text(*a) == Some(cid@)),
{
    match a {
        Some(s) => str_eq(s, cid),
        None => false,
    }
}

/// Whether any job of `cid` is in flight.
pub fn same_cluster_has_any(running: &[Running], cid: &str) -> (r: bool)
    ensures
        r == cluster_busy(runs(running@), cid@),
{
    let ghost rs = runs(running@);
    let mut i: usize = 0;
    while i < running.len()
        invariant
            i <= running.len(),
            rs == runs(running@),
            forall|k: int| 0 <= k < i ==> (#[trigger] rs[k]).0 != Some(cid@),
        decreases running.len() - i,
    {
        assert(rs[i as int] == (opt_text(running@[i as int].0), running@[i as int].1@));
        if same_cluster(&running[i].0, cid) {
            return true;
        }
        i += 1;
    }
    false
}

fn has_exclusive(running: &[Running]) -> (r: bool)
    ensures
        r == any_exclusive(runs(running@)),
{
    let ghost rs = runs(running@);
    let mut i: usize = 0;
    while i < running.len()
        invariant
            i <= running.len(),
            rs == runs(running@),
            forall|k: int| 0 <= k < i ==> !exclusive((#[trigger] rs[k]).1),
        decreases running.len() - i,
    {
        assert(rs[i as int].1 == running@[i as int].1@);
        if job_is_exclusive(&running[i].1) {
            return true;
        }
        i += 1;
    }
    false
}

fn count_addons(running: &[Running]) -> (r: usize)
    ensures
        r == addon_count(runs(running@)),
{
    let ghost rs = runs(running@);
    let mut n: usize = 0;
    let mut i: usize = 0;
    assert(rs.take(0) =~= Seq::empty());
    while i < running.len()
        invariant
            n <= i <= running.len(),
            rs == runs(running@),
            n == addon_count(rs.take(i as int)),
        decreases running.len() - i,
    {
        assert(rs.take(i + 1).drop_last() =~= rs.take(i as int));
        assert(rs.take(i + 1).last().1 == running@[i as int].1@);
        if !job_is_exclusive(&running[i].1) {
            n += 1;
        }
        i += 1;
    }
    assert(rs.take(running.len() as int) =~= rs);
    n
}

/// Whether this queued job can start given the in-flight set.
pub fn job_can_start(kind: &str, cluster_id: Option<&str>, running: &[Running]) -> (r: bool)
    ensures
        r == can_start(
            kind@,
            match cluster_id {
                Some(c) => Some(c@),
                None => None,
            },
            runs(running@),
        ),
{
    if str_eq(kind, "delete_cluster") {
        return true;
    }
    if str_eq(kind, "install_addon") {
        return match cluster_id {
            Some(cid) => {
                if count_addons(running) >= MAX_PARALLEL_ADDON_JOBS {
                    false
                } else {
                    !same_cluster_has_exclusive(running, cid)
                }
            },
            None => false,
        };
    }
    match cluster_id {
        Some(cid) => !same_cluster_has_any(running, cid),
        None => !has_exclusive(running),
    }
}

// ---------------------------------------------------------------------------
// Claiming
// ---------------------------------------------------------------------------

/// A queued job, with the lifecycle status of its cluster where that exists.
#[derive(Debug, PartialEq, Eq)]
pub struct QueuedJob {
    pub id: String,
    pub cluster_id: Option<String>,
    pub kind: String,
    pub cluster_status: Option<String>,
}

/// A queued job that will never run: its cluster is gone or on its way out.
pub open spec fn stale(
    kind: Seq<char>,
    cid: Option<Seq<char>>,
    status: Option<Seq<char>>,
) -> bool {
    kind != "delete_cluster"@ && (cid is None || status is None || status == Some("deleting"@))
}

impl QueuedJob {
    pub open spec fn is_stale(self) -> bool {
        stale(self.kind@, opt_text(self.cluster_id), opt_text(self.cluster_status))
    }

    pub open spec fn may_start(self, running: Seq<RunningV>) -> bool {
        can_start(self.kind@, opt_text(self.cluster_id), running)
    }
}

/// Whether the job's cluster is gone or being deleted; a delete is never stale.
pub fn job_is_stale(kind: &str, cluster_id: &Option<String>, status: &Option<String>) -> (r: bool)
    ensures
        r == stale(kind@, opt_text(*cluster_id), opt_text(*status)),
{
    if str_eq(kind, "delete_cluster") {
        return false;
    }
    if cluster_id.is_none() {
        return true;
    }
    match status {
        Some(s) => str_eq(s, "deleting"),
        None => true,
    }
}

/// What one pass over the queue found.
#[derive(Debug, PartialEq, Eq)]
pub struct ClaimPlan {
    /// Rows to cancel, in queue order.
    pub cancel: Vec<usize>,
    /// The row to start.
    pub claim: Option<usize>,
}

/// Goes through the queue from row `from` on: rows that are stale are to be
/// cancelled, rows that cannot start yet are passed over, and the first row that
/// can start is claimed.
pub fn scan_queue(rows: &Vec<QueuedJob>, running: &[Running], from: usize) -> (r: ClaimPlan)
    requires
        from <= rows.len(),
    ensures
        ({
            let end = match r.claim {
                Some(k) => k as int,
                None => rows.len() as int,
            };
            &&& r.claim matches Some(k) ==> from <= k < rows.len() && !rows@[k as int].is_stale()
                && rows@[k as int].may_start(runs(running@))
            &&& forall|j: int|
                from <= j < end ==> (#[trigger] rows@[j]).is_stale() || !rows@[j].may_start(
                    runs(running@),
                )
            &&& forall|j: int|
                from <= j < end ==> (#[trigger] rows@[j].is_stale() <==> r.cancel@.contains(
                    j as usize,
                ))
            &&& forall|a: int|
                0 <= a < r.cancel.len() ==> from <= #[trigger] r.cancel@[a] < end
            &&& forall|a: int, b: int|
                0 <= a < b < r.cancel.len() ==> r.cancel@[a] < r.cancel@[b]
        }),
{
    let mut cancel: Vec<usize> = Vec::new();
    let mut i: usize = from;
    while i < rows.len()
        invariant
            from <= i <= rows.len(),
            forall|j: int|
                from <= j < i ==> (#[trigger] rows@[j]).is_stale() || !rows@[j].may_start(
                    runs(running@),
                ),
            forall|j: int|
                from <= j < i ==> (#[trigger] rows@[j].is_stale() <==> cancel@.contains(
                    j as usize,
                )),
            forall|a: int| 0 <= a < cancel.len() ==> from <= #[trigger] cancel@[a] < i,
            forall|a: int, b: int| 0 <= a < b < cancel.len() ==> cancel@[a] < cancel@[b],
        decreases rows.len() - i,
    {
        let ghost seen = cancel@;
        if job_is_stale(&rows[i].kind, &rows[i].cluster_id, &rows[i].cluster_status) {
            cancel.push(i);
            proof {
                assert forall|j: int| from <= j < i + 1 implies (#[trigger] rows@[j].is_stale()
                    <==> cancel@.contains(j as usize)) by {
                    if j < i {
                        if seen.contains(j as usize) {
                            let k = choose|k: int| 0 <= k < seen.len() && seen[k] == j as usize;
                            assert(cancel@[k] == j as usize);
                        }
                        if cancel@.contains(j as usize) {
                            let k = choose|k: int|
                                0 <= k < cancel@.len() && cancel@[k] == j as usize;
                            assert(seen[k] == j as usize);
                        }
                    } else {
                        assert(cancel@[seen.len() as int] == i);
                    }
                }
            }
        } else {
            let cid: Option<&str> = match &rows[i].cluster_id {
                Some(c) => Some(c.as_str()),
                None => None,
            };
            if job_can_start(&rows[i].kind, cid, running) {
                return ClaimPlan { cancel, claim: Some(i) };
            }
        }
        i += 1;
    }
    ClaimPlan { cancel, claim: None }
}

/// Jobs that only touch individual nodes: the cluster stays ready on failure.
pub open spec fn node_maintenance(kind: Seq<char>) -> bool {
    ||| kind == "resize_node"@
    ||| kind == "remove_node"@
    ||| kind == "add_node"@
    ||| kind == "reboot_node"@
    ||| kind == "update_config"@
    ||| kind == "install_addon"@
}

pub fn is_node_maintenance_job(kind: &str) -> (r: bool)
    ensures
        r == node_maintenance(kind@),
{
    str_eq(kind, "resize_node") || str_eq(kind, "remove_node") || str_eq(kind, "add_node")
        || str_eq(kind, "reboot_node") || str_eq(kind, "update_config") || str_eq(
        kind,
        "install_addon",
    )
}

/// Whether claiming a job puts its cluster into `provisioning`.
pub fn claim_marks_provisioning(kind: &str, cluster_id: &Option<String>) -> (r: bool)
    ensures
        r == (cluster_id is Some && kind@ != "delete_cluster"@ && !node_maintenance(kind@)),
{
    cluster_id.is_some() && !str_eq(kind, "delete_cluster") && !is_node_maintenance_job(kind)
}

// ---------------------------------------------------------------------------
// Dispatch and outcome
// ---------------------------------------------------------------------------

/// The kinds of work that the runner knows.
#[derive(Debug, Clone, Copy, PartialEq, Eq, Structural)]
pub enum JobKind {
    CreateCluster,
    DeleteCluster,
    AddNode,
    AdoptNode,
    RemoveNode,
    ResizeNode,
    RebootNode,
    UpgradeCluster,
    UpgradeOs,
    UpdateConfig,
    InstallAddon,
}

impl JobKind {
    /// The name under which the kind is stored.
    pub open spec fn name(self) -> Seq<char> {
        match self {
            JobKind::CreateCluster => "create_cluster"@,
            JobKind::DeleteCluster => "delete_cluster"@,
            JobKind::AddNode => "add_node"@,
            JobKind::AdoptNode => "adopt_node"@,
            JobKind::RemoveNode => "remove_node"@,
            JobKind::ResizeNode => "resize_node"@,
            JobKind::RebootNode => "reboot_node"@,
            JobKind::UpgradeCluster => "upgrade_cluster"@,
            JobKind::UpgradeOs => "upgrade_os"@,
            JobKind::UpdateConfig => "update_config"@,
            JobKind::InstallAddon => "install_addon"@,
        }
    }

    /// Reads a stored kind.
    pub fn parse(kind: &str) -> (r: Result<JobKind, String>)
        ensures
            match r {
                Ok(k) => kind@ == k.name(),
                Err(e) => (forall|k: JobKind| kind@ != #[trigger] k.name()) && e@
                    == "unknown job kind: "@ + kind@,
            },
    {
        if str_eq(kind, "create_cluster") {
            Ok(JobKind::CreateCluster)
        } else if str_eq(kind, "delete_cluster") {
            Ok(JobKind::DeleteCluster)
        } else if str_eq(kind, "add_node") {
            Ok(JobKind::AddNode)
        } else if str_eq(kind, "adopt_node") {
            Ok(JobKind::AdoptNode)
        } else if str_eq(kind, "remove_node") {
            Ok(JobKind::RemoveNode)
        } else if str_eq(kind, "resize_node") {
            Ok(JobKind::ResizeNode)
        } else if str_eq(kind, "reboot_node") {
            Ok(JobKind::RebootNode)
        } else if str_eq(kind, "upgrade_cluster") {
            Ok(JobKind::UpgradeCluster)
        } else if str_eq(kind, "upgrade_os") {
            Ok(JobKind::UpgradeOs)
        } else if str_eq(kind, "update_config") {
            Ok(JobKind::UpdateConfig)
        } else if str_eq(kind, "install_addon") {
            Ok(JobKind::InstallAddon)
        } else {
            Err(cat("unknown job kind: ", kind))
        }
    }
}

/// What becomes of the cluster row when a job ends.
#[derive(Debug, PartialEq, Eq)]
pub struct ClusterChange {
    pub status: String,
    pub error: Option<String>,
    /// The change is not made while the cluster is being deleted.
    pub unless_deleting: bool,
}

/// What is recorded when a job ends.
#[derive(Debug, PartialEq, Eq)]
pub struct JobOutcome {
    /// The status that subscribers are told.
    pub status: String,
    /// The error to store with the job.
    pub error: Option<String>,
    /// The job row is dropped.
    pub delete_job: bool,
    /// The cluster's rows are purged.
    pub purge_cluster: bool,
    pub cluster: Option<ClusterChange>,
}

pub ghost struct ClusterChangeV {
    pub status: Seq<char>,
    pub error: Option<Seq<char>>,
    pub unless_deleting: bool,
}

pub ghost struct JobOutcomeV {
    pub status: Seq<char>,
    pub error: Option<Seq<char>>,
    pub delete_job: bool,
    pub purge_cluster: bool,
    pub cluster: Option<ClusterChangeV>,
}

impl View for JobOutcome {
    type V = JobOutcomeV;

    open spec fn view(&self) -> JobOutcomeV {
        JobOutcomeV {
            status: self.status@,
            error: opt_text(self.error),
            delete_job: self.delete_job,
            purge_cluster: self.purge_cluster,
            cluster: match self.cluster {
                Some(c) => Some(
                    ClusterChangeV {
                        status: c.status@,
                        error: opt_text(c.error),
                        unless_deleting: c.unless_deleting,
                    },
                ),
                None => None,
            },
        }
    }
}

/// The record of a job that ended with `failure` (`None`: it succeeded).
pub open spec fn outcome(
    kind: Seq<char>,
    has_cluster: bool,
    failure: Option<Seq<char>>,
) -> JobOutcomeV {
    let delete = kind == "delete_cluster"@;
    JobOutcomeV {
        status: if failure is None {
            "succeeded"@
        } else {
            "failed"@
        },
        error: failure,
        delete_job: delete,
        purge_cluster: delete && has_cluster && failure is Some,
        cluster: if !has_cluster || delete {
            None
        } else if node_maintenance(kind) {
            Some(ClusterChangeV { status: "ready"@, error: None, unless_deleting: true })
        } else if failure is None {
            Some(ClusterChangeV { status: "ready"@, error: None, unless_deleting: false })
        } else {
            Some(ClusterChangeV { status: "error"@, error: failure, unless_deleting: false })
        },
    }
}

/// What to record for a job that has ended.
pub fn job_outcome(kind: &str, has_cluster: bool, failure: Option<String>) -> (r: JobOutcome)
    ensures
        r@ == outcome(kind@, has_cluster, opt_text(failure)),
{
    let delete = str_eq(kind, "delete_cluster");
    let failed = failure.is_some();
    let cluster: Option<ClusterChange> = if !has_cluster || delete {
        None
    } else if is_node_maintenance_job(kind) {
        Some(ClusterChange { status: lit("ready"), error: None, unless_deleting: true })
    } else if !failed {
        Some(ClusterChange { status: lit("ready"), error: None, unless_deleting: false })
    } else {
        let e: Option<String> = match &failure {
            Some(m) => Some(lit(m)),
            None => None,
        };
        Some(ClusterChange { status: lit("error"), error: e, unless_deleting: false })
    };
    JobOutcome {
        status: if failed {
            lit("failed")
        } else {
            lit("succeeded")
        },
        error: failure,
        delete_job: delete,
        purge_cluster: delete && has_cluster && failed,
        cluster,
    }
}

// ---------------------------------------------------------------------------
// Laws
// ---------------------------------------------------------------------------

/// No cluster has an exclusive job beside another job.
pub open spec fn isolated(running: Seq<RunningV>) -> bool {
    forall|i: int, j: int|
        0 <= i < running.len() && 0 <= j < running.len() && i != j && (#[trigger] running[i]).0
            is Some && running[i].0 == (#[trigger] running[j]).0 ==> !exclusive(running[i].1)
}

/// Starting a job that may start leaves every exclusive job alone on its
/// cluster. (A delete is the exception: see the law on deletes.)
pub proof fn law_start_keeps_isolation(
    kind: Seq<char>,
    cid: Option<Seq<char>>,
    running: Seq<RunningV>,
)
    requires
        isolated(running),
        kind != "delete_cluster"@,
        can_start(kind, cid, running),
    ensures
        isolated(running.push((cid, kind))),
{
    let next = running.push((cid, kind));
    assert forall|i: int, j: int|
        0 <= i < next.len() && 0 <= j < next.len() && i != j && (#[trigger] next[i]).0 is Some
            && next[i].0 == (#[trigger] next[j]).0 implies !exclusive(next[i].1) by {
        if i < running.len() && j < running.len() {
            assert(running[i].0 == running[j].0);
        } else if i < running.len() {
            assert(running[i].0 == cid);
        } else {
            assert(running[j].0 == cid);
        }
    }
}

/// The jobs that are left once those of `cid` are aborted.
pub open spec fn without_cluster(running: Seq<RunningV>, cid: Seq<char>) -> Seq<RunningV> {
    running.filter(|r: RunningV| r.0 != Some(cid))
}

/// A delete that aborts its cluster's jobs runs alone on the cluster, and takes
/// no other job away.
pub proof fn law_delete_runs_alone(cid: Seq<char>, running: Seq<RunningV>)
    requires
        isolated(running),
    ensures
        can_start("delete_cluster"@, Some(cid), running),
        !cluster_busy(without_cluster(running, cid), cid),
        isolated(without_cluster(running, cid).push((Some(cid), "delete_cluster"@))),
        forall|r: RunningV|
            r.0 != Some(cid) && running.contains(r) ==> without_cluster(running, cid).contains(r),
    decreases running.len(),
{
    let keep = |r: RunningV| r.0 != Some(cid);
    let left = without_cluster(running, cid);
    reveal(Seq::filter);
    broadcast use vstd::seq_lib::group_filter_ensures;

    lemma_filter_isolated(running, cid);
    assert forall|i: int| 0 <= i < left.len() implies (#[trigger] left[i]).0 != Some(cid) by {
        assert(keep(left[i]));
    }
    let next = left.push((Some(cid), "delete_cluster"@));
    assert forall|i: int, j: int|
        0 <= i < next.len() && 0 <= j < next.len() && i != j && (#[trigger] next[i]).0 is Some
            && next[i].0 == (#[trigger] next[j]).0 implies !exclusive(next[i].1) by {
        if i < left.len() && j < left.len() {
            assert(left[i].0 == left[j].0);
        } else if i < left.len() {
            assert(left[i].0 != Some(cid));
        } else {
            assert(left[j].0 != Some(cid));
        }
    }
}

/// Dropping jobs invents none and keeps exclusive jobs alone on their clusters.
proof fn lemma_filter_isolated(running: Seq<RunningV>, cid: Seq<char>)
    requires
        isolated(running),
    ensures
        isolated(without_cluster(running, cid)),
        forall|i: int|
            0 <= i < without_cluster(running, cid).len() ==> running.contains(
                #[trigger] without_cluster(running, cid)[i],
            ),
    decreases running.len(),
{
    reveal(Seq::filter);
    broadcast use vstd::seq_lib::group_filter_ensures;

    let left = without_cluster(running, cid);
    if running.len() > 0 {
        let init = running.drop_last();
        assert(isolated(init)) by {
            assert forall|i: int, j: int|
                0 <= i < init.len() && 0 <= j < init.len() && i != j && (#[trigger] init[i]).0
                    is Some && init[i].0 == (#[trigger] init[j]).0 implies !exclusive(init[i].1) by {
                assert(running[i].0 == running[j].0);
            }
        }
        lemma_filter_isolated(init, cid);
        let small = without_cluster(init, cid);
        let last = running.last();
        if last.0 != Some(cid) {
            assert(left =~= small.push(last));
            assert forall|i: int| 0 <= i < left.len() implies running.contains(
                #[trigger] left[i],
            ) by {
                if i < small.len() {
                    assert(init.contains(small[i]));
                    let k = choose|k: int| 0 <= k < init.len() && init[k] == small[i];
                    assert(running[k] == left[i]);
                } else {
                    assert(running[running.len() - 1] == last);
                }
            }
            assert forall|i: int, j: int|
                0 <= i < left.len() && 0 <= j < left.len() && i != j && (#[trigger] left[i]).0
                    is Some && left[i].0 == (#[trigger] left[j]).0 implies !exclusive(left[i].1) by {
                if i < small.len() && j < small.len() {
                    assert(small[i].0 == small[j].0);
                } else if i < small.len() {
                    assert(init.contains(small[i]));
                    let k = choose|k: int| 0 <= k < init.len() && init[k] == small[i];
                    assert(running[k].0 == running[running.len() - 1].0);
                } else {
                    assert(init.contains(small[j]));
                    let k = choose|k: int| 0 <= k < init.len() && init[k] == small[j];
                    assert(running[running.len() - 1].0 == running[k].0);
                }
            }
        } else {
            assert(left =~= small);
            assert forall|i: int| 0 <= i < left.len() implies running.contains(
                #[trigger] left[i],
            ) by {
                assert(init.contains(small[i]));
                let k = choose|k: int| 0 <= k < init.len() && init[k] == small[i];
                assert(running[k] == left[i]);
            }
        }
    }
}

/// Clusters do not block each other: whether an exclusive job may start does
/// not depend on a job of another cluster.
pub proof fn law_clusters_independent(
    kind: Seq<char>,
    cid: Seq<char>,
    running: Seq<RunningV>,
    other: RunningV,
)
    requires
        exclusive(kind),
        other.0 != Some(cid),
    ensures
        can_start(kind, Some(cid), running.push(other)) == can_start(kind, Some(cid), running),
{
    let next = running.push(other);
    if cluster_busy(next, cid) {
        let i = choose|i: int| 0 <= i < next.len() && (#[trigger] next[i]).0 == Some(cid);
        assert(running[i].0 == Some(cid));
    }
    if cluster_busy(running, cid) {
        let i = choose|i: int| 0 <= i < running.len() && (#[trigger] running[i]).0 == Some(cid);
        assert(next[i].0 == Some(cid));
    }
}

/// An add-on install waits for no exclusive job of another cluster.
pub proof fn law_addon_ignores_other_clusters(
    cid: Seq<char>,
    running: Seq<RunningV>,
    other: RunningV,
)
    requires
        other.0 != Some(cid),
        exclusive(other.1),
    ensures
        can_start("install_addon"@, Some(cid), running.push(other)) == can_start(
            "install_addon"@,
            Some(cid),
            running,
        ),
{
    let next = running.push(other);
    assert(next.drop_last() =~= running);
    if cluster_exclusive(next, cid) {
        let i = choose|i: int|
            0 <= i < next.len() && (#[trigger] next[i]).0 == Some(cid) && exclusive(next[i].1);
        assert(running[i].0 == Some(cid));
    }
    if cluster_exclusive(running, cid) {
        let i = choose|i: int|
            0 <= i < running.len() && (#[trigger] running[i]).0 == Some(cid) && exclusive(
                running[i].1,
            );
        assert(next[i].0 == Some(cid));
    }
}

/// No more than the limit of add-on installs ever runs.
pub proof fn law_addon_limit(kind: Seq<char>, cid: Option<Seq<char>>, running: Seq<RunningV>)
    requires
        addon_count(running) <= MAX_PARALLEL_ADDON_JOBS,
        can_start(kind, cid, running),
    ensures
        addon_count(running.push((cid, kind))) <= MAX_PARALLEL_ADDON_JOBS,
{
    assert(running.push((cid, kind)).drop_last() =~= running);
    reveal_strlit("delete_cluster");
    reveal_strlit("install_addon");
    assert("delete_cluster"@.len() != "install_addon"@.len());
}

/// A failed node-level job never marks its cluster as broken.
pub proof fn law_maintenance_failure_keeps_ready(kind: Seq<char>, failure: Seq<char>)
    requires
        node_maintenance(kind),
    ensures
        outcome(kind, true, Some(failure)).cluster == Some(
            ClusterChangeV { status: "ready"@, error: None, unless_deleting: true },
        ),
        !outcome(kind, true, Some(failure)).purge_cluster,
{
    reveal_strlit("delete_cluster");
    reveal_strlit("resize_node");
    reveal_strlit("remove_node");
    reveal_strlit("add_node");
    reveal_strlit("reboot_node");
    reveal_strlit("update_config");
    reveal_strlit("install_addon");
    assert("delete_cluster"@.len() == 14);
}

/// The row of a job says whether it went well, with the error where it did not. A
/// deletion leaves no row of the job; its cluster is purged by force exactly where
/// the deletion failed.
pub proof fn law_outcome_tells(kind: Seq<char>, of_cluster: bool, failure: Option<Seq<char>>)
    ensures
        ({
            let o = outcome(kind, of_cluster, failure);
            &&& o.status == "succeeded"@ <==> failure is None
            &&& o.status == "failed"@ <==> failure is Some
            &&& o.error == failure
            &&& o.delete_job <==> kind == "delete_cluster"@
            &&& o.purge_cluster <==> kind == "delete_cluster"@ && of_cluster && failure is Some
            &&& o.cluster is Some <==> of_cluster && kind != "delete_cluster"@
        }),
{
    reveal_strlit("succeeded");
    reveal_strlit("failed");
    assert("succeeded"@.len() == 9);
    assert("failed"@.len() == 6);
}

/// A cluster is ready after every job that went well. One that failed leaves it in
/// error, with what went wrong, exactly where the job made or upgraded the cluster
/// as a whole or adopted a node; work on its nodes, settings or add-ons leaves it
/// ready.
pub proof fn law_cluster_after_a_job(kind: Seq<char>, e: Seq<char>)
    ensures
        kind != "delete_cluster"@ ==> outcome(kind, true, None).cluster is Some && outcome(
            kind,
            true,
            None,
        ).cluster->0.status == "ready"@ && outcome(kind, true, None).cluster->0.error is None,
        kind == "create_cluster"@ || kind == "upgrade_cluster"@ || kind == "upgrade_os"@ || kind
            == "adopt_node"@ ==> outcome(kind, true, Some(e)).cluster->0.status == "error"@
            && outcome(kind, true, Some(e)).cluster->0.error == Some(e),
        kind == "add_node"@ || kind == "remove_node"@ || kind == "resize_node"@ || kind
            == "reboot_node"@ || kind == "update_config"@ || kind == "install_addon"@ ==> outcome(
            kind,
            true,
            Some(e),
        ).cluster->0.status == "ready"@ && outcome(kind, true, Some(e)).cluster->0.error is None
            && outcome(kind, true, Some(e)).cluster->0.unless_deleting,
{
    reveal_strlit("create_cluster");
    reveal_strlit("delete_cluster");
    reveal_strlit("add_node");
    reveal_strlit("adopt_node");
    reveal_strlit("remove_node");
    reveal_strlit("resize_node");
    reveal_strlit("reboot_node");
    reveal_strlit("upgrade_cluster");
    reveal_strlit("upgrade_os");
    reveal_strlit("update_config");
    reveal_strlit("install_addon");
    reveal_strlit("ready");
    reveal_strlit("error");
    assert("create_cluster"@.len() == 14);
    assert("delete_cluster"@.len() == 14);
    assert("add_node"@.len() == 8);
    assert("adopt_node"@.len() == 10);
    assert("remove_node"@.len() == 11);
    assert("resize_node"@.len() == 11);
    assert("reboot_node"@.len() == 11);
    assert("upgrade_cluster"@.len() == 15);
    assert("upgrade_os"@.len() == 10);
    assert("update_config"@.len() == 13);
    assert("install_addon"@.len() == 13);
    assert("ready"@.len() == 5);
    assert("error"@.len() == 5);
    assert("create_cluster"@[0] == 'c' && "delete_cluster"@[0] == 'd');
    assert("adopt_node"@[0] == 'a' && "upgrade_os"@[0] == 'u');
    assert("remove_node"@[2] == 'm' && "resize_node"@[2] == 's');
    assert("remove_node"@[2] == 'm' && "reboot_node"@[2] == 'b');
    assert("resize_node"@[2] == 's' && "reboot_node"@[2] == 'b');
    assert("update_config"@[0] == 'u' && "install_addon"@[0] == 'i');
    assert("ready"@[0] == 'r' && "error"@[0] == 'e');
}

/// A queued job is stale exactly where its cluster is gone or going, unless it is
/// the one that deletes it.
pub proof fn law_stale_jobs(kind: Seq<char>, cid: Option<Seq<char>>, status: Option<Seq<char>>)
    ensures
        kind == "delete_cluster"@ ==> !stale(kind, cid, status),
        kind != "delete_cluster"@ && cid is None ==> stale(kind, cid, status),
        kind != "delete_cluster"@ && status is None ==> stale(kind, cid, status),
        kind != "delete_cluster"@ && status == Some("deleting"@) ==> stale(kind, cid, status),
        cid is Some && status is Some && status->0 != "deleting"@ ==> !stale(kind, cid, status),
{
}

/// A job of a cluster starts exactly where none of that cluster runs; an add-on may
/// share its cluster with other add-ons, and no more than eight of them run in all.
pub proof fn law_when_a_job_starts(kind: Seq<char>, c: Seq<char>, running: Seq<RunningV>)
    ensures
        kind == "delete_cluster"@ ==> can_start(kind, Some(c), running) && can_start(
            kind,
            None,
            running,
        ),
        kind != "delete_cluster"@ && kind != "install_addon"@ ==> (can_start(kind, Some(c), running)
            <==> forall|i: int|
            0 <= i < running.len() ==> (#[trigger] running[i]).0 != Some(c)),
        kind == "install_addon"@ ==> (can_start(kind, Some(c), running) <==> addon_count(running)
            < 8 && forall|i: int|
            0 <= i < running.len() && (#[trigger] running[i]).0 == Some(c) ==> running[i].1
                == "install_addon"@),
        kind == "install_addon"@ ==> !can_start(kind, None, running),
        kind != "delete_cluster"@ && kind != "install_addon"@ ==> (can_start(kind, None, running)
            <==> forall|i: int|
            0 <= i < running.len() ==> (#[trigger] running[i]).1 == "install_addon"@),
{
    reveal_strlit("delete_cluster");
    reveal_strlit("install_addon");
    assert("delete_cluster"@.len() == 14);
    assert("install_addon"@.len() == 13);
}

/// The kind of a job has its name, and no two have the same.
pub proof fn law_kinds_have_names(a: JobKind, b: JobKind)
    ensures
        a.name() == b.name() ==> a == b,
        a is InstallAddon <==> a.name() == "install_addon"@,
        a is DeleteCluster <==> a.name() == "delete_cluster"@,
        a is CreateCluster <==> a.name() == "create_cluster"@,
{
    reveal_strlit("create_cluster");
    reveal_strlit("delete_cluster");
    reveal_strlit("add_node");
    reveal_strlit("adopt_node");
    reveal_strlit("remove_node");
    reveal_strlit("resize_node");
    reveal_strlit("reboot_node");
    reveal_strlit("upgrade_cluster");
    reveal_strlit("upgrade_os");
    reveal_strlit("update_config");
    reveal_strlit("install_addon");
    assert("create_cluster"@.len() == 14);
    assert("delete_cluster"@.len() == 14);
    assert("add_node"@.len() == 8);
    assert("adopt_node"@.len() == 10);
    assert("remove_node"@.len() == 11);
    assert("resize_node"@.len() == 11);
    assert("reboot_node"@.len() == 11);
    assert("upgrade_cluster"@.len() == 15);
    assert("upgrade_os"@.len() == 10);
    assert("update_config"@.len() == 13);
    assert("install_addon"@.len() == 13);
    assert("create_cluster"@[0] == 'c' && "delete_cluster"@[0] == 'd');
    assert("adopt_node"@[0] == 'a' && "upgrade_os"@[0] == 'u');
    assert("remove_node"@[2] == 'm' && "resize_node"@[2] == 's');
    assert("remove_node"@[2] == 'm' && "reboot_node"@[2] == 'b');
    assert("resize_node"@[2] == 's' && "reboot_node"@[2] == 'b');
    assert("update_config"@[0] == 'u' && "install_addon"@[0] == 'i');
}

} // verus!
