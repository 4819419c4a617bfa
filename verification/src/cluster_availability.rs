//! Whether the API of a cluster answers, as opposed to the state of its life
//! cycle: what was last known, when to ask again, and whom to ask.
use crate::json::text_or;
use crate::text::{lit, opt_text, str_eq, str_trim, trim};
use vstd::prelude::*;
use vstd::string::*;

verus! {

/// An answer of this age, in milliseconds, is not asked for again.
pub const FRESH_TTL_MS: u64 = 15_000;

/// An answer of this age can still be shown while a new one is sought.
pub const STALE_TTL_MS: u64 = 120_000;

/// An answer: the cluster, when it was given in milliseconds, and what it was.
#[derive(Debug, PartialEq, Eq)]
pub struct Answer {
    pub cluster_id: String,
    pub at: u64,
    pub avail: String,
}

/// The answer on a cluster: time and text.
pub open spec fn answer_on(v: Seq<Answer>, id: Seq<char>) -> Option<(u64, Seq<char>)>
    decreases v.len(),
{
    if v.len() == 0 {
        None
    } else if v.last().cluster_id@ == id {
        Some((v.last().at, v.last().avail@))
    } else {
        answer_on(v.drop_last(), id)
    }
}

/// The id is in the list.
pub open spec fn listed(v: Seq<String>, id: Seq<char>) -> bool {
    exists|i: int| 0 <= i < v.len() && (#[trigger] v[i])@ == id
}

/// Last known answers, one for each cluster, and the clusters that are being
/// asked.
#[derive(Debug, PartialEq, Eq)]
pub struct Availability {
    pub answers: Vec<Answer>,
    pub asking: Vec<String>,
}

/// How long ago `at` was, nothing where it lies ahead.
pub open spec fn age(at: u64, now: u64) -> int {
    if at <= now {
        now - at
    } else {
        0
    }
}

/// What is shown of a cluster: the last answer while it is not stale, and only
/// where the cluster is ready.
pub open spec fn shown(a: Availability, id: Seq<char>, status: Seq<char>, now: u64) -> Seq<char> {
    if status != "ready"@ {
        "unknown"@
    } else {
        text_or(a.recent(id, now, STALE_TTL_MS), "unknown"@)
    }
}

impl Availability {
    /// No two answers are on one cluster, and no cluster is asked twice.
    pub open spec fn wf(self) -> bool {
        &&& forall|i: int, j: int|
            0 <= i < j < self.answers@.len() ==> (#[trigger] self.answers@[i]).cluster_id@ != (
            #[trigger] self.answers@[j]).cluster_id@
        &&& forall|i: int, j: int|
            0 <= i < j < self.asking@.len() ==> (#[trigger] self.asking@[i])@ != (
            #[trigger] self.asking@[j])@
    }

    /// The last answer on a cluster.
    pub open spec fn known(self, id: Seq<char>) -> Option<(u64, Seq<char>)> {
        answer_on(self.answers@, id)
    }

    /// The cluster is being asked.
    pub open spec fn is_asked(self, id: Seq<char>) -> bool {
        listed(self.asking@, id)
    }

    /// The answer on a cluster, where it is not older than `max_age`.
    pub open spec fn recent(self, id: Seq<char>, now: u64, max_age: u64) -> Option<Seq<char>> {
        match self.known(id) {
            Some((at, avail)) => if age(at, now) <= max_age {
                Some(avail)
            } else {
                None
            },
            None => None,
        }
    }

    pub fn new() -> (r: Availability)
        ensures
            r.wf(),
            forall|id: Seq<char>| #[trigger] r.known(id) is None,
            forall|id: Seq<char>| !#[trigger] r.is_asked(id),
    {
        Availability { answers: Vec::new(), asking: Vec::new() }
    }

    /// Records an answer.
    pub fn store(&mut self, cluster_id: &str, avail: &str, now: u64)
        requires
            old(self).wf(),
        ensures
            final(self).wf(),
            final(self).known(cluster_id@) == Some((now, avail@)),
            forall|id: Seq<char>|
                id != cluster_id@ ==> #[trigger] final(self).known(id) == old(self).known(id),
            forall|id: Seq<char>| #[trigger] final(self).is_asked(id) == old(self).is_asked(id),
    {
        let ghost before = self.answers@;
        let mut k: usize = 0;
        while k < self.answers.len() && !str_eq(&self.answers[k].cluster_id, cluster_id)
            invariant
                k <= self.answers@.len(),
                self.answers@ == before,
                self.asking@ == old(self).asking@,
                forall|j: int| 0 <= j < k ==> (#[trigger] before[j]).cluster_id@ != cluster_id@,
            decreases self.answers@.len() - k,
        {
            k += 1;
        }
        let answer = Answer { cluster_id: lit(cluster_id), at: now, avail: lit(avail) };
        if k < self.answers.len() {
            self.answers.set(k, answer);
        } else {
            self.answers.push(answer);
        }
        proof {
            let after = self.answers@;
            assert(after == (if k < before.len() {
                before.update(k as int, answer)
            } else {
                before.push(answer)
            }));
            lemma_answer_found(after, k as int);
            assert forall|id: Seq<char>| id != cluster_id@ implies #[trigger] self.known(id)
                == answer_on(before, id) by {
                if k < before.len() {
                    lemma_answer_other(before, k as int, answer, id);
                } else {
                    assert(after.drop_last() =~= before);
                }
            }
        }
    }

    /// The answer on a cluster, where it is not older than `max_age`.
    pub fn lookup(&self, cluster_id: &str, now: u64, max_age: u64) -> (r: Option<String>)
        ensures
            opt_text(r) == self.recent(cluster_id@, now, max_age),
    {
        let ghost v = self.answers@;
        let mut k: usize = self.answers.len();
        assert(v.take(k as int) =~= v);
        while k > 0
            invariant
                k <= self.answers@.len(),
                v == self.answers@,
                answer_on(v, cluster_id@) == answer_on(v.take(k as int), cluster_id@),
            decreases k,
        {
            assert(v.take(k as int).drop_last() =~= v.take(k - 1));
            assert(v.take(k as int).last() == v[k - 1]);
            let a = &self.answers[k - 1];
            if str_eq(&a.cluster_id, cluster_id) {
                let old_by: u64 = if a.at <= now {
                    now - a.at
                } else {
                    0
                };
                return if old_by <= max_age {
                    Some(lit(&a.avail))
                } else {
                    None
                };
            }
            k -= 1;
        }
        None
    }

    /// What to show of a cluster: the last answer while it is not stale, and
    /// only for a cluster that is ready.
    pub fn cached_or(&self, cluster_id: &str, lifecycle_status: &str, now: u64) -> (r: String)
        ensures
            r@ == shown(*self, cluster_id@, lifecycle_status@, now),
    {
        if !str_eq(lifecycle_status, "ready") {
            return lit("unknown");
        }
        match self.lookup(cluster_id, now, STALE_TTL_MS) {
            Some(a) => a,
            None => lit("unknown"),
        }
    }

    /// What is known without asking: nothing of a cluster that is not ready, and
    /// a fresh answer.
    pub fn known_without_asking(&self, cluster_id: &str, lifecycle_status: &str, now: u64) -> (r:
        Option<String>)
        ensures
            opt_text(r) == (if lifecycle_status@ != "ready"@ {
                Some("unknown"@)
            } else {
                self.recent(cluster_id@, now, FRESH_TTL_MS)
            }),
    {
        if !str_eq(lifecycle_status, "ready") {
            Some(lit("unknown"))
        } else {
            self.lookup(cluster_id, now, FRESH_TTL_MS)
        }
    }

    /// Takes up the task to ask a cluster: not where it is not ready, where a
    /// fresh answer is known, or where it is being asked.
    pub fn begin_refresh(&mut self, cluster_id: &str, lifecycle_status: &str, now: u64) -> (r: bool)
        requires
            old(self).wf(),
        ensures
            final(self).wf(),
            r == (lifecycle_status@ == "ready"@ && old(self).recent(
                cluster_id@,
                now,
                FRESH_TTL_MS,
            ) is None && !old(self).is_asked(cluster_id@)),
            final(self).answers@ == old(self).answers@,
            r ==> final(self).is_asked(cluster_id@),
            forall|id: Seq<char>|
                id != cluster_id@ || !r ==> #[trigger] final(self).is_asked(id) == old(
                    self,
                ).is_asked(id),
    {
        if !str_eq(lifecycle_status, "ready") {
            return false;
        }
        if self.lookup(cluster_id, now, FRESH_TTL_MS).is_some() {
            return false;
        }
        let ghost before = self.asking@;
        let mut k: usize = 0;
        while k < self.asking.len()
            invariant
                k <= self.asking@.len(),
                self.asking@ == before,
                *self == *old(self),
                before == old(self).asking@,
                old(self).wf(),
                forall|j: int| 0 <= j < k ==> (#[trigger] before[j])@ != cluster_id@,
            decreases self.asking@.len() - k,
        {
            if str_eq(&self.asking[k], cluster_id) {
                assert(before[k as int]@ == cluster_id@);
                return false;
            }
            k += 1;
        }
        self.asking.push(lit(cluster_id));
        proof {
            let after = self.asking@;
            assert(after[before.len() as int]@ == cluster_id@);
            assert forall|id: Seq<char>| id != cluster_id@ implies #[trigger] self.is_asked(id)
                == listed(before, id) by {
                if listed(before, id) {
                    let i = choose|i: int| 0 <= i < before.len() && (#[trigger] before[i])@ == id;
                    assert(after[i]@ == id);
                }
                if listed(after, id) {
                    let i = choose|i: int| 0 <= i < after.len() && (#[trigger] after[i])@ == id;
                    assert(before[i]@ == id);
                }
            }
        }
        true
    }

    /// Ends the task to ask a cluster.
    pub fn end_refresh(&mut self, cluster_id: &str)
        requires
            old(self).wf(),
        ensures
            final(self).wf(),
            final(self).answers@ == old(self).answers@,
            !final(self).is_asked(cluster_id@),
            forall|id: Seq<char>|
                id != cluster_id@ ==> #[trigger] final(self).is_asked(id) == old(self).is_asked(id),
    {
        let ghost before = self.asking@;
        let mut k: usize = 0;
        while k < self.asking.len() && !str_eq(&self.asking[k], cluster_id)
            invariant
                k <= self.asking@.len(),
                *self == *old(self),
                self.asking@ == before,
                forall|j: int| 0 <= j < k ==> (#[trigger] before[j])@ != cluster_id@,
            decreases self.asking@.len() - k,
        {
            k += 1;
        }
        if k < self.asking.len() {
            self.asking.remove(k);
            proof {
                let after = self.asking@;
                assert(after == before.remove(k as int));
                assert forall|i: int| 0 <= i < after.len() implies (#[trigger] after[i])@
                    != cluster_id@ by {
                    if i >= k {
                        assert(after[i] == before[i + 1]);
                        assert(before[k as int]@ != before[i + 1]@);
                    } else {
                        assert(after[i] == before[i]);
                    }
                }
                assert forall|i: int, j: int| 0 <= i < j < after.len() implies (
                #[trigger] after[i])@ != (#[trigger] after[j])@ by {
                    let i0 = if i < k {
                        i
                    } else {
                        i + 1
                    };
                    let j0 = if j < k {
                        j
                    } else {
                        j + 1
                    };
                    assert(after[i] == before[i0] && after[j] == before[j0]);
                }
                assert forall|id: Seq<char>| id != cluster_id@ implies #[trigger] self.is_asked(id)
                    == listed(before, id) by {
                    if listed(before, id) {
                        let i = choose|i: int|
                            0 <= i < before.len() && (#[trigger] before[i])@ == id;
                        if i < k {
                            assert(after[i]@ == id);
                        } else {
                            assert(after[i - 1]@ == id);
                        }
                    }
                    if listed(after, id) {
                        let i = choose|i: int| 0 <= i < after.len() && (#[trigger] after[i])@ == id;
                        if i < k {
                            assert(before[i]@ == id);
                        } else {
                            assert(before[i + 1]@ == id);
                        }
                    }
                }
            }
        }
    }
}

proof fn lemma_answer_found(v: Seq<Answer>, k: int)
    requires
        0 <= k < v.len(),
        forall|j: int| 0 <= j < v.len() && j != k ==> (#[trigger] v[j]).cluster_id@
            != v[k].cluster_id@,
    ensures
        answer_on(v, v[k].cluster_id@) == Some((v[k].at, v[k].avail@)),
    decreases v.len(),
{
    if k < v.len() - 1 {
        let w = v.drop_last();
        assert(w[k] == v[k]);
        assert forall|j: int| 0 <= j < w.len() && j != k implies (#[trigger] w[j]).cluster_id@
            != w[k].cluster_id@ by {
            assert(w[j] == v[j]);
        }
        lemma_answer_found(w, k);
        assert(v.last() == v[v.len() - 1]);
    }
}

proof fn lemma_answer_other(v: Seq<Answer>, k: int, a: Answer, id: Seq<char>)
    requires
        0 <= k < v.len(),
        v[k].cluster_id@ != id,
        a.cluster_id@ != id,
    ensures
        answer_on(v.update(k, a), id) == answer_on(v, id),
    decreases v.len(),
{
    if k == v.len() - 1 {
        assert(v.update(k, a).drop_last() =~= v.drop_last());
    } else {
        assert(v.update(k, a).drop_last() =~= v.drop_last().update(k, a));
        lemma_answer_other(v.drop_last(), k, a, id);
    }
}

// ---------------------------------------------------------------------------
// Whom to ask
// ---------------------------------------------------------------------------

/// An address to ask: nothing stands for the address in the kubeconfig.
pub open spec fn servers_view(v: Seq<Option<String>>) -> Seq<Option<Seq<char>>> {
    Seq::new(v.len(), |i: int| opt_text(v[i]))
}

/// The addresses to ask: that of the kubeconfig, then those of the control
/// planes among the first `n` whose address is known.
pub open spec fn readyz_servers(ips: Seq<Option<String>>, n: int) -> Seq<Option<Seq<char>>>
    decreases n,
{
    if 0 < n <= ips.len() {
        let r = readyz_servers(ips, n - 1);
        match ips[n - 1] {
            Some(ip) => if trim(ip@).len() == 0 {
                r
            } else {
                r.push(Some("https://"@ + trim(ip@) + ":6443"@))
            },
            None => r,
        }
    } else {
        seq![None::<Seq<char>>]
    }
}

fn push_server(v: &mut Vec<Option<String>>, s: Option<String>)
    ensures
        servers_view(final(v)@) == servers_view(old(v)@).push(opt_text(s)),
{
    let ghost before = v@;
    v.push(s);
    assert(servers_view(v@) =~= servers_view(before).push(opt_text(s)));
}

fn default_server() -> (r: Vec<Option<String>>)
    ensures
        servers_view(r@) == seq![None::<Seq<char>>],
{
    let mut v: Vec<Option<String>> = Vec::new();
    v.push(None);
    assert(servers_view(v@) =~= seq![None::<Seq<char>>]);
    v
}

/// The addresses to ask whether the API of a cluster is ready.
pub fn probe_servers(ips: &Vec<Option<String>>) -> (r: Vec<Option<String>>)
    ensures
        servers_view(r@) == readyz_servers(ips@, ips@.len() as int),
{
    let mut out = default_server();
    let mut i: usize = 0;
    while i < ips.len()
        invariant
            i <= ips.len(),
            servers_view(out@) == readyz_servers(ips@, i as int),
        decreases ips.len() - i,
    {
        match &ips[i] {
            Some(ip) => {
                let t = str_trim(ip);
                if !t.is_empty() {
                    push_server(&mut out, Some(lit("https://").concat(&t).concat(":6443")));
                }
            },
            None => {},
        }
        i += 1;
    }
    out
}

/// The addresses to ask: that of the kubeconfig, then the given ones among the
/// first `n` that are not blank.
pub open spec fn candidates_from(extra: Seq<String>, n: int) -> Seq<Option<Seq<char>>>
    decreases n,
{
    if 0 < n <= extra.len() {
        let r = candidates_from(extra, n - 1);
        if trim(extra[n - 1]@).len() == 0 {
            r
        } else {
            r.push(Some(trim(extra[n - 1]@)))
        }
    } else {
        seq![None::<Seq<char>>]
    }
}

/// The addresses to ask for a server that can be reached.
pub fn server_candidates(extra: &Vec<String>) -> (r: Vec<Option<String>>)
    ensures
        servers_view(r@) == candidates_from(extra@, extra@.len() as int),
{
    let mut out = default_server();
    let mut i: usize = 0;
    while i < extra.len()
        invariant
            i <= extra.len(),
            servers_view(out@) == candidates_from(extra@, i as int),
        decreases extra.len() - i,
    {
        let t = str_trim(&extra[i]);
        if !t.is_empty() {
            push_server(&mut out, Some(t));
        }
        i += 1;
    }
    out
}

/// The first address at or after `i` that answered.
pub open spec fn first_answer(servers: Seq<Option<Seq<char>>>, ok: Seq<bool>, i: int) -> Option<
    Option<Seq<char>>,
>
    decreases servers.len() - i,
{
    if 0 <= i < servers.len() && i < ok.len() {
        if ok[i] {
            Some(servers[i])
        } else {
            first_answer(servers, ok, i + 1)
        }
    } else {
        None
    }
}

/// The form of an optional address.
pub open spec fn server_view(o: Option<Option<String>>) -> Option<Option<Seq<char>>> {
    match o {
        Some(s) => Some(opt_text(s)),
        None => None,
    }
}

/// The first address that answered, in the order in which they were asked.
pub fn first_reachable_server(servers: &Vec<Option<String>>, ok: &Vec<bool>) -> (r: Option<
    Option<String>,
>)
    ensures
        server_view(r) == first_answer(servers_view(servers@), ok@, 0),
{
    let ghost s = servers_view(servers@);
    let mut i: usize = 0;
    while i < servers.len() && i < ok.len()
        invariant
            i <= servers.len(),
            s == servers_view(servers@),
            first_answer(s, ok@, 0) == first_answer(s, ok@, i as int),
        decreases servers.len() - i,
    {
        assert(s[i as int] == opt_text(servers@[i as int]));
        if ok[i] {
            return Some(
                match &servers[i] {
                    Some(t) => Some(lit(t)),
                    None => None,
                },
            );
        }
        i += 1;
    }
    None
}

/// One of the answers is good.
pub open spec fn any_true(ok: Seq<bool>) -> bool {
    exists|i: int| 0 <= i < ok.len() && #[trigger] ok[i]
}

/// What a round of asking settles; nothing where the addresses of the nodes are
/// to be found anew and asked once more. `answers` is missing where the cluster
/// has no kubeconfig; `again` says that the addresses were found anew before.
pub open spec fn probe_settles(answers: Option<Seq<bool>>, again: bool) -> Option<Seq<char>> {
    match answers {
        None => Some("unknown"@),
        Some(ok) => if any_true(ok) {
            Some("online"@)
        } else if again {
            Some("offline"@)
        } else {
            None
        },
    }
}

fn any_answered(ok: &Vec<bool>) -> (r: bool)
    ensures
        r == any_true(ok@),
{
    let mut i: usize = 0;
    while i < ok.len()
        invariant
            i <= ok.len(),
            forall|k: int| 0 <= k < i ==> !#[trigger] ok@[k],
        decreases ok.len() - i,
    {
        if ok[i] {
            assert(ok@[i as int]);
            return true;
        }
        i += 1;
    }
    false
}

/// The answers of a round.
pub open spec fn answers_view(o: Option<Vec<bool>>) -> Option<Seq<bool>> {
    match o {
        Some(v) => Some(v@),
        None => None,
    }
}

/// Decides after a round of asking.
pub fn probe_settled(answers: &Option<Vec<bool>>, again: bool) -> (r: Option<String>)
    ensures
        opt_text(r) == probe_settles(answers_view(*answers), again),
{
    match answers {
        None => Some(lit("unknown")),
        Some(ok) => if any_answered(ok) {
            Some(lit("online"))
        } else if again {
            Some(lit("offline"))
        } else {
            None
        },
    }
}

/// A cluster is called offline only after its addresses were found anew and none
/// answered; one without a kubeconfig is neither online nor offline.
pub proof fn law_offline_only_after_a_second_look(answers: Option<Seq<bool>>, again: bool)
    ensures
        probe_settles(answers, again) == Some("offline"@) ==> answers is Some && again && forall|
            i: int,
        |
            0 <= i < answers->0.len() ==> !#[trigger] answers->0[i],
        probe_settles(None, again) == Some("unknown"@),
        probe_settles(answers, true) is Some,
{
    reveal_strlit("offline");
    reveal_strlit("unknown");
    reveal_strlit("online");
    assert("offline"@.len() == 7 && "online"@.len() == 6);
    assert("unknown"@[0] != "offline"@[0]);
}

/// A cluster that is not ready is never shown as online or offline.
pub proof fn law_only_ready_clusters_are_judged(
    a: Availability,
    id: Seq<char>,
    status: Seq<char>,
    now: u64,
)
    requires
        status != "ready"@,
    ensures
        shown(a, id, status, now) == "unknown"@,
{
}

/// An answer is given out unchanged until it is stale, and not after that.
pub proof fn law_answer_lasts(a: Availability, id: Seq<char>, at: u64, avail: Seq<char>, now: u64)
    requires
        a.known(id) == Some((at, avail)),
        at <= now,
    ensures
        shown(a, id, "ready"@, now) == (if now - at <= STALE_TTL_MS {
            avail
        } else {
            "unknown"@
        }),
{
}

/// A cluster that answers at any of its servers is online; one that answers at
/// none is offline once it was asked again; where nothing could be asked, nothing
/// is known.
pub proof fn law_what_answers_mean(ok: Seq<bool>, i: int)
    ensures
        0 <= i < ok.len() && ok[i] ==> probe_settles(Some(ok), false) == Some("online"@)
            && probe_settles(Some(ok), true) == Some("online"@),
        (forall|k: int| 0 <= k < ok.len() ==> !(#[trigger] ok[k])) ==> probe_settles(Some(ok), true)
            == Some("offline"@) && probe_settles(Some(ok), false) is None,
        probe_settles(None, true) == Some("unknown"@) && probe_settles(None, false) == Some(
            "unknown"@,
        ),
{
}

/// A cluster is asked at the server of its kubeconfig and at each of its control
/// planes that has an address.
pub proof fn law_servers_that_are_asked(ips: Seq<Option<String>>, n: int, k: int)
    requires
        0 <= n <= ips.len(),
    ensures
        readyz_servers(ips, n).len() > 0 && readyz_servers(ips, n)[0] is None,
        0 <= k < n && ips[k] is Some && trim(ips[k]->0@).len() > 0 ==> readyz_servers(
            ips,
            n,
        ).contains(Some("https://"@ + trim(ips[k]->0@) + ":6443"@)),
        readyz_servers(ips, n).len() <= n + 1,
    decreases n,
{
    if n > 0 {
        law_servers_that_are_asked(ips, n - 1, k);
        let b = readyz_servers(ips, n - 1);
        let r = readyz_servers(ips, n);
        assert(r[0] == b[0]);
        if 0 <= k < n && ips[k] is Some && trim(ips[k]->0@).len() > 0 {
            let x = Some("https://"@ + trim(ips[k]->0@) + ":6443"@);
            if k < n - 1 {
                let i = choose|i: int| 0 <= i < b.len() && b[i] == x;
                assert(r[i] == x);
            } else {
                assert(r[r.len() - 1] == x);
            }
        }
    }
}

/// The server that is used is the first that answers.
pub proof fn law_first_server_that_answers(
    servers: Seq<Option<Seq<char>>>,
    ok: Seq<bool>,
    i: int,
)
    requires
        0 <= i <= servers.len(),
        servers.len() == ok.len(),
    ensures
        match first_answer(servers, ok, i) {
            Some(s) => exists|k: int|
                i <= k < servers.len() && #[trigger] ok[k] && servers[k] == s && forall|m: int|
                    i <= m < k ==> !(#[trigger] ok[m]),
            None => forall|m: int| i <= m < servers.len() ==> !(#[trigger] ok[m]),
        },
    decreases servers.len() - i,
{
    if i < servers.len() && !ok[i] {
        law_first_server_that_answers(servers, ok, i + 1);
        if first_answer(servers, ok, i + 1) is Some {
            let s = first_answer(servers, ok, i + 1)->0;
            let k = choose|k: int|
                i + 1 <= k < servers.len() && #[trigger] ok[k] && servers[k] == s && forall|m: int|
                    i + 1 <= m < k ==> !(#[trigger] ok[m]);
            assert(ok[k] && servers[k] == s);
        }
    }
}

/// What is shown of a cluster that is ready is its last answer while that is at
/// most two minutes old, and unknown after that; of one that is not ready nothing
/// is known.
pub proof fn law_shown_availability(
    a: Availability,
    id: Seq<char>,
    status: Seq<char>,
    at: u64,
    now: u64,
    avail: Seq<char>,
)
    requires
        a.known(id) == Some((at, avail)),
        at <= now,
    ensures
        status == "ready"@ && now - at <= 120_000 ==> shown(a, id, status, now) == avail,
        now - at > 120_000 ==> shown(a, id, status, now) == "unknown"@,
        status != "ready"@ ==> shown(a, id, status, now) == "unknown"@,
{
}

/// The servers that may be asked: that of the kubeconfig first, then each that is
/// named.
pub proof fn law_servers_that_may_be_asked(extra: Seq<String>, n: int, k: int)
    requires
        0 <= n <= extra.len(),
    ensures
        candidates_from(extra, n).len() > 0 && candidates_from(extra, n)[0] is None,
        0 <= k < n && trim(extra[k]@).len() > 0 ==> candidates_from(extra, n).contains(
            Some(trim(extra[k]@)),
        ),
    decreases n,
{
    if n > 0 {
        law_servers_that_may_be_asked(extra, n - 1, k);
        let b = candidates_from(extra, n - 1);
        let r = candidates_from(extra, n);
        assert(r[0] == b[0]);
        if 0 <= k < n && trim(extra[k]@).len() > 0 {
            let x = Some(trim(extra[k]@));
            if k < n - 1 {
                let i = choose|i: int| 0 <= i < b.len() && b[i] == x;
                assert(r[i] == x);
            } else {
                assert(r[r.len() - 1] == x);
            }
        }
    }
}

} // verus!
