//! Compact forms of workloads, from the objects that `kubectl` prints.
use crate::json::{
    Json, JsonV, bool_in, count_json, is_true, item_at, items_in, items_len, jobj, nat_in, nat_or,
    opt_view, str_arr, str_in, str_of, str_or, text_or, u64_or,
};
use crate::num::{dec, law_dec_value, lemma_dec_digits, u64_str, value};
use crate::text::{all_digits, lit, no_texts, opt_text, put, texts};
use crate::time::{
    ordinary, read_rfc3339, rfc3339_instant, seconds_between, seconds_from_to, whole_seconds,
};
use vstd::prelude::*;
use vstd::string::*;

verus! {

/// A number of seconds in its largest unit: seconds, minutes, hours up to two
/// days, days.
pub open spec fn age_text(secs: int) -> Seq<char> {
    let s = if secs < 0 {
        0
    } else {
        secs
    };
    if s < 60 {
        dec(s as nat) + "s"@
    } else if s / 60 < 60 {
        dec((s / 60) as nat) + "m"@
    } else if s / 3600 < 48 {
        dec((s / 3600) as nat) + "h"@
    } else {
        dec((s / 86400) as nat) + "d"@
    }
}

pub fn show_age(secs: i64) -> (r: String)
    ensures
        r@ == age_text(secs as int),
{
    let s: u64 = if secs < 0 {
        0
    } else {
        secs as u64
    };
    if s < 60 {
        return u64_str(s).concat("s");
    }
    let mins: u64 = s / 60;
    if mins < 60 {
        return u64_str(mins).concat("m");
    }
    let hours: u64 = mins / 60;
    assert(hours == s / 3600);
    if hours < 48 {
        return u64_str(hours).concat("h");
    }
    assert(hours / 24 == s / 86400);
    u64_str(hours / 24).concat("d")
}

/// The age of an item: of one without a time a dash, and where its time cannot
/// be read or counted from the text of the time itself.
pub open spec fn shown_age(creation: Option<Seq<char>>, now: (int, nat)) -> Seq<char> {
    match creation {
        Some(raw) => match rfc3339_instant(raw) {
            Some(t) => match whole_seconds(t, now) {
                Some(secs) => age_text(secs),
                None => raw,
            },
            None => raw,
        },
        None => "—"@,
    }
}

/// The age of an item at `now`, in seconds and nanoseconds since the epoch.
pub fn item_age(creation: &Option<String>, now: (i64, u32)) -> (r: String)
    ensures
        r@ == shown_age(opt_text(*creation), (now.0 as int, now.1 as nat)),
        creation is Some && rfc3339_instant(creation->0@) is Some && ordinary(
            rfc3339_instant(creation->0@)->0,
        ) && ordinary((now.0 as int, now.1 as nat)) ==> r@ == age_text(
            seconds_from_to(rfc3339_instant(creation->0@)->0, (now.0 as int, now.1 as nat)),
        ),
{
    match creation {
        Some(raw) => match read_rfc3339(raw) {
            Some(t) => match seconds_between(t, now) {
                Some(secs) => show_age(secs),
                None => lit(raw),
            },
            None => lit(raw),
        },
        None => lit("—"),
    }
}

/// The name of an object.
pub open spec fn object_name(j: JsonV) -> Seq<char> {
    text_or(str_in(j.get2("metadata"@, "name"@)), ""@)
}

/// The namespace of an object.
pub open spec fn object_namespace(j: JsonV) -> Seq<char> {
    text_or(str_in(j.get2("metadata"@, "namespace"@)), "default"@)
}

/// The age of an object.
pub open spec fn object_age(j: JsonV, now: (int, nat)) -> Seq<char> {
    shown_age(str_in(j.get2("metadata"@, "creationTimestamp"@)), now)
}

fn name_of(j: &Json) -> (r: String)
    ensures
        r@ == object_name(j@),
{
    str_or(j.get2("metadata", "name"), "")
}

fn namespace_of(j: &Json) -> (r: String)
    ensures
        r@ == object_namespace(j@),
{
    str_or(j.get2("metadata", "namespace"), "default")
}

fn age_of(j: &Json, now: (i64, u32)) -> (r: String)
    ensures
        r@ == object_age(j@, (now.0 as int, now.1 as nat)),
{
    item_age(&str_of(j.get2("metadata", "creationTimestamp")), now)
}

/// The texts of a field of the first `n` elements, of those that have it.
pub open spec fn field_texts(s: Seq<JsonV>, key: Seq<char>, n: int) -> Seq<Seq<char>>
    decreases n,
{
    if 0 < n <= s.len() {
        match str_in(s[n - 1].get(key)) {
            Some(t) => field_texts(s, key, n - 1).push(t),
            None => field_texts(s, key, n - 1),
        }
    } else {
        Seq::empty()
    }
}

/// The texts of a field of all elements.
pub open spec fn all_texts(o: Option<JsonV>, key: Seq<char>) -> JsonV {
    str_arr(field_texts(items_in(o), key, items_in(o).len() as int))
}

fn texts_of(o: Option<&Json>, key: &str) -> (r: Json)
    ensures
        r@ == all_texts(opt_view(o), key@),
{
    let ghost s = items_in(opt_view(o));
    let n = items_len(o);
    let mut out = no_texts();
    let mut i: usize = 0;
    while i < n
        invariant
            i <= n,
            s == items_in(opt_view(o)),
            n == s.len(),
            texts(out@) == field_texts(s, key@, i as int),
        decreases n - i,
    {
        match str_of(item_at(o, i).get(key)) {
            Some(t) => put(&mut out, &t),
            None => {},
        }
        i += 1;
    }
    Json::text_array(&out)
}

/// The containers of the pods that an object makes.
pub open spec fn template_containers(j: JsonV) -> Option<JsonV> {
    match j.get3("spec"@, "template"@, "spec"@) {
        Some(s) => s.get("containers"@),
        None => None,
    }
}

fn containers_of(j: &Json) -> (r: Option<&Json>)
    ensures
        opt_view(r) == template_containers(j@),
{
    match j.get3("spec", "template", "spec") {
        Some(s) => s.get("containers"),
        None => None,
    }
}

/// A count, none where it is not given.
pub open spec fn counted(o: Option<JsonV>) -> nat {
    nat_or(nat_in(o), 0)
}

/// A count as it is given, zero where it is not.
pub open spec fn count_given(o: Option<JsonV>) -> JsonV {
    if nat_in(o) is Some {
        o->0
    } else {
        JsonV::Int(0)
    }
}

fn given_count(o: Option<&Json>) -> (r: Json)
    ensures
        r@ == count_given(opt_view(o)),
{
    match o {
        Some(j) => match j.as_u64() {
            Some(_) => j.dup(),
            None => Json::Int(0),
        },
        None => Json::Int(0),
    }
}

/// How many there are of how many.
pub open spec fn ratio(a: nat, b: nat) -> Seq<char> {
    dec(a) + "/"@ + dec(b)
}

fn show_ratio(a: u64, b: u64) -> (r: String)
    ensures
        r@ == ratio(a as nat, b as nat),
{
    u64_str(a).concat("/").concat(&u64_str(b))
}

/// The compact form of a namespace.
pub open spec fn namespace_doc(j: JsonV, now: (int, nat)) -> JsonV {
    jobj().with("name"@, JsonV::Str(object_name(j))).with(
        "status"@,
        JsonV::Str(text_or(str_in(j.get2("status"@, "phase"@)), "Active"@)),
    ).with("age"@, JsonV::Str(object_age(j, now)))
}

pub fn transform_namespace(obj: &Json, now: (i64, u32)) -> (r: Json)
    ensures
        r@ == namespace_doc(obj@, (now.0 as int, now.1 as nat)),
{
    Json::object().with("name", Json::text(&name_of(obj))).with(
        "status",
        Json::text(&str_or(obj.get2("status", "phase"), "Active")),
    ).with("age", Json::text(&age_of(obj, now)))
}

/// How far a workload has come.
pub open spec fn progress_of(desired: nat, ready: nat, available: nat) -> Seq<char> {
    if desired == 0 {
        "Stopped"@
    } else if ready >= desired && available >= desired {
        "Running"@
    } else if ready > 0 {
        "Progressing"@
    } else {
        "Pending"@
    }
}

fn show_progress(desired: u64, ready: u64, available: u64) -> (r: String)
    ensures
        r@ == progress_of(desired as nat, ready as nat, available as nat),
{
    if desired == 0 {
        lit("Stopped")
    } else if ready >= desired && available >= desired {
        lit("Running")
    } else if ready > 0 {
        lit("Progressing")
    } else {
        lit("Pending")
    }
}

/// The labels that select the pods of an object.
pub open spec fn selector_of(j: JsonV) -> JsonV {
    match j.get3("spec"@, "selector"@, "matchLabels"@) {
        Some(s) => s,
        None => JsonV::Null,
    }
}

fn find_selector(j: &Json) -> (r: Json)
    ensures
        r@ == selector_of(j@),
{
    match j.get3("spec", "selector", "matchLabels") {
        Some(s) => s.dup(),
        None => Json::Null,
    }
}

/// The compact form of a deployment.
pub open spec fn deployment_doc(j: JsonV, now: (int, nat)) -> JsonV {
    let desired = counted(j.get2("spec"@, "replicas"@));
    let ready = counted(j.get2("status"@, "readyReplicas"@));
    let available = counted(j.get2("status"@, "availableReplicas"@));
    jobj().with("kind"@, JsonV::Str("deployments"@)).with("name"@, JsonV::Str(object_name(j))).with(
        "namespace"@,
        JsonV::Str(object_namespace(j)),
    ).with("status"@, JsonV::Str(progress_of(desired, ready, available))).with(
        "ready"@,
        JsonV::Str(ratio(ready, desired)),
    ).with("updated"@, count_given(j.get2("status"@, "updatedReplicas"@))).with(
        "available"@,
        count_given(j.get2("status"@, "availableReplicas"@)),
    ).with("images"@, all_texts(template_containers(j), "image"@)).with(
        "age"@,
        JsonV::Str(object_age(j, now)),
    ).with("replicas"@, count_given(j.get2("spec"@, "replicas"@))).with(
        "selector"@,
        selector_of(j),
    )
}

pub fn transform_deployment(obj: &Json, now: (i64, u32)) -> (r: Json)
    ensures
        r@ == deployment_doc(obj@, (now.0 as int, now.1 as nat)),
{
    let desired: u64 = u64_or(obj.get2("spec", "replicas"), 0);
    let ready: u64 = u64_or(obj.get2("status", "readyReplicas"), 0);
    let available: u64 = u64_or(obj.get2("status", "availableReplicas"), 0);
    Json::object().with("kind", Json::text("deployments")).with(
        "name",
        Json::text(&name_of(obj)),
    ).with("namespace", Json::text(&namespace_of(obj))).with(
        "status",
        Json::text(&show_progress(desired, ready, available)),
    ).with("ready", Json::text(&show_ratio(ready, desired))).with(
        "updated",
        given_count(obj.get2("status", "updatedReplicas")),
    ).with("available", given_count(obj.get2("status", "availableReplicas"))).with(
        "images",
        texts_of(containers_of(obj), "image"),
    ).with("age", Json::text(&age_of(obj, now))).with(
        "replicas",
        given_count(obj.get2("spec", "replicas")),
    ).with("selector", find_selector(obj))
}

/// The compact form of a stateful set.
pub open spec fn statefulset_doc(j: JsonV, now: (int, nat)) -> JsonV {
    let desired = counted(j.get2("spec"@, "replicas"@));
    let ready = counted(j.get2("status"@, "readyReplicas"@));
    jobj().with("kind"@, JsonV::Str("statefulsets"@)).with(
        "name"@,
        JsonV::Str(object_name(j)),
    ).with("namespace"@, JsonV::Str(object_namespace(j))).with(
        "status"@,
        JsonV::Str(progress_of(desired, ready, ready)),
    ).with("ready"@, JsonV::Str(ratio(ready, desired))).with(
        "images"@,
        all_texts(template_containers(j), "image"@),
    ).with("age"@, JsonV::Str(object_age(j, now))).with(
        "replicas"@,
        count_given(j.get2("spec"@, "replicas"@)),
    )
}

pub fn transform_statefulset(obj: &Json, now: (i64, u32)) -> (r: Json)
    ensures
        r@ == statefulset_doc(obj@, (now.0 as int, now.1 as nat)),
{
    let desired: u64 = u64_or(obj.get2("spec", "replicas"), 0);
    let ready: u64 = u64_or(obj.get2("status", "readyReplicas"), 0);
    Json::object().with("kind", Json::text("statefulsets")).with(
        "name",
        Json::text(&name_of(obj)),
    ).with("namespace", Json::text(&namespace_of(obj))).with(
        "status",
        Json::text(&show_progress(desired, ready, ready)),
    ).with("ready", Json::text(&show_ratio(ready, desired))).with(
        "images",
        texts_of(containers_of(obj), "image"),
    ).with("age", Json::text(&age_of(obj, now))).with(
        "replicas",
        given_count(obj.get2("spec", "replicas")),
    )
}

/// How far a daemon set has come. One that is meant for no node is pending.
pub open spec fn spread_of(desired: nat, ready: nat) -> Seq<char> {
    if desired == 0 {
        "Pending"@
    } else {
        progress_of(desired, ready, ready)
    }
}

/// The compact form of a daemon set.
pub open spec fn daemonset_doc(j: JsonV, now: (int, nat)) -> JsonV {
    let desired = counted(j.get2("status"@, "desiredNumberScheduled"@));
    let ready = counted(j.get2("status"@, "numberReady"@));
    jobj().with("kind"@, JsonV::Str("daemonsets"@)).with("name"@, JsonV::Str(object_name(j))).with(
        "namespace"@,
        JsonV::Str(object_namespace(j)),
    ).with("status"@, JsonV::Str(spread_of(desired, ready))).with(
        "ready"@,
        JsonV::Str(ratio(ready, desired)),
    ).with("images"@, all_texts(template_containers(j), "image"@)).with(
        "age"@,
        JsonV::Str(object_age(j, now)),
    )
}

pub fn transform_daemonset(obj: &Json, now: (i64, u32)) -> (r: Json)
    ensures
        r@ == daemonset_doc(obj@, (now.0 as int, now.1 as nat)),
{
    let desired: u64 = u64_or(obj.get2("status", "desiredNumberScheduled"), 0);
    let ready: u64 = u64_or(obj.get2("status", "numberReady"), 0);
    let label = if desired == 0 {
        lit("Pending")
    } else {
        show_progress(desired, ready, ready)
    };
    Json::object().with("kind", Json::text("daemonsets")).with(
        "name",
        Json::text(&name_of(obj)),
    ).with("namespace", Json::text(&namespace_of(obj))).with("status", Json::text(&label)).with(
        "ready",
        Json::text(&show_ratio(ready, desired)),
    ).with("images", texts_of(containers_of(obj), "image")).with(
        "age",
        Json::text(&age_of(obj, now)),
    )
}

/// The state of a job.
pub open spec fn job_state(succeeded: nat, completions: nat, failed: nat, active: nat) -> Seq<
    char,
> {
    if succeeded >= completions {
        "Complete"@
    } else if failed > 0 {
        "Failed"@
    } else if active > 0 {
        "Running"@
    } else {
        "Pending"@
    }
}

/// The compact form of a job.
pub open spec fn job_doc(j: JsonV, now: (int, nat)) -> JsonV {
    let succeeded = counted(j.get2("status"@, "succeeded"@));
    let completions = nat_or(nat_in(j.get2("spec"@, "completions"@)), 1);
    jobj().with("kind"@, JsonV::Str("jobs"@)).with("name"@, JsonV::Str(object_name(j))).with(
        "namespace"@,
        JsonV::Str(object_namespace(j)),
    ).with(
        "status"@,
        JsonV::Str(
            job_state(
                succeeded,
                completions,
                counted(j.get2("status"@, "failed"@)),
                counted(j.get2("status"@, "active"@)),
            ),
        ),
    ).with("ready"@, JsonV::Str(ratio(succeeded, completions))).with(
        "age"@,
        JsonV::Str(object_age(j, now)),
    )
}

pub fn transform_job(obj: &Json, now: (i64, u32)) -> (r: Json)
    ensures
        r@ == job_doc(obj@, (now.0 as int, now.1 as nat)),
{
    let succeeded: u64 = u64_or(obj.get2("status", "succeeded"), 0);
    let failed: u64 = u64_or(obj.get2("status", "failed"), 0);
    let active: u64 = u64_or(obj.get2("status", "active"), 0);
    let completions: u64 = u64_or(obj.get2("spec", "completions"), 1);
    let label = if succeeded >= completions {
        lit("Complete")
    } else if failed > 0 {
        lit("Failed")
    } else if active > 0 {
        lit("Running")
    } else {
        lit("Pending")
    };
    Json::object().with("kind", Json::text("jobs")).with("name", Json::text(&name_of(obj))).with(
        "namespace",
        Json::text(&namespace_of(obj)),
    ).with("status", Json::text(&label)).with(
        "ready",
        Json::text(&show_ratio(succeeded, completions)),
    ).with("age", Json::text(&age_of(obj, now)))
}

/// The compact form of a cron job.
pub open spec fn cronjob_doc(j: JsonV, now: (int, nat)) -> JsonV {
    jobj().with("kind"@, JsonV::Str("cronjobs"@)).with("name"@, JsonV::Str(object_name(j))).with(
        "namespace"@,
        JsonV::Str(object_namespace(j)),
    ).with(
        "status"@,
        JsonV::Str(
            if bool_in(j.get2("spec"@, "suspend"@)) == Some(true) {
                "Suspended"@
            } else {
                "Active"@
            },
        ),
    ).with("ready"@, JsonV::Str("—"@)).with(
        "schedule"@,
        JsonV::Str(text_or(str_in(j.get2("spec"@, "schedule"@)), ""@)),
    ).with("age"@, JsonV::Str(object_age(j, now))).with(
        "lastSchedule"@,
        JsonV::Str(text_or(str_in(j.get2("status"@, "lastScheduleTime"@)), "—"@)),
    )
}

pub fn transform_cronjob(obj: &Json, now: (i64, u32)) -> (r: Json)
    ensures
        r@ == cronjob_doc(obj@, (now.0 as int, now.1 as nat)),
{
    let label = if is_true(obj.get2("spec", "suspend")) {
        lit("Suspended")
    } else {
        lit("Active")
    };
    Json::object().with("kind", Json::text("cronjobs")).with(
        "name",
        Json::text(&name_of(obj)),
    ).with("namespace", Json::text(&namespace_of(obj))).with("status", Json::text(&label)).with(
        "ready",
        Json::text("—"),
    ).with("schedule", Json::text(&str_or(obj.get2("spec", "schedule"), ""))).with(
        "age",
        Json::text(&age_of(obj, now)),
    ).with("lastSchedule", Json::text(&str_or(obj.get2("status", "lastScheduleTime"), "—")))
}

/// The states of a pod's containers.
pub open spec fn container_states(j: JsonV) -> Seq<JsonV> {
    items_in(j.get2("status"@, "containerStatuses"@))
}

/// How many of the first `n` containers are ready.
pub open spec fn ready_count(s: Seq<JsonV>, n: int) -> nat
    decreases n,
{
    if 0 < n <= s.len() {
        if bool_in(s[n - 1].get("ready"@)) == Some(true) {
            ready_count(s, n - 1) + 1
        } else {
            ready_count(s, n - 1)
        }
    } else {
        0
    }
}

/// How often the first `n` containers were restarted.
pub open spec fn restart_count(s: Seq<JsonV>, n: int) -> nat
    decreases n,
{
    if 0 < n <= s.len() {
        restart_count(s, n - 1) + counted(s[n - 1].get("restartCount"@))
    } else {
        0
    }
}

proof fn lemma_ready_bound(s: Seq<JsonV>, n: int)
    requires
        0 <= n,
    ensures
        ready_count(s, n) <= n,
    decreases n,
{
    if 0 < n <= s.len() {
        lemma_ready_bound(s, n - 1);
    }
}

fn count_ready(o: Option<&Json>) -> (r: u64)
    ensures
        r == ready_count(items_in(opt_view(o)), items_in(opt_view(o)).len() as int),
{
    let ghost s = items_in(opt_view(o));
    let n = items_len(o);
    let mut ready: u64 = 0;
    let mut i: usize = 0;
    while i < n
        invariant
            i <= n,
            s == items_in(opt_view(o)),
            n == s.len(),
            ready == ready_count(s, i as int),
        decreases n - i,
    {
        proof {
            lemma_ready_bound(s, i as int);
        }
        if is_true(item_at(o, i).get("ready")) {
            ready += 1;
        }
        i += 1;
    }
    ready
}

proof fn lemma_restarts_grow(s: Seq<JsonV>, a: int, b: int)
    requires
        0 <= a <= b <= s.len(),
    ensures
        restart_count(s, a) <= restart_count(s, b),
    decreases b - a,
{
    if a < b {
        lemma_restarts_grow(s, a, b - 1);
    }
}

/// How often the containers of a pod were restarted, where the number can be
/// held.
pub fn pod_restarts(obj: &Json) -> (r: Option<u64>)
    ensures
        ({
            let s = container_states(obj@);
            let n = restart_count(s, s.len() as int);
            match r {
                Some(x) => x == n,
                None => n > u64::MAX,
            }
        }),
{
    let o = obj.get2("status", "containerStatuses");
    let ghost s = items_in(opt_view(o));
    let n = items_len(o);
    let mut total: u64 = 0;
    let mut i: usize = 0;
    while i < n
        invariant
            i <= n,
            s == items_in(opt_view(o)),
            s == container_states(obj@),
            n == s.len(),
            total == restart_count(s, i as int),
        decreases n - i,
    {
        let c: u64 = u64_or(item_at(o, i).get("restartCount"), 0);
        assert(restart_count(s, i + 1) == total + c);
        match total.checked_add(c) {
            Some(t) => {
                total = t;
            },
            None => {
                proof {
                    lemma_restarts_grow(s, i + 1, n as int);
                }
                return None;
            },
        }
        i += 1;
    }
    Some(total)
}

/// The node of a pod: its address, else its name.
pub open spec fn pod_node(j: JsonV) -> Seq<char> {
    match str_in(j.get2("status"@, "hostIP"@)) {
        Some(h) => h,
        None => text_or(str_in(j.get2("spec"@, "nodeName"@)), "—"@),
    }
}

fn find_pod_node(j: &Json) -> (r: String)
    ensures
        r@ == pod_node(j@),
{
    match str_of(j.get2("status", "hostIP")) {
        Some(h) => h,
        None => str_or(j.get2("spec", "nodeName"), "—"),
    }
}

/// The compact form of a pod.
pub open spec fn pod_doc(j: JsonV, now: (int, nat)) -> JsonV {
    let s = container_states(j);
    let n = s.len();
    jobj().with("kind"@, JsonV::Str("pods"@)).with("name"@, JsonV::Str(object_name(j))).with(
        "namespace"@,
        JsonV::Str(object_namespace(j)),
    ).with("status"@, JsonV::Str(text_or(str_in(j.get2("status"@, "phase"@)), "Unknown"@))).with(
        "ready"@,
        JsonV::Str(ratio(ready_count(s, n as int), n)),
    ).with("restarts"@, count_json(restart_count(s, n as int))).with(
        "images"@,
        all_texts(j.get2("spec"@, "containers"@), "image"@),
    ).with("containers"@, all_texts(j.get2("spec"@, "containers"@), "name"@)).with(
        "node"@,
        JsonV::Str(pod_node(j)),
    ).with("age"@, JsonV::Str(object_age(j, now)))
}

/// The compact form of a pod whose restarts, counted over its containers, can be
/// held in a number.
pub fn transform_pod(obj: &Json, now: (i64, u32)) -> (r: Json)
    requires
        restart_count(container_states(obj@), container_states(obj@).len() as int) <= u64::MAX,
    ensures
        r@ == pod_doc(obj@, (now.0 as int, now.1 as nat)),
{
    let states = obj.get2("status", "containerStatuses");
    let total: usize = items_len(states);
    let ready: u64 = count_ready(states);
    let restarts: u64 = match pod_restarts(obj) {
        Some(n) => n,
        None => 0,
    };
    Json::object().with("kind", Json::text("pods")).with("name", Json::text(&name_of(obj))).with(
        "namespace",
        Json::text(&namespace_of(obj)),
    ).with("status", Json::text(&str_or(obj.get2("status", "phase"), "Unknown"))).with(
        "ready",
        Json::text(&show_ratio(ready, total as u64)),
    ).with("restarts", Json::count(restarts)).with(
        "images",
        texts_of(obj.get2("spec", "containers"), "image"),
    ).with("containers", texts_of(obj.get2("spec", "containers"), "name")).with(
        "node",
        Json::text(&find_pod_node(obj)),
    ).with("age", Json::text(&age_of(obj, now)))
}

// ---------------------------------------------------------------------------
// What is shown of a workload
// ---------------------------------------------------------------------------

/// The number under two names of an object, zero where there is none.
pub open spec fn number_in(j: JsonV, a: Seq<char>, b: Seq<char>) -> nat {
    match j.get(a) {
        Some(x) => match x.get(b) {
            Some(y) => match y.as_nat() {
                Some(n) => n,
                None => 0,
            },
            None => 0,
        },
        None => 0,
    }
}

/// The text under a name of a shown document.
pub open spec fn shows(d: JsonV, name: Seq<char>, text: Seq<char>) -> bool {
    d.get(name) == Some(JsonV::Str(text))
}

/// The text is two numbers with a slash between them.
pub open spec fn is_share(t: Seq<char>, a: nat, b: nat) -> bool {
    exists|x: Seq<char>, y: Seq<char>|
        #![trigger x + "/"@ + y]
        t == x + "/"@ + y && all_digits(x) && all_digits(y) && value(x) == a && value(y) == b
            && x.len() > 0 && y.len() > 0
}

proof fn lemma_is_share(a: nat, b: nat)
    ensures
        is_share(ratio(a, b), a, b),
{
    lemma_dec_digits(a);
    lemma_dec_digits(b);
    law_dec_value(a);
    law_dec_value(b);
    assert(ratio(a, b) == dec(a) + "/"@ + dec(b));
}

/// What is shown of the name and the namespace of an object: its own, and
/// `default` for one without a namespace.
pub open spec fn shows_place(d: JsonV, j: JsonV, kind: Seq<char>) -> bool {
    let meta = j.get("metadata"@);
    &&& shows(d, "kind"@, kind)
    &&& shows(
        d,
        "name"@,
        match meta {
            Some(m) => match m.get("name"@) {
                Some(JsonV::Str(t)) => t,
                _ => ""@,
            },
            None => ""@,
        },
    )
    &&& shows(
        d,
        "namespace"@,
        match meta {
            Some(m) => match m.get("namespace"@) {
                Some(JsonV::Str(t)) => t,
                _ => "default"@,
            },
            None => "default"@,
        },
    )
}

proof fn lemma_shown_names()
    ensures
        "kind"@ != "name"@,
        "kind"@ != "namespace"@,
        "kind"@ != "status"@,
        "kind"@ != "ready"@,
        "kind"@ != "updated"@,
        "kind"@ != "available"@,
        "kind"@ != "images"@,
        "kind"@ != "age"@,
        "kind"@ != "replicas"@,
        "kind"@ != "selector"@,
        "kind"@ != "schedule"@,
        "kind"@ != "lastSchedule"@,
        "kind"@ != "restarts"@,
        "kind"@ != "containers"@,
        "kind"@ != "node"@,
        "name"@ != "namespace"@,
        "name"@ != "status"@,
        "name"@ != "ready"@,
        "name"@ != "updated"@,
        "name"@ != "available"@,
        "name"@ != "images"@,
        "name"@ != "age"@,
        "name"@ != "replicas"@,
        "name"@ != "selector"@,
        "name"@ != "schedule"@,
        "name"@ != "lastSchedule"@,
        "name"@ != "restarts"@,
        "name"@ != "containers"@,
        "name"@ != "node"@,
        "namespace"@ != "status"@,
        "namespace"@ != "ready"@,
        "namespace"@ != "updated"@,
        "namespace"@ != "available"@,
        "namespace"@ != "images"@,
        "namespace"@ != "age"@,
        "namespace"@ != "replicas"@,
        "namespace"@ != "selector"@,
        "namespace"@ != "schedule"@,
        "namespace"@ != "lastSchedule"@,
        "namespace"@ != "restarts"@,
        "namespace"@ != "containers"@,
        "namespace"@ != "node"@,
        "status"@ != "ready"@,
        "status"@ != "updated"@,
        "status"@ != "available"@,
        "status"@ != "images"@,
        "status"@ != "age"@,
        "status"@ != "replicas"@,
        "status"@ != "selector"@,
        "status"@ != "schedule"@,
        "status"@ != "lastSchedule"@,
        "status"@ != "restarts"@,
        "status"@ != "containers"@,
        "status"@ != "node"@,
        "ready"@ != "updated"@,
        "ready"@ != "available"@,
        "ready"@ != "images"@,
        "ready"@ != "age"@,
        "ready"@ != "replicas"@,
        "ready"@ != "selector"@,
        "ready"@ != "schedule"@,
        "ready"@ != "lastSchedule"@,
        "ready"@ != "restarts"@,
        "ready"@ != "containers"@,
        "ready"@ != "node"@,
        "updated"@ != "available"@,
        "updated"@ != "images"@,
        "updated"@ != "age"@,
        "updated"@ != "replicas"@,
        "updated"@ != "selector"@,
        "updated"@ != "schedule"@,
        "updated"@ != "lastSchedule"@,
        "updated"@ != "restarts"@,
        "updated"@ != "containers"@,
        "updated"@ != "node"@,
        "available"@ != "images"@,
        "available"@ != "age"@,
        "available"@ != "replicas"@,
        "available"@ != "selector"@,
        "available"@ != "schedule"@,
        "available"@ != "lastSchedule"@,
        "available"@ != "restarts"@,
        "available"@ != "containers"@,
        "available"@ != "node"@,
        "images"@ != "age"@,
        "images"@ != "replicas"@,
        "images"@ != "selector"@,
        "images"@ != "schedule"@,
        "images"@ != "lastSchedule"@,
        "images"@ != "restarts"@,
        "images"@ != "containers"@,
        "images"@ != "node"@,
        "age"@ != "replicas"@,
        "age"@ != "selector"@,
        "age"@ != "schedule"@,
        "age"@ != "lastSchedule"@,
        "age"@ != "restarts"@,
        "age"@ != "containers"@,
        "age"@ != "node"@,
        "replicas"@ != "selector"@,
        "replicas"@ != "schedule"@,
        "replicas"@ != "lastSchedule"@,
        "replicas"@ != "restarts"@,
        "replicas"@ != "containers"@,
        "replicas"@ != "node"@,
        "selector"@ != "schedule"@,
        "selector"@ != "lastSchedule"@,
        "selector"@ != "restarts"@,
        "selector"@ != "containers"@,
        "selector"@ != "node"@,
        "schedule"@ != "lastSchedule"@,
        "schedule"@ != "restarts"@,
        "schedule"@ != "containers"@,
        "schedule"@ != "node"@,
        "lastSchedule"@ != "restarts"@,
        "lastSchedule"@ != "containers"@,
        "lastSchedule"@ != "node"@,
        "restarts"@ != "containers"@,
        "restarts"@ != "node"@,
        "containers"@ != "node"@,
        "Running"@ != "Progressing"@,
        "Running"@ != "Pending"@,
        "Running"@ != "Stopped"@,
        "Running"@ != "Complete"@,
        "Running"@ != "Failed"@,
        "Running"@ != "Suspended"@,
        "Running"@ != "Active"@,
        "Progressing"@ != "Pending"@,
        "Progressing"@ != "Stopped"@,
        "Progressing"@ != "Complete"@,
        "Progressing"@ != "Failed"@,
        "Progressing"@ != "Suspended"@,
        "Progressing"@ != "Active"@,
        "Pending"@ != "Stopped"@,
        "Pending"@ != "Complete"@,
        "Pending"@ != "Failed"@,
        "Pending"@ != "Suspended"@,
        "Pending"@ != "Active"@,
        "Stopped"@ != "Complete"@,
        "Stopped"@ != "Failed"@,
        "Stopped"@ != "Suspended"@,
        "Stopped"@ != "Active"@,
        "Complete"@ != "Failed"@,
        "Complete"@ != "Suspended"@,
        "Complete"@ != "Active"@,
        "Failed"@ != "Suspended"@,
        "Failed"@ != "Active"@,
        "Suspended"@ != "Active"@,
{
    reveal_strlit("kind");
    reveal_strlit("name");
    reveal_strlit("namespace");
    reveal_strlit("status");
    reveal_strlit("ready");
    reveal_strlit("updated");
    reveal_strlit("available");
    reveal_strlit("images");
    reveal_strlit("age");
    reveal_strlit("replicas");
    reveal_strlit("selector");
    reveal_strlit("schedule");
    reveal_strlit("lastSchedule");
    reveal_strlit("restarts");
    reveal_strlit("containers");
    reveal_strlit("node");
    assert("kind"@.len() == 4);
    assert("name"@.len() == 4);
    assert("namespace"@.len() == 9);
    assert("status"@.len() == 6);
    assert("ready"@.len() == 5);
    assert("updated"@.len() == 7);
    assert("available"@.len() == 9);
    assert("images"@.len() == 6);
    assert("age"@.len() == 3);
    assert("replicas"@.len() == 8);
    assert("selector"@.len() == 8);
    assert("schedule"@.len() == 8);
    assert("lastSchedule"@.len() == 12);
    assert("restarts"@.len() == 8);
    assert("containers"@.len() == 10);
    assert("node"@.len() == 4);
    assert("kind"@[0] == 'k' && "name"@[0] == 'n');
    assert("kind"@[0] == 'k' && "node"@[0] == 'n');
    assert("name"@[1] == 'a' && "node"@[1] == 'o');
    assert("namespace"@[0] == 'n' && "available"@[0] == 'a');
    assert("status"@[0] == 's' && "images"@[0] == 'i');
    assert("replicas"@[0] == 'r' && "selector"@[0] == 's');
    assert("replicas"@[0] == 'r' && "schedule"@[0] == 's');
    assert("replicas"@[2] == 'p' && "restarts"@[2] == 's');
    assert("selector"@[1] == 'e' && "schedule"@[1] == 'c');
    assert("selector"@[0] == 's' && "restarts"@[0] == 'r');
    assert("schedule"@[0] == 's' && "restarts"@[0] == 'r');
    reveal_strlit("Running");
    reveal_strlit("Progressing");
    reveal_strlit("Pending");
    reveal_strlit("Stopped");
    reveal_strlit("Complete");
    reveal_strlit("Failed");
    reveal_strlit("Suspended");
    reveal_strlit("Active");
    assert("Running"@.len() == 7);
    assert("Progressing"@.len() == 11);
    assert("Pending"@.len() == 7);
    assert("Stopped"@.len() == 7);
    assert("Complete"@.len() == 8);
    assert("Failed"@.len() == 6);
    assert("Suspended"@.len() == 9);
    assert("Active"@.len() == 6);
    assert("Running"@[0] == 'R' && "Pending"@[0] == 'P');
    assert("Running"@[0] == 'R' && "Stopped"@[0] == 'S');
    assert("Pending"@[0] == 'P' && "Stopped"@[0] == 'S');
    assert("Failed"@[0] == 'F' && "Active"@[0] == 'A');
}

/// A deployment is shown as stopped exactly where no replica is wanted, as running
/// exactly where all that are wanted are ready and available, as progressing where
/// some are ready, and as pending where none is.
pub proof fn law_deployment_status(j: JsonV, now: (int, nat))
    ensures
        ({
            let d = deployment_doc(j, now);
            let wanted = number_in(j, "spec"@, "replicas"@);
            let ready = number_in(j, "status"@, "readyReplicas"@);
            let available = number_in(j, "status"@, "availableReplicas"@);
            &&& shows(d, "status"@, "Stopped"@) <==> wanted == 0
            &&& shows(d, "status"@, "Running"@) <==> wanted > 0 && ready >= wanted && available
                >= wanted
            &&& shows(d, "status"@, "Progressing"@) <==> wanted > 0 && ready > 0 && (ready < wanted
                || available < wanted)
            &&& shows(d, "status"@, "Pending"@) <==> wanted > 0 && ready == 0
            &&& exists|t: Seq<char>| #[trigger] shows(d, "ready"@, t) && is_share(t, ready, wanted)
            &&& shows_place(d, j, "deployments"@)
            &&& d.get("replicas"@) is Some && d.get("replicas"@)->0.as_nat() == Some(wanted)
            &&& d.get("available"@) is Some && d.get("available"@)->0.as_nat() == Some(available)
            &&& d.get("updated"@) is Some && d.get("updated"@)->0.as_nat() == Some(
                number_in(j, "status"@, "updatedReplicas"@),
            )
        }),
{
    broadcast use {crate::json::lemma_get_with, crate::json::lemma_get_empty};

    lemma_shown_names();
    let wanted = number_in(j, "spec"@, "replicas"@);
    let ready = number_in(j, "status"@, "readyReplicas"@);
    lemma_is_share(ready, wanted);
    assert(shows(deployment_doc(j, now), "ready"@, ratio(ready, wanted)));
}

/// A stateful set is shown as a deployment whose ready replicas are available.
pub proof fn law_statefulset_status(j: JsonV, now: (int, nat))
    ensures
        ({
            let d = statefulset_doc(j, now);
            let wanted = number_in(j, "spec"@, "replicas"@);
            let ready = number_in(j, "status"@, "readyReplicas"@);
            &&& shows(d, "status"@, "Stopped"@) <==> wanted == 0
            &&& shows(d, "status"@, "Running"@) <==> wanted > 0 && ready >= wanted
            &&& shows(d, "status"@, "Progressing"@) <==> 0 < ready < wanted
            &&& shows(d, "status"@, "Pending"@) <==> wanted > 0 && ready == 0
            &&& exists|t: Seq<char>| #[trigger] shows(d, "ready"@, t) && is_share(t, ready, wanted)
            &&& shows_place(d, j, "statefulsets"@)
            &&& d.get("replicas"@) is Some && d.get("replicas"@)->0.as_nat() == Some(wanted)
        }),
{
    broadcast use {crate::json::lemma_get_with, crate::json::lemma_get_empty};

    lemma_shown_names();
    let wanted = number_in(j, "spec"@, "replicas"@);
    let ready = number_in(j, "status"@, "readyReplicas"@);
    lemma_is_share(ready, wanted);
    assert(shows(statefulset_doc(j, now), "ready"@, ratio(ready, wanted)));
}

/// A daemon set is shown as running exactly where it is ready on all nodes that it
/// is meant for, of which there is one; it is never shown as stopped.
pub proof fn law_daemonset_status(j: JsonV, now: (int, nat))
    ensures
        ({
            let d = daemonset_doc(j, now);
            let wanted = number_in(j, "status"@, "desiredNumberScheduled"@);
            let ready = number_in(j, "status"@, "numberReady"@);
            &&& shows(d, "status"@, "Running"@) <==> wanted > 0 && ready >= wanted
            &&& shows(d, "status"@, "Progressing"@) <==> 0 < ready < wanted
            &&& shows(d, "status"@, "Pending"@) <==> wanted == 0 || ready == 0
            &&& exists|t: Seq<char>| #[trigger] shows(d, "ready"@, t) && is_share(t, ready, wanted)
            &&& shows_place(d, j, "daemonsets"@)
        }),
{
    broadcast use {crate::json::lemma_get_with, crate::json::lemma_get_empty};

    lemma_shown_names();
    let wanted = number_in(j, "status"@, "desiredNumberScheduled"@);
    let ready = number_in(j, "status"@, "numberReady"@);
    lemma_is_share(ready, wanted);
    assert(shows(daemonset_doc(j, now), "ready"@, ratio(ready, wanted)));
}

/// How many completions a job wants: one where it does not say.
pub open spec fn completions_in(j: JsonV) -> nat {
    match j.get("spec"@) {
        Some(s) => match s.get("completions"@) {
            Some(c) => match c.as_nat() {
                Some(n) => n,
                None => 1,
            },
            None => 1,
        },
        None => 1,
    }
}

/// A job is complete exactly where enough runs succeeded; one that is not has
/// failed where a run failed, runs where one is active, and is pending else.
pub proof fn law_job_status(j: JsonV, now: (int, nat))
    ensures
        ({
            let d = job_doc(j, now);
            let done = number_in(j, "status"@, "succeeded"@);
            let wanted = completions_in(j);
            let failed = number_in(j, "status"@, "failed"@);
            let active = number_in(j, "status"@, "active"@);
            &&& shows(d, "status"@, "Complete"@) <==> done >= wanted
            &&& shows(d, "status"@, "Failed"@) <==> done < wanted && failed > 0
            &&& shows(d, "status"@, "Running"@) <==> done < wanted && failed == 0 && active > 0
            &&& shows(d, "status"@, "Pending"@) <==> done < wanted && failed == 0 && active == 0
            &&& exists|t: Seq<char>| #[trigger] shows(d, "ready"@, t) && is_share(t, done, wanted)
            &&& shows_place(d, j, "jobs"@)
        }),
{
    broadcast use {crate::json::lemma_get_with, crate::json::lemma_get_empty};

    lemma_shown_names();
    let done = number_in(j, "status"@, "succeeded"@);
    lemma_is_share(done, completions_in(j));
    assert(shows(job_doc(j, now), "ready"@, ratio(done, completions_in(j))));
}

/// A cron job is suspended exactly where it says so, and shows its schedule.
pub proof fn law_cronjob_status(j: JsonV, now: (int, nat))
    ensures
        ({
            let d = cronjob_doc(j, now);
            let spec = j.get("spec"@);
            let paused = spec is Some && spec->0.get("suspend"@) == Some(JsonV::Bool(true));
            &&& shows(d, "status"@, "Suspended"@) <==> paused
            &&& shows(d, "status"@, "Active"@) <==> !paused
            &&& forall|t: Seq<char>|
                spec is Some && #[trigger] spec->0.get("schedule"@) == Some(JsonV::Str(t)) ==> shows(
                    d,
                    "schedule"@,
                    t,
                )
            &&& shows_place(d, j, "cronjobs"@)
        }),
{
    broadcast use {crate::json::lemma_get_with, crate::json::lemma_get_empty};

    lemma_shown_names();
}

/// The states of the containers of a pod.
pub open spec fn states_in(j: JsonV) -> Seq<JsonV> {
    match j.get("status"@) {
        Some(s) => match s.get("containerStatuses"@) {
            Some(JsonV::Arr(v)) => v,
            _ => Seq::empty(),
        },
        None => Seq::empty(),
    }
}

/// The container says that it is ready.
pub open spec fn says_ready(c: JsonV) -> bool {
    c.get("ready"@) == Some(JsonV::Bool(true))
}

proof fn lemma_ready_is_filtered(s: Seq<JsonV>, n: int)
    requires
        0 <= n <= s.len(),
    ensures
        ready_count(s, n) == s.take(n).filter(|c: JsonV| says_ready(c)).len(),
    decreases n,
{
    reveal(Seq::filter);
    if n > 0 {
        lemma_ready_is_filtered(s, n - 1);
        assert(s.take(n).drop_last() =~= s.take(n - 1));
        assert(s.take(n).last() == s[n - 1]);
    }
}

/// A pod shows its phase, how many of its containers say that they are ready of
/// how many there are, and the address of its node, the name of which only where
/// the address is not known.
pub proof fn law_pod_shows_its_containers(j: JsonV, now: (int, nat))
    ensures
        ({
            let d = pod_doc(j, now);
            let s = states_in(j);
            let ready = s.filter(|c: JsonV| says_ready(c)).len();
            let status = j.get("status"@);
            let spec = j.get("spec"@);
            &&& exists|t: Seq<char>| #[trigger] shows(d, "ready"@, t) && is_share(t, ready, s.len())
            &&& shows_place(d, j, "pods"@)
            &&& forall|t: Seq<char>|
                status is Some && #[trigger] status->0.get("phase"@) == Some(JsonV::Str(t))
                    ==> shows(d, "status"@, t)
            &&& forall|t: Seq<char>|
                status is Some && #[trigger] status->0.get("hostIP"@) == Some(JsonV::Str(t))
                    ==> shows(d, "node"@, t)
            &&& forall|t: Seq<char>|
                (status is None || status->0.get("hostIP"@) is None) && spec is Some
                    && #[trigger] spec->0.get("nodeName"@) == Some(JsonV::Str(t)) ==> shows(
                    d,
                    "node"@,
                    t,
                )
        }),
{
    broadcast use {crate::json::lemma_get_with, crate::json::lemma_get_empty};

    lemma_shown_names();
    let s = states_in(j);
    lemma_ready_is_filtered(s, s.len() as int);
    assert(s.take(s.len() as int) =~= s);
    let ready = s.filter(|c: JsonV| says_ready(c)).len();
    lemma_is_share(ready, s.len());
    assert(shows(pod_doc(j, now), "ready"@, ratio(ready, s.len())));
}

/// One more restart of a container is one more restart of its pod, and a pod
/// without containers was never restarted.
pub proof fn law_restarts_add_up(s: Seq<JsonV>, c: JsonV)
    ensures
        restart_count(Seq::empty(), 0) == 0,
        restart_count(s.push(c), s.len() as int + 1) == restart_count(s, s.len() as int) + (match c.get(
            "restartCount"@,
        ) {
            Some(x) => match x.as_nat() {
                Some(n) => n,
                None => 0,
            },
            None => 0,
        }),
{
    lemma_restarts_prefix(s, c, s.len() as int);
}

proof fn lemma_restarts_prefix(s: Seq<JsonV>, c: JsonV, n: int)
    requires
        0 <= n <= s.len(),
    ensures
        restart_count(s.push(c), n) == restart_count(s, n),
    decreases n,
{
    if n > 0 {
        lemma_restarts_prefix(s, c, n - 1);
    }
}

/// The images of a workload are those of its containers that name one, in their
/// order: a container more at the end adds its image, where it names one.
pub proof fn law_images_are_those_of_the_containers(s: Seq<JsonV>, c: JsonV, key: Seq<char>)
    ensures
        field_texts(Seq::empty(), key, 0).len() == 0,
        field_texts(s.push(c), key, s.len() as int + 1) == field_texts(s, key, s.len() as int) + (
        match c.get(key) {
            Some(JsonV::Str(t)) => seq![t],
            _ => Seq::empty(),
        }),
{
    lemma_fields_prefix(s, c, key, s.len() as int);
}

proof fn lemma_fields_prefix(s: Seq<JsonV>, c: JsonV, key: Seq<char>, n: int)
    requires
        0 <= n <= s.len(),
    ensures
        field_texts(s.push(c), key, n) == field_texts(s, key, n),
    decreases n,
{
    if n > 0 {
        lemma_fields_prefix(s, c, key, n - 1);
    }
}

/// A workload shows the images of the containers of its pods, a pod the images
/// and names of its own.
pub proof fn law_images_are_shown(j: JsonV, now: (int, nat), v: Seq<JsonV>)
    ensures
        ({
            let images = str_arr(field_texts(v, "image"@, v.len() as int));
            let names = str_arr(field_texts(v, "name"@, v.len() as int));
            let spec = j.get("spec"@);
            &&& spec is Some && spec->0.get2("template"@, "spec"@) is Some && spec->0.get2(
                "template"@,
                "spec"@,
            )->0.get("containers"@) == Some(JsonV::Arr(v)) ==> deployment_doc(j, now).get(
                "images"@,
            ) == Some(images) && statefulset_doc(j, now).get("images"@) == Some(images)
                && daemonset_doc(j, now).get("images"@) == Some(images)
            &&& spec is Some && spec->0.get("containers"@) == Some(JsonV::Arr(v)) ==> pod_doc(
                j,
                now,
            ).get("images"@) == Some(images) && pod_doc(j, now).get("containers"@) == Some(names)
        }),
{
    broadcast use {crate::json::lemma_get_with, crate::json::lemma_get_empty};

    lemma_shown_names();
}

/// A namespace shows its phase, `Active` where it has none.
pub proof fn law_namespace_shows_its_phase(j: JsonV, now: (int, nat))
    ensures
        ({
            let d = namespace_doc(j, now);
            let status = j.get("status"@);
            let meta = j.get("metadata"@);
            &&& forall|t: Seq<char>|
                status is Some && #[trigger] status->0.get("phase"@) == Some(JsonV::Str(t))
                    ==> shows(d, "status"@, t)
            &&& status is None ==> shows(d, "status"@, "Active"@)
            &&& forall|t: Seq<char>|
                meta is Some && #[trigger] meta->0.get("name"@) == Some(JsonV::Str(t)) ==> shows(
                    d,
                    "name"@,
                    t,
                )
        }),
{
    broadcast use {crate::json::lemma_get_with, crate::json::lemma_get_empty};

    lemma_shown_names();
}

/// An age is the number of whole units that have passed: seconds within a minute,
/// minutes within an hour, hours within two days, else days. A time to come has
/// the age of no seconds.
pub proof fn law_age_counts_whole_units(secs: int)
    ensures
        ({
            let (unit, letter): (int, Seq<char>) = if secs < 60 {
                (1, "s"@)
            } else if secs < 3600 {
                (60, "m"@)
            } else if secs < 172800 {
                (3600, "h"@)
            } else {
                (86400, "d"@)
            };
            &&& secs >= 0 ==> exists|n: nat|
                n * unit <= secs && secs < (n + 1) * unit && age_text(secs) == #[trigger] dec(n)
                    + letter
            &&& secs < 0 ==> age_text(secs) == age_text(0)
        }),
{
    if secs >= 0 {
        if secs < 60 {
            assert(age_text(secs) == dec(secs as nat) + "s"@);
        } else if secs < 3600 {
            assert(age_text(secs) == dec((secs / 60) as nat) + "m"@);
        } else if secs < 172800 {
            assert(age_text(secs) == dec((secs / 3600) as nat) + "h"@);
        } else {
            assert(age_text(secs) == dec((secs / 86400) as nat) + "d"@);
        }
    }
}

} // verus!
