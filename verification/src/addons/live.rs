//! What a cluster itself shows of an add-on.
use crate::addons::names::{
    cert_secret_name, dns_names, k8s_name_ok, name_ok, secret_name, wildcard_dns_names,
};
use crate::json::{
    Json, JsonV, arr_view, bool_in, is_text, is_true, item_at, items_in, items_len, jobj, nat_in,
    nat_or, opt_str_json, opt_view, str_arr, str_in, str_of, str_or, text_or, u64_or,
};
use crate::order::{ascending, sorted_unique};
use crate::text::{
    cat, join, lit, no_texts, opt_text, put, split, str_after_last, str_eq, str_has_char, str_join,
    str_trim, texts, trim,
};
use vstd::prelude::*;
use vstd::string::*;

verus! {

/// The value of a field of an optional document.
pub open spec fn field(o: Option<JsonV>, k: Seq<char>) -> Option<JsonV> {
    match o {
        Some(j) => j.get(k),
        None => None,
    }
}

fn inner<'a>(o: Option<&'a Json>, k: &str) -> (r: Option<&'a Json>)
    ensures
        opt_view(r) == field(opt_view(o), k@),
{
    match o {
        Some(j) => j.get(k),
        None => None,
    }
}

/// The first element of an optional document, as a path step `0` finds it.
pub open spec fn first(o: Option<JsonV>) -> Option<JsonV> {
    match o {
        Some(JsonV::Arr(s)) => if s.len() > 0 {
            Some(s[0])
        } else {
            None
        },
        Some(JsonV::Obj(s)) => JsonV::Obj(s).get("0"@),
        _ => None,
    }
}

fn first_of<'a>(o: Option<&'a Json>) -> (r: Option<&'a Json>)
    ensures
        opt_view(r) == first(opt_view(o)),
{
    match o {
        Some(j) => match j {
            Json::Arr(v) => {
                assert(arr_view(v@).len() == v.len());
                if v.len() > 0 {
                    Some(&v[0])
                } else {
                    None
                }
            },
            Json::Obj(_) => j.get("0"),
            _ => None,
        },
        None => None,
    }
}

/// All wanted replicas are ready. A deployment that does not say how many it
/// wants wants one.
pub open spec fn deployed(j: JsonV) -> bool {
    let want = nat_or(nat_in(j.get2("status"@, "replicas"@)), 1);
    let have = nat_or(nat_in(j.get2("status"@, "readyReplicas"@)), 0);
    want > 0 && have >= want
}

pub fn deploy_ready(obj: &Json) -> (r: bool)
    ensures
        r == deployed(obj@),
{
    let want: u64 = u64_or(obj.get2("status", "replicas"), 1);
    let have: u64 = u64_or(obj.get2("status", "readyReplicas"), 0);
    want > 0 && have >= want
}

/// A daemon set runs on every node that it is meant for, at least one.
pub open spec fn spread(j: JsonV) -> bool {
    let want = nat_or(nat_in(j.get2("status"@, "desiredNumberScheduled"@)), 0);
    let have = nat_or(nat_in(j.get2("status"@, "numberReady"@)), 0);
    want > 0 && have >= want
}

pub fn ds_ready(obj: &Json) -> (r: bool)
    ensures
        r == spread(obj@),
{
    let want: u64 = u64_or(obj.get2("status", "desiredNumberScheduled"), 0);
    let have: u64 = u64_or(obj.get2("status", "numberReady"), 0);
    want > 0 && have >= want
}

/// The document is there and a deployment that is ready.
pub open spec fn up(o: Option<JsonV>) -> bool {
    match o {
        Some(j) => deployed(j),
        None => false,
    }
}

fn is_up(o: Option<&Json>) -> (r: bool)
    ensures
        r == up(opt_view(o)),
{
    match o {
        Some(j) => deploy_ready(j),
        None => false,
    }
}

/// A condition says that the object is ready.
pub open spec fn says_ready(c: JsonV) -> bool {
    str_in(c.get("type"@)) == Some("Ready"@) && str_in(c.get("status"@)) == Some("True"@)
}

/// Some condition says that the object is ready.
pub open spec fn conditions_ready(j: JsonV) -> bool {
    exists|i: int|
        0 <= i < items_in(j.get2("status"@, "conditions"@)).len() && says_ready(
            #[trigger] items_in(j.get2("status"@, "conditions"@))[i],
        )
}

/// Whether an issuer is ready.
pub fn issuer_ready(obj: &Json) -> (r: bool)
    ensures
        r == conditions_ready(obj@),
{
    let o = obj.get2("status", "conditions");
    let ghost s = items_in(obj@.get2("status"@, "conditions"@));
    let n: usize = items_len(o);
    let mut i: usize = 0;
    while i < n
        invariant
            i <= n,
            n == s.len(),
            s == items_in(opt_view(o)),
            s == items_in(obj@.get2("status"@, "conditions"@)),
            forall|k: int| 0 <= k < i ==> !says_ready(#[trigger] s[k]),
        decreases n - i,
    {
        let c = item_at(o, i);
        if is_text(c.get("type"), "Ready") && is_text(c.get("status"), "True") {
            assert(says_ready(s[i as int]));
            return true;
        }
        i += 1;
    }
    false
}

/// Whether a certificate is ready.
pub fn certificate_ready(obj: &Json) -> (r: bool)
    ensures
        r == conditions_ready(obj@),
{
    issuer_ready(obj)
}

/// The document is there and one of its conditions says that it is ready.
pub open spec fn ready_in(o: Option<JsonV>) -> bool {
    match o {
        Some(j) => conditions_ready(j),
        None => false,
    }
}

fn is_ready(o: Option<&Json>) -> (r: bool)
    ensures
        r == ready_in(opt_view(o)),
{
    match o {
        Some(j) => certificate_ready(j),
        None => false,
    }
}

/// Whether an endpoints object has an address.
pub open spec fn has_addresses(j: JsonV) -> bool {
    exists|i: int|
        0 <= i < items_in(j.get("subsets"@)).len() && items_in(
            (#[trigger] items_in(j.get("subsets"@))[i]).get("addresses"@),
        ).len() > 0
}

pub fn endpoints_have_addresses(ep: &Json) -> (r: bool)
    ensures
        r == has_addresses(ep@),
{
    let o = ep.get("subsets");
    let ghost s = items_in(ep@.get("subsets"@));
    let n: usize = items_len(o);
    let mut i: usize = 0;
    while i < n
        invariant
            i <= n,
            n == s.len(),
            s == items_in(opt_view(o)),
            s == items_in(ep@.get("subsets"@)),
            forall|k: int| 0 <= k < i ==> items_in((#[trigger] s[k]).get("addresses"@)).len() == 0,
        decreases n - i,
    {
        if items_len(item_at(o, i).get("addresses")) > 0 {
            assert(items_in(s[i as int].get("addresses"@)).len() > 0);
            return true;
        }
        i += 1;
    }
    false
}

/// The containers of a workload.
pub open spec fn containers(j: JsonV) -> Option<JsonV> {
    field(j.get3("spec"@, "template"@, "spec"@), "containers"@)
}

/// The image of the first container.
pub open spec fn image_of(o: Option<JsonV>) -> Option<Seq<char>> {
    match o {
        Some(j) => str_in(field(first(containers(j)), "image"@)),
        None => None,
    }
}

pub fn container_image(o: Option<&Json>) -> (r: Option<String>)
    ensures
        opt_text(r) == image_of(opt_view(o)),
{
    match o {
        Some(j) => str_of(inner(first_of(inner(j.get3("spec", "template", "spec"), "containers")), "image")),
        None => None,
    }
}

/// The first entry at or after `i` with the given name.
pub open spec fn env_entry(s: Seq<JsonV>, name: Seq<char>, i: int) -> Option<JsonV>
    decreases s.len() - i,
{
    if 0 <= i < s.len() {
        if str_in(s[i].get("name"@)) == Some(name) {
            Some(s[i])
        } else {
            env_entry(s, name, i + 1)
        }
    } else {
        None
    }
}

/// The environment of the first container.
pub open spec fn first_env(j: JsonV) -> Seq<JsonV> {
    let c = items_in(containers(j));
    if c.len() > 0 {
        items_in(c[0].get("env"@))
    } else {
        Seq::empty()
    }
}

/// The value of a variable of the first container.
pub open spec fn env_text(o: Option<JsonV>, name: Seq<char>) -> Option<Seq<char>> {
    match o {
        Some(j) => str_in(field(env_entry(first_env(j), name, 0), "value"@)),
        None => None,
    }
}

pub fn env_value(o: Option<&Json>, name: &str) -> (r: Option<String>)
    ensures
        opt_text(r) == env_text(opt_view(o), name@),
{
    let j = match o {
        Some(j) => j,
        None => {
            return None;
        },
    };
    let c = inner(j.get3("spec", "template", "spec"), "containers");
    if items_len(c) == 0 {
        return None;
    }
    let env = item_at(c, 0).get("env");
    let ghost s = first_env(j@);
    let n: usize = items_len(env);
    let mut i: usize = 0;
    while i < n
        invariant
            i <= n,
            n == s.len(),
            o == Some(j),
            s == items_in(opt_view(env)),
            s == first_env(j@),
            env_entry(s, name@, 0) == env_entry(s, name@, i as int),
        decreases n - i,
    {
        let e = item_at(env, i);
        if is_text(e.get("name"), name) {
            return str_of(e.get("value"));
        }
        i += 1;
    }
    None
}

/// The string at `k` in each element that has one.
pub open spec fn texts_at(s: Seq<JsonV>, k: Seq<char>, n: int) -> Seq<Seq<char>>
    decreases n,
{
    if 0 < n <= s.len() {
        match str_in(s[n - 1].get(k)) {
            Some(t) => texts_at(s, k, n - 1).push(t),
            None => texts_at(s, k, n - 1),
        }
    } else {
        Seq::empty()
    }
}

/// The blocks of an address pool.
pub open spec fn cidrs_of(o: Option<JsonV>) -> Seq<Seq<char>> {
    match o {
        Some(j) => {
            let s = items_in(j.get2("spec"@, "blocks"@));
            texts_at(s, "cidr"@, s.len() as int)
        },
        None => Seq::empty(),
    }
}

pub fn pool_cidrs(o: Option<&Json>) -> (r: Vec<String>)
    ensures
        texts(r@) == cidrs_of(opt_view(o)),
{
    let mut out = no_texts();
    let j = match o {
        Some(j) => j,
        None => {
            return out;
        },
    };
    let b = j.get2("spec", "blocks");
    let ghost s = items_in(j@.get2("spec"@, "blocks"@));
    let n: usize = items_len(b);
    let mut i: usize = 0;
    while i < n
        invariant
            i <= n,
            n == s.len(),
            s == items_in(opt_view(b)),
            texts(out@) == texts_at(s, "cidr"@, i as int),
        decreases n - i,
    {
        match str_of(item_at(b, i).get("cidr")) {
            Some(t) => put(&mut out, &t),
            None => {},
        }
        i += 1;
    }
    out
}

/// The first text at or after `i` that has a colon, or has none.
pub open spec fn first_colon(s: Seq<Seq<char>>, colon: bool, i: int) -> Option<Seq<char>>
    decreases s.len() - i,
{
    if 0 <= i < s.len() {
        if s[i].contains(':') == colon {
            Some(s[i])
        } else {
            first_colon(s, colon, i + 1)
        }
    } else {
        None
    }
}

fn find_colon(v: &Vec<String>, colon: bool) -> (r: Option<String>)
    ensures
        opt_text(r) == first_colon(texts(v@), colon, 0),
{
    let ghost s = texts(v@);
    let mut i: usize = 0;
    while i < v.len()
        invariant
            i <= v.len(),
            s == texts(v@),
            first_colon(s, colon, 0) == first_colon(s, colon, i as int),
        decreases v.len() - i,
    {
        assert(s[i as int] == v@[i as int]@);
        if str_has_char(&v[i], ':') == colon {
            return Some(lit(&v[i]));
        }
        i += 1;
    }
    None
}

/// The addresses of a load balancer after `n` entries: IPv4 addresses and host
/// names, and IPv6 addresses.
pub open spec fn lb_addresses(s: Seq<JsonV>, n: int) -> (Seq<Seq<char>>, Seq<Seq<char>>)
    decreases n,
{
    if 0 < n <= s.len() {
        let (a4, a6) = lb_addresses(s, n - 1);
        let (b4, b6) = match str_in(s[n - 1].get("ip"@)) {
            Some(ip) => if ip.contains(':') {
                (a4, a6.push(ip))
            } else {
                (a4.push(ip), a6)
            },
            None => (a4, a6),
        };
        match str_in(s[n - 1].get("hostname"@)) {
            Some(h) => (b4.push(h), b6),
            None => (b4, b6),
        }
    } else {
        (Seq::empty(), Seq::empty())
    }
}

pub open spec fn lb_of(o: Option<JsonV>) -> (Seq<Seq<char>>, Seq<Seq<char>>) {
    match o {
        Some(j) => {
            let s = items_in(j.get3("status"@, "loadBalancer"@, "ingress"@));
            lb_addresses(s, s.len() as int)
        },
        None => (Seq::empty(), Seq::empty()),
    }
}

pub fn svc_lb_addrs(o: Option<&Json>) -> (r: (Vec<String>, Vec<String>))
    ensures
        (texts(r.0@), texts(r.1@)) == lb_of(opt_view(o)),
{
    let mut v4 = no_texts();
    let mut v6 = no_texts();
    let j = match o {
        Some(j) => j,
        None => {
            return (v4, v6);
        },
    };
    let b = j.get3("status", "loadBalancer", "ingress");
    let ghost s = items_in(j@.get3("status"@, "loadBalancer"@, "ingress"@));
    let n: usize = items_len(b);
    let mut i: usize = 0;
    while i < n
        invariant
            i <= n,
            n == s.len(),
            s == items_in(opt_view(b)),
            (texts(v4@), texts(v6@)) == lb_addresses(s, i as int),
        decreases n - i,
    {
        let e = item_at(b, i);
        match str_of(e.get("ip")) {
            Some(ip) => {
                if str_has_char(&ip, ':') {
                    put(&mut v6, &ip);
                } else {
                    put(&mut v4, &ip);
                }
            },
            None => {},
        }
        match str_of(e.get("hostname")) {
            Some(h) => put(&mut v4, &h),
            None => {},
        }
        i += 1;
    }
    (v4, v6)
}

/// Why a container waits for its image, where it does.
pub open spec fn pull_fault(cs: JsonV) -> Option<Seq<char>> {
    let waiting = cs.get2("state"@, "waiting"@);
    let reason = text_or(str_in(field(waiting, "reason"@)), ""@);
    if reason == "ErrImagePull"@ || reason == "ImagePullBackOff"@ {
        Some(text_or(str_in(field(waiting, "message"@)), reason))
    } else {
        None
    }
}

pub open spec fn pull_fault_from(s: Seq<JsonV>, i: int) -> Option<Seq<char>>
    decreases s.len() - i,
{
    if 0 <= i < s.len() {
        match pull_fault(s[i]) {
            Some(m) => Some(m),
            None => pull_fault_from(s, i + 1),
        }
    } else {
        None
    }
}

/// The first such reason in a pod: its containers, then its init containers.
pub open spec fn pod_pull_fault(pod: JsonV) -> Option<Seq<char>> {
    match pull_fault_from(items_in(pod.get2("status"@, "containerStatuses"@)), 0) {
        Some(m) => Some(m),
        None => pull_fault_from(items_in(pod.get2("status"@, "initContainerStatuses"@)), 0),
    }
}

pub open spec fn pods_pull_fault(s: Seq<JsonV>, i: int) -> Option<Seq<char>>
    decreases s.len() - i,
{
    if 0 <= i < s.len() {
        match pod_pull_fault(s[i]) {
            Some(m) => Some(m),
            None => pods_pull_fault(s, i + 1),
        }
    } else {
        None
    }
}

fn statuses_pull_error(o: Option<&Json>) -> (r: Option<String>)
    ensures
        opt_text(r) == pull_fault_from(items_in(opt_view(o)), 0),
{
    let ghost s = items_in(opt_view(o));
    let n: usize = items_len(o);
    let mut i: usize = 0;
    while i < n
        invariant
            i <= n,
            n == s.len(),
            s == items_in(opt_view(o)),
            pull_fault_from(s, 0) == pull_fault_from(s, i as int),
        decreases n - i,
    {
        let waiting = item_at(o, i).get2("state", "waiting");
        let reason = str_or(inner(waiting, "reason"), "");
        if str_eq(&reason, "ErrImagePull") || str_eq(&reason, "ImagePullBackOff") {
            return Some(str_or(inner(waiting, "message"), &reason));
        }
        i += 1;
    }
    None
}

/// Why the first pod that waits for an image does so.
pub fn first_image_pull_error(list: &Json) -> (r: Option<String>)
    ensures
        opt_text(r) == pods_pull_fault(items_in(list@.get("items"@)), 0),
{
    let o = list.get("items");
    let ghost s = items_in(list@.get("items"@));
    let n: usize = items_len(o);
    let mut i: usize = 0;
    while i < n
        invariant
            i <= n,
            n == s.len(),
            s == items_in(opt_view(o)),
            s == items_in(list@.get("items"@)),
            pods_pull_fault(s, 0) == pods_pull_fault(s, i as int),
        decreases n - i,
    {
        let pod = item_at(o, i);
        match statuses_pull_error(pod.get2("status", "containerStatuses")) {
            Some(m) => {
                return Some(m);
            },
            None => {},
        }
        match statuses_pull_error(pod.get2("status", "initContainerStatuses")) {
            Some(m) => {
                return Some(m);
            },
            None => {},
        }
        i += 1;
    }
    None
}

/// The name of the first version at or after `i` that is stored.
pub open spec fn stored_version(s: Seq<JsonV>, i: int) -> Option<Seq<char>>
    decreases s.len() - i,
{
    if 0 <= i < s.len() {
        if bool_in(s[i].get("storage"@)) == Some(true) && str_in(s[i].get("name"@)) is Some {
            str_in(s[i].get("name"@))
        } else {
            stored_version(s, i + 1)
        }
    } else {
        None
    }
}

pub open spec fn storage_api(crd: JsonV, fallback: Seq<char>) -> Seq<char> {
    match stored_version(items_in(crd.get2("spec"@, "versions"@)), 0) {
        Some(v) => if v.len() == 0 {
            fallback
        } else {
            "cilium.io/"@ + v
        },
        None => fallback,
    }
}

/// The API version in which the cluster stores a Cilium resource.
pub fn crd_storage_api(crd: &Json, fallback: &str) -> (r: String)
    ensures
        r@ == storage_api(crd@, fallback@),
{
    let o = crd.get2("spec", "versions");
    let ghost s = items_in(crd@.get2("spec"@, "versions"@));
    let n: usize = items_len(o);
    let mut i: usize = 0;
    while i < n
        invariant
            i <= n,
            n == s.len(),
            s == items_in(opt_view(o)),
            s == items_in(crd@.get2("spec"@, "versions"@)),
            stored_version(s, 0) == stored_version(s, i as int),
        decreases n - i,
    {
        let v = item_at(o, i);
        if is_true(v.get("storage")) {
            match str_of(v.get("name")) {
                Some(name) => {
                    return if name.is_empty() {
                        lit(fallback)
                    } else {
                        cat("cilium.io/", &name)
                    };
                },
                None => {},
            }
        }
        i += 1;
    }
    lit(fallback)
}

// ---------------------------------------------------------------------------
// TLS secrets
// ---------------------------------------------------------------------------

/// The names of TLS secrets among the first `n` items of a list of secrets.
pub open spec fn tls_names(s: Seq<JsonV>, n: int) -> Seq<Seq<char>>
    decreases n,
{
    if 0 < n <= s.len() {
        let r = tls_names(s, n - 1);
        let name = str_in(s[n - 1].get2("metadata"@, "name"@));
        if str_in(s[n - 1].get("type"@)) == Some("kubernetes.io/tls"@) && name is Some && name_ok(
            trim(name->0),
        ) {
            r.push(name->0)
        } else {
            r
        }
    } else {
        Seq::empty()
    }
}

/// The names of the secrets that the first `n` certificates fill.
pub open spec fn certificate_names(s: Seq<JsonV>, n: int) -> Seq<Seq<char>>
    decreases n,
{
    if 0 < n <= s.len() {
        let r = certificate_names(s, n - 1);
        let name = str_in(s[n - 1].get2("spec"@, "secretName"@));
        if name is Some && name_ok(trim(name->0)) {
            r.push(name->0)
        } else {
            r
        }
    } else {
        Seq::empty()
    }
}

/// The names of TLS secrets in the first `n` lists of secrets.
pub open spec fn listed_tls_names(lists: Seq<Json>, n: int) -> Seq<Seq<char>>
    decreases n,
{
    if 0 < n <= lists.len() {
        let s = items_in(lists[n - 1]@.get("items"@));
        listed_tls_names(lists, n - 1) + tls_names(s, s.len() as int)
    } else {
        Seq::empty()
    }
}

/// The names of all TLS secrets that lists of secrets and certificates name.
pub open spec fn all_tls_names(lists: Seq<Json>, certificates: Option<JsonV>) -> Seq<Seq<char>> {
    let c = items_in(field(certificates, "items"@));
    listed_tls_names(lists, lists.len() as int) + certificate_names(c, c.len() as int)
}

fn add_tls_names(out: &mut Vec<String>, list: &Json)
    ensures
        texts(final(out)@) == texts(old(out)@) + tls_names(
            items_in(list@.get("items"@)),
            items_in(list@.get("items"@)).len() as int,
        ),
{
    let o = list.get("items");
    let ghost s = items_in(list@.get("items"@));
    let ghost was = texts(out@);
    let n: usize = items_len(o);
    let mut i: usize = 0;
    assert(was + tls_names(s, 0) =~= was);
    while i < n
        invariant
            i <= n,
            n == s.len(),
            s == items_in(opt_view(o)),
            texts(out@) == was + tls_names(s, i as int),
        decreases n - i,
    {
        let e = item_at(o, i);
        if is_text(e.get("type"), "kubernetes.io/tls") {
            match str_of(e.get2("metadata", "name")) {
                Some(name) => {
                    if k8s_name_ok(&name) {
                        assert((was + tls_names(s, i as int)).push(name@) =~= was + tls_names(
                            s,
                            i as int,
                        ).push(name@));
                        put(out, &name);
                    }
                },
                None => {},
            }
        }
        i += 1;
    }
}

fn add_certificate_names(out: &mut Vec<String>, o: Option<&Json>)
    ensures
        texts(final(out)@) == texts(old(out)@) + certificate_names(
            items_in(opt_view(o)),
            items_in(opt_view(o)).len() as int,
        ),
{
    let ghost s = items_in(opt_view(o));
    let ghost was = texts(out@);
    let n: usize = items_len(o);
    let mut i: usize = 0;
    assert(was + certificate_names(s, 0) =~= was);
    while i < n
        invariant
            i <= n,
            n == s.len(),
            s == items_in(opt_view(o)),
            texts(out@) == was + certificate_names(s, i as int),
        decreases n - i,
    {
        match str_of(item_at(o, i).get2("spec", "secretName")) {
            Some(name) => {
                if k8s_name_ok(&name) {
                    assert((was + certificate_names(s, i as int)).push(name@) =~= was
                        + certificate_names(s, i as int).push(name@));
                    put(out, &name);
                }
            },
            None => {},
        }
        i += 1;
    }
}

/// The names of TLS secrets, each once and in order: those of the listed
/// secrets and those that certificates fill.
pub fn list_tls_secret_names(lists: &Vec<Json>, certificates: Option<&Json>) -> (r: Vec<String>)
    ensures
        ascending(texts(r@)),
        forall|x: Seq<char>|
            #[trigger] texts(r@).contains(x) <==> all_tls_names(
                lists@,
                opt_view(certificates),
            ).contains(x),
{
    let mut out = no_texts();
    let mut i: usize = 0;
    while i < lists.len()
        invariant
            i <= lists.len(),
            texts(out@) == listed_tls_names(lists@, i as int),
        decreases lists.len() - i,
    {
        add_tls_names(&mut out, &lists[i]);
        i += 1;
    }
    add_certificate_names(&mut out, inner(certificates, "items"));
    sorted_unique(&out)
}

// ---------------------------------------------------------------------------
// Reports
// ---------------------------------------------------------------------------

/// NFS storage: the provisioner, its storage class and the kernel modules.
pub open spec fn nfs_report(
    deploy: Option<JsonV>,
    sc: Option<JsonV>,
    ds: Option<JsonV>,
) -> JsonV {
    jobj()
        .with("installed"@, JsonV::Bool(deploy is Some && sc is Some))
        .with("partial"@, JsonV::Bool(deploy is Some || sc is Some || ds is Some))
        .with("provisioner_ready"@, JsonV::Bool(up(deploy)))
        .with("storage_class"@, JsonV::Bool(sc is Some))
        .with("nfs_modules"@, JsonV::Bool(ds is Some))
        .with("nfs_modules_ready"@, JsonV::Bool(ds is Some && spread(ds->0)))
        .with("server"@, opt_str_json(env_text(deploy, "NFS_SERVER"@)))
        .with("path"@, opt_str_json(env_text(deploy, "NFS_PATH"@)))
}

pub fn live_nfs(deploy: Option<&Json>, sc: Option<&Json>, ds: Option<&Json>) -> (r: Json)
    ensures
        r@ == nfs_report(opt_view(deploy), opt_view(sc), opt_view(ds)),
{
    let modules_ready = match ds {
        Some(d) => ds_ready(d),
        None => false,
    };
    Json::object()
        .with("installed", Json::Bool(deploy.is_some() && sc.is_some()))
        .with("partial", Json::Bool(deploy.is_some() || sc.is_some() || ds.is_some()))
        .with("provisioner_ready", Json::Bool(is_up(deploy)))
        .with("storage_class", Json::Bool(sc.is_some()))
        .with("nfs_modules", Json::Bool(ds.is_some()))
        .with("nfs_modules_ready", Json::Bool(modules_ready))
        .with("server", Json::opt_text(&env_value(deploy, "NFS_SERVER")))
        .with("path", Json::opt_text(&env_value(deploy, "NFS_PATH")))
}

/// The objects of a cert-manager installation, as far as they exist.
#[derive(Debug, PartialEq, Eq)]
pub struct CertManagerObjects {
    pub deploy: Option<Json>,
    pub webhook: Option<Json>,
    pub issuer: Option<Json>,
    pub secret: Option<Json>,
    pub reflector: Option<Json>,
    pub certificate: Option<Json>,
    pub tls_secret: Option<Json>,
}

/// The form of an optional owned document.
pub open spec fn own_view(o: Option<Json>) -> Option<JsonV> {
    match o {
        Some(j) => Some(j@),
        None => None,
    }
}

fn as_ref<'a>(o: &'a Option<Json>) -> (r: Option<&'a Json>)
    ensures
        opt_view(r) == own_view(*o),
{
    match o {
        Some(j) => Some(j),
        None => None,
    }
}

/// The name of the TLS secret of a domain, empty where there is no domain.
pub open spec fn domain_secret(domain: Seq<char>) -> Seq<char> {
    if trim(domain).len() == 0 {
        ""@
    } else {
        secret_name(domain)
    }
}

pub fn domain_secret_name(domain: &str) -> (r: String)
    ensures
        r@ == domain_secret(domain@),
{
    if str_trim(domain).is_empty() {
        lit("")
    } else {
        cert_secret_name(domain)
    }
}

/// What stands behind the last colon of the image.
pub open spec fn image_version(o: Option<JsonV>) -> Option<Seq<char>> {
    match image_of(o) {
        Some(img) => Some(split(img, ':').last()),
        None => None,
    }
}

fn version_of_image(o: Option<&Json>) -> (r: Option<String>)
    ensures
        opt_text(r) == image_version(opt_view(o)),
{
    match container_image(o) {
        Some(img) => Some(str_after_last(&img, ':')),
        None => None,
    }
}

/// cert-manager: controller, webhook, issuer, certificate and the copier of
/// secrets.
pub open spec fn cert_manager_report(o: CertManagerObjects, domain: Seq<char>) -> JsonV {
    jobj()
        .with("installed"@, JsonV::Bool(own_view(o.deploy) is Some))
        .with(
            "partial"@,
            JsonV::Bool(own_view(o.deploy) is Some || own_view(o.issuer) is Some || own_view(o.secret) is Some),
        )
        .with("controller_ready"@, JsonV::Bool(up(own_view(o.deploy))))
        .with("webhook_ready"@, JsonV::Bool(up(own_view(o.webhook))))
        .with("issuer"@, JsonV::Bool(own_view(o.issuer) is Some))
        .with("issuer_ready"@, JsonV::Bool(ready_in(own_view(o.issuer))))
        .with("token_secret"@, JsonV::Bool(own_view(o.secret) is Some))
        .with("version"@, opt_str_json(image_version(own_view(o.deploy))))
        .with("reflector"@, JsonV::Bool(own_view(o.reflector) is Some))
        .with("reflector_ready"@, JsonV::Bool(up(own_view(o.reflector))))
        .with("certificate"@, JsonV::Bool(own_view(o.certificate) is Some))
        .with("certificate_ready"@, JsonV::Bool(ready_in(own_view(o.certificate))))
        .with(
            "tls_secret"@,
            if domain_secret(domain).len() == 0 {
                JsonV::Null
            } else {
                JsonV::Str(domain_secret(domain))
            },
        )
        .with("tls_secret_present"@, JsonV::Bool(own_view(o.tls_secret) is Some))
        .with("dns_names"@, str_arr(dns_names(domain)))
}

pub fn live_cert_manager(o: &CertManagerObjects, domain: &str) -> (r: Json)
    ensures
        r@ == cert_manager_report(*o, domain@),
{
    let secret = domain_secret_name(domain);
    let name = if secret.is_empty() {
        Json::Null
    } else {
        Json::Str(secret)
    };
    Json::object()
        .with("installed", Json::Bool(o.deploy.is_some()))
        .with("partial", Json::Bool(o.deploy.is_some() || o.issuer.is_some() || o.secret.is_some()))
        .with("controller_ready", Json::Bool(is_up(as_ref(&o.deploy))))
        .with("webhook_ready", Json::Bool(is_up(as_ref(&o.webhook))))
        .with("issuer", Json::Bool(o.issuer.is_some()))
        .with("issuer_ready", Json::Bool(is_ready(as_ref(&o.issuer))))
        .with("token_secret", Json::Bool(o.secret.is_some()))
        .with("version", Json::opt_text(&version_of_image(as_ref(&o.deploy))))
        .with("reflector", Json::Bool(o.reflector.is_some()))
        .with("reflector_ready", Json::Bool(is_up(as_ref(&o.reflector))))
        .with("certificate", Json::Bool(o.certificate.is_some()))
        .with("certificate_ready", Json::Bool(is_ready(as_ref(&o.certificate))))
        .with("tls_secret", name)
        .with("tls_secret_present", Json::Bool(o.tls_secret.is_some()))
        .with("dns_names", Json::text_array(&wildcard_dns_names(domain)))
}

/// The Cilium load balancer: pool and announcement policy.
pub open spec fn lb_report(pool: Option<JsonV>, l2: Option<JsonV>) -> JsonV {
    jobj()
        .with("installed"@, JsonV::Bool(pool is Some && l2 is Some))
        .with("partial"@, JsonV::Bool(pool is Some || l2 is Some))
        .with("pool"@, JsonV::Bool(pool is Some))
        .with("l2"@, JsonV::Bool(l2 is Some))
        .with("ipv4"@, opt_str_json(first_colon(cidrs_of(pool), false, 0)))
        .with("ipv6"@, opt_str_json(first_colon(cidrs_of(pool), true, 0)))
        .with("cidrs"@, str_arr(cidrs_of(pool)))
}

pub fn live_cilium_lb(pool: Option<&Json>, l2: Option<&Json>) -> (r: Json)
    ensures
        r@ == lb_report(opt_view(pool), opt_view(l2)),
{
    let cidrs = pool_cidrs(pool);
    Json::object()
        .with("installed", Json::Bool(pool.is_some() && l2.is_some()))
        .with("partial", Json::Bool(pool.is_some() || l2.is_some()))
        .with("pool", Json::Bool(pool.is_some()))
        .with("l2", Json::Bool(l2.is_some()))
        .with("ipv4", Json::opt_text(&find_colon(&cidrs, false)))
        .with("ipv6", Json::opt_text(&find_colon(&cidrs, true)))
        .with("cidrs", Json::text_array(&cidrs))
}

/// The objects of an ingress installation, as far as they exist.
#[derive(Debug, PartialEq, Eq)]
pub struct IngressObjects {
    pub deploy: Option<Json>,
    pub svc: Option<Json>,
    pub class: Option<Json>,
    pub secret: Option<Json>,
    pub pods: Option<Json>,
    pub admin: Option<Json>,
    /// Whether the cluster has the Gateway API.
    pub gateway_api: bool,
}

/// Why the first pod of an optional list waits for its image.
pub open spec fn list_pull_fault(o: Option<JsonV>) -> Option<Seq<char>> {
    match o {
        Some(j) => pods_pull_fault(items_in(j.get("items"@)), 0),
        None => None,
    }
}

fn list_pull_error(o: Option<&Json>) -> (r: Option<String>)
    ensures
        opt_text(r) == list_pull_fault(opt_view(o)),
{
    match o {
        Some(j) => first_image_pull_error(j),
        None => None,
    }
}

/// The host of the first rule of an ingress.
pub open spec fn rule_host(o: Option<JsonV>) -> Option<Seq<char>> {
    str_in(field(first(field(field(o, "spec"@), "rules"@)), "host"@))
}

fn first_rule_host(o: Option<&Json>) -> (r: Option<String>)
    ensures
        opt_text(r) == rule_host(opt_view(o)),
{
    str_of(inner(first_of(inner(inner(o, "spec"), "rules")), "host"))
}

/// The secret of the first TLS entry of an ingress.
pub open spec fn tls_secret_name(o: Option<JsonV>) -> Option<Seq<char>> {
    str_in(field(first(field(field(o, "spec"@), "tls"@)), "secretName"@))
}

fn first_tls_secret(o: Option<&Json>) -> (r: Option<String>)
    ensures
        opt_text(r) == tls_secret_name(opt_view(o)),
{
    str_of(inner(first_of(inner(inner(o, "spec"), "tls")), "secretName"))
}

fn text_or_empty(o: Option<String>) -> (r: String)
    ensures
        r@ == text_or(opt_text(o), ""@),
{
    match o {
        Some(s) => s,
        None => lit(""),
    }
}

/// The ingress: controller, service, admin page and image pulls.
pub open spec fn ingress_report(o: IngressObjects, tls_secrets: Seq<Seq<char>>) -> JsonV {
    jobj()
        .with("installed"@, JsonV::Bool(own_view(o.deploy) is Some && own_view(o.svc) is Some))
        .with(
            "partial"@,
            JsonV::Bool(own_view(o.deploy) is Some || own_view(o.svc) is Some || own_view(o.class) is Some),
        )
        .with("controller_ready"@, JsonV::Bool(up(own_view(o.deploy))))
        .with("ingress_class"@, JsonV::Bool(own_view(o.class) is Some))
        .with("image"@, opt_str_json(image_of(own_view(o.deploy))))
        .with("lb_ipv4"@, JsonV::Str(join(lb_of(own_view(o.svc)).0, ", "@)))
        .with("lb_ipv6"@, JsonV::Str(join(lb_of(own_view(o.svc)).1, ", "@)))
        .with("gateway_api"@, JsonV::Bool(o.gateway_api))
        .with("pull_secret"@, JsonV::Bool(own_view(o.secret) is Some))
        .with("pull_error"@, opt_str_json(list_pull_fault(own_view(o.pods))))
        .with("admin_host"@, JsonV::Str(text_or(rule_host(own_view(o.admin)), ""@)))
        .with(
            "admin_tls"@,
            JsonV::Bool(items_in(field(field(own_view(o.admin), "spec"@), "tls"@)).len() > 0),
        )
        .with("admin_tls_secret"@, JsonV::Str(text_or(tls_secret_name(own_view(o.admin)), ""@)))
        .with("tls_secrets"@, str_arr(tls_secrets))
}

pub fn live_ingress(o: &IngressObjects, tls_secrets: &Vec<String>) -> (r: Json)
    ensures
        r@ == ingress_report(*o, texts(tls_secrets@)),
{
    let (v4, v6) = svc_lb_addrs(as_ref(&o.svc));
    Json::object()
        .with("installed", Json::Bool(o.deploy.is_some() && o.svc.is_some()))
        .with("partial", Json::Bool(o.deploy.is_some() || o.svc.is_some() || o.class.is_some()))
        .with("controller_ready", Json::Bool(is_up(as_ref(&o.deploy))))
        .with("ingress_class", Json::Bool(o.class.is_some()))
        .with("image", Json::opt_text(&container_image(as_ref(&o.deploy))))
        .with("lb_ipv4", Json::Str(str_join(&v4, ", ")))
        .with("lb_ipv6", Json::Str(str_join(&v6, ", ")))
        .with("gateway_api", Json::Bool(o.gateway_api))
        .with("pull_secret", Json::Bool(o.secret.is_some()))
        .with("pull_error", Json::opt_text(&list_pull_error(as_ref(&o.pods))))
        .with("admin_host", Json::Str(text_or_empty(first_rule_host(as_ref(&o.admin)))))
        .with("admin_tls", Json::Bool(items_len(inner(inner(as_ref(&o.admin), "spec"), "tls")) > 0))
        .with("admin_tls_secret", Json::Str(text_or_empty(first_tls_secret(as_ref(&o.admin)))))
        .with("tls_secrets", Json::text_array(tls_secrets))
}

/// The scaler.
pub open spec fn scaler_report(deploy: Option<JsonV>) -> JsonV {
    jobj()
        .with("installed"@, JsonV::Bool(up(deploy)))
        .with("partial"@, JsonV::Bool(deploy is Some))
        .with("ready"@, JsonV::Bool(up(deploy)))
        .with("image"@, opt_str_json(image_of(deploy)))
}

pub fn live_kos_scaler(deploy: Option<&Json>) -> (r: Json)
    ensures
        r@ == scaler_report(opt_view(deploy)),
{
    Json::object()
        .with("installed", Json::Bool(is_up(deploy)))
        .with("partial", Json::Bool(deploy.is_some()))
        .with("ready", Json::Bool(is_up(deploy)))
        .with("image", Json::opt_text(&container_image(deploy)))
}

/// The dashboard: deployment, service and ingress.
pub open spec fn dashboard_report(
    deploy: Option<JsonV>,
    service: Option<JsonV>,
    ingress: Option<JsonV>,
    namespace: Seq<char>,
    tls_secrets: Seq<Seq<char>>,
) -> JsonV {
    jobj()
        .with("installed"@, JsonV::Bool(up(deploy) && service is Some))
        .with("partial"@, JsonV::Bool(deploy is Some || service is Some))
        .with("ready"@, JsonV::Bool(up(deploy)))
        .with("service"@, JsonV::Bool(service is Some))
        .with("image"@, opt_str_json(image_of(deploy)))
        .with("host"@, opt_str_json(rule_host(ingress)))
        .with("tls_secret"@, opt_str_json(tls_secret_name(ingress)))
        .with("namespace"@, JsonV::Str(namespace))
        .with("tls_secrets"@, str_arr(tls_secrets))
}

pub fn live_kubernetes_dashboard(
    deploy: Option<&Json>,
    service: Option<&Json>,
    ingress: Option<&Json>,
    namespace: &str,
    tls_secrets: &Vec<String>,
) -> (r: Json)
    ensures
        r@ == dashboard_report(
            opt_view(deploy),
            opt_view(service),
            opt_view(ingress),
            namespace@,
            texts(tls_secrets@),
        ),
{
    Json::object()
        .with("installed", Json::Bool(is_up(deploy) && service.is_some()))
        .with("partial", Json::Bool(deploy.is_some() || service.is_some()))
        .with("ready", Json::Bool(is_up(deploy)))
        .with("service", Json::Bool(service.is_some()))
        .with("image", Json::opt_text(&container_image(deploy)))
        .with("host", Json::opt_text(&first_rule_host(ingress)))
        .with("tls_secret", Json::opt_text(&first_tls_secret(ingress)))
        .with("namespace", Json::text(namespace))
        .with("tls_secrets", Json::text_array(tls_secrets))
}

} // verus!
