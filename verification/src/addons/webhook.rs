//! The cert-manager webhook on the host network.
//!
//! The API server of a cluster runs on the host network, and without kube-proxy
//! it cannot reach service addresses. The webhook therefore moves to the host
//! network too, on a port that the kubelet does not use.
use crate::addons::live::{endpoints_have_addresses, has_addresses};
use crate::json::{Json, JsonV, arr_view, is_text, lemma_arr_view, nat_in, str_in};
use crate::num::{dec, u64_str};
use crate::text::{cat, contains, lower, starts_with, str_contains, str_lower, str_starts};
use vstd::prelude::*;
use vstd::string::*;

verus! {

/// Metadata without what only the cluster sets.
pub open spec fn bare_metadata(m: JsonV) -> JsonV {
    m.without("managedFields"@).without("resourceVersion"@).without("uid"@).without(
        "generation"@,
    ).without("creationTimestamp"@)
}

/// A document as one would write it: no status, bare metadata.
pub open spec fn quiet(j: JsonV) -> JsonV {
    let q = j.without("status"@);
    match q.get("metadata"@) {
        Some(m) => q.put("metadata"@, bare_metadata(m)),
        None => q,
    }
}

fn bare(m: &Json) -> (r: Json)
    ensures
        r@ == bare_metadata(m@),
{
    m.dup().without("managedFields").without("resourceVersion").without("uid").without(
        "generation",
    ).without("creationTimestamp")
}

/// Removes what only the cluster sets.
pub fn strip_kubectl_noise(obj: &mut Json)
    ensures
        final(obj)@ == quiet(old(obj)@),
{
    let j = obj.dup().without("status");
    let m = match j.get("metadata") {
        Some(m) => Some(bare(m)),
        None => None,
    };
    *obj = match m {
        Some(m) => j.put("metadata", m),
        None => j,
    };
}

/// The argument that sets the port of the webhook.
pub open spec fn port_argument(port: u16) -> Seq<char> {
    "--secure-port="@ + dec(port as nat)
}

/// An argument of the webhook: the one that sets the port sets the new one.
pub open spec fn patched_argument(a: JsonV, port: u16) -> JsonV {
    if sets_port(a) {
        JsonV::Str(port_argument(port))
    } else {
        a
    }
}

pub open spec fn sets_port(a: JsonV) -> bool {
    match a {
        JsonV::Str(s) => starts_with(s, "--secure-port="@),
        _ => false,
    }
}

/// The arguments of the webhook: one of them, at the end where none did, sets
/// the port.
pub open spec fn patched_arguments(s: Seq<JsonV>, port: u16) -> Seq<JsonV> {
    let out = Seq::new(s.len(), |i: int| patched_argument(s[i], port));
    if exists|i: int| 0 <= i < s.len() && sets_port(#[trigger] s[i]) {
        out
    } else {
        out.push(JsonV::Str(port_argument(port)))
    }
}

/// Setting the port of the webhook again changes none of its arguments.
pub proof fn law_port_is_set_once(args: Seq<JsonV>, port: u16)
    ensures
        patched_arguments(patched_arguments(args, port), port) == patched_arguments(args, port),
{
    let once = patched_arguments(args, port);
    let flag = JsonV::Str(port_argument(port));
    assert(sets_port(flag)) by {
        let p = "--secure-port="@;
        assert(port_argument(port).subrange(0, p.len() as int) =~= p);
    }
    if exists|i: int| 0 <= i < args.len() && sets_port(#[trigger] args[i]) {
        let i = choose|i: int| 0 <= i < args.len() && sets_port(#[trigger] args[i]);
        assert(once[i] == flag);
        assert(sets_port(once[i]));
    } else {
        assert(once.last() == flag);
        assert(sets_port(once[args.len() as int]));
    }
    assert forall|i: int| 0 <= i < once.len() implies patched_argument(#[trigger] once[i], port)
        == once[i] by {
        if i < args.len() {
            assert(once[i] == patched_argument(args[i], port));
        }
    }
    assert(patched_arguments(once, port) =~= once);
}

/// A port entry of the webhook's container.
pub open spec fn patched_port(p: JsonV, port: u16) -> JsonV {
    let n = nat_in(p.get("containerPort"@));
    if str_in(p.get("name"@)) == Some("https"@) || n == Some(10250nat) || n == Some(443nat) {
        p.put("containerPort"@, JsonV::Int(port as int))
    } else {
        p
    }
}

pub open spec fn patched_ports(s: Seq<JsonV>, port: u16) -> Seq<JsonV> {
    Seq::new(s.len(), |i: int| patched_port(s[i], port))
}

/// The webhook's container on another port.
pub open spec fn patched_container(c: JsonV, port: u16) -> JsonV {
    let a = match c.get("args"@) {
        Some(JsonV::Arr(s)) => c.put("args"@, JsonV::Arr(patched_arguments(s, port))),
        _ => c,
    };
    match a.get("ports"@) {
        Some(JsonV::Arr(s)) => a.put(
            "ports"@,
            JsonV::Arr(patched_ports(s, port)),
        ),
        _ => a,
    }
}

pub open spec fn patched_containers(s: Seq<JsonV>, port: u16) -> Seq<JsonV> {
    Seq::new(s.len(), |i: int| patched_container(s[i], port))
}

/// The pod of the webhook on the host network.
pub open spec fn patched_pod(sp: JsonV, port: u16) -> JsonV {
    let h = sp.put("hostNetwork"@, JsonV::Bool(true)).put(
        "dnsPolicy"@,
        JsonV::Str("ClusterFirstWithHostNet"@),
    );
    match h.get("containers"@) {
        Some(JsonV::Arr(s)) => h.put(
            "containers"@,
            JsonV::Arr(patched_containers(s, port)),
        ),
        _ => h,
    }
}

/// The deployment of the webhook on the host network.
pub open spec fn host_networked(j: JsonV, port: u16) -> JsonV {
    let q = quiet(j);
    match q.get3("spec"@, "template"@, "spec"@) {
        Some(sp) => q.put(
            "spec"@,
            q.get("spec"@)->0.put(
                "template"@,
                q.get2("spec"@, "template"@)->0.put("spec"@, patched_pod(sp, port)),
            ),
        ),
        None => q,
    }
}

/// The pod template of a workload, where there is one, is an object or `null`.
pub open spec fn pod_is_object(j: JsonV) -> bool {
    match quiet(j).get3("spec"@, "template"@, "spec"@) {
        Some(JsonV::Obj(_)) => true,
        Some(JsonV::Null) => true,
        Some(_) => false,
        None => true,
    }
}

fn port_flag(port: u16) -> (r: String)
    ensures
        r@ == port_argument(port),
{
    cat("--secure-port=", &u64_str(port as u64))
}

fn patch_arguments(v: &Vec<Json>, port: u16) -> (r: Json)
    ensures
        r@ == JsonV::Arr(patched_arguments(arr_view(v@), port)),
{
    let ghost s = arr_view(v@);
    let ghost want = Seq::new(s.len(), |i: int| patched_argument(s[i], port));
    let mut out: Vec<Json> = Vec::new();
    let mut found = false;
    let mut i: usize = 0;
    while i < v.len()
        invariant
            i <= v.len(),
            s == arr_view(v@),
            s.len() == v.len(),
            out.len() == i,
            want == Seq::new(s.len(), |k: int| patched_argument(s[k], port)),
            forall|k: int| 0 <= k < i ==> #[trigger] out@[k].view() == want[k],
            found == exists|k: int| 0 <= k < i && sets_port(#[trigger] s[k]),
        decreases v.len() - i,
    {
        assert(s[i as int] == v@[i as int].view());
        assert(want[i as int] == patched_argument(s[i as int], port));
        let hit = match &v[i] {
            Json::Str(t) => str_starts(t, "--secure-port="),
            _ => false,
        };
        if hit {
            found = true;
            assert(sets_port(s[i as int]));
            out.push(Json::Str(port_flag(port)));
        } else {
            out.push(v[i].dup());
        }
        i += 1;
    }
    proof {
        lemma_arr_view(out@);
        assert forall|k: int| 0 <= k < want.len() implies arr_view(out@)[k] == want[k] by {
            assert(out@[k].view() == want[k]);
        }
        assert(arr_view(out@) =~= want);
    }
    if !found {
        let ghost before = out@;
        out.push(Json::Str(port_flag(port)));
        assert(arr_view(out@) =~= want.push(JsonV::Str(port_argument(port)))) by {
            lemma_arr_view(out@);
            assert forall|k: int| 0 <= k < want.len() implies arr_view(out@)[k] == want[k] by {
                assert(out@[k] == before[k]);
                assert(arr_view(before)[k] == before[k].view());
            }
        }
    }
    Json::Arr(out)
}

fn patch_port(p: &Json, port: u16) -> (r: Json)
    ensures
        r@ == patched_port(p@, port),
{
    let old_port: Option<u64> = match p.get("containerPort") {
        Some(n) => n.as_u64(),
        None => None,
    };
    let taken = match old_port {
        Some(n) => n == 10250 || n == 443,
        None => false,
    };
    if is_text(p.get("name"), "https") || taken {
        p.dup().put("containerPort", Json::Int(port as i64))
    } else {
        p.dup()
    }
}

fn patch_ports(v: &Vec<Json>, port: u16) -> (r: Json)
    ensures
        r@ == JsonV::Arr(patched_ports(arr_view(v@), port)),
{
    let ghost s = arr_view(v@);
    let mut out: Vec<Json> = Vec::new();
    let mut i: usize = 0;
    while i < v.len()
        invariant
            i <= v.len(),
            s == arr_view(v@),
            s.len() == v.len(),
            out.len() == i,
            forall|k: int| 0 <= k < i ==> #[trigger] out@[k].view() == patched_port(s[k], port),
        decreases v.len() - i,
    {
        assert(s[i as int] == v@[i as int].view());
        out.push(patch_port(&v[i], port));
        i += 1;
    }
    proof {
        lemma_arr_view(out@);
        let want = patched_ports(s, port);
        assert forall|k: int| 0 <= k < want.len() implies arr_view(out@)[k] == want[k] by {
            assert(out@[k].view() == patched_port(s[k], port));
        }
        assert(arr_view(out@) =~= want);
    }
    Json::Arr(out)
}

/// Moves a container of the webhook to another port.
pub fn patch_webhook_container_port(container: &Json, port: u16) -> (r: Json)
    ensures
        r@ == patched_container(container@, port),
{
    let args = match container.get("args") {
        Some(Json::Arr(v)) => Some(patch_arguments(v, port)),
        _ => None,
    };
    let a = match args {
        Some(x) => container.dup().put("args", x),
        None => container.dup(),
    };
    let ports = match a.get("ports") {
        Some(Json::Arr(v)) => Some(patch_ports(v, port)),
        _ => None,
    };
    match ports {
        Some(x) => a.put("ports", x),
        None => a,
    }
}

fn patch_containers(v: &Vec<Json>, port: u16) -> (r: Json)
    ensures
        r@ == JsonV::Arr(patched_containers(arr_view(v@), port)),
{
    let ghost s = arr_view(v@);
    let mut out: Vec<Json> = Vec::new();
    let mut i: usize = 0;
    while i < v.len()
        invariant
            i <= v.len(),
            s == arr_view(v@),
            s.len() == v.len(),
            out.len() == i,
            forall|k: int|
                0 <= k < i ==> #[trigger] out@[k].view() == patched_container(s[k], port),
        decreases v.len() - i,
    {
        assert(s[i as int] == v@[i as int].view());
        out.push(patch_webhook_container_port(&v[i], port));
        i += 1;
    }
    proof {
        lemma_arr_view(out@);
        let want = patched_containers(s, port);
        assert forall|k: int| 0 <= k < want.len() implies arr_view(out@)[k] == want[k] by {
            assert(out@[k].view() == patched_container(s[k], port));
        }
        assert(arr_view(out@) =~= want);
    }
    Json::Arr(out)
}

fn patch_pod(sp: &Json, port: u16) -> (r: Json)
    ensures
        r@ == patched_pod(sp@, port),
{
    let h = sp.dup().put("hostNetwork", Json::Bool(true)).put(
        "dnsPolicy",
        Json::text("ClusterFirstWithHostNet"),
    );
    let cs = match h.get("containers") {
        Some(Json::Arr(v)) => Some(patch_containers(v, port)),
        _ => None,
    };
    match cs {
        Some(x) => h.put("containers", x),
        None => h,
    }
}

/// Moves the webhook's deployment to the host network, on the given port.
pub fn patch_webhook_host_network(deploy: &mut Json, port: u16)
    requires
        pod_is_object(old(deploy)@),
    ensures
        final(deploy)@ == host_networked(old(deploy)@, port),
{
    strip_kubectl_noise(deploy);
    let d = deploy.dup();
    let pod = match d.get3("spec", "template", "spec") {
        Some(sp) => patch_pod(sp, port),
        None => {
            return;
        },
    };
    match (d.get("spec"), d.get2("spec", "template")) {
        (Some(spec_part), Some(template)) => {
            let t = template.dup().put("spec", pod);
            let s = spec_part.dup().put("template", t);
            *deploy = d.dup().put("spec", s);
        },
        _ => {
            assert(false);
        },
    }
}

/// A port entry of the webhook's service: a numeric target that the kubelet or
/// the API server uses moves to the new port; a named one stays.
pub open spec fn patched_target(p: JsonV, port: u16) -> JsonV {
    let t = p.get("targetPort"@);
    let n = nat_in(t);
    let s = str_in(t);
    if n == Some(10250nat) || n == Some(443nat) || s == Some("10250"@) || s == Some("443"@) {
        p.put("targetPort"@, JsonV::Int(port as int))
    } else {
        p
    }
}

pub open spec fn patched_targets(s: Seq<JsonV>, port: u16) -> Seq<JsonV> {
    Seq::new(s.len(), |i: int| patched_target(s[i], port))
}

/// The service of the webhook, with its target on the new port.
pub open spec fn retargeted(j: JsonV, port: u16) -> JsonV {
    let q = quiet(j);
    match q.get2("spec"@, "ports"@) {
        Some(JsonV::Arr(s)) => q.put(
            "spec"@,
            q.get("spec"@)->0.put(
                "ports"@,
                JsonV::Arr(patched_targets(s, port)),
            ),
        ),
        _ => q,
    }
}

fn patch_target(p: &Json, port: u16) -> (r: Json)
    ensures
        r@ == patched_target(p@, port),
{
    let n: Option<u64> = match p.get("targetPort") {
        Some(t) => t.as_u64(),
        None => None,
    };
    let taken = match n {
        Some(n) => n == 10250 || n == 443,
        None => false,
    };
    if taken || is_text(p.get("targetPort"), "10250") || is_text(p.get("targetPort"), "443") {
        p.dup().put("targetPort", Json::Int(port as i64))
    } else {
        p.dup()
    }
}

fn patch_targets(v: &Vec<Json>, port: u16) -> (r: Json)
    ensures
        r@ == JsonV::Arr(patched_targets(arr_view(v@), port)),
{
    let ghost s = arr_view(v@);
    let mut out: Vec<Json> = Vec::new();
    let mut i: usize = 0;
    while i < v.len()
        invariant
            i <= v.len(),
            s == arr_view(v@),
            s.len() == v.len(),
            out.len() == i,
            forall|k: int| 0 <= k < i ==> #[trigger] out@[k].view() == patched_target(s[k], port),
        decreases v.len() - i,
    {
        assert(s[i as int] == v@[i as int].view());
        out.push(patch_target(&v[i], port));
        i += 1;
    }
    proof {
        lemma_arr_view(out@);
        let want = patched_targets(s, port);
        assert forall|k: int| 0 <= k < want.len() implies arr_view(out@)[k] == want[k] by {
            assert(out@[k].view() == patched_target(s[k], port));
        }
        assert(arr_view(out@) =~= want);
    }
    Json::Arr(out)
}

/// Points the webhook's service at the given port.
pub fn patch_webhook_service_target_port(svc: &mut Json, port: u16)
    ensures
        final(svc)@ == retargeted(old(svc)@, port),
{
    strip_kubectl_noise(svc);
    let d = svc.dup();
    let ports = match d.get2("spec", "ports") {
        Some(Json::Arr(v)) => patch_targets(v, port),
        _ => {
            return;
        },
    };
    match d.get("spec") {
        Some(spec_part) => {
            let s = spec_part.dup().put("ports", ports);
            *svc = d.dup().put("spec", s);
        },
        None => {
            assert(false);
        },
    }
}

/// The message of a failed apply says that the webhook could not be reached.
pub open spec fn is_dial_error(msg: Seq<char>) -> bool {
    let m = lower(msg);
    ||| contains(m, "webhook.cert-manager.io"@)
    ||| contains(m, "failed calling webhook"@)
    ||| contains(m, "no route to host"@)
    ||| contains(m, "connection refused"@)
    ||| contains(m, "i/o timeout"@)
    ||| contains(m, "context deadline exceeded"@)
}

pub fn webhook_dial_error(msg: &str) -> (r: bool)
    ensures
        r == is_dial_error(msg@),
{
    let m = str_lower(msg);
    str_contains(&m, "webhook.cert-manager.io") || str_contains(&m, "failed calling webhook")
        || str_contains(&m, "no route to host") || str_contains(&m, "connection refused")
        || str_contains(&m, "i/o timeout") || str_contains(&m, "context deadline exceeded")
}

/// Whether to apply a document again after attempt `i` of `attempts` failed:
/// only where the webhook could not be reached.
pub fn apply_again(i: u32, attempts: u32, msg: &str) -> (r: bool)
    ensures
        r == (i < attempts && is_dial_error(msg@)),
{
    i < attempts && webhook_dial_error(msg)
}

/// What to do after a look at the webhook's endpoints.
#[derive(Debug, Clone, Copy, PartialEq, Eq, Structural)]
pub enum EndpointWait {
    Ready,
    Again,
    GiveUp,
}

/// Rounds in which the webhook's endpoints are looked for.
pub const ENDPOINT_ROUNDS: u32 = 36;

/// Decides, in round `i`, on what the cluster shows of the endpoints.
pub fn endpoint_wait(i: u32, ep: Option<&Json>) -> (r: EndpointWait)
    ensures
        r == (if ep is Some && has_addresses(ep->0@) {
            EndpointWait::Ready
        } else if i < ENDPOINT_ROUNDS {
            EndpointWait::Again
        } else {
            EndpointWait::GiveUp
        }),
{
    let have = match ep {
        Some(e) => endpoints_have_addresses(e),
        None => false,
    };
    if have {
        EndpointWait::Ready
    } else if i < ENDPOINT_ROUNDS {
        EndpointWait::Again
    } else {
        EndpointWait::GiveUp
    }
}

/// The webhook runs on the network of its host, and finds names of the cluster from
/// there; its containers are changed one for one.
pub proof fn law_webhook_runs_on_its_host(j: JsonV, port: u16, sp: JsonV, s: Seq<JsonV>)
    requires
        quiet(j).get3("spec"@, "template"@, "spec"@) == Some(sp),
        sp is Obj,
    ensures
        ({
            let pod = host_networked(j, port).get3("spec"@, "template"@, "spec"@);
            &&& pod is Some
            &&& pod->0.get("hostNetwork"@) == Some(JsonV::Bool(true))
            &&& pod->0.get("dnsPolicy"@) == Some(JsonV::Str("ClusterFirstWithHostNet"@))
            &&& sp.get("containers"@) == Some(JsonV::Arr(s)) ==> pod->0.get("containers"@) is Some
                && pod->0.get("containers"@)->0 is Arr
                && pod->0.get("containers"@)->0->Arr_0.len() == s.len() && forall|i: int|
                0 <= i < s.len() ==> #[trigger] pod->0.get("containers"@)->0->Arr_0[i]
                    == patched_container(s[i], port)
        }),
{
    broadcast use crate::json::lemma_get_put;

    reveal_strlit("spec");
    reveal_strlit("template");
    reveal_strlit("hostNetwork");
    reveal_strlit("dnsPolicy");
    reveal_strlit("containers");
    assert("spec"@.len() == 4);
    assert("template"@.len() == 8);
    assert("hostNetwork"@.len() == 11);
    assert("dnsPolicy"@.len() == 9);
    assert("containers"@.len() == 10);
}

/// The port of the webhook moves to the new one, by its name or its old number, and
/// no other port does; so does the target of its service.
pub proof fn law_port_of_the_webhook_moves(p: JsonV, port: u16, n: nat)
    requires
        p is Obj,
    ensures
        p.get("name"@) == Some(JsonV::Str("https"@)) ==> patched_port(p, port).get(
            "containerPort"@,
        ) == Some(JsonV::Int(port as int)),
        p.get("containerPort"@) == Some(JsonV::Int(n as int)) && (n == 10250 || n == 443)
            ==> patched_port(p, port).get("containerPort"@) == Some(JsonV::Int(port as int)),
        p.get("containerPort"@) == Some(JsonV::Int(n as int)) && n != 10250 && n != 443 && p.get(
            "name"@,
        ) is None ==> patched_port(p, port) == p,
        p.get("targetPort"@) == Some(JsonV::Int(n as int)) && (n == 10250 || n == 443)
            ==> patched_target(p, port).get("targetPort"@) == Some(JsonV::Int(port as int)),
        p.get("targetPort"@) == Some(JsonV::Int(n as int)) && n != 10250 && n != 443
            ==> patched_target(p, port) == p,
{
    broadcast use crate::json::lemma_get_put;

}

/// What cannot be reached for now is tried again: the errors that say so.
pub proof fn law_errors_that_pass(msg: Seq<char>)
    ensures
        contains(lower(msg), "connection refused"@) ==> is_dial_error(msg),
        contains(lower(msg), "i/o timeout"@) ==> is_dial_error(msg),
        contains(lower(msg), "no route to host"@) ==> is_dial_error(msg),
        contains(lower(msg), "failed calling webhook"@) ==> is_dial_error(msg),
        contains(lower(msg), "context deadline exceeded"@) ==> is_dial_error(msg),
        contains(lower(msg), "webhook.cert-manager.io"@) ==> is_dial_error(msg),
{
}

} // verus!
