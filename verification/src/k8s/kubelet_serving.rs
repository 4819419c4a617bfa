//! Requests of kubelets for the certificates that they serve with.
//!
//! A request is approved where its signer is that of serving certificates, a
//! node made it, and that node has registered.
use crate::cluster_availability::listed;
use crate::json::{
    Json, JsonV, is_text, item_at, items_in, items_len, opt_view, str_in, str_of, str_or, text_or,
};
use crate::num::{dec, u64_str};
use crate::text::{lit, no_texts, opt_text, put, str_eq, str_strip_prefix, strip_prefix, texts};
use crate::throttle::Throttle;
use vstd::prelude::*;
use vstd::string::*;

verus! {

pub const SIGNER: &'static str = "kubernetes.io/kubelet-serving";

/// A kubeconfig scanned less than this long ago, in milliseconds, is not scanned
/// again for a page that is shown.
pub const SCAN_TTL_MS: u64 = 20_000;

/// A request of a kubelet.
#[derive(Debug, PartialEq, Eq)]
pub struct ServingCsr {
    pub name: String,
    pub node: String,
    /// There is a certificate.
    pub issued: bool,
    /// The request was approved or denied.
    pub terminal: bool,
}

#[verifier::ext_equal]
pub ghost struct ServingCsrV {
    pub name: Seq<char>,
    pub node: Seq<char>,
    pub issued: bool,
    pub terminal: bool,
}

impl View for ServingCsr {
    type V = ServingCsrV;

    open spec fn view(&self) -> ServingCsrV {
        ServingCsrV {
            name: self.name@,
            node: self.node@,
            issued: self.issued,
            terminal: self.terminal,
        }
    }
}

/// The requests of a list.
pub open spec fn csr_views(v: Seq<ServingCsr>) -> Seq<ServingCsrV> {
    Seq::new(v.len(), |i: int| v[i]@)
}

/// Some element is the text.
pub open spec fn lists_text(s: Seq<JsonV>, t: Seq<char>) -> bool {
    exists|i: int| 0 <= i < s.len() && (#[trigger] s[i]).as_str() == Some(t)
}

/// The condition decides the request.
pub open spec fn decides(c: JsonV) -> bool {
    str_in(c.get("type"@)) == Some("Approved"@) || str_in(c.get("type"@)) == Some("Denied"@)
}

/// Some condition decides the request.
pub open spec fn is_decided(s: Seq<JsonV>) -> bool {
    exists|i: int| 0 <= i < s.len() && decides(#[trigger] s[i])
}

/// The request that an object stands for, where it is one of a kubelet for its
/// serving certificate.
pub open spec fn serving_csr(j: JsonV) -> Option<ServingCsrV> {
    let name = text_or(str_in(j.get2("metadata"@, "name"@)), ""@);
    let user = text_or(str_in(j.get2("spec"@, "username"@)), ""@);
    let node = strip_prefix(user, "system:node:"@);
    if name.len() > 0 && str_in(j.get2("spec"@, "signerName"@)) == Some(SIGNER@) && node is Some
        && lists_text(items_in(j.get2("spec"@, "groups"@)), "system:nodes"@) {
        Some(
            ServingCsrV {
                name,
                node: node->0,
                issued: text_or(str_in(j.get2("status"@, "certificate"@)), ""@).len() > 0,
                terminal: is_decided(items_in(j.get2("status"@, "conditions"@))),
            },
        )
    } else {
        None
    }
}

/// The requests among the first `n` objects.
pub open spec fn serving_csrs(s: Seq<JsonV>, n: int) -> Seq<ServingCsrV>
    decreases n,
{
    if 0 < n <= s.len() {
        match serving_csr(s[n - 1]) {
            Some(c) => serving_csrs(s, n - 1).push(c),
            None => serving_csrs(s, n - 1),
        }
    } else {
        Seq::empty()
    }
}

fn has_item(o: Option<&Json>, t: &str) -> (r: bool)
    ensures
        r == lists_text(items_in(opt_view(o)), t@),
{
    let ghost s = items_in(opt_view(o));
    let n = items_len(o);
    let mut i: usize = 0;
    while i < n
        invariant
            i <= n,
            s == items_in(opt_view(o)),
            n == s.len(),
            forall|k: int| 0 <= k < i ==> (#[trigger] s[k]).as_str() != Some(t@),
        decreases n - i,
    {
        let g = item_at(o, i).as_str();
        match g {
            Some(x) => {
                if str_eq(&x, t) {
                    assert(s[i as int].as_str() == Some(t@));
                    return true;
                }
            },
            None => {},
        }
        i += 1;
    }
    false
}

fn has_decision(o: Option<&Json>) -> (r: bool)
    ensures
        r == is_decided(items_in(opt_view(o))),
{
    let ghost s = items_in(opt_view(o));
    let n = items_len(o);
    let mut i: usize = 0;
    while i < n
        invariant
            i <= n,
            s == items_in(opt_view(o)),
            n == s.len(),
            forall|k: int| 0 <= k < i ==> !decides(#[trigger] s[k]),
        decreases n - i,
    {
        let c = item_at(o, i);
        if is_text(c.get("type"), "Approved") || is_text(c.get("type"), "Denied") {
            assert(decides(s[i as int]));
            return true;
        }
        i += 1;
    }
    false
}

/// The mathematical form of an optional request.
pub open spec fn opt_csr(o: Option<ServingCsr>) -> Option<ServingCsrV> {
    match o {
        Some(c) => Some(c@),
        None => None,
    }
}

fn read_csr(j: &Json) -> (r: Option<ServingCsr>)
    ensures
        opt_csr(r) == serving_csr(j@),
{
    let name = str_or(j.get2("metadata", "name"), "");
    let user = str_or(j.get2("spec", "username"), "");
    if name.is_empty() || !is_text(j.get2("spec", "signerName"), SIGNER) {
        return None;
    }
    match str_strip_prefix(&user, "system:node:") {
        Some(node) => {
            if !has_item(j.get2("spec", "groups"), "system:nodes") {
                return None;
            }
            let cert = str_or(j.get2("status", "certificate"), "");
            Some(
                ServingCsr {
                    name,
                    node,
                    issued: !cert.is_empty(),
                    terminal: has_decision(j.get2("status", "conditions")),
                },
            )
        },
        None => None,
    }
}

/// The requests of kubelets for serving certificates in a list of requests.
pub fn parse_kubelet_serving_csrs(list: &Json) -> (r: Vec<ServingCsr>)
    ensures
        csr_views(r@) == serving_csrs(
            items_in(list@.get("items"@)),
            items_in(list@.get("items"@)).len() as int,
        ),
{
    let o = list.get("items");
    let ghost s = items_in(opt_view(o));
    let n = items_len(o);
    let mut out: Vec<ServingCsr> = Vec::new();
    assert(csr_views(out@) =~= Seq::empty());
    let mut i: usize = 0;
    while i < n
        invariant
            i <= n,
            s == items_in(opt_view(o)),
            n == s.len(),
            csr_views(out@) == serving_csrs(s, i as int),
        decreases n - i,
    {
        match read_csr(item_at(o, i)) {
            Some(c) => {
                let ghost before = out@;
                let ghost cv = c@;
                out.push(c);
                assert(csr_views(out@) =~= csr_views(before).push(cv));
            },
            None => {},
        }
        i += 1;
    }
    out
}

/// The names of the nodes in a list of nodes, among the first `n`.
pub open spec fn node_names(s: Seq<JsonV>, n: int) -> Seq<Seq<char>>
    decreases n,
{
    if 0 < n <= s.len() {
        match str_in(s[n - 1].get2("metadata"@, "name"@)) {
            Some(t) => node_names(s, n - 1).push(t),
            None => node_names(s, n - 1),
        }
    } else {
        Seq::empty()
    }
}

/// The names of the nodes that have registered.
pub fn registered_nodes(list: &Json) -> (r: Vec<String>)
    ensures
        texts(r@) == node_names(
            items_in(list@.get("items"@)),
            items_in(list@.get("items"@)).len() as int,
        ),
{
    let o = list.get("items");
    let ghost s = items_in(opt_view(o));
    let n = items_len(o);
    let mut out = no_texts();
    let mut i: usize = 0;
    while i < n
        invariant
            i <= n,
            s == items_in(opt_view(o)),
            n == s.len(),
            texts(out@) == node_names(s, i as int),
        decreases n - i,
    {
        match str_of(item_at(o, i).get2("metadata", "name")) {
            Some(t) => put(&mut out, &t),
            None => {},
        }
        i += 1;
    }
    out
}

/// The request is undecided and its node has registered.
pub open spec fn is_due(c: ServingCsrV, registered: Seq<String>) -> bool {
    !c.terminal && listed(registered, c.node)
}

/// The requests to approve among the first `n`.
pub open spec fn due(csrs: Seq<ServingCsrV>, registered: Seq<String>, n: int) -> Seq<ServingCsrV>
    decreases n,
{
    if 0 < n <= csrs.len() {
        if is_due(csrs[n - 1], registered) {
            due(csrs, registered, n - 1).push(csrs[n - 1])
        } else {
            due(csrs, registered, n - 1)
        }
    } else {
        Seq::empty()
    }
}

fn is_listed(v: &Vec<String>, t: &str) -> (r: bool)
    ensures
        r == listed(v@, t@),
{
    let mut i: usize = 0;
    while i < v.len()
        invariant
            i <= v.len(),
            forall|k: int| 0 <= k < i ==> (#[trigger] v@[k])@ != t@,
        decreases v.len() - i,
    {
        if str_eq(&v[i], t) {
            assert(v@[i as int]@ == t@);
            return true;
        }
        i += 1;
    }
    false
}

/// The requests to approve: those that are undecided and whose node has
/// registered.
pub fn pending_for_registered(csrs: &Vec<ServingCsr>, registered: &Vec<String>) -> (r: Vec<
    ServingCsr,
>)
    ensures
        csr_views(r@) == due(csr_views(csrs@), registered@, csrs@.len() as int),
{
    let ghost s = csr_views(csrs@);
    let mut out: Vec<ServingCsr> = Vec::new();
    assert(csr_views(out@) =~= Seq::empty());
    let mut i: usize = 0;
    while i < csrs.len()
        invariant
            i <= csrs.len(),
            s == csr_views(csrs@),
            csr_views(out@) == due(s, registered@, i as int),
        decreases csrs.len() - i,
    {
        let c = &csrs[i];
        assert(s[i as int] == c@);
        if !c.terminal && is_listed(registered, &c.node) {
            let ghost before = out@;
            out.push(
                ServingCsr {
                    name: lit(&c.name),
                    node: lit(&c.node),
                    issued: c.issued,
                    terminal: c.terminal,
                },
            );
            assert(csr_views(out@) =~= csr_views(before).push(c@));
        }
        i += 1;
    }
    out
}

/// The node has a certificate that was approved.
pub open spec fn is_served(csrs: Seq<ServingCsrV>, node: Seq<char>) -> bool {
    exists|i: int|
        0 <= i < csrs.len() && (#[trigger] csrs[i]).node == node && csrs[i].issued
            && csrs[i].terminal
}

pub fn node_serving_issued(csrs: &Vec<ServingCsr>, node: &str) -> (r: bool)
    ensures
        r == is_served(csr_views(csrs@), node@),
{
    let ghost s = csr_views(csrs@);
    let mut i: usize = 0;
    while i < csrs.len()
        invariant
            i <= csrs.len(),
            s == csr_views(csrs@),
            forall|k: int|
                0 <= k < i ==> !((#[trigger] s[k]).node == node@ && s[k].issued && s[k].terminal),
        decreases csrs.len() - i,
    {
        let c = &csrs[i];
        assert(s[i as int] == c@);
        if str_eq(&c.node, node) && c.issued && c.terminal {
            return true;
        }
        i += 1;
    }
    false
}

/// Whether to scan for requests of a kubeconfig for a page that is shown.
pub fn scan_now(seen: &mut Throttle, kubeconfig: &str, now: u64) -> (r: bool)
    ensures
        r == !old(seen).recent(kubeconfig@, now, SCAN_TTL_MS),
        !r ==> *final(seen) == *old(seen),
        r ==> final(seen).last(kubeconfig@) == Some(now),
        forall|k: Seq<char>|
            k != kubeconfig@ ==> #[trigger] final(seen).last(k) == old(seen).last(k),
{
    seen.try_now(kubeconfig, now, SCAN_TTL_MS, false)
}

/// How the wait for a certificate goes on.
#[derive(Debug, PartialEq, Eq)]
pub enum ServingWait {
    Done,
    /// Ask again; the last error so far.
    Again(Option<String>),
    Failed(String),
}

#[verifier::ext_equal]
pub ghost enum ServingWaitV {
    Done,
    Again(Option<Seq<char>>),
    Failed(Seq<char>),
}

impl View for ServingWait {
    type V = ServingWaitV;

    open spec fn view(&self) -> ServingWaitV {
        match self {
            ServingWait::Done => ServingWaitV::Done,
            ServingWait::Again(e) => ServingWaitV::Again(opt_text(*e)),
            ServingWait::Failed(e) => ServingWaitV::Failed(e@),
        }
    }
}

/// The state after a round of approving and listing: done where the node is
/// served, else the last error that came up.
pub open spec fn round(
    last: Option<Seq<char>>,
    approve: Option<Seq<char>>,
    list: Result<Seq<ServingCsrV>, Seq<char>>,
    node: Seq<char>,
) -> ServingWaitV {
    match list {
        Ok(csrs) => if is_served(csrs, node) {
            ServingWaitV::Done
        } else {
            ServingWaitV::Again(
                if approve is Some {
                    approve
                } else {
                    last
                },
            )
        },
        Err(e) => ServingWaitV::Again(Some(e)),
    }
}

/// The mathematical form of a list that was asked for.
pub open spec fn csr_list(r: Result<Vec<ServingCsr>, String>) -> Result<
    Seq<ServingCsrV>,
    Seq<char>,
> {
    match r {
        Ok(v) => Ok(csr_views(v@)),
        Err(e) => Err(e@),
    }
}

/// One round of the wait for a certificate: what approving failed with and what
/// listing gave.
pub fn serving_round(
    last: Option<String>,
    approve: Option<String>,
    list: &Result<Vec<ServingCsr>, String>,
    node: &str,
) -> (r: ServingWait)
    ensures
        r@ == round(opt_text(last), opt_text(approve), csr_list(*list), node@),
{
    match list {
        Ok(csrs) => {
            if node_serving_issued(csrs, node) {
                ServingWait::Done
            } else if approve.is_some() {
                ServingWait::Again(approve)
            } else {
                ServingWait::Again(last)
            }
        },
        Err(e) => ServingWait::Again(Some(lit(e))),
    }
}

/// Why the wait for a certificate ended without one.
pub fn serving_timeout(node: &str, last: &Option<String>, secs: u64) -> (r: String)
    ensures
        r@ == match opt_text(*last) {
            Some(e) => "kubelet serving cert for "@ + node@ + " not issued: "@ + e,
            None => "kubelet serving cert for "@ + node@ + " not issued within "@ + dec(
                secs as nat,
            ) + "s"@,
        },
{
    match last {
        Some(e) => lit("kubelet serving cert for ").concat(node).concat(" not issued: ").concat(e),
        None => lit("kubelet serving cert for ").concat(node).concat(" not issued within ").concat(
            &u64_str(secs),
        ).concat("s"),
    }
}

/// Only an undecided request whose node has registered is approved.
pub proof fn law_only_registered_nodes_are_approved(
    csrs: Seq<ServingCsrV>,
    registered: Seq<String>,
    n: int,
    i: int,
)
    requires
        0 <= n <= csrs.len(),
        0 <= i < due(csrs, registered, n).len(),
    ensures
        is_due(due(csrs, registered, n)[i], registered),
        csrs.contains(due(csrs, registered, n)[i]),
    decreases n,
{
    let before = due(csrs, registered, n - 1);
    if i < before.len() {
        law_only_registered_nodes_are_approved(csrs, registered, n - 1, i);
    }
}

/// Every undecided request whose node has registered is approved.
pub proof fn law_every_due_request_is_approved(
    csrs: Seq<ServingCsrV>,
    registered: Seq<String>,
    n: int,
    i: int,
)
    requires
        0 <= i < n <= csrs.len(),
        is_due(csrs[i], registered),
    ensures
        due(csrs, registered, n).contains(csrs[i]),
    decreases n,
{
    let before = due(csrs, registered, n - 1);
    let all = due(csrs, registered, n);
    if i < n - 1 {
        law_every_due_request_is_approved(csrs, registered, n - 1, i);
        let k = choose|k: int| 0 <= k < before.len() && before[k] == csrs[i];
        assert(all[k] == csrs[i]);
    } else {
        assert(all.last() == csrs[i]);
    }
}

/// A request counts as one of a node exactly where it is for serving, by the name
/// of a node and of the group of nodes; the node is the one of its name.
pub proof fn law_requests_of_nodes(j: JsonV, name: Seq<char>, node: Seq<char>, i: int)
    requires
        j.get2("metadata"@, "name"@) == Some(JsonV::Str(name)),
        name.len() > 0,
        j.get2("spec"@, "username"@) == Some(JsonV::Str("system:node:"@ + node)),
    ensures
        ({
            let groups = items_in(j.get2("spec"@, "groups"@));
            let signer = j.get2("spec"@, "signerName"@);
            &&& 0 <= i < groups.len() && groups[i] == JsonV::Str("system:nodes"@) && signer == Some(
                JsonV::Str("kubernetes.io/kubelet-serving"@),
            ) ==> serving_csr(j) is Some && serving_csr(j)->0.name == name && serving_csr(
                j,
            )->0.node == node
            &&& signer != Some(JsonV::Str("kubernetes.io/kubelet-serving"@)) ==> serving_csr(j)
                is None
            &&& groups.len() == 0 ==> serving_csr(j) is None
        }),
{
    let p = "system:node:"@;
    let user = p + node;
    assert(user.subrange(0, p.len() as int) =~= p);
    assert(user.subrange(p.len() as int, user.len() as int) =~= node);
    let groups = items_in(j.get2("spec"@, "groups"@));
    if 0 <= i < groups.len() && groups[i] == JsonV::Str("system:nodes"@) {
        assert(groups[i].as_str() == Some("system:nodes"@));
    }
}

/// A request is decided exactly where a condition approves or denies it.
pub proof fn law_decided_requests(s: Seq<JsonV>, i: int)
    ensures
        0 <= i < s.len() && s[i].get("type"@) == Some(JsonV::Str("Approved"@)) ==> is_decided(s),
        0 <= i < s.len() && s[i].get("type"@) == Some(JsonV::Str("Denied"@)) ==> is_decided(s),
        (forall|k: int|
            0 <= k < s.len() ==> (#[trigger] s[k]).get("type"@) != Some(JsonV::Str("Approved"@))
                && s[k].get("type"@) != Some(JsonV::Str("Denied"@))) ==> !is_decided(s),
{
    if 0 <= i < s.len() && (s[i].get("type"@) == Some(JsonV::Str("Approved"@)) || s[i].get("type"@)
        == Some(JsonV::Str("Denied"@))) {
        assert(decides(s[i]));
    }
}

/// A node is waited for until it has a certificate that was approved; an error is
/// kept while it goes on.
pub proof fn law_waiting_for_a_certificate(
    last: Option<Seq<char>>,
    approve: Option<Seq<char>>,
    csrs: Seq<ServingCsrV>,
    node: Seq<char>,
    e: Seq<char>,
    i: int,
)
    ensures
        0 <= i < csrs.len() && csrs[i].node == node && csrs[i].issued && csrs[i].terminal ==> round(
            last,
            approve,
            Ok(csrs),
            node,
        ) is Done,
        (forall|k: int|
            0 <= k < csrs.len() && (#[trigger] csrs[k]).node == node ==> !csrs[k].issued) ==> round(
            last,
            approve,
            Ok(csrs),
            node,
        ) is Again,
        round(last, approve, Err(e), node) == ServingWaitV::Again(Some(e)),
{
}

/// The registered nodes are those of the list that have a name.
pub proof fn law_names_of_the_nodes(s: Seq<JsonV>, n: int, k: int)
    requires
        0 <= n <= s.len(),
    ensures
        0 <= k < n && (s[k].get2("metadata"@, "name"@) is Some && s[k].get2("metadata"@, "name"@)->0 is Str) ==> node_names(s, n).contains(s[k].get2("metadata"@, "name"@)->0->Str_0),
        0 <= k < node_names(s, n).len() ==> exists|i: int|
            #![trigger s[i]]
            0 <= i < n && (s[i].get2("metadata"@, "name"@) is Some && s[i].get2("metadata"@, "name"@)->0 is Str) && node_names(s, n)[k] == s[i].get2("metadata"@, "name"@)->0->Str_0,
    decreases n,
{
    if n > 0 {
        law_names_of_the_nodes(s, n - 1, k);
        let b = node_names(s, n - 1);
        let r = node_names(s, n);
        if r.len() > b.len() {
            assert(r[r.len() - 1] == s[n - 1].get2("metadata"@, "name"@)->0->Str_0);
        }
        if 0 <= k < n - 1 && b.contains(s[k].get2("metadata"@, "name"@)->0->Str_0) {
            let i = choose|i: int| 0 <= i < b.len() && b[i] == s[k].get2("metadata"@, "name"@)->0->Str_0;
            assert(r[i] == b[i]);
        }
        if 0 <= k < r.len() && k < b.len() {
            assert(r[k] == b[k]);
        }
    }
}

/// The requests of nodes are those of the list that count as one.
pub proof fn law_requests_that_are_listed(s: Seq<JsonV>, n: int, k: int)
    requires
        0 <= n <= s.len(),
    ensures
        0 <= k < n && (serving_csr(s[k]) is Some) ==> serving_csrs(s, n).contains(serving_csr(s[k])->0),
        0 <= k < serving_csrs(s, n).len() ==> exists|i: int|
            #![trigger s[i]]
            0 <= i < n && (serving_csr(s[i]) is Some) && serving_csrs(s, n)[k] == serving_csr(s[i])->0,
    decreases n,
{
    if n > 0 {
        law_requests_that_are_listed(s, n - 1, k);
        let b = serving_csrs(s, n - 1);
        let r = serving_csrs(s, n);
        if r.len() > b.len() {
            assert(r[r.len() - 1] == serving_csr(s[n - 1])->0);
        }
        if 0 <= k < n - 1 && b.contains(serving_csr(s[k])->0) {
            let i = choose|i: int| 0 <= i < b.len() && b[i] == serving_csr(s[k])->0;
            assert(r[i] == b[i]);
        }
        if 0 <= k < r.len() && k < b.len() {
            assert(r[k] == b[k]);
        }
    }
}

} // verus!
