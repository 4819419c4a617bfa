//! Whether the machine API of a node answers, as opposed to the state of its
//! life cycle.
use crate::cluster_availability::{Availability, FRESH_TTL_MS};
use crate::cluster_versions::NodeOut;
use crate::num::{dec, u64_str};
use crate::text::{
    cat, lit, opt_str, opt_text, pos, starts_with, str_eq, str_has_char, str_starts, str_trim,
    str_until, trim,
};
use vstd::prelude::*;
use vstd::string::*;

verus! {

/// An address without its prefix length, where there is one.
pub open spec fn probe_ip(ip: Seq<char>) -> Option<Seq<char>> {
    let t = trim(ip);
    let s = trim(t.subrange(0, pos(t, '/', 0)));
    if s.len() == 0 {
        None
    } else {
        Some(s)
    }
}

pub fn normalize_probe_ip(ip: &str) -> (r: Option<String>)
    ensures
        opt_text(r) == probe_ip(ip@),
{
    let s = str_trim(&str_until(&str_trim(ip), '/'));
    if s.is_empty() {
        None
    } else {
        Some(s)
    }
}

/// The address of an optional text.
pub open spec fn probe_ip_in(o: Option<Seq<char>>) -> Option<Seq<char>> {
    match o {
        Some(ip) => probe_ip(ip),
        None => None,
    }
}

fn normalize_opt(o: Option<&str>) -> (r: Option<String>)
    ensures
        opt_text(r) == probe_ip_in(opt_str(o)),
{
    match o {
        Some(ip) => normalize_probe_ip(ip),
        None => None,
    }
}

/// A node that is being deleted is not asked. Any other is, so that a guest that
/// lives after a failed creation is seen.
pub fn skip_probe(status: &str) -> (r: bool)
    ensures
        r == (status@ == "deleting"@),
{
    str_eq(status, "deleting")
}

/// Under what an answer is remembered.
pub open spec fn probe_key(ip: Seq<char>) -> Seq<char> {
    ip + ":50000"@
}

fn key_for(ip: &str) -> (r: String)
    ensures
        r@ == probe_key(ip@),
{
    cat(ip, ":50000")
}

/// The addresses to try: the first one, and another where it differs.
pub open spec fn targets(ip: Option<Seq<char>>, ip6: Option<Seq<char>>) -> Option<
    (Seq<char>, Option<Seq<char>>),
> {
    let v4 = probe_ip_in(ip);
    let v6 = probe_ip_in(ip6);
    if v4 is Some {
        Some(
            (
                v4->0,
                if v6 is Some && v6->0 != v4->0 {
                    v6
                } else {
                    None
                },
            ),
        )
    } else if v6 is Some {
        Some((v6->0, None))
    } else {
        None
    }
}

/// What is to be done to learn whether a node answers.
#[derive(Debug, PartialEq, Eq)]
pub enum Probe {
    /// It is known.
    Known(String),
    /// Try the first address, then the other one; remember the answer under the
    /// key.
    Ask { key: String, first: String, other: Option<String> },
}

#[verifier::ext_equal]
pub ghost enum ProbeV {
    Known(Seq<char>),
    Ask { key: Seq<char>, first: Seq<char>, other: Option<Seq<char>> },
}

impl View for Probe {
    type V = ProbeV;

    open spec fn view(&self) -> ProbeV {
        match self {
            Probe::Known(s) => ProbeV::Known(s@),
            Probe::Ask { key, first, other } => ProbeV::Ask {
                key: key@,
                first: first@,
                other: opt_text(*other),
            },
        }
    }
}

/// A node that is being deleted or has no address is unknown; a fresh answer
/// stands.
pub open spec fn probe_plan(
    known: Availability,
    ip: Option<Seq<char>>,
    ip6: Option<Seq<char>>,
    status: Seq<char>,
    now: u64,
) -> ProbeV {
    if status == "deleting"@ || targets(ip, ip6) is None {
        ProbeV::Known("unknown"@)
    } else {
        let (first, other) = targets(ip, ip6)->0;
        match known.recent(probe_key(first), now, FRESH_TTL_MS) {
            Some(a) => ProbeV::Known(a),
            None => ProbeV::Ask { key: probe_key(first), first, other },
        }
    }
}

/// Both addresses of a node, where it has any.
fn find_targets(ip: Option<&str>, ip6: Option<&str>) -> (r: Option<(String, Option<String>)>)
    ensures
        match r {
            Some(p) => targets(opt_str(ip), opt_str(ip6)) == Some((p.0@, opt_text(p.1))),
            None => targets(opt_str(ip), opt_str(ip6)) is None,
        },
{
    let v6 = normalize_opt(ip6);
    match normalize_opt(ip) {
        Some(a) => match v6 {
            Some(b) => {
                if str_eq(&b, &a) {
                    Some((a, None))
                } else {
                    Some((a, Some(b)))
                }
            },
            None => Some((a, None)),
        },
        None => match v6 {
            Some(b) => Some((b, None)),
            None => None,
        },
    }
}

/// What is to be done to learn whether a node answers at either address.
pub fn probe_addrs(
    known: &Availability,
    ip: Option<&str>,
    ip6: Option<&str>,
    status: &str,
    now: u64,
) -> (r: Probe)
    ensures
        r@ == probe_plan(*known, opt_str(ip), opt_str(ip6), status@, now),
{
    if skip_probe(status) {
        return Probe::Known(lit("unknown"));
    }
    match find_targets(ip, ip6) {
        None => Probe::Known(lit("unknown")),
        Some((first, other)) => {
            let key = key_for(&first);
            match known.lookup(&key, now, FRESH_TTL_MS) {
                Some(a) => Probe::Known(a),
                None => Probe::Ask { key, first, other },
            }
        },
    }
}

/// What is to be done to learn whether a node answers at its address.
pub fn probe(known: &Availability, ip: Option<&str>, status: &str, now: u64) -> (r: Probe)
    ensures
        r@ == probe_plan(*known, opt_str(ip), None, status@, now),
{
    probe_addrs(known, ip, None, status, now)
}

/// What is to be done to learn whether a node answers.
pub fn probe_node(known: &Availability, node: &NodeOut, now: u64) -> (r: Probe)
    ensures
        r@ == probe_plan(*known, opt_text(node.ip), opt_text(node.ip6), node.status@, now),
{
    probe_addrs(known, borrowed(&node.ip), borrowed(&node.ip6), &node.status, now)
}

fn borrowed(o: &Option<String>) -> (r: Option<&str>)
    ensures
        opt_str(r) == opt_text(*o),
{
    match o {
        Some(s) => Some(s.as_str()),
        None => None,
    }
}

/// Remembers whether a node answered, and says it.
pub fn probed(known: &mut Availability, key: &str, open: bool, now: u64) -> (r: String)
    requires
        old(known).wf(),
    ensures
        final(known).wf(),
        r@ == (if open {
            "online"@
        } else {
            "offline"@
        }),
        final(known).known(key@) == Some((now, r@)),
        forall|id: Seq<char>|
            id != key@ ==> #[trigger] final(known).known(id) == old(known).known(id),
        forall|id: Seq<char>| #[trigger] final(known).is_asked(id) == old(known).is_asked(id),
{
    let result = if open {
        lit("online")
    } else {
        lit("offline")
    };
    known.store(key, &result, now);
    result
}

/// Remembers that a node answers: its machine API gave its health.
pub fn mark_online(known: &mut Availability, ip: Option<&str>, now: u64)
    requires
        old(known).wf(),
    ensures
        final(known).wf(),
        match probe_ip_in(opt_str(ip)) {
            Some(a) => {
                &&& final(known).known(probe_key(a)) == Some((now, "online"@))
                &&& forall|id: Seq<char>|
                    id != probe_key(a) ==> #[trigger] final(known).known(id) == old(known).known(id)
            },
            None => *final(known) == *old(known),
        },
        forall|id: Seq<char>| #[trigger] final(known).is_asked(id) == old(known).is_asked(id),
{
    match normalize_opt(ip) {
        Some(a) => known.store(&key_for(&a), "online", now),
        None => {},
    }
}

/// The key under which a node is to be asked in the background, where it is not
/// being deleted and has an address.
pub open spec fn refresh_key(
    ip: Option<Seq<char>>,
    ip6: Option<Seq<char>>,
    status: Seq<char>,
) -> Option<Seq<char>> {
    match targets(ip, ip6) {
        Some((first, _)) => if status == "deleting"@ {
            None
        } else {
            Some(probe_key(first))
        },
        None => None,
    }
}

/// Takes up the task to ask a node in the background: not where there is nothing
/// to ask, where a fresh answer is known, or where it is being asked. Gives the
/// key under which the task is to be ended.
pub fn begin_probe(
    known: &mut Availability,
    ip: Option<&str>,
    ip6: Option<&str>,
    status: &str,
    now: u64,
) -> (r: Option<String>)
    requires
        old(known).wf(),
    ensures
        final(known).wf(),
        final(known).answers@ == old(known).answers@,
        ({
            let k = refresh_key(opt_str(ip), opt_str(ip6), status@);
            let due = k is Some && old(known).recent(k->0, now, FRESH_TTL_MS) is None && !old(
                known,
            ).is_asked(k->0);
            &&& opt_text(r) == (if due {
                k
            } else {
                None
            })
            &&& due ==> final(known).is_asked(k->0)
            &&& forall|id: Seq<char>|
                !(due && id == k->0) ==> #[trigger] final(known).is_asked(id) == old(
                    known,
                ).is_asked(id)
        }),
{
    if skip_probe(status) {
        return None;
    }
    match find_targets(ip, ip6) {
        None => None,
        Some((first, _)) => {
            let key = key_for(&first);
            if known.begin_refresh(&key, "ready", now) {
                Some(key)
            } else {
                None
            }
        },
    }
}

/// The node is offline although it has an address.
pub open spec fn is_stale(n: NodeOut) -> bool {
    n.availability@ == "offline"@ && n.ip is Some && trim(n.ip->0@).len() > 0
}

/// Whether the addresses of nodes are to be looked for again: some node is
/// offline although it has one.
pub fn rediscovery_due(nodes: &Vec<NodeOut>) -> (r: bool)
    ensures
        r == exists|i: int| 0 <= i < nodes@.len() && is_stale(#[trigger] nodes@[i]),
{
    let mut i: usize = 0;
    while i < nodes.len()
        invariant
            i <= nodes.len(),
            forall|k: int| 0 <= k < i ==> !is_stale(#[trigger] nodes@[k]),
        decreases nodes.len() - i,
    {
        let n = &nodes[i];
        let has_ip = match &n.ip {
            Some(ip) => !str_trim(ip).is_empty(),
            None => false,
        };
        if str_eq(&n.availability, "offline") && has_ip {
            assert(is_stale(nodes@[i as int]));
            return true;
        }
        i += 1;
    }
    false
}

/// The address of a port as text; an IPv6 address stands in brackets.
pub open spec fn socket_address(ip: Seq<char>, port: nat) -> Option<Seq<char>> {
    match probe_ip(ip) {
        Some(a) => if a.contains(':') && !starts_with(a, "["@) {
            Some("["@ + a + "]:"@ + dec(port))
        } else {
            Some(a + ":"@ + dec(port))
        },
        None => None,
    }
}

/// The address of a port as text, where there is an address.
pub fn socket_text(ip: &str, port: u16) -> (r: Option<String>)
    ensures
        opt_text(r) == socket_address(ip@, port as nat),
{
    match normalize_probe_ip(ip) {
        Some(a) => {
            let p = u64_str(port as u64);
            if str_has_char(&a, ':') && !str_starts(&a, "[") {
                Some(lit("[").concat(&a).concat("]:").concat(&p))
            } else {
                Some(a.concat(":").concat(&p))
            }
        },
        None => None,
    }
}

/// A node whose health was given counts as online for as long as that answer is
/// fresh.
pub proof fn law_health_answer_stands(
    known: Availability,
    ip: Seq<char>,
    ip6: Option<Seq<char>>,
    status: Seq<char>,
    at: u64,
    now: u64,
)
    requires
        probe_ip(ip) is Some,
        known.known(probe_key(probe_ip(ip)->0)) == Some((at, "online"@)),
        status != "deleting"@,
        now <= at + FRESH_TTL_MS,
    ensures
        probe_plan(known, Some(ip), ip6, status, now) == ProbeV::Known("online"@),
{
}

/// A node is asked at its address, then at the one of the other family; at that
/// one alone where it has no other; and nowhere where it has none.
pub proof fn law_where_a_node_is_asked(ip: Option<Seq<char>>, ip6: Option<Seq<char>>)
    ensures
        ({
            let a = probe_ip_in(ip);
            let b = probe_ip_in(ip6);
            &&& a is Some && b is Some && a != b ==> targets(ip, ip6) == Some((a->0, b))
            &&& a is Some && (b is None || a == b) ==> targets(ip, ip6) == Some(
                (a->0, None::<Seq<char>>),
            )
            &&& a is None && b is Some ==> targets(ip, ip6) == Some((b->0, None::<Seq<char>>))
            &&& a is None && b is None ==> targets(ip, ip6) is None
        }),
{
}

/// A node is asked exactly where it has an address, is not being deleted, and has
/// not answered within the last quarter of a minute; the answer is kept under its
/// address.
pub proof fn law_when_a_node_is_asked(
    known: Availability,
    ip: Option<Seq<char>>,
    ip6: Option<Seq<char>>,
    status: Seq<char>,
    now: u64,
)
    ensures
        ({
            let p = probe_plan(known, ip, ip6, status, now);
            let (first, other) = targets(ip, ip6)->0;
            let key = first + ":50000"@;
            &&& status == "deleting"@ || targets(ip, ip6) is None ==> p == ProbeV::Known(
                "unknown"@,
            ) && refresh_key(ip, ip6, status) is None
            &&& status != "deleting"@ && targets(ip, ip6) is Some ==> {
                &&& refresh_key(ip, ip6, status) == Some(key)
                &&& known.recent(key, now, 15_000) is Some ==> p == ProbeV::Known(
                    known.recent(key, now, 15_000)->0,
                )
                &&& known.recent(key, now, 15_000) is None ==> p == ProbeV::Ask {
                    key,
                    first,
                    other,
                }
            }
        }),
{
}

/// An address of the newer family stands in brackets before a port, one of the
/// older does not.
pub proof fn law_address_with_a_port(ip: Seq<char>, port: nat, a: Seq<char>)
    requires
        probe_ip(ip) == Some(a),
    ensures
        !a.contains(':') ==> socket_address(ip, port) == Some(a + ":"@ + dec(port)),
        a.contains(':') && !starts_with(a, "["@) ==> socket_address(ip, port) == Some(
            "["@ + a + "]:"@ + dec(port),
        ),
{
}

/// A node is looked for anew where it does not answer at an address that it has.
pub proof fn law_nodes_that_are_looked_for(n: NodeOut)
    ensures
        is_stale(n) <==> n.availability@ == "offline"@ && n.ip is Some && trim(n.ip->0@).len() > 0,
{
}

} // verus!
