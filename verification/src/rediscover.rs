//! Finding nodes again whose addresses have changed, and kubelets that did not
//! start.
//!
//! After a reboot of its host a guest may have another address. It is learnt
//! from the hypervisor, or from a scan of the network for machine APIs, and the
//! kubeconfig is mended where it names the old one.
use crate::cluster_resources::{
    api_url, host_in, named_server, read_kubeconfig_server, rewrite_kubeconfig_server, server_host,
};
use crate::ip::{ipv4, ipv4_str, lan_v4, parse_v4, show_v4};
use crate::json::text_or;
use crate::node_status::pair_view;
use crate::node_sync::{KUBELET_HEAL_TTL_MS, NodeSnapshot, has_text_in};
use crate::text::{
    before, lines, lit, no_texts, opt_eq, opt_text, put, str_before, str_eq, str_lines,
    str_strip_prefix, str_trim, str_words, strip_prefix, texts, trim, words,
};
use crate::throttle::Throttle;
use crate::yaml::{patch_yaml_hostname, patch_yaml_kubernetes_version, set_all, set_first, unlines};
use vstd::prelude::*;
use vstd::string::*;

verus! {

/// A node and its address as stored.
#[derive(Debug, PartialEq, Eq)]
pub struct NodeAddress {
    pub id: String,
    pub name: String,
    pub role: String,
    pub ip: Option<String>,
}

/// An address that a guest on the network can have.
pub open spec fn is_usable_lan(ip: Seq<char>) -> bool {
    match parse_v4(trim(ip)) {
        Some((a, b, c, d)) => lan_v4(a, b, c, d),
        None => false,
    }
}

pub fn usable_lan_ipv4(ip: &str) -> (r: bool)
    ensures
        r == is_usable_lan(ip@),
{
    match ipv4(&str_trim(ip)) {
        Some((a, b, c, d)) => !(a == 127 || (a == 0 && b == 0 && c == 0 && d == 0) || (a == 255
            && b == 255 && c == 255 && d == 255) || (a == 169 && b == 254) || (224 <= a && a
            <= 239)),
        None => false,
    }
}

/// The network of the first node at or after `i` whose address is usable as it
/// stands.
pub open spec fn network_of(nodes: Seq<NodeAddress>, i: int) -> Option<(nat, nat, nat)>
    decreases nodes.len() - i,
{
    if 0 <= i < nodes.len() {
        match nodes[i].ip {
            Some(ip) => if is_usable_lan(ip@) && parse_v4(ip@) is Some {
                let (a, b, c, _) = parse_v4(ip@)->0;
                Some((a, b, c))
            } else {
                network_of(nodes, i + 1)
            },
            None => network_of(nodes, i + 1),
        }
    } else {
        None
    }
}

/// The mathematical form of a network.
pub open spec fn network_view(o: Option<(u8, u8, u8)>) -> Option<(nat, nat, nat)> {
    match o {
        Some((a, b, c)) => Some((a as nat, b as nat, c as nat)),
        None => None,
    }
}

/// The network to scan: the first three numbers of its addresses.
pub fn subnet_base(nodes: &Vec<NodeAddress>) -> (r: Option<(u8, u8, u8)>)
    ensures
        network_view(r) == network_of(nodes@, 0),
{
    let mut i: usize = 0;
    while i < nodes.len()
        invariant
            i <= nodes.len(),
            network_of(nodes@, 0) == network_of(nodes@, i as int),
        decreases nodes.len() - i,
    {
        match &nodes[i].ip {
            Some(ip) => {
                if usable_lan_ipv4(ip) {
                    match ipv4(ip) {
                        Some((a, b, c, _)) => {
                            return Some((a, b, c));
                        },
                        None => {},
                    }
                }
            },
            None => {},
        }
        i += 1;
    }
    None
}

/// The hosts of a network from 1 to `n`, without the virtual address.
pub open spec fn hosts(a: nat, b: nat, c: nat, vip: Option<Seq<char>>, n: nat) -> Seq<Seq<char>>
    decreases n,
{
    if n == 0 {
        Seq::empty()
    } else {
        let r = hosts(a, b, c, vip, (n - 1) as nat);
        if vip == Some(show_v4(a, b, c, n)) {
            r
        } else {
            r.push(show_v4(a, b, c, n))
        }
    }
}

/// The addresses to scan for machine APIs: all hosts of the network but the
/// virtual address.
pub fn scan_addresses(base: (u8, u8, u8), vip: &Option<String>) -> (r: Vec<String>)
    ensures
        texts(r@) == hosts(base.0 as nat, base.1 as nat, base.2 as nat, opt_text(*vip), 254),
{
    let mut out = no_texts();
    let mut n: u8 = 0;
    while n < 254
        invariant
            n <= 254,
            texts(out@) == hosts(
                base.0 as nat,
                base.1 as nat,
                base.2 as nat,
                opt_text(*vip),
                n as nat,
            ),
        decreases 254 - n,
    {
        let ip = ipv4_str(base.0, base.1, base.2, n + 1);
        if !opt_eq(vip, &ip) {
            put(&mut out, &ip);
        }
        n += 1;
    }
    out
}

/// Addresses of nodes, nothing where none is known.
pub open spec fn opt_texts_of(v: Seq<Option<String>>) -> Seq<Option<Seq<char>>> {
    Seq::new(v.len(), |i: int| opt_text(v[i]))
}

/// The address of a node that the hypervisor gave, where it is usable and not
/// the virtual one.
pub open spec fn own_address(ip: Option<Seq<char>>, vip: Option<Seq<char>>) -> Option<Seq<char>> {
    match ip {
        Some(a) => if is_usable_lan(a) && vip != Some(a) {
            Some(a)
        } else {
            None
        },
        None => None,
    }
}

/// The addresses that the hypervisor gave for the nodes, of those that can be
/// used.
pub fn from_hypervisor(given: &Vec<Option<String>>, vip: &Option<String>) -> (r: Vec<
    Option<String>,
>)
    ensures
        opt_texts_of(r@) == Seq::new(
            given@.len(),
            |i: int| own_address(opt_text(given@[i]), opt_text(*vip)),
        ),
{
    let ghost want = Seq::new(
        given@.len(),
        |i: int| own_address(opt_text(given@[i]), opt_text(*vip)),
    );
    let mut out: Vec<Option<String>> = Vec::new();
    let mut i: usize = 0;
    while i < given.len()
        invariant
            i <= given.len(),
            out.len() == i,
            want.len() == given@.len(),
            forall|k: int|
                0 <= k < given@.len() ==> #[trigger] want[k] == own_address(
                    opt_text(given@[k]),
                    opt_text(*vip),
                ),
            forall|k: int| 0 <= k < i ==> opt_text(#[trigger] out@[k]) == want[k],
        decreases given.len() - i,
    {
        let mut next: Option<String> = None;
        match &given[i] {
            Some(a) => {
                if usable_lan_ipv4(a) && !opt_eq(vip, a) {
                    next = Some(lit(a));
                }
            },
            None => {},
        }
        assert(opt_text(next) == want[i as int]);
        out.push(next);
        i += 1;
    }
    assert(opt_texts_of(out@) =~= want);
    out
}

/// The node must be looked for: it has no address, or the one that it had, which
/// nothing else was found for, does not answer.
pub open spec fn is_lost(n: NodeAddress, found: Option<Seq<char>>, open: bool) -> bool {
    match n.ip {
        Some(cur) => cur@.len() == 0 || (!open && (found is None || found->0 == cur@)),
        None => true,
    }
}

/// Whether the network is to be scanned: the hypervisor did not give all
/// addresses, or some node must be looked for. `open` says which nodes answer at
/// their stored address.
pub fn scan_needed(nodes: &Vec<NodeAddress>, found: &Vec<Option<String>>, open: &Vec<bool>) -> (r:
    bool)
    requires
        found@.len() == nodes@.len(),
        open@.len() == nodes@.len(),
    ensures
        r == exists|i: int|
            0 <= i < nodes@.len() && ((#[trigger] found@[i]) is None || is_lost(
                nodes@[i],
                opt_text(found@[i]),
                open@[i],
            )),
{
    let mut i: usize = 0;
    while i < nodes.len()
        invariant
            i <= nodes.len(),
            found@.len() == nodes@.len(),
            open@.len() == nodes@.len(),
            forall|k: int|
                0 <= k < i ==> !((#[trigger] found@[k]) is None || is_lost(
                    nodes@[k],
                    opt_text(found@[k]),
                    open@[k],
                )),
        decreases nodes.len() - i,
    {
        match &found[i] {
            None => {
                return true;
            },
            Some(f) => match &nodes[i].ip {
                Some(cur) => {
                    if cur.is_empty() || (!open[i] && str_eq(f, cur)) {
                        assert(is_lost(nodes@[i as int], opt_text(found@[i as int]), open@[i as int]));
                        return true;
                    }
                },
                None => {
                    assert(is_lost(nodes@[i as int], opt_text(found@[i as int]), open@[i as int]));
                    return true;
                },
            },
        }
        i += 1;
    }
    false
}

/// The last address among the first `n` at which a host of the name answered.
pub open spec fn scanned_at(v: Seq<(String, String)>, name: Seq<char>, n: int) -> Option<Seq<char>>
    decreases n,
{
    if 0 < n <= v.len() {
        if v[n - 1].0@ == name {
            Some(v[n - 1].1@)
        } else {
            scanned_at(v, name, n - 1)
        }
    } else {
        None
    }
}

/// A later node has the same name.
pub open spec fn is_hidden(nodes: Seq<NodeAddress>, i: int) -> bool {
    exists|k: int| i < k < nodes.len() && (#[trigger] nodes[k]).name@ == nodes[i].name@
}

/// The address of a node after a scan: that at which a host of its name
/// answered, else the one found before.
pub open spec fn after_scan(
    nodes: Seq<NodeAddress>,
    found: Seq<Option<String>>,
    scanned: Seq<(String, String)>,
    i: int,
) -> Option<Seq<char>> {
    let s = scanned_at(scanned, nodes[i].name@, scanned.len() as int);
    if s is Some && !is_hidden(nodes, i) {
        s
    } else {
        opt_text(found[i])
    }
}

fn find_scanned(v: &Vec<(String, String)>, name: &str) -> (r: Option<String>)
    ensures
        opt_text(r) == scanned_at(v@, name@, v@.len() as int),
{
    let mut i: usize = v.len();
    while i > 0
        invariant
            i <= v.len(),
            scanned_at(v@, name@, v@.len() as int) == scanned_at(v@, name@, i as int),
        decreases i,
    {
        if str_eq(&v[i - 1].0, name) {
            return Some(lit(&v[i - 1].1));
        }
        i -= 1;
    }
    None
}

fn named_later(nodes: &Vec<NodeAddress>, i: usize) -> (r: bool)
    requires
        i < nodes@.len(),
    ensures
        r == is_hidden(nodes@, i as int),
{
    let total: usize = nodes.len();
    let mut k: usize = i + 1;
    while k < total
        invariant
            total == nodes.len(),
            i < k <= total,
            forall|j: int| i < j < k ==> (#[trigger] nodes@[j]).name@ != nodes@[i as int].name@,
        decreases total - k,
    {
        if str_eq(&nodes[k].name, &nodes[i].name) {
            assert(nodes@[k as int].name@ == nodes@[i as int].name@);
            return true;
        }
        k += 1;
    }
    false
}

/// The addresses of nodes after a scan gave names and addresses of hosts.
pub fn with_scanned(
    nodes: &Vec<NodeAddress>,
    found: &Vec<Option<String>>,
    scanned: &Vec<(String, String)>,
) -> (r: Vec<Option<String>>)
    requires
        found@.len() == nodes@.len(),
    ensures
        opt_texts_of(r@) == Seq::new(
            nodes@.len(),
            |i: int| after_scan(nodes@, found@, scanned@, i),
        ),
{
    let ghost want = Seq::new(nodes@.len(), |i: int| after_scan(nodes@, found@, scanned@, i));
    let mut out: Vec<Option<String>> = Vec::new();
    let mut i: usize = 0;
    while i < nodes.len()
        invariant
            i <= nodes.len(),
            found@.len() == nodes@.len(),
            out.len() == i,
            want.len() == nodes@.len(),
            forall|k: int|
                0 <= k < nodes@.len() ==> #[trigger] want[k] == after_scan(
                    nodes@,
                    found@,
                    scanned@,
                    k,
                ),
            forall|k: int| 0 <= k < i ==> opt_text(#[trigger] out@[k]) == want[k],
        decreases nodes.len() - i,
    {
        let s = find_scanned(scanned, &nodes[i].name);
        let hidden = named_later(nodes, i);
        let next = if s.is_some() && !hidden {
            s
        } else {
            match &found[i] {
                Some(f) => Some(lit(f)),
                None => None,
            }
        };
        assert(opt_text(next) == want[i as int]);
        out.push(next);
        i += 1;
    }
    assert(opt_texts_of(out@) =~= want);
    out
}

/// The stored address of a node, nothing where none is stored.
pub open spec fn stored_ip(n: NodeAddress) -> Seq<char> {
    text_or(opt_text(n.ip), ""@)
}

/// The address of the node has changed.
pub open spec fn has_moved(n: NodeAddress, found: Option<Seq<char>>) -> bool {
    found is Some && found->0 != stored_ip(n)
}

/// The nodes among the first `n` whose address has changed, with the new one.
pub open spec fn moves(
    nodes: Seq<NodeAddress>,
    found: Seq<Option<Seq<char>>>,
    n: int,
) -> Seq<(Seq<char>, Seq<char>)>
    decreases n,
{
    if 0 < n <= nodes.len() {
        if has_moved(nodes[n - 1], found[n - 1]) {
            moves(nodes, found, n - 1).push((nodes[n - 1].id@, found[n - 1]->0))
        } else {
            moves(nodes, found, n - 1)
        }
    } else {
        Seq::empty()
    }
}

/// The first control plane at or after `i` whose address has changed: the old
/// address and the new one.
pub open spec fn moved_cp(
    nodes: Seq<NodeAddress>,
    found: Seq<Option<Seq<char>>>,
    i: int,
) -> Option<(Seq<char>, Seq<char>)>
    decreases nodes.len() - i,
{
    if 0 <= i < nodes.len() {
        if nodes[i].role@ == "controlplane"@ && has_moved(nodes[i], found[i]) {
            Some((stored_ip(nodes[i]), found[i]->0))
        } else {
            moved_cp(nodes, found, i + 1)
        }
    } else {
        None
    }
}

/// What changes when nodes are found again.
#[derive(Debug, PartialEq, Eq)]
pub struct Moves {
    /// Ids of nodes and their new addresses.
    pub updates: Vec<(String, String)>,
    /// The old address of a control plane and its new one.
    pub controlplane: Option<(String, String)>,
}

/// Pairs of texts.
pub open spec fn pair_views(v: Seq<(String, String)>) -> Seq<(Seq<char>, Seq<char>)> {
    Seq::new(v.len(), |i: int| (v[i].0@, v[i].1@))
}

/// What changes, given the addresses at which the nodes were found.
pub fn rediscover_plan(nodes: &Vec<NodeAddress>, found: &Vec<Option<String>>) -> (r: Moves)
    requires
        found@.len() == nodes@.len(),
    ensures
        pair_views(r.updates@) == moves(nodes@, opt_texts_of(found@), nodes@.len() as int),
        pair_view(r.controlplane) == moved_cp(nodes@, opt_texts_of(found@), 0),
{
    let ghost f = opt_texts_of(found@);
    let mut updates: Vec<(String, String)> = Vec::new();
    let mut controlplane: Option<(String, String)> = None;
    assert(pair_views(updates@) =~= Seq::empty());
    let mut i: usize = 0;
    while i < nodes.len()
        invariant
            i <= nodes.len(),
            found@.len() == nodes@.len(),
            f == opt_texts_of(found@),
            pair_views(updates@) == moves(nodes@, f, i as int),
            moved_cp(nodes@, f, 0) == (if controlplane is Some {
                pair_view(controlplane)
            } else {
                moved_cp(nodes@, f, i as int)
            }),
        decreases nodes.len() - i,
    {
        let n = &nodes[i];
        assert(f[i as int] == opt_text(found@[i as int]));
        match &found[i] {
            Some(next) => {
                let prev = match &n.ip {
                    Some(p) => lit(p),
                    None => lit(""),
                };
                if !str_eq(next, &prev) {
                    if controlplane.is_none() && str_eq(&n.role, "controlplane") {
                        controlplane = Some((prev, lit(next)));
                    }
                    let ghost before = updates@;
                    updates.push((lit(&n.id), lit(next)));
                    assert(pair_views(updates@) =~= pair_views(before).push((n.id@, next@)));
                }
            },
            None => {},
        }
        i += 1;
    }
    Moves { updates, controlplane }
}

/// The kubeconfig is made to name the new address where it named the old one,
/// or where the cluster has one control plane and no virtual address there. That
/// of a cluster with several control planes keeps the virtual address.
pub open spec fn endpoint_moves(
    kc: Seq<char>,
    vip: Option<Seq<char>>,
    old_cp: Option<Seq<char>>,
    controlplanes: int,
) -> bool {
    let host = match named_server(kc) {
        Some(s) => host_in(s),
        None => Seq::empty(),
    };
    let at_vip = vip == Some(host);
    let at_old = old_cp is Some && old_cp->0.len() > 0 && old_cp->0 == host;
    !(at_vip && controlplanes > 1) && (at_old || (controlplanes <= 1 && !at_vip))
}

/// The kubeconfig after a control plane got a new address, where it is to
/// change.
pub fn moved_kubeconfig(
    kc: &str,
    vip: &Option<String>,
    old_cp: &Option<String>,
    new_ip: &str,
    controlplanes: i64,
) -> (r: Option<String>)
    ensures
        opt_text(r) == (if endpoint_moves(
            kc@,
            opt_text(*vip),
            opt_text(*old_cp),
            controlplanes as int,
        ) {
            Some(unlines(set_all(lines(kc@), "server:"@, api_url(new_ip@))))
        } else {
            None
        }),
{
    let host = match read_kubeconfig_server(kc) {
        Some(s) => server_host(&s),
        None => String::new(),
    };
    let at_vip = opt_eq(vip, &host);
    let at_old = match old_cp {
        Some(o) => !o.is_empty() && str_eq(o, &host),
        None => false,
    };
    if at_vip && controlplanes > 1 {
        return None;
    }
    if !(at_old || (controlplanes <= 1 && !at_vip)) {
        return None;
    }
    let url = lit("https://").concat(new_ip).concat(":6443");
    Some(rewrite_kubeconfig_server(kc, &url))
}

/// A cluster with several control planes keeps its virtual address.
pub proof fn law_virtual_address_stays(
    kc: Seq<char>,
    vip: Seq<char>,
    old_cp: Option<Seq<char>>,
    controlplanes: int,
)
    requires
        named_server(kc) is Some,
        host_in(named_server(kc)->0) == vip,
        controlplanes > 1,
    ensures
        !endpoint_moves(kc, Some(vip), old_cp, controlplanes),
{
}

/// Nodes that are found where they were do not change.
pub proof fn law_found_where_they_were(
    nodes: Seq<NodeAddress>,
    found: Seq<Option<Seq<char>>>,
    n: int,
)
    requires
        0 <= n <= nodes.len(),
        found.len() == nodes.len(),
        forall|i: int| 0 <= i < nodes.len() ==> !has_moved(nodes[i], #[trigger] found[i]),
    ensures
        moves(nodes, found, n) == Seq::<(Seq<char>, Seq<char>)>::empty(),
    decreases n,
{
    if n > 0 {
        law_found_where_they_were(nodes, found, n - 1);
        assert(!has_moved(nodes[n - 1], found[n - 1]));
    }
}

// ---------------------------------------------------------------------------
// Kubelets that did not start
// ---------------------------------------------------------------------------

/// What a line says of the kubelet, before its dash.
pub open spec fn kubelet_word(w: Seq<Seq<char>>, i: int) -> Option<Seq<char>>
    decreases w.len() - i,
{
    if 0 <= i < w.len() {
        match strip_prefix(w[i], "kubelet="@) {
            Some(v) => Some(v),
            None => kubelet_word(w, i + 1),
        }
    } else {
        None
    }
}

/// What the first line at or after `i` that speaks of the kubelet says of it.
pub open spec fn kubelet_in(ls: Seq<Seq<char>>, i: int) -> Option<Seq<char>>
    decreases ls.len() - i,
{
    if 0 <= i < ls.len() {
        match kubelet_word(words(before(before(ls[i], " — "@), " - "@)), 0) {
            Some(v) => Some(v),
            None => kubelet_in(ls, i + 1),
        }
    } else {
        None
    }
}

fn find_kubelet(main: &str) -> (r: Option<String>)
    ensures
        opt_text(r) == kubelet_word(words(main@), 0),
{
    let w = str_words(main);
    let ghost want = words(main@);
    let mut i: usize = 0;
    while i < w.len()
        invariant
            i <= w.len(),
            want == words(main@),
            want == texts(w@),
            kubelet_word(want, 0) == kubelet_word(want, i as int),
        decreases w.len() - i,
    {
        assert(want[i as int] == w@[i as int]@);
        match str_strip_prefix(&w[i], "kubelet=") {
            Some(v) => {
                return Some(v);
            },
            None => {},
        }
        i += 1;
    }
    assert(want.len() == w.len());
    None
}

/// The state of the kubelet, from what `pertiskctl health` printed.
pub fn parse_health_kubelet(stdout: &str) -> (r: Option<String>)
    ensures
        opt_text(r) == kubelet_in(lines(stdout@), 0),
{
    let ls = str_lines(stdout);
    let ghost want = lines(stdout@);
    let mut i: usize = 0;
    while i < ls.len()
        invariant
            i <= ls.len(),
            want == lines(stdout@),
            want == texts(ls@),
            kubelet_in(want, 0) == kubelet_in(want, i as int),
        decreases ls.len() - i,
    {
        assert(want[i as int] == ls@[i as int]@);
        match find_kubelet(&str_before(&str_before(&ls[i], " — "), " - ")) {
            Some(v) => {
                return Some(v);
            },
            None => {},
        }
        i += 1;
    }
    assert(want.len() == ls.len());
    None
}

/// Whether a node is to be looked at: it is not ready, it has an address, and it
/// was not looked at lately.
pub fn heal_candidate(seen: &mut Throttle, snap: &NodeSnapshot, now: u64) -> (r: Option<String>)
    ensures
        ({
            let ip = opt_text(snap.ip);
            let due = opt_text(snap.kubelet_status) == Some("not_ready"@) && has_text_in(ip)
                && !old(seen).recent(ip->0, now, KUBELET_HEAL_TTL_MS);
            &&& opt_text(r) == (if due {
                ip
            } else {
                None
            })
            &&& !due ==> *final(seen) == *old(seen)
            &&& due ==> final(seen).last(ip->0) == Some(now)
            &&& forall|k: Seq<char>|
                !(due && k == ip->0) ==> #[trigger] final(seen).last(k) == old(seen).last(k)
        }),
{
    if !opt_eq(&snap.kubelet_status, "not_ready") {
        return None;
    }
    match &snap.ip {
        Some(ip) => {
            if !ip.is_empty() && seen.try_now(ip, now, KUBELET_HEAL_TTL_MS, false) {
                Some(lit(ip))
            } else {
                None
            }
        },
        None => None,
    }
}

/// Whether the kubelet is to be started: the node says that it has none.
pub fn kubelet_absent(health: &Option<String>) -> (r: bool)
    ensures
        r == (opt_text(*health) == Some("absent"@)),
{
    opt_eq(health, "absent")
}

/// The machine configuration with which a kubelet is started again.
pub fn healed_config(yaml: &str, node_name: &str, version: &Option<String>) -> (r: String)
    ensures
        ({
            let named = unlines(set_first(lines(yaml@), "hostname:"@, node_name@));
            r@ == match opt_text(*version) {
                Some(v) => unlines(set_all(lines(named), "kubernetesVersion:"@, v)),
                None => named,
            }
        }),
{
    let named = patch_yaml_hostname(yaml, node_name);
    match version {
        Some(v) => patch_yaml_kubernetes_version(&named, v),
        None => named,
    }
}

/// The updates are exactly the nodes that are found elsewhere, each with where it
/// was found.
pub proof fn law_updates_are_the_moved_nodes(
    nodes: Seq<NodeAddress>,
    found: Seq<Option<Seq<char>>>,
    n: int,
    k: int,
)
    requires
        0 <= n <= nodes.len(),
        nodes.len() == found.len(),
    ensures
        0 <= k < n && found[k] is Some && (nodes[k].ip is None && found[k]->0.len() > 0
            || nodes[k].ip is Some && nodes[k].ip->0@ != found[k]->0) ==> moves(
            nodes,
            found,
            n,
        ).contains((nodes[k].id@, found[k]->0)),
        0 <= k < moves(nodes, found, n).len() ==> exists|i: int|
            0 <= i < n && moves(nodes, found, n)[k] == ((#[trigger] nodes[i]).id@, found[i]->0)
                && found[i] is Some && (nodes[i].ip is Some ==> nodes[i].ip->0@ != found[i]->0),
    decreases n,
{
    reveal_strlit("");
    if n > 0 {
        law_updates_are_the_moved_nodes(nodes, found, n - 1, k);
        let b = moves(nodes, found, n - 1);
        let r = moves(nodes, found, n);
        if has_moved(nodes[n - 1], found[n - 1]) {
            assert(r[r.len() - 1] == (nodes[n - 1].id@, found[n - 1]->0));
        }
        if 0 <= k < n - 1 {
            let x = (nodes[k].id@, found[k]->0);
            if b.contains(x) {
                let i = choose|i: int| 0 <= i < b.len() && b[i] == x;
                assert(r[i] == x);
            }
        }
        if 0 <= k < r.len() {
            if k < b.len() {
                assert(r[k] == b[k]);
            } else {
                assert(has_moved(nodes[n - 1], found[n - 1]));
            }
        }
    }
}

/// The move of a control plane that is reported is the first of one, from where it
/// was stored to where it was found; none is reported where none has moved.
pub proof fn law_moved_control_plane(
    nodes: Seq<NodeAddress>,
    found: Seq<Option<Seq<char>>>,
    i: int,
)
    requires
        0 <= i <= nodes.len(),
        nodes.len() == found.len(),
    ensures
        match moved_cp(nodes, found, i) {
            Some((from, to)) => exists|k: int|
                i <= k < nodes.len() && (#[trigger] nodes[k]).role@ == "controlplane"@ && found[k]
                    == Some(to) && from != to && (nodes[k].ip is Some ==> nodes[k].ip->0@ == from),
            None => forall|k: int|
                i <= k < nodes.len() && (#[trigger] nodes[k]).role@ == "controlplane"@ && found[k]
                    is Some && nodes[k].ip is Some ==> nodes[k].ip->0@ == found[k]->0,
        },
    decreases nodes.len() - i,
{
    if i < nodes.len() {
        law_moved_control_plane(nodes, found, i + 1);
    }
}

/// A node is looked for on the network exactly where it has no address, or does
/// not answer at the one it has and no other is known.
pub proof fn law_lost_nodes(n: NodeAddress, found: Option<Seq<char>>, open: bool)
    ensures
        n.ip is None ==> is_lost(n, found, open),
        n.ip is Some && n.ip->0@.len() > 0 && open ==> !is_lost(n, found, open),
        n.ip is Some && n.ip->0@.len() > 0 && found is Some && found->0 != n.ip->0@ ==> !is_lost(
            n,
            found,
            open,
        ),
        n.ip is Some && !open && found is None ==> is_lost(n, found, open),
        n.ip is Some && !open && found == Some(n.ip->0@) ==> is_lost(n, found, open),
{
}

/// The scan looks at each host of the network but the virtual address.
pub proof fn law_hosts_that_are_scanned(
    a: nat,
    b: nat,
    c: nat,
    vip: Option<Seq<char>>,
    n: nat,
    k: nat,
)
    ensures
        0 < k <= n && vip != Some(show_v4(a, b, c, k)) ==> hosts(a, b, c, vip, n).contains(
            show_v4(a, b, c, k),
        ),
        vip is Some ==> !hosts(a, b, c, vip, n).contains(vip->0),
        hosts(a, b, c, vip, n).len() <= n,
    decreases n,
{
    if n > 0 {
        let m = (n - 1) as nat;
        law_hosts_that_are_scanned(a, b, c, vip, m, k);
        let r = hosts(a, b, c, vip, m);
        let t = hosts(a, b, c, vip, n);
        if r.contains(show_v4(a, b, c, k)) {
            let i = choose|i: int| 0 <= i < r.len() && r[i] == show_v4(a, b, c, k);
            assert(t[i] == show_v4(a, b, c, k));
        }
        if vip != Some(show_v4(a, b, c, n)) {
            assert(t[t.len() - 1] == show_v4(a, b, c, n));
        }
        if vip is Some && t.contains(vip->0) {
            let i = choose|i: int| 0 <= i < t.len() && t[i] == vip->0;
            if i < r.len() {
                assert(r[i] == vip->0);
            }
        }
    }
}

/// The endpoint of a cluster follows a control plane that moved from it, or a
/// cluster with one control plane; the virtual address of several stays.
pub proof fn law_endpoint_follows(
    kc: Seq<char>,
    s: Seq<char>,
    vip: Option<Seq<char>>,
    old_cp: Option<Seq<char>>,
    controlplanes: int,
)
    requires
        named_server(kc) == Some(s),
    ensures
        vip == Some(host_in(s)) && controlplanes > 1 ==> !endpoint_moves(
            kc,
            vip,
            old_cp,
            controlplanes,
        ),
        vip != Some(host_in(s)) && controlplanes <= 1 ==> endpoint_moves(
            kc,
            vip,
            old_cp,
            controlplanes,
        ),
        vip != Some(host_in(s)) && host_in(s).len() > 0 && old_cp == Some(host_in(s))
            ==> endpoint_moves(kc, vip, old_cp, controlplanes),
        vip != Some(host_in(s)) && controlplanes > 1 && old_cp != Some(host_in(s))
            ==> !endpoint_moves(kc, vip, old_cp, controlplanes),
{
}

/// An address that a hypervisor gives is taken exactly where others can reach it
/// and it is not the virtual one.
pub proof fn law_addresses_that_are_taken(a: Seq<char>, vip: Option<Seq<char>>)
    ensures
        own_address(Some(a), vip) == (if is_usable_lan(a) && vip != Some(a) {
            Some(a)
        } else {
            None
        }),
        own_address(None, vip) is None,
        parse_v4(trim(a)) is None ==> !is_usable_lan(a),
        parse_v4(trim(a)) matches Some((w, x, y, z)) ==> (w == 127 || w == 169 && x == 254 || 224
            <= w <= 239 ==> !is_usable_lan(a)),
        parse_v4(trim(a)) matches Some((w, x, y, z)) ==> (w == 10 || w == 192 ==> is_usable_lan(a)),
{
}

/// What the scan of the network found comes before what was known, for the node of
/// the name.
pub proof fn law_scan_comes_first(
    nodes: Seq<NodeAddress>,
    found: Seq<Option<String>>,
    scanned: Seq<(String, String)>,
    i: int,
)
    requires
        0 <= i < nodes.len(),
        nodes.len() == found.len(),
    ensures
        scanned.len() == 0 ==> after_scan(nodes, found, scanned, i) == opt_text(found[i]),
        scanned.len() > 0 && scanned.last().0@ == nodes[i].name@ && !is_hidden(nodes, i)
            ==> after_scan(nodes, found, scanned, i) == Some(scanned.last().1@),
{
}

} // verus!
