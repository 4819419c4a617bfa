//! Looking for free addresses in a provider's subnet.
use crate::ip::{Ip, ip_addr, ip_of, ipv4_str, ipv6_str, nats, parse_ip, parse_v4, show_v4, show_v6};
use crate::jobs::provider::{ip_from_provider_url, provider_ip};
use crate::num::{dec, parse_nat, u64_str};
use crate::order::{ascending, sorted_unique};
use crate::text::{lit, opt_text, split, str_trim, texts, trim};
use rand::seq::SliceRandom;
use vstd::arithmetic::power2::{lemma_pow2_adds, lemma_pow2_pos, lemma_pow2_unfold, pow2};
use vstd::prelude::*;
use vstd::string::*;


verus! {

/// A network: its family, its lowest address and the length of its prefix.
#[derive(Debug, Clone, Copy, PartialEq, Eq, Structural)]
pub struct Subnet {
    pub v6: bool,
    pub base: u128,
    pub prefix: u8,
}

/// Number of address bits of a family.
pub open spec fn family_bits(v6: bool) -> nat {
    if v6 {
        128
    } else {
        32
    }
}

/// Number of addresses in a network.
pub open spec fn net_size(n: Subnet) -> nat {
    pow2((family_bits(n.v6) - n.prefix) as nat)
}

/// The prefix is no longer than an address, and the addresses of the network
/// do not run past the last one of the family.
pub open spec fn net_ok(n: Subnet) -> bool {
    n.prefix <= family_bits(n.v6) && n.base + net_size(n) <= pow2(family_bits(n.v6))
}

/// The number of a dotted quad.
pub open spec fn quad_number(q: (nat, nat, nat, nat)) -> nat {
    ((q.0 * 256 + q.1) * 256 + q.2) * 256 + q.3
}

/// An IPv4 address and a prefix length.
pub open spec fn v4_cidr(s: Seq<char>) -> Option<(nat, nat)> {
    let p = split(s, '/');
    if p.len() == 2 && parse_v4(p[0]) is Some && parse_nat(p[1], 32) is Some {
        Some((quad_number(parse_v4(p[0])->0), parse_nat(p[1], 32)->0))
    } else {
        None
    }
}

/// The lowest address of the network around an address.
pub open spec fn net_floor(c: (nat, nat)) -> int {
    c.0 - c.0 % pow2((32 - c.1) as nat)
}

/// The network around an address, where an address is given.
pub open spec fn around(r: Result<Subnet, String>, c: Option<(nat, nat)>) -> bool {
    match c {
        Some((a, p)) => match r {
            Ok(n) => !n.v6 && n.base == net_floor((a, p)) && n.prefix == p,
            Err(_e) => false,
        },
        None => true,
    }
}

/// Family, lowest address and prefix length of a parsed network.
pub open spec fn net_view(r: Result<Subnet, String>) -> Option<(bool, nat, nat)> {
    match r {
        Ok(n) => Some((n.v6, n.base as nat, n.prefix as nat)),
        Err(_e) => None,
    }
}

/// The network that a text denotes: family, lowest address, prefix length.
pub uninterp spec fn net_of(s: Seq<char>) -> Option<(bool, nat, nat)>;

/// `ipnetwork::IpNetwork::from_str`, with `network` and `prefix` of what it
/// returns. Claimed: the result depends on the text alone; the prefix and the
/// addresses are in range; an IPv4 address with a prefix length gives the
/// network around that address; and the error is the text with a fixed lead.
#[verifier::external_body]
fn parse_network(s: &str) -> (r: Result<Subnet, String>)
    ensures
        net_view(r) == net_of(s@),
        r matches Ok(n) ==> net_ok(n),
        r matches Err(e) ==> e@ == "invalid address: "@ + s@,
        around(r, v4_cidr(s@)),
{
    match s.parse::<ipnetwork::IpNetwork>() {
        Ok(ipnetwork::IpNetwork::V4(n)) => Ok(
            Subnet { v6: false, base: u32::from(n.network()) as u128, prefix: n.prefix() },
        ),
        Ok(ipnetwork::IpNetwork::V6(n)) => Ok(
            Subnet { v6: true, base: u128::from(n.network()), prefix: n.prefix() },
        ),
        Err(e) => Err(e.to_string()),
    }
}

/// `SliceRandom::shuffle` with the thread's generator. Claimed: the elements
/// stay the same, in some order. Which order is left to chance.
#[verifier::external_body]
fn shuffle(v: &mut Vec<u128>)
    ensures
        final(v)@.to_multiset() == old(v)@.to_multiset(),
{
    v.shuffle(&mut rand::thread_rng());
}

/// The family and the number of an address.
pub open spec fn ip_number(ip: Ip) -> (bool, nat) {
    match ip_of(ip) {
        Ok(q) => (false, quad_number(q)),
        Err(g) => (true, groups_number(g, g.len() as int)),
    }
}

/// The number of the first `n` groups.
pub open spec fn groups_number(g: Seq<nat>, n: int) -> nat
    decreases n,
{
    if n <= 0 {
        0
    } else {
        groups_number(g, n - 1) * 65536 + g[n - 1]
    }
}

fn number_of(ip: Ip) -> (r: (bool, u128))
    ensures
        (r.0, r.1 as nat) == ip_number(ip),
{
    match ip {
        Ip::V4(a, b, c, d) => (
            false,
            ((a as u128 * 256 + b as u128) * 256 + c as u128) * 256 + d as u128,
        ),
        Ip::V6(a, b, c, d, e, f, g, h) => {
            let hi: u64 = ((a as u64 * 65536 + b as u64) * 65536 + c as u64) * 65536 + d as u64;
            let lo: u64 = ((e as u64 * 65536 + f as u64) * 65536 + g as u64) * 65536 + h as u64;
            let n: u128 = hi as u128 * 0x1_0000_0000_0000_0000 + lo as u128;
            proof {
                reveal_with_fuel(groups_number, 9);
            }
            (true, n)
        },
    }
}

/// The address is one of those in the list.
pub open spec fn is_excluded(exclude: Seq<Seq<char>>, v6: bool, x: nat) -> bool {
    exists|i: int|
        0 <= i < exclude.len() && number_in(#[trigger] exclude[i]) == Some((v6, x))
}

/// The family and number of the address in a text.
pub open spec fn number_in(t: Seq<char>) -> Option<(bool, nat)> {
    match parse_ip(trim(t)) {
        Some(Ok(q)) => Some((false, quad_number(q))),
        Some(Err(g)) => Some((true, groups_number(g, g.len() as int))),
        None => None,
    }
}

fn excluded_numbers(exclude: &Vec<String>) -> (r: Vec<(bool, u128)>)
    ensures
        forall|v6: bool, x: u128|
            #![trigger r@.contains((v6, x))]
            r@.contains((v6, x)) <==> is_excluded(texts(exclude@), v6, x as nat),
{
    let ghost es = texts(exclude@);
    let mut out: Vec<(bool, u128)> = Vec::new();
    let mut i: usize = 0;
    while i < exclude.len()
        invariant
            i <= exclude.len(),
            es == texts(exclude@),
            forall|v6: bool, x: u128|
                #![trigger out@.contains((v6, x))]
                out@.contains((v6, x)) <==> exists|k: int|
                    0 <= k < i && number_in(#[trigger] es[k]) == Some((v6, x as nat)),
        decreases exclude.len() - i,
    {
        let ghost before = out@;
        assert(es[i as int] == exclude@[i as int]@);
        let t = str_trim(&exclude[i]);
        let found: Option<(bool, u128)> = match ip_addr(&t) {
            Some(ip) => Some(number_of(ip)),
            None => None,
        };
        match found {
            Some(p) => {
                out.push(p);
            },
            None => {},
        }
        proof {
            assert forall|v6: bool, x: u128|
                #![trigger out@.contains((v6, x))]
                out@.contains((v6, x)) <==> exists|k: int|
                    0 <= k < i + 1 && number_in(#[trigger] es[k]) == Some((v6, x as nat)) by {
                let y = (v6, x);
                if out@.contains(y) {
                    let m = choose|m: int| 0 <= m < out@.len() && out@[m] == y;
                    if m < before.len() {
                        assert(before[m] == y);
                        assert(before.contains((v6, x)));
                        let k = choose|k: int|
                            0 <= k < i && number_in(#[trigger] es[k]) == Some((v6, x as nat));
                        assert(number_in(es[k]) == Some((v6, x as nat)));
                    } else {
                        assert(number_in(es[i as int]) == Some((v6, x as nat)));
                    }
                }
                if exists|k: int|
                    0 <= k < i + 1 && number_in(#[trigger] es[k]) == Some((v6, x as nat)) {
                    let k = choose|k: int|
                        0 <= k < i + 1 && number_in(#[trigger] es[k]) == Some((v6, x as nat));
                    if k < i {
                        assert(before.contains((v6, x)));
                        let m = choose|m: int| 0 <= m < before.len() && before[m] == y;
                        assert(out@[m] == y);
                    } else {
                        assert(out@[before.len() as int] == y);
                    }
                }
            }
        }
        i += 1;
    }
    assert(es.len() == exclude.len());
    assert forall|v6: bool, x: u128|
        #![trigger out@.contains((v6, x))]
        out@.contains((v6, x)) <==> is_excluded(es, v6, x as nat) by {
        if is_excluded(es, v6, x as nat) {
            let k = choose|k: int|
                0 <= k < es.len() && number_in(#[trigger] es[k]) == Some((v6, x as nat));
            assert(number_in(es[k]) == Some((v6, x as nat)));
        }
    }
    out
}

fn holds(v: &Vec<(bool, u128)>, v6: bool, x: u128) -> (r: bool)
    ensures
        r == v@.contains((v6, x)),
{
    let mut i: usize = 0;
    while i < v.len()
        invariant
            i <= v.len(),
            forall|k: int| 0 <= k < i ==> v@[k] != (v6, x),
        decreases v.len() - i,
    {
        if v[i].0 == v6 && v[i].1 == x {
            assert(v@[i as int] == (v6, x));
            return true;
        }
        i += 1;
    }
    false
}

/// The address may be tried: it is in the network, is not its lowest one (the
/// gateway's place) and is not excluded.
pub open spec fn candidate(n: Subnet, exclude: Seq<Seq<char>>, x: int) -> bool {
    n.base < x < n.base + net_size(n) && !is_excluded(exclude, n.v6, x as nat)
}

/// One less than a power of two.
fn low_bits(k: u32) -> (r: u128)
    requires
        k <= 128,
    ensures
        r == pow2(k as nat) - 1,
{
    let mut m: u128 = 0;
    let mut i: u32 = 0;
    proof {
        vstd::arithmetic::power2::lemma2_to64();
        vstd::arithmetic::power2::lemma2_to64_rest();
        lemma_pow2_adds(64, 64);
    }
    while i < k
        invariant
            i <= k <= 128,
            m == pow2(i as nat) - 1,
            pow2(128) == 0x1_0000_0000_0000_0000_0000_0000_0000_0000,
        decreases k - i,
    {
        proof {
            lemma_pow2_unfold((i + 1) as nat);
            if i + 1 < 128 {
                vstd::arithmetic::power2::lemma_pow2_strictly_increases((i + 1) as nat, 128);
            }
        }
        m = m * 2 + 1;
        i += 1;
    }
    m
}

/// The addresses of a network that may be tried, in ascending order.
pub fn candidates(n: Subnet, exclude: &Vec<String>) -> (r: Vec<u128>)
    requires
        net_ok(n),
        net_size(n) <= usize::MAX,
    ensures
        forall|x: u128|
            #![trigger r@.contains(x)]
            r@.contains(x) <==> candidate(n, texts(exclude@), x as int),
        forall|i: int, j: int| 0 <= i < j < r.len() ==> r@[i] < r@[j],
{
    let gone = excluded_numbers(exclude);
    let bits: u32 = if n.v6 {
        128
    } else {
        32
    };
    let span: u128 = low_bits(bits - n.prefix as u32);
    proof {
        vstd::arithmetic::power2::lemma2_to64();
        vstd::arithmetic::power2::lemma2_to64_rest();
        lemma_pow2_adds(64, 64);
    }
    let mut out: Vec<u128> = Vec::new();
    let mut i: u128 = 0;
    while i < span
        invariant
            net_ok(n),
            pow2(family_bits(n.v6)) <= 0x1_0000_0000_0000_0000_0000_0000_0000_0000,
            span == net_size(n) - 1,
            i <= span,
            forall|v6: bool, x: u128|
                #![trigger gone@.contains((v6, x))]
                gone@.contains((v6, x)) <==> is_excluded(texts(exclude@), v6, x as nat),
            forall|x: u128|
                #![trigger out@.contains(x)]
                out@.contains(x) <==> candidate(n, texts(exclude@), x as int) && x <= n.base + i,
            forall|a: int, b: int| 0 <= a < b < out.len() ==> out@[a] < out@[b],
            forall|a: int| 0 <= a < out.len() ==> (#[trigger] out@[a]) <= n.base + i,
        decreases span - i,
    {
        i += 1;
        let x: u128 = n.base + i;
        let ghost before = out@;
        let skip = holds(&gone, n.v6, x);
        assert(skip == is_excluded(texts(exclude@), n.v6, x as nat));
        if !skip {
            out.push(x);
        }
        proof {
            assert forall|y: u128|
                #![trigger out@.contains(y)]
                out@.contains(y) <==> candidate(n, texts(exclude@), y as int) && y <= n.base + i by {
                if out@.contains(y) {
                    let m = choose|m: int| 0 <= m < out@.len() && out@[m] == y;
                    if m < before.len() {
                        assert(before[m] == y);
                        assert(before.contains(y));
                    }
                }
                if candidate(n, texts(exclude@), y as int) && y <= n.base + i {
                    if y < x {
                        assert(before.contains(y));
                        let m = choose|m: int| 0 <= m < before.len() && before[m] == y;
                        assert(out@[m] == y);
                    } else {
                        assert(y == x);
                        assert(out@[before.len() as int] == x);
                    }
                }
            }
        }
    }
    out
}

/// The text of the address with number `x`.
pub open spec fn show_number(v6: bool, x: nat) -> Seq<char> {
    if v6 {
        show_v6(
            seq![
                x / 0x1_0000_0000_0000_0000_0000_0000_0000 % 65536,
                x / 0x1_0000_0000_0000_0000_0000_0000 % 65536,
                x / 0x1_0000_0000_0000_0000_0000 % 65536,
                x / 0x1_0000_0000_0000_0000 % 65536,
                x / 0x1_0000_0000_0000 % 65536,
                x / 0x1_0000_0000 % 65536,
                x / 0x1_0000 % 65536,
                x % 65536,
            ],
        )
    } else {
        show_v4(x / 0x100_0000 % 256, x / 0x1_0000 % 256, x / 0x100 % 256, x % 256)
    }
}

fn number_str(v6: bool, x: u128) -> (r: String)
    ensures
        r@ == show_number(v6, x as nat),
{
    if v6 {
        let mut v: Vec<u16> = Vec::new();
        v.push((x / 0x1_0000_0000_0000_0000_0000_0000_0000 % 65536) as u16);
        v.push((x / 0x1_0000_0000_0000_0000_0000_0000 % 65536) as u16);
        v.push((x / 0x1_0000_0000_0000_0000_0000 % 65536) as u16);
        v.push((x / 0x1_0000_0000_0000_0000 % 65536) as u16);
        v.push((x / 0x1_0000_0000_0000 % 65536) as u16);
        v.push((x / 0x1_0000_0000 % 65536) as u16);
        v.push((x / 0x1_0000 % 65536) as u16);
        v.push((x % 65536) as u16);
        assert(nats(v@) =~= seq![
            x as nat / 0x1_0000_0000_0000_0000_0000_0000_0000 % 65536,
            x as nat / 0x1_0000_0000_0000_0000_0000_0000 % 65536,
            x as nat / 0x1_0000_0000_0000_0000_0000 % 65536,
            x as nat / 0x1_0000_0000_0000_0000 % 65536,
            x as nat / 0x1_0000_0000_0000 % 65536,
            x as nat / 0x1_0000_0000 % 65536,
            x as nat / 0x1_0000 % 65536,
            x as nat % 65536,
        ]);
        ipv6_str(&v)
    } else {
        ipv4_str(
            (x / 0x100_0000 % 256) as u8,
            (x / 0x1_0000 % 256) as u8,
            (x / 0x100 % 256) as u8,
            (x % 256) as u8,
        )
    }
}

/// How many addresses are tried: twice as many as are needed, as far as there
/// are any.
pub open spec fn try_count(count: int, available: nat) -> int {
    if count * 2 <= available {
        count * 2
    } else {
        available as int
    }
}

/// The texts of the first addresses in `order`, as many as are to be tried.
pub fn scan_order(v6: bool, order: &Vec<u128>, count: u32) -> (r: Vec<String>)
    ensures
        r.len() == try_count(count as int, order@.len()),
        forall|i: int|
            0 <= i < r.len() ==> (#[trigger] r@[i])@ == show_number(v6, order@[i] as nat),
{
    let want: u64 = count as u64 * 2;
    let n: usize = if want <= order.len() as u64 {
        want as usize
    } else {
        order.len()
    };
    let mut out: Vec<String> = Vec::new();
    let mut i: usize = 0;
    while i < n
        invariant
            i <= n <= order.len(),
            out.len() == i,
            forall|k: int|
                0 <= k < i ==> (#[trigger] out@[k])@ == show_number(v6, order@[k] as nat),
        decreases n - i,
    {
        out.push(number_str(v6, order[i]));
        i += 1;
    }
    out
}

/// The addresses to try, and the prefix length that goes with them.
#[derive(Debug, PartialEq, Eq)]
pub struct ScanPlan {
    pub targets: Vec<String>,
    pub prefix: u8,
}

/// Chooses addresses to try, in an order that varies from call to call.
pub fn scan_plan(subnet: &str, count: u32, exclude: &Vec<String>) -> (r: Result<ScanPlan, String>)
    requires
        net_of(subnet@) matches Some((v6, _b, p)) ==> pow2((family_bits(v6) - p) as nat)
            <= usize::MAX,
    ensures
        match r {
            Ok(plan) => exists|n: Subnet, order: Seq<u128>|
                #![trigger net_ok(n), order.no_duplicates()]
                {
                    &&& net_ok(n)
                    &&& net_of(subnet@) == Some((n.v6, n.base as nat, n.prefix as nat))
                    &&& plan.prefix == n.prefix
                    &&& order.no_duplicates()
                    &&& forall|x: u128|
                        #![trigger order.contains(x)]
                        order.contains(x) <==> candidate(n, texts(exclude@), x as int)
                    &&& plan.targets.len() == try_count(count as int, order.len())
                    &&& forall|i: int|
                        0 <= i < plan.targets.len() ==> (#[trigger] plan.targets@[i])@
                            == show_number(n.v6, order[i] as nat)
                },
            Err(e) => net_of(subnet@) is None && e@ == "invalid subnet "@ + subnet@ + ": "@ + (
            "invalid address: "@ + subnet@),
        },
{
    match parse_network(subnet) {
        Err(e) => Err(lit("invalid subnet ").concat(subnet).concat(": ").concat(&e)),
        Ok(n) => {
            let mut order = candidates(n, exclude);
            let ghost listed = order@;
            assert(listed.no_duplicates());
            shuffle(&mut order);
            proof {
                broadcast use vstd::seq_lib::group_to_multiset_ensures;

                listed.lemma_multiset_has_no_duplicates();
                order@.lemma_multiset_has_no_duplicates_conv();
                assert forall|x: u128|
                    #![trigger order@.contains(x)]
                    order@.contains(x) <==> candidate(n, texts(exclude@), x as int) by {
                    assert(order@.contains(x) <==> order@.to_multiset().count(x) > 0);
                    assert(listed.contains(x) <==> listed.to_multiset().count(x) > 0);
                    assert(listed.contains(x) <==> candidate(n, texts(exclude@), x as int));
                }
            }
            let targets = scan_order(n.v6, &order, count);
            assert(net_ok(n) && order@.no_duplicates());
            Ok(ScanPlan { targets, prefix: n.prefix })
        },
    }
}

/// [`scan_plan`] for networks whose addresses can be listed on this machine;
/// larger ones are not scanned, and nothing is returned for them.
pub fn scan_network(subnet: &str, count: u32, exclude: &Vec<String>) -> (r: Option<
    Result<ScanPlan, String>,
>)
    ensures
        r is None <==> (net_of(subnet@) matches Some((v6, _b, p)) && pow2(
            (family_bits(v6) - p) as nat,
        ) > usize::MAX),
        r matches Some(Ok(plan)) ==> exists|n: Subnet, order: Seq<u128>|
            #![trigger net_ok(n), order.no_duplicates()]
            {
                &&& net_ok(n)
                &&& net_of(subnet@) == Some((n.v6, n.base as nat, n.prefix as nat))
                &&& plan.prefix == n.prefix
                &&& order.no_duplicates()
                &&& forall|x: u128|
                    #![trigger order.contains(x)]
                    order.contains(x) <==> candidate(n, texts(exclude@), x as int)
                &&& plan.targets.len() == try_count(count as int, order.len())
                &&& forall|i: int|
                    0 <= i < plan.targets.len() ==> (#[trigger] plan.targets@[i])@ == show_number(
                        n.v6,
                        order[i] as nat,
                    )
            },
        r matches Some(Err(e)) ==> net_of(subnet@) is None && e@ == "invalid subnet "@ + subnet@
            + ": "@ + ("invalid address: "@ + subnet@),
{
    match parse_network(subnet) {
        Ok(n) => {
            let bits: u32 = if n.v6 {
                128
            } else {
                32
            };
            let span: u128 = low_bits(bits - n.prefix as u32);
            if span >= usize::MAX as u128 {
                return None;
            }
        },
        Err(_e) => {},
    }
    Some(scan_plan(subnet, count, exclude))
}

// ---------------------------------------------------------------------------
// What the probes found
// ---------------------------------------------------------------------------

/// The free ones among the first `n` targets, with their prefix length.
pub open spec fn free_among(
    targets: Seq<Seq<char>>,
    in_use: Seq<bool>,
    prefix: nat,
    n: int,
) -> Seq<Seq<char>>
    decreases n,
{
    if n <= 0 {
        Seq::empty()
    } else {
        let before = free_among(targets, in_use, prefix, n - 1);
        if in_use[n - 1] {
            before
        } else {
            before.push(targets[n - 1] + "/"@ + dec(prefix))
        }
    }
}

/// The first `count` of a list.
pub open spec fn at_most(v: Seq<Seq<char>>, count: int) -> Seq<Seq<char>> {
    if count < v.len() {
        v.take(count)
    } else {
        v
    }
}

proof fn lemma_free_prefix(
    targets: Seq<Seq<char>>,
    in_use: Seq<bool>,
    prefix: nat,
    a: int,
    b: int,
)
    requires
        0 <= a <= b,
    ensures
        free_among(targets, in_use, prefix, a).is_prefix_of(
            free_among(targets, in_use, prefix, b),
        ),
    decreases b,
{
    if a < b {
        lemma_free_prefix(targets, in_use, prefix, a, b - 1);
    }
}

/// The first `count` targets that did not answer, as `address/prefix`.
pub fn free_addresses(
    targets: &Vec<String>,
    in_use: &Vec<bool>,
    prefix: u8,
    count: u32,
) -> (r: Vec<String>)
    requires
        targets.len() == in_use.len(),
    ensures
        texts(r@) == at_most(
            free_among(texts(targets@), in_use@, prefix as nat, targets.len() as int),
            count as int,
        ),
{
    let ghost ts = texts(targets@);
    let mut out: Vec<String> = Vec::new();
    let mut i: usize = 0;
    assert(texts(out@) =~= Seq::<Seq<char>>::empty());
    while i < targets.len() && (out.len() as u64) < count as u64
        invariant
            i <= targets.len(),
            targets.len() == in_use.len(),
            ts == texts(targets@),
            texts(out@) == free_among(ts, in_use@, prefix as nat, i as int),
            out.len() <= count,
        decreases targets.len() - i,
    {
        assert(ts[i as int] == targets@[i as int]@);
        if !in_use[i] {
            let ghost before = out@;
            let line = lit(&targets[i]).concat("/").concat(&u64_str(prefix as u64));
            out.push(line);
            assert(texts(out@) =~= texts(before).push(line@));
        }
        i += 1;
    }
    proof {
        lemma_free_prefix(ts, in_use@, prefix as nat, i as int, targets.len() as int);
        let all = free_among(ts, in_use@, prefix as nat, targets.len() as int);
        assert(texts(out@).len() == out.len());
        assert(texts(out@) =~= at_most(all, count as int));
    }
    out
}

// ---------------------------------------------------------------------------
// Addresses that a new cluster must not get
// ---------------------------------------------------------------------------

/// A provider's address, a node's address, or a virtual address of the cluster.
pub open spec fn taken(
    urls: Seq<String>,
    node_ips: Seq<Option<String>>,
    vips: Seq<Option<String>>,
    t: Seq<char>,
) -> bool {
    ||| exists|i: int| 0 <= i < urls.len() && provider_ip((#[trigger] urls[i])@) == Some(t)
    ||| exists|i: int| 0 <= i < node_ips.len() && opt_text(#[trigger] node_ips[i]) == Some(t)
    ||| t.len() > 0 && exists|i: int|
        0 <= i < vips.len() && opt_text(#[trigger] vips[i]) == Some(t)
}

fn push_text(v: &mut Vec<String>, s: String)
    ensures
        forall|t: Seq<char>| #[trigger]
            texts(final(v)@).contains(t) <==> texts(old(v)@).contains(t) || s@ == t,
{
    let ghost before = texts(v@);
    v.push(s);
    proof {
        let after = texts(v@);
        assert(after =~= before.push(s@));
        assert forall|t: Seq<char>| #[trigger]
            after.contains(t) <==> before.contains(t) || s@ == t by {
            if before.contains(t) {
                let k = choose|k: int| 0 <= k < before.len() && before[k] == t;
                assert(after[k] == t);
            }
            if after.contains(t) {
                let k = choose|k: int| 0 <= k < after.len() && after[k] == t;
                if k < before.len() {
                    assert(before[k] == t);
                }
            }
            assert(after[before.len() as int] == s@);
        }
    }
}

/// The addresses that a new cluster must not get, each once, in ascending
/// order: those of the providers, of all nodes, and its own virtual ones.
pub fn taken_addresses(
    urls: &Vec<String>,
    node_ips: &Vec<Option<String>>,
    vips: &Vec<Option<String>>,
) -> (r: Vec<String>)
    ensures
        ascending(texts(r@)),
        forall|t: Seq<char>| #[trigger]
            texts(r@).contains(t) <==> taken(urls@, node_ips@, vips@, t),
{
    let mut all: Vec<String> = Vec::new();
    let mut i: usize = 0;
    while i < urls.len()
        invariant
            i <= urls.len(),
            forall|t: Seq<char>| #[trigger]
                texts(all@).contains(t) <==> exists|k: int|
                    0 <= k < i && provider_ip((#[trigger] urls@[k])@) == Some(t),
        decreases urls.len() - i,
    {
        let ghost before = texts(all@);
        let found = ip_from_provider_url(&urls[i]);
        let ghost f = opt_text(found);
        match found {
            Some(s) => {
                push_text(&mut all, s);
            },
            None => {},
        }
        proof {
            assert forall|t: Seq<char>| #[trigger]
                texts(all@).contains(t) <==> exists|k: int|
                    0 <= k < i + 1 && provider_ip((#[trigger] urls@[k])@) == Some(t) by {
                assert(texts(all@).contains(t) <==> before.contains(t) || f == Some(t));
                if f == Some(t) {
                    assert(provider_ip(urls@[i as int]@) == Some(t));
                }
                if before.contains(t) {
                    let k = choose|k: int|
                        0 <= k < i && provider_ip((#[trigger] urls@[k])@) == Some(t);
                    assert(provider_ip(urls@[k]@) == Some(t));
                }
            }
        }
        i += 1;
    }
    let ghost from_urls = texts(all@);
    let mut j: usize = 0;
    while j < node_ips.len()
        invariant
            j <= node_ips.len(),
            forall|t: Seq<char>| #[trigger]
                texts(all@).contains(t) <==> from_urls.contains(t) || exists|k: int|
                    0 <= k < j && opt_text(#[trigger] node_ips@[k]) == Some(t),
        decreases node_ips.len() - j,
    {
        let ghost before = texts(all@);
        let ghost f = opt_text(node_ips@[j as int]);
        match &node_ips[j] {
            Some(s) => {
                push_text(&mut all, lit(s));
            },
            None => {},
        }
        proof {
            assert forall|t: Seq<char>| #[trigger]
                texts(all@).contains(t) <==> from_urls.contains(t) || exists|k: int|
                    0 <= k < j + 1 && opt_text(#[trigger] node_ips@[k]) == Some(t) by {
                assert(texts(all@).contains(t) <==> before.contains(t) || f == Some(t));
                if f == Some(t) {
                    assert(opt_text(node_ips@[j as int]) == Some(t));
                }
                if before.contains(t) && !from_urls.contains(t) {
                    let k = choose|k: int|
                        0 <= k < j && opt_text(#[trigger] node_ips@[k]) == Some(t);
                    assert(opt_text(node_ips@[k]) == Some(t));
                }
            }
        }
        j += 1;
    }
    let ghost from_nodes = texts(all@);
    let mut m: usize = 0;
    while m < vips.len()
        invariant
            m <= vips.len(),
            forall|t: Seq<char>| #[trigger]
                texts(all@).contains(t) <==> from_nodes.contains(t) || (t.len() > 0
                    && exists|k: int| 0 <= k < m && opt_text(#[trigger] vips@[k]) == Some(t)),
        decreases vips.len() - m,
    {
        let ghost before = texts(all@);
        let ghost f = opt_text(vips@[m as int]);
        match &vips[m] {
            Some(s) => if !s.is_empty() {
                push_text(&mut all, lit(s));
            },
            None => {},
        }
        proof {
            assert forall|t: Seq<char>| #[trigger]
                texts(all@).contains(t) <==> from_nodes.contains(t) || (t.len() > 0
                    && exists|k: int|
                    0 <= k < m + 1 && opt_text(#[trigger] vips@[k]) == Some(t)) by {
                assert(texts(all@).contains(t) <==> before.contains(t) || (f == Some(t) && t.len()
                    > 0));
                if f == Some(t) {
                    assert(opt_text(vips@[m as int]) == Some(t));
                }
                if before.contains(t) && !from_nodes.contains(t) {
                    let k = choose|k: int|
                        0 <= k < m && opt_text(#[trigger] vips@[k]) == Some(t);
                    assert(opt_text(vips@[k]) == Some(t));
                }
            }
        }
        m += 1;
    }
    let out = sorted_unique(&all);
    proof {
        assert forall|t: Seq<char>| #[trigger]
            texts(out@).contains(t) <==> taken(urls@, node_ips@, vips@, t) by {
            assert(texts(out@).contains(t) <==> texts(all@).contains(t));
            assert(texts(all@).contains(t) <==> from_nodes.contains(t) || (t.len() > 0
                && exists|k: int|
                0 <= k < vips.len() && opt_text(#[trigger] vips@[k]) == Some(t)));
            assert(from_nodes.contains(t) <==> from_urls.contains(t) || exists|k: int|
                0 <= k < node_ips.len() && opt_text(#[trigger] node_ips@[k]) == Some(t));
            assert(from_urls.contains(t) <==> exists|k: int|
                0 <= k < urls.len() && provider_ip((#[trigger] urls@[k])@) == Some(t));
        }
    }
    out
}

/// An address that is tried is one of the network, not its own, and not one that
/// is kept clear of; and every such address may be tried.
pub proof fn law_what_is_tried(n: Subnet, exclude: Seq<Seq<char>>, x: int, i: int)
    ensures
        candidate(n, exclude, x) ==> n.base < x < n.base + pow2(
            ((if n.v6 {
                128int
            } else {
                32int
            }) - n.prefix) as nat,
        ),
        candidate(n, exclude, x) && 0 <= i < exclude.len() ==> number_in(exclude[i]) != Some(
            (n.v6, x as nat),
        ),
        n.base < x < n.base + net_size(n) && (forall|k: int|
            0 <= k < exclude.len() ==> number_in(#[trigger] exclude[k]) != Some(
                (n.v6, x as nat),
            )) ==> candidate(n, exclude, x),
{
}

/// The addresses that are free are those that were tried and did not answer, in
/// order, each with the length of the network's prefix; none that answered is
/// among them.
pub proof fn law_free_did_not_answer(
    targets: Seq<Seq<char>>,
    in_use: Seq<bool>,
    prefix: nat,
    n: int,
    k: int,
)
    requires
        0 <= n <= targets.len(),
        n <= in_use.len(),
    ensures
        0 <= k < n && !in_use[k] ==> free_among(targets, in_use, prefix, n).contains(
            targets[k] + "/"@ + dec(prefix),
        ),
        0 <= k < free_among(targets, in_use, prefix, n).len() ==> exists|i: int|
            0 <= i < n && !(#[trigger] in_use[i]) && free_among(targets, in_use, prefix, n)[k]
                == targets[i] + "/"@ + dec(prefix),
        free_among(targets, in_use, prefix, n).len() <= n,
    decreases n,
{
    if n > 0 {
        law_free_did_not_answer(targets, in_use, prefix, n - 1, k);
        let b = free_among(targets, in_use, prefix, n - 1);
        let r = free_among(targets, in_use, prefix, n);
        let x = targets[n - 1] + "/"@ + dec(prefix);
        if !in_use[n - 1] {
            assert(r[r.len() - 1] == x);
        }
        if 0 <= k < n - 1 && !in_use[k] {
            let y = targets[k] + "/"@ + dec(prefix);
            let i = choose|i: int| 0 <= i < b.len() && b[i] == y;
            assert(r[i] == y);
        }
        if 0 <= k < r.len() {
            if k < b.len() {
                assert(r[k] == b[k]);
            } else {
                assert(!in_use[n - 1]);
            }
        }
    }
}

/// No more addresses are handed out than were asked for, the first ones, and twice
/// as many are tried where there are so many.
pub proof fn law_as_many_as_asked(v: Seq<Seq<char>>, count: int, available: nat)
    requires
        count >= 0,
    ensures
        at_most(v, count).len() <= count,
        at_most(v, count).len() <= v.len(),
        at_most(v, count).len() == count || at_most(v, count) == v,
        forall|i: int| 0 <= i < at_most(v, count).len() ==> at_most(v, count)[i] == v[i],
        try_count(count, available) <= available,
        try_count(count, available) == 2 * count || (try_count(count, available) == available
            && available < 2 * count),
{
}

/// An address counts as taken exactly where a provider, a node or a cluster has
/// it.
pub proof fn law_taken_by(
    urls: Seq<String>,
    node_ips: Seq<Option<String>>,
    vips: Seq<Option<String>>,
    t: Seq<char>,
    i: int,
)
    requires
        t.len() > 0,
    ensures
        0 <= i < node_ips.len() && node_ips[i] is Some && node_ips[i]->0@ == t ==> taken(
            urls,
            node_ips,
            vips,
            t,
        ),
        0 <= i < vips.len() && vips[i] is Some && vips[i]->0@ == t ==> taken(
            urls,
            node_ips,
            vips,
            t,
        ),
        0 <= i < urls.len() && provider_ip(urls[i]@) == Some(t) ==> taken(urls, node_ips, vips, t),
        urls.len() == 0 && node_ips.len() == 0 && vips.len() == 0 ==> !taken(
            urls,
            node_ips,
            vips,
            t,
        ),
{
}

} // verus!
