//! IP addresses in text form.
use crate::num::{dec, digits_value, law_dec_value, lemma_dec_digits, u64_str, value};
use crate::text::{
    all_digits, all_hex, cat, chars_of, is_digit, is_hex, lemma_pos_is, split, split_from,
    split_once, str_all_hex, str_split, str_split_once, texts,
};
use vstd::prelude::*;
use vstd::string::*;

verus! {

/// An address: four octets, or eight groups of sixteen bits.
#[derive(Debug, Clone, Copy, PartialEq, Eq, Structural)]
pub enum Ip {
    V4(u8, u8, u8, u8),
    V6(u16, u16, u16, u16, u16, u16, u16, u16),
}

// ---------------------------------------------------------------------------
// IPv4
// ---------------------------------------------------------------------------

/// One to three digits without a superfluous zero, at most 255.
pub open spec fn octet_ok(p: Seq<char>) -> bool {
    1 <= p.len() <= 3 && all_digits(p) && (p.len() > 1 ==> p[0] != '0') && value(p) <= 255
}

/// The address that a dotted quad denotes.
pub open spec fn parse_v4(s: Seq<char>) -> Option<(nat, nat, nat, nat)> {
    let p = split(s, '.');
    if p.len() == 4 && octet_ok(p[0]) && octet_ok(p[1]) && octet_ok(p[2]) && octet_ok(p[3]) {
        Some((value(p[0]), value(p[1]), value(p[2]), value(p[3])))
    } else {
        None
    }
}

/// The dotted quad of an address.
pub open spec fn show_v4(a: nat, b: nat, c: nat, d: nat) -> Seq<char> {
    dec(a) + "."@ + dec(b) + "."@ + dec(c) + "."@ + dec(d)
}

fn octet(p: &str) -> (r: Option<u8>)
    ensures
        match r {
            Some(n) => octet_ok(p@) && value(p@) == n,
            None => !octet_ok(p@),
        },
{
    let v = chars_of(p);
    if v.len() < 1 || v.len() > 3 || (v.len() > 1 && v[0] == '0') {
        return None;
    }
    assert(v@.subrange(0, v.len() as int) =~= p@);
    match digits_value(&v, 0, 255) {
        Some(n) => Some(n as u8),
        None => None,
    }
}

/// Reads a dotted quad.
pub fn ipv4(s: &str) -> (r: Option<(u8, u8, u8, u8)>)
    ensures
        match r {
            Some((a, b, c, d)) => parse_v4(s@) == Some(
                (a as nat, b as nat, c as nat, d as nat),
            ),
            None => parse_v4(s@) is None,
        },
{
    let p = str_split(s, '.');
    if p.len() != 4 {
        assert(texts(p@).len() != 4);
        return None;
    }
    assert(texts(p@)[0] == p@[0]@ && texts(p@)[1] == p@[1]@ && texts(p@)[2] == p@[2]@ && texts(
        p@,
    )[3] == p@[3]@);
    match (octet(&p[0]), octet(&p[1]), octet(&p[2]), octet(&p[3])) {
        (Some(a), Some(b), Some(c), Some(d)) => Some((a, b, c, d)),
        _ => None,
    }
}

pub fn ipv4_str(a: u8, b: u8, c: u8, d: u8) -> (r: String)
    ensures
        r@ == show_v4(a as nat, b as nat, c as nat, d as nat),
{
    u64_str(a as u64).concat(".").concat(&u64_str(b as u64)).concat(".").concat(
        &u64_str(c as u64),
    ).concat(".").concat(&u64_str(d as u64))
}

// ---------------------------------------------------------------------------
// IPv6
// ---------------------------------------------------------------------------

/// The value of one hexadecimal digit.
pub open spec fn hex_digit(c: char) -> nat {
    if is_digit(c) {
        (c as int - 48) as nat
    } else if 97 <= c as int <= 102 {
        (c as int - 87) as nat
    } else {
        (c as int - 55) as nat
    }
}

/// The number that a string of hexadecimal digits denotes.
pub open spec fn hex_value(s: Seq<char>) -> nat
    decreases s.len(),
{
    if s.len() == 0 {
        0
    } else {
        hex_value(s.drop_last()) * 16 + hex_digit(s.last())
    }
}

/// The lower-case hexadecimal numeral of `n`.
pub open spec fn hex(n: nat) -> Seq<char>
    decreases n,
{
    if n < 16 {
        seq![hex_char(n)]
    } else {
        hex(n / 16).push(hex_char(n % 16))
    }
}

pub open spec fn hex_char(n: nat) -> char {
    if n < 10 {
        (48 + n) as char
    } else {
        (87 + n) as char
    }
}

pub open spec fn group_ok(p: Seq<char>) -> bool {
    1 <= p.len() <= 4 && all_hex(p)
}

/// The first `n` pieces are groups.
pub open spec fn groups_ok(p: Seq<Seq<char>>, n: int) -> bool {
    forall|i: int| 0 <= i < n ==> group_ok(#[trigger] p[i])
}

pub open spec fn group_values(p: Seq<Seq<char>>, n: int) -> Seq<nat> {
    Seq::new(n as nat, |i: int| hex_value(p[i]))
}

/// Groups separated by colons; the last piece may be a dotted quad, which
/// counts as two groups, where `tail` allows it. Empty text has no groups.
pub open spec fn parse_groups(s: Seq<char>, tail: bool) -> Option<Seq<nat>> {
    if s.len() == 0 {
        Some(Seq::empty())
    } else {
        let p = split(s, ':');
        let n = p.len() as int;
        if groups_ok(p, n) {
            Some(group_values(p, n))
        } else if tail && groups_ok(p, n - 1) && parse_v4(p[n - 1]) is Some {
            let q = parse_v4(p[n - 1])->0;
            Some(group_values(p, n - 1) + seq![q.0 * 256 + q.1, q.2 * 256 + q.3])
        } else {
            None
        }
    }
}

/// The eight groups that the text denotes: all eight, or two runs around one
/// `::` that stands for at least one group of zeros.
pub open spec fn parse_v6(s: Seq<char>) -> Option<Seq<nat>> {
    match split_once(s, "::"@) {
        None => match parse_groups(s, true) {
            Some(g) => if g.len() == 8 {
                Some(g)
            } else {
                None
            },
            None => None,
        },
        Some((h, t)) => match (parse_groups(h, false), parse_groups(t, true)) {
            (Some(a), Some(b)) => if a.len() + b.len() <= 7 {
                Some(a + Seq::new((8 - a.len() - b.len()) as nat, |i: int| 0nat) + b)
            } else {
                None
            },
            _ => None,
        },
    }
}

fn hex_digit_value(c: char) -> (r: u32)
    requires
        is_hex(c),
    ensures
        r == hex_digit(c),
        r < 16,
{
    let n: u32 = c as u32;
    if 48 <= n && n <= 57 {
        n - 48
    } else if 97 <= n && n <= 102 {
        n - 87
    } else {
        n - 55
    }
}

fn group(p: &str) -> (r: Option<u16>)
    ensures
        match r {
            Some(n) => group_ok(p@) && hex_value(p@) == n,
            None => !group_ok(p@),
        },
{
    let v = chars_of(p);
    if v.len() < 1 || v.len() > 4 || !str_all_hex(p) {
        return None;
    }
    let mut acc: u32 = 0;
    let mut i: usize = 0;
    let ghost mut bound: int = 1;
    assert(v@.take(0) =~= Seq::<char>::empty());
    while i < v.len()
        invariant
            v@ == p@,
            v.len() <= 4,
            all_hex(p@),
            i <= v.len(),
            acc == hex_value(v@.take(i as int)),
            i == 0 ==> bound == 1,
            i == 1 ==> bound == 16,
            i == 2 ==> bound == 256,
            i == 3 ==> bound == 4096,
            i == 4 ==> bound == 65536,
            acc < bound,
            bound <= 65536,
        decreases v.len() - i,
    {
        let c: char = v[i];
        assert(v@.take(i + 1).drop_last() =~= v@.take(i as int));
        acc = acc * 16 + hex_digit_value(c);
        proof {
            bound = bound * 16;
        }
        i += 1;
    }
    assert(v@.take(v.len() as int) =~= p@);
    Some(acc as u16)
}

/// The groups of a list of numbers.
pub open spec fn nats(v: Seq<u16>) -> Seq<nat> {
    Seq::new(v.len(), |i: int| v[i] as nat)
}

fn groups(s: &str, tail: bool) -> (r: Option<Vec<u16>>)
    ensures
        match r {
            Some(v) => parse_groups(s@, tail) == Some(nats(v@)),
            None => parse_groups(s@, tail) is None,
        },
{
    if s.is_empty() {
        let v: Vec<u16> = Vec::new();
        assert(nats(v@) =~= Seq::empty());
        return Some(v);
    }
    let p = str_split(s, ':');
    let ghost ps = split(s@, ':');
    let n: usize = p.len();
    assert(ps.len() == n);
    let mut out: Vec<u16> = Vec::new();
    let mut i: usize = 0;
    while i < n
        invariant
            n == p.len(),
            n >= 1,
            ps == texts(p@),
            i <= n,
            out.len() == i,
            ps == split(s@, ':'),
            s@.len() > 0,
            groups_ok(ps, i as int),
            forall|k: int| 0 <= k < i ==> hex_value(ps[k]) == #[trigger] out@[k],
        decreases n - i,
    {
        assert(ps[i as int] == p@[i as int]@);
        match group(&p[i]) {
            Some(g) => {
                out.push(g);
            },
            None => {
                assert(!groups_ok(ps, n as int));
                if tail && i + 1 == n {
                    match ipv4(&p[i]) {
                        Some((a, b, c, d)) => {
                            let ghost done = out@;
                            out.push(a as u16 * 256 + b as u16);
                            out.push(c as u16 * 256 + d as u16);
                            proof {
                                let q = parse_v4(ps[n - 1])->0;
                                assert(nats(out@) =~= group_values(ps, n - 1) + seq![
                                    q.0 * 256 + q.1,
                                    q.2 * 256 + q.3,
                                ]);
                            }
                            return Some(out);
                        },
                        None => {
                            return None;
                        },
                    }
                }
                assert(i + 1 < n ==> !groups_ok(ps, n - 1));
                return None;
            },
        }
        i += 1;
    }
    assert(nats(out@) =~= group_values(ps, n as int));
    Some(out)
}

/// Reads the eight groups of an IPv6 address.
pub fn ipv6(s: &str) -> (r: Option<Vec<u16>>)
    ensures
        match r {
            Some(v) => v.len() == 8 && parse_v6(s@) == Some(nats(v@)),
            None => parse_v6(s@) is None,
        },
{
    match str_split_once(s, "::") {
        None => match groups(s, true) {
            Some(g) => {
                assert(nats(g@).len() == g.len());
                if g.len() == 8 {
                    Some(g)
                } else {
                    None
                }
            },
            None => None,
        },
        Some((h, t)) => {
            let a = groups(&h, false);
            let b = groups(&t, true);
            match (a, b) {
                (Some(a), Some(b)) => {
                    assert(nats(a@).len() == a.len() && nats(b@).len() == b.len());
                    if a.len() > 7 || b.len() > 7 - a.len() {
                        return None;
                    }
                    let ghost want = nats(a@) + Seq::new(
                        (8 - a.len() - b.len()) as nat,
                        |i: int| 0nat,
                    ) + nats(b@);
                    let fill: usize = 8 - a.len() - b.len();
                    let mut out: Vec<u16> = a;
                    let mut i: usize = 0;
                    while i < fill
                        invariant
                            i <= fill,
                            out.len() == a.len() + i,
                            forall|k: int| 0 <= k < a.len() ==> out@[k] == a@[k],
                            forall|k: int| a.len() <= k < out.len() ==> out@[k] == 0,
                        decreases fill - i,
                    {
                        out.push(0);
                        i += 1;
                    }
                    let ghost mid = out@;
                    let mut j: usize = 0;
                    while j < b.len()
                        invariant
                            j <= b.len(),
                            out@ == mid + b@.take(j as int),
                        decreases b.len() - j,
                    {
                        out.push(b[j]);
                        j += 1;
                        assert(out@ =~= mid + b@.take(j as int));
                    }
                    assert(nats(out@) =~= want);
                    Some(out)
                },
                _ => None,
            }
        },
    }
}

pub open spec fn ip_of(ip: Ip) -> Result<(nat, nat, nat, nat), Seq<nat>> {
    match ip {
        Ip::V4(a, b, c, d) => Ok((a as nat, b as nat, c as nat, d as nat)),
        Ip::V6(a, b, c, d, e, f, g, h) => Err(
            seq![
                a as nat,
                b as nat,
                c as nat,
                d as nat,
                e as nat,
                f as nat,
                g as nat,
                h as nat,
            ],
        ),
    }
}

/// The address that a text denotes: a dotted quad, or eight groups.
pub open spec fn parse_ip(s: Seq<char>) -> Option<Result<(nat, nat, nat, nat), Seq<nat>>> {
    match parse_v4(s) {
        Some(q) => Some(Ok(q)),
        None => match parse_v6(s) {
            Some(g) => Some(Err(g)),
            None => None,
        },
    }
}

fn of_groups(v: &Vec<u16>) -> (r: Ip)
    requires
        v@.len() == 8,
    ensures
        ip_of(r) == Err::<(nat, nat, nat, nat), Seq<nat>>(nats(v@)),
{
    let r = Ip::V6(v[0], v[1], v[2], v[3], v[4], v[5], v[6], v[7]);
    assert(ip_of(r)->Err_0 =~= nats(v@));
    r
}

/// Reads an address of either family.
pub fn ip_addr(s: &str) -> (r: Option<Ip>)
    ensures
        match r {
            Some(ip) => parse_ip(s@) == Some(ip_of(ip)),
            None => parse_ip(s@) is None,
        },
{
    match ipv4(s) {
        Some((a, b, c, d)) => Some(Ip::V4(a, b, c, d)),
        None => match ipv6(s) {
            Some(v) => Some(of_groups(&v)),
            None => None,
        },
    }
}

// ---------------------------------------------------------------------------
// The canonical text of an IPv6 address
// ---------------------------------------------------------------------------

/// Number of consecutive zero groups from `i` on.
pub open spec fn zero_run(g: Seq<nat>, i: int) -> nat
    decreases g.len() - i,
{
    if 0 <= i < g.len() && g[i] == 0 {
        1 + zero_run(g, i + 1)
    } else {
        0
    }
}

/// Start and length of the first longest run of zero groups that starts
/// before `i`.
pub open spec fn longest_run(g: Seq<nat>, i: int) -> (int, nat)
    decreases i,
{
    if i <= 0 {
        (0, 0)
    } else {
        let best = longest_run(g, i - 1);
        if zero_run(g, i - 1) > best.1 {
            (i - 1, zero_run(g, i - 1))
        } else {
            best
        }
    }
}

/// The groups `a..b` in hexadecimal with colons between them.
pub open spec fn show_groups(g: Seq<nat>, a: int, b: int) -> Seq<char>
    decreases b - a,
{
    if a >= b {
        Seq::empty()
    } else if a + 1 == b {
        hex(g[a])
    } else {
        show_groups(g, a, b - 1) + ":"@ + hex(g[b - 1])
    }
}

/// An IPv4-mapped address.
pub open spec fn mapped(g: Seq<nat>) -> bool {
    g[0] == 0 && g[1] == 0 && g[2] == 0 && g[3] == 0 && g[4] == 0 && g[5] == 0xffff
}

/// The canonical text: the first longest run of at least two zero groups is
/// written `::`, and a mapped address ends in a dotted quad.
pub open spec fn show_v6(g: Seq<nat>) -> Seq<char> {
    if mapped(g) {
        "::ffff:"@ + show_v4(g[6] / 256, g[6] % 256, g[7] / 256, g[7] % 256)
    } else {
        let r = longest_run(g, 8);
        if r.1 > 1 {
            show_groups(g, 0, r.0) + "::"@ + show_groups(g, r.0 + r.1, 8)
        } else {
            show_groups(g, 0, 8)
        }
    }
}

fn hex_str(n: u32) -> (r: String)
    ensures
        r@ == hex(n as nat),
    decreases n,
{
    let d: u8 = (n % 16) as u8;
    let c: char = if d < 10 {
        (48 + d) as char
    } else {
        (87 + d) as char
    };
    if n < 16 {
        let mut s = String::new();
        s.push(c);
        s
    } else {
        let mut s = hex_str(n / 16);
        s.push(c);
        s
    }
}

fn groups_str(v: &Vec<u16>, a: usize, b: usize) -> (r: String)
    requires
        a <= b <= v.len(),
    ensures
        r@ == show_groups(nats(v@), a as int, b as int),
{
    let ghost g = nats(v@);
    if a == b {
        return String::new();
    }
    let mut out = hex_str(v[a] as u32);
    let mut i: usize = a + 1;
    while i < b
        invariant
            a < i <= b <= v.len(),
            g == nats(v@),
            out@ == show_groups(g, a as int, i as int),
        decreases b - i,
    {
        let h = hex_str(v[i] as u32);
        assert(g[i as int] == v@[i as int]);
        out = out.concat(":").concat(&h);
        i += 1;
    }
    out
}

/// Groups of a run of zeros are zero.
proof fn lemma_zero_run(g: Seq<nat>, i: int)
    requires
        0 <= i <= g.len(),
    ensures
        i + zero_run(g, i) <= g.len(),
        forall|k: int| i <= k < i + zero_run(g, i) ==> g[k] == 0,
    decreases g.len() - i,
{
    if i < g.len() && g[i] == 0 {
        lemma_zero_run(g, i + 1);
    }
}

fn run_len(v: &Vec<u16>, from: usize) -> (r: usize)
    requires
        from <= v.len(),
    ensures
        r == zero_run(nats(v@), from as int),
        from + r <= v.len(),
{
    let ghost g = nats(v@);
    let mut k: usize = from;
    while k < v.len() && v[k] == 0
        invariant
            from <= k <= v.len(),
            g == nats(v@),
            zero_run(g, from as int) == (k - from) + zero_run(g, k as int),
        decreases v.len() - k,
    {
        assert(g[k as int] == v@[k as int]);
        k += 1;
    }
    if k < v.len() {
        assert(g[k as int] == v@[k as int]);
    }
    k - from
}

/// The canonical text of an IPv6 address.
pub fn ipv6_str(v: &Vec<u16>) -> (r: String)
    requires
        v.len() == 8,
    ensures
        r@ == show_v6(nats(v@)),
{
    let ghost g = nats(v@);
    assert(g[0] == v@[0] && g[1] == v@[1] && g[2] == v@[2] && g[3] == v@[3] && g[4] == v@[4] && g[5]
        == v@[5] && g[6] == v@[6] && g[7] == v@[7]);
    if v[0] == 0 && v[1] == 0 && v[2] == 0 && v[3] == 0 && v[4] == 0 && v[5] == 0xffff {
        let q = ipv4_str(
            (v[6] / 256) as u8,
            (v[6] % 256) as u8,
            (v[7] / 256) as u8,
            (v[7] % 256) as u8,
        );
        return cat("::ffff:", &q);
    }
    let mut start: usize = 0;
    let mut len: usize = 0;
    let mut i: usize = 0;
    while i < 8
        invariant
            v.len() == 8,
            g == nats(v@),
            i <= 8,
            longest_run(g, i as int) == (start as int, len as nat),
            start + len <= 8,
        decreases 8 - i,
    {
        let n = run_len(v, i);
        if n > len {
            start = i;
            len = n;
        }
        i += 1;
    }
    if len > 1 {
        groups_str(v, 0, start).concat("::").concat(&groups_str(v, start + len, 8))
    } else {
        groups_str(v, 0, 8)
    }
}

// ---------------------------------------------------------------------------
// Kinds of IPv4 addresses
// ---------------------------------------------------------------------------

/// An address that a guest on the LAN can have: not loopback, unspecified,
/// broadcast, link-local or multicast.
pub open spec fn lan_v4(a: nat, b: nat, c: nat, d: nat) -> bool {
    !(a == 127 || (a == 0 && b == 0 && c == 0 && d == 0) || (a == 255 && b == 255 && c == 255 && d
        == 255) || (a == 169 && b == 254) || 224 <= a <= 239)
}

/// Rendering and reading an octet.
proof fn lemma_octet_roundtrip(n: nat)
    requires
        n <= 255,
    ensures
        octet_ok(dec(n)),
        value(dec(n)) == n,
        !dec(n).contains('.'),
{
    law_dec_value(n);
    lemma_dec_digits(n);
    reveal_with_fuel(dec, 4);
    assert forall|i: int| 0 <= i < dec(n).len() implies dec(n)[i] != '.' by {
        assert(is_digit(dec(n)[i]));
    }
}

/// Reading a dotted quad gives back the address that it was made of.
pub proof fn law_quad_roundtrip(a: u8, b: u8, c: u8, d: u8)
    ensures
        parse_v4(show_v4(a as nat, b as nat, c as nat, d as nat)) == Some(
            (a as nat, b as nat, c as nat, d as nat),
        ),
{
    reveal_strlit(".");
    lemma_octet_roundtrip(a as nat);
    lemma_octet_roundtrip(b as nat);
    lemma_octet_roundtrip(c as nat);
    lemma_octet_roundtrip(d as nat);
    let (w, x, y, z) = (dec(a as nat), dec(b as nat), dec(c as nat), dec(d as nat));
    let s = show_v4(a as nat, b as nat, c as nat, d as nat);
    let i = w.len() as int;
    let j = i + 1 + x.len();
    let k = j + 1 + y.len();
    let n = k + 1 + z.len();
    assert(s.len() == n);
    assert(s.subrange(0, i) =~= w);
    assert(s.subrange(i + 1, j) =~= x);
    assert(s.subrange(j + 1, k) =~= y);
    assert(s.subrange(k + 1, n) =~= z);
    assert forall|m: int| 0 <= m < i implies s[m] != '.' by {
        assert(s[m] == w[m]);
    }
    assert forall|m: int| i + 1 <= m < j implies s[m] != '.' by {
        assert(s[m] == x[m - i - 1]);
    }
    assert forall|m: int| j + 1 <= m < k implies s[m] != '.' by {
        assert(s[m] == y[m - j - 1]);
    }
    assert forall|m: int| k + 1 <= m < n implies s[m] != '.' by {
        assert(s[m] == z[m - k - 1]);
    }
    lemma_pos_is(s, '.', 0, i);
    lemma_pos_is(s, '.', i + 1, j);
    lemma_pos_is(s, '.', j + 1, k);
    lemma_pos_is(s, '.', k + 1, n);
    reveal_with_fuel(split_from, 5);
    assert(split(s, '.') =~= seq![w, x, y, z]);
}

/// A character that the text of an address may hold.
pub open spec fn addr_char(c: char) -> bool {
    is_digit(c) || 97 <= c as int <= 102 || c == ':' || c == '.'
}

/// All characters may stand in an address.
pub open spec fn addr_text(s: Seq<char>) -> bool {
    forall|i: int| 0 <= i < s.len() ==> addr_char(#[trigger] s[i])
}

proof fn lemma_hex_text(n: nat)
    ensures
        hex(n).len() > 0,
        addr_text(hex(n)),
    decreases n,
{
    if n >= 16 {
        lemma_hex_text(n / 16);
    }
}

proof fn lemma_groups_text(g: Seq<nat>, a: int, b: int)
    ensures
        addr_text(show_groups(g, a, b)),
        a < b ==> show_groups(g, a, b).len() > 0,
        a + 1 < b ==> show_groups(g, a, b).contains(':'),
    decreases b - a,
{
    reveal_strlit(":");
    if a + 1 == b {
        lemma_hex_text(g[a]);
    } else if a < b {
        lemma_groups_text(g, a, b - 1);
        lemma_hex_text(g[b - 1]);
        let h = show_groups(g, a, b - 1);
        assert(show_groups(g, a, b)[h.len() as int] == ':');
    }
}

/// The longest run is one.
proof fn lemma_longest_run(g: Seq<nat>, i: int)
    requires
        0 <= i <= g.len(),
    ensures
        0 <= longest_run(g, i).0 <= g.len(),
        longest_run(g, i).1 == 0 || longest_run(g, i).1 == zero_run(g, longest_run(g, i).0),
    decreases i,
{
    if i > 0 {
        lemma_longest_run(g, i - 1);
    }
}

/// The text of an IPv6 address holds a colon; and more than two characters,
/// unless all groups are zero.
pub proof fn lemma_v6_text(g: Seq<nat>)
    requires
        g.len() == 8,
        forall|i: int| 0 <= i < 8 ==> #[trigger] g[i] < 65536,
    ensures
        addr_text(show_v6(g)),
        show_v6(g).contains(':'),
        show_v6(g).len() > 2 || forall|i: int| 0 <= i < 8 ==> #[trigger] g[i] == 0,
{
    let s = show_v6(g);
    if mapped(g) {
        reveal_strlit("::ffff:");
        reveal_strlit(".");
        assert(g[6] / 256 <= 255 && g[7] / 256 <= 255);
        lemma_dec_digits(g[6] / 256);
        lemma_dec_digits(g[6] % 256);
        lemma_dec_digits(g[7] / 256);
        lemma_dec_digits(g[7] % 256);
        assert(s[0] == ':');
        let q = show_v4(g[6] / 256, g[6] % 256, g[7] / 256, g[7] % 256);
        assert(addr_text(q));
    } else {
        let r = longest_run(g, 8);
        lemma_longest_run(g, 8);
        lemma_zero_run(g, r.0);
        if r.1 > 1 {
            reveal_strlit("::");
            let h = show_groups(g, 0, r.0);
            lemma_groups_text(g, 0, r.0);
            lemma_groups_text(g, r.0 + r.1, 8);
            assert(s[h.len() as int] == ':');
            if r.0 == 0 && r.1 == 8 {
                assert forall|i: int| 0 <= i < 8 implies #[trigger] g[i] == 0 by {
                    assert(r.0 <= i < r.0 + zero_run(g, r.0));
                }
            }
        } else {
            lemma_groups_text(g, 0, 8);
            lemma_groups_text(g, 0, 7);
            lemma_hex_text(g[7]);
            reveal_strlit(":");
        }
    }
}

/// An address of the older family is found again in what is shown of it, and an
/// address on the local network is none of the reserved ones.
pub proof fn law_addresses_on_the_network(b: nat, c: nat, d: nat)
    ensures
        !lan_v4(127, b, c, d),
        !lan_v4(0, 0, 0, 0),
        !lan_v4(255, 255, 255, 255),
        !lan_v4(169, 254, c, d),
        !lan_v4(224, b, c, d) && !lan_v4(239, b, c, d),
        lan_v4(10, b, c, d) && lan_v4(192, b, c, d) && lan_v4(172, b, c, d),
        lan_v4(169, 253, c, d) && lan_v4(223, b, c, d) && lan_v4(240, b, c, d),
{
}

} // verus!
