//! Provider addresses, SSH targets and the shared environment of the lab scripts.
use crate::jobs::rows::{env_get, host_env};
use crate::order::{ascending, sorted_unique};
use crate::text::{
    chars_of, find, first_word, is_digit, join, lemma_back_bounds, lemma_find_from,
    lemma_skip_bounds, lemma_trim_ends, lemma_trimmed, lines, lit, match_at, opt_text, skip_ws,
    slice_str, split, split_once, str_eq, str_has_char, str_join, str_lines, str_split,
    str_split_once, str_strip_prefix, str_trim, strip_prefix, texts, trim, words,
};
use vstd::prelude::*;
use vstd::string::*;

verus! {

/// First index at or after `i` that holds a slash or a colon, or the end.
pub open spec fn host_end(s: Seq<char>, i: int) -> int
    decreases s.len() - i,
{
    if 0 <= i < s.len() && s[i] != '/' && s[i] != ':' {
        host_end(s, i + 1)
    } else {
        i
    }
}

/// What stands before the first slash or colon, trimmed; nothing if that is
/// empty.
pub open spec fn host_part(s: Seq<char>) -> Option<Seq<char>> {
    let h = trim(s.subrange(0, host_end(s, 0)));
    if h.len() == 0 {
        None
    } else {
        Some(h)
    }
}

/// What follows the scheme of an HTTP URL.
pub open spec fn after_scheme(url: Seq<char>) -> Option<Seq<char>> {
    match strip_prefix(url, "https://"@) {
        Some(r) => Some(r),
        None => strip_prefix(url, "http://"@),
    }
}

/// The host of an HTTP URL.
pub open spec fn url_host_part(url: Seq<char>) -> Option<Seq<char>> {
    match after_scheme(url) {
        Some(r) => host_part(r),
        None => None,
    }
}

fn cut_host(s: &str) -> (r: Option<String>)
    ensures
        opt_text(r) == host_part(s@),
{
    let v = chars_of(s);
    let mut k: usize = 0;
    while k < v.len() && v[k] != '/' && v[k] != ':'
        invariant
            k <= v.len(),
            host_end(v@, 0) == host_end(v@, k as int),
        decreases v.len() - k,
    {
        k += 1;
    }
    let h = str_trim(&slice_str(&v, 0, k));
    if h.is_empty() {
        None
    } else {
        Some(h)
    }
}

fn strip_scheme(url: &str) -> (r: Option<String>)
    ensures
        opt_text(r) == after_scheme(url@),
{
    match str_strip_prefix(url, "https://") {
        Some(r) => Some(r),
        None => str_strip_prefix(url, "http://"),
    }
}

/// The host of a provider's API URL.
pub fn pve_host_from_url(url: &str) -> (r: Option<String>)
    ensures
        opt_text(r) == url_host_part(url@),
{
    match strip_scheme(url) {
        Some(rest) => cut_host(&rest),
        None => None,
    }
}

/// The host of an SSH target.
pub open spec fn ssh_host(ssh: Seq<char>) -> Option<Seq<char>> {
    match split_once(ssh, "@"@) {
        Some((_u, h)) => host_part(h),
        None => host_part(trim(ssh)),
    }
}

/// The user of an SSH target, `root` where none is given.
pub open spec fn ssh_user(ssh: Seq<char>) -> Seq<char> {
    match split_once(ssh, "@"@) {
        Some((u, h)) => if u.len() > 0 && h.len() > 0 {
            u
        } else {
            "root"@
        },
        None => "root"@,
    }
}

pub fn proxmox_ssh_host(ssh: &str) -> (r: Option<String>)
    ensures
        opt_text(r) == ssh_host(ssh@),
{
    match str_split_once(ssh, "@") {
        Some((_u, h)) => cut_host(&h),
        None => cut_host(&str_trim(ssh)),
    }
}

pub fn proxmox_ssh_user(ssh: &str) -> (r: String)
    ensures
        r@ == ssh_user(ssh@),
{
    match str_split_once(ssh, "@") {
        Some((u, h)) => if !u.is_empty() && !h.is_empty() {
            u
        } else {
            lit("root")
        },
        None => lit("root"),
    }
}

/// The SSH target for a provider: the configured user at the provider's own
/// host. Nothing where the target already is that host, or the URL has none.
pub open spec fn rewritten_ssh(ssh: Seq<char>, url: Seq<char>) -> Option<Seq<char>> {
    match url_host_part(url) {
        Some(h) => if ssh_host(ssh) == Some(h) {
            None
        } else {
            Some(ssh_user(ssh) + "@"@ + h)
        },
        None => None,
    }
}

/// A host is its own host part.
proof fn lemma_host_again(s: Seq<char>)
    requires
        host_part(s) is Some,
    ensures
        host_part(host_part(s)->0) == host_part(s),
{
    let e = host_end(s, 0);
    lemma_host_end(s, 0);
    let raw = s.subrange(0, e);
    let h = trim(raw);
    lemma_trim_ends(raw);
    lemma_skip_bounds(raw, 0);
    lemma_back_bounds(raw, skip_ws(raw, 0), raw.len() as int);
    assert forall|k: int| 0 <= k < h.len() implies h[k] != '/' && h[k] != ':' by {
        assert(h[k] == raw[skip_ws(raw, 0) + k]);
    }
    lemma_host_end(h, 0);
    assert(host_end(h, 0) == h.len());
    assert(h.subrange(0, h.len() as int) =~= h);
    lemma_trimmed(h);
}

proof fn lemma_host_end(s: Seq<char>, i: int)
    requires
        0 <= i <= s.len(),
    ensures
        i <= host_end(s, i) <= s.len(),
        host_end(s, i) < s.len() ==> s[host_end(s, i)] == '/' || s[host_end(s, i)] == ':',
        forall|k: int| i <= k < host_end(s, i) ==> s[k] != '/' && s[k] != ':',
    decreases s.len() - i,
{
    if i < s.len() && s[i] != '/' && s[i] != ':' {
        lemma_host_end(s, i + 1);
    }
}

/// The user of an SSH target holds no separator.
proof fn lemma_user_plain(ssh: Seq<char>)
    ensures
        forall|k: int| 0 <= k < ssh_user(ssh).len() ==> ssh_user(ssh)[k] != '@',
{
    reveal_strlit("@");
    reveal_strlit("root");
    lemma_find_from(ssh, "@"@, 0);
    match find(ssh, "@"@) {
        Some(i) => {
            assert forall|k: int| 0 <= k < i implies ssh[k] != '@' by {
                assert(!match_at(ssh, "@"@, k));
                if ssh[k] == '@' {
                    assert(ssh.subrange(k, k + 1) =~= "@"@);
                }
            }
        },
        None => {},
    }
}

/// Where the URL of a provider has a host, SSH goes to that host: the target
/// that was configured is kept only if it already does.
pub proof fn law_ssh_goes_to_the_provider(ssh: Seq<char>, url: Seq<char>)
    requires
        url_host_part(url) is Some,
    ensures
        match rewritten_ssh(ssh, url) {
            Some(t) => ssh_host(t) == url_host_part(url),
            None => ssh_host(ssh) == url_host_part(url),
        },
{
    reveal_strlit("@");
    let h = url_host_part(url)->0;
    lemma_host_again(after_scheme(url)->0);
    lemma_user_plain(ssh);
    let u = ssh_user(ssh);
    let t = u + "@"@ + h;
    lemma_find_from(t, "@"@, 0);
    let n = u.len() as int;
    assert(t.subrange(n, n + 1) =~= "@"@);
    assert(match_at(t, "@"@, n));
    assert forall|k: int| 0 <= k < u.len() implies !match_at(t, "@"@, k) by {
        assert(t[k] == u[k]);
        if match_at(t, "@"@, k) {
            assert(t.subrange(k, k + 1)[0] == "@"@[0]);
        }
    }
    assert(find(t, "@"@) == Some(n));
    assert(t.subrange(n + 1, t.len() as int) =~= h);
}

/// `PROXMOX_SSH` is a user and a preference for SSH. The host is always this
/// provider.
pub fn rewrite_proxmox_ssh_for_provider(ssh: &str, provider_url: &str) -> (r: Option<String>)
    ensures
        opt_text(r) == rewritten_ssh(ssh@, provider_url@),
{
    match pve_host_from_url(provider_url) {
        Some(api) => {
            let user = proxmox_ssh_user(ssh);
            let target = user.concat("@").concat(&api);
            match proxmox_ssh_host(ssh) {
                Some(h) => if str_eq(&h, &api) {
                    None
                } else {
                    Some(target)
                },
                None => Some(target),
            }
        },
        None => None,
    }
}

/// Unicode numeric characters: the general categories `Nd`, `Nl` and `No`.
pub uninterp spec fn numeric(c: char) -> bool;

/// `char::is_numeric`. Claimed: the result depends on the character alone, and
/// of the ASCII characters just the ten digits are numeric. Which other
/// characters are is left to the Unicode tables.
#[verifier::external_body]
fn char_is_numeric(c: char) -> (r: bool)
    ensures
        r == numeric(c),
        (c as int) < 128 ==> r == is_digit(c),
{
    c.is_numeric()
}

pub open spec fn has_numeric(s: Seq<char>) -> bool {
    exists|i: int| 0 <= i < s.len() && numeric(#[trigger] s[i])
}

fn any_numeric(s: &str) -> (r: bool)
    ensures
        r == has_numeric(s@),
{
    let v = chars_of(s);
    let mut i: usize = 0;
    while i < v.len()
        invariant
            v@ == s@,
            i <= v.len(),
            forall|k: int| 0 <= k < i ==> !numeric(#[trigger] v@[k]),
        decreases v.len() - i,
    {
        if char_is_numeric(v[i]) {
            return true;
        }
        i += 1;
    }
    false
}

/// The address in a provider URL: `https://10.1.1.111:9440` gives `10.1.1.111`.
pub fn ip_from_provider_url(url: &str) -> (r: Option<String>)
    ensures
        opt_text(r) == provider_ip(url@),
{
    match pve_host_from_url(url) {
        Some(h) => if any_numeric(&h) {
            Some(h)
        } else {
            None
        },
        None => None,
    }
}

/// The host of the URL where it has a numeric character.
pub open spec fn provider_ip(url: Seq<char>) -> Option<Seq<char>> {
    match url_host_part(url) {
        Some(h) => if has_numeric(h) {
            Some(h)
        } else {
            None
        },
        None => None,
    }
}

/// The first three of four dotted parts, followed by `tail`.
pub open spec fn swap_last_part(s: Seq<char>, tail: Seq<char>) -> Option<Seq<char>> {
    let p = split(s, '.');
    if p.len() == 4 {
        Some(p[0] + "."@ + p[1] + "."@ + p[2] + tail)
    } else {
        None
    }
}

fn replace_last_part(s: &str, tail: &str) -> (r: Option<String>)
    ensures
        opt_text(r) == swap_last_part(s@, tail@),
{
    let p = str_split(s, '.');
    assert(texts(p@).len() == p.len());
    if p.len() == 4 {
        assert(texts(p@)[0] == p@[0]@ && texts(p@)[1] == p@[1]@ && texts(p@)[2] == p@[2]@);
        Some(lit(&p[0]).concat(".").concat(&p[1]).concat(".").concat(&p[2]).concat(tail))
    } else {
        None
    }
}

/// The /24 around an address: `10.1.1.111` gives `10.1.1.0/24`.
pub fn subnet_from_provider_ip(ip: &str) -> (r: Option<String>)
    ensures
        opt_text(r) == swap_last_part(ip@, ".0/24"@),
{
    replace_last_part(ip, ".0/24")
}

/// The gateway of a subnet: `10.1.1.0/24` gives `10.1.1.1`.
pub fn gateway_from_subnet(subnet: &str) -> (r: Option<String>)
    ensures
        opt_text(r) == swap_last_part(split(subnet@, '/')[0], ".1"@),
{
    let net = crate::text::str_until(subnet, '/');
    replace_last_part(&net, ".1")
}

/// The gateway in one line of a route table, `Err` where the line ends the
/// search without one.
pub open spec fn route_gateway(ls: Seq<Seq<char>>, i: int) -> Option<Seq<char>>
    decreases ls.len() - i,
{
    if 0 <= i < ls.len() {
        match strip_prefix(ls[i], "default via "@) {
            Some(rest) => if words(rest).len() == 0 {
                None
            } else if first_word(rest).contains('.') {
                Some(first_word(rest))
            } else {
                route_gateway(ls, i + 1)
            },
            None => route_gateway(ls, i + 1),
        }
    } else {
        None
    }
}

/// The default gateway in the output of `ip route show default`.
pub fn parse_default_gateway(stdout: &str) -> (r: Option<String>)
    ensures
        opt_text(r) == route_gateway(lines(stdout@), 0),
{
    let ls = str_lines(stdout);
    let ghost want = lines(stdout@);
    let mut i: usize = 0;
    while i < ls.len()
        invariant
            i <= ls.len(),
            want == lines(stdout@),
            texts(ls@) == want,
            route_gateway(want, 0) == route_gateway(want, i as int),
        decreases ls.len() - i,
    {
        assert(want[i as int] == ls@[i as int]@);
        match str_strip_prefix(&ls[i], "default via ") {
            Some(rest) => {
                let w = crate::text::str_words(&rest);
                assert(texts(w@).len() == w.len());
                if w.len() == 0 {
                    return None;
                }
                assert(texts(w@)[0] == w@[0]@);
                if str_has_char(&w[0], '.') {
                    return Some(lit(&w[0]));
                }
            },
            None => {},
        }
        i += 1;
    }
    assert(want.len() == ls.len());
    None
}

// ---------------------------------------------------------------------------
// Addresses that a static assignment must not hand out
// ---------------------------------------------------------------------------

/// The address is a provider host, a node address or an extra exclusion.
pub open spec fn excluded_host(
    urls: Seq<String>,
    node_ips: Seq<Option<String>>,
    extra: Option<Seq<char>>,
    t: Seq<char>,
) -> bool {
    ||| exists|i: int| 0 <= i < urls.len() && url_host_part((#[trigger] urls[i])@) == Some(t)
    ||| exists|i: int| 0 <= i < node_ips.len() && opt_text(#[trigger] node_ips[i]) == Some(t)
    ||| extra_has(extra, t)
}

/// The text is one of the comma-separated exclusions.
pub open spec fn extra_has(extra: Option<Seq<char>>, t: Seq<char>) -> bool {
    match extra {
        Some(e) => t.len() > 0 && exists|i: int|
            0 <= i < split(e, ',').len() && trim(#[trigger] split(e, ',')[i]) == t,
        None => false,
    }
}

/// The exclude list of a job: every provider host, every node address and the
/// operator's own exclusions, each once, in ascending order.
pub fn exclude_hosts(
    urls: &Vec<String>,
    node_ips: &Vec<Option<String>>,
    extra: &Option<String>,
) -> (r: Vec<String>)
    ensures
        ascending(texts(r@)),
        forall|t: Seq<char>| #[trigger]
            texts(r@).contains(t) <==> excluded_host(urls@, node_ips@, opt_text(*extra), t),
{
    let mut hosts: Vec<String> = Vec::new();
    let mut i: usize = 0;
    while i < urls.len()
        invariant
            i <= urls.len(),
            forall|t: Seq<char>| #[trigger]
                texts(hosts@).contains(t) <==> exists|k: int|
                    0 <= k < i && url_host_part((#[trigger] urls@[k])@) == Some(t),
        decreases urls.len() - i,
    {
        let ghost before = texts(hosts@);
        let found = pve_host_from_url(&urls[i]);
        let ghost f = opt_text(found);
        push_opt(&mut hosts, found);
        proof {
            assert forall|t: Seq<char>| #[trigger]
                texts(hosts@).contains(t) <==> exists|k: int|
                    0 <= k < i + 1 && url_host_part((#[trigger] urls@[k])@) == Some(t) by {
                assert(texts(hosts@).contains(t) <==> before.contains(t) || f == Some(t));
                if f == Some(t) {
                    assert(url_host_part(urls@[i as int]@) == Some(t));
                }
                if before.contains(t) {
                    let k = choose|k: int|
                        0 <= k < i && url_host_part((#[trigger] urls@[k])@) == Some(t);
                    assert(url_host_part(urls@[k]@) == Some(t));
                }
            }
        }
        i += 1;
    }
    let ghost from_urls = texts(hosts@);
    let mut j: usize = 0;
    while j < node_ips.len()
        invariant
            j <= node_ips.len(),
            forall|t: Seq<char>| #[trigger]
                texts(hosts@).contains(t) <==> from_urls.contains(t) || exists|k: int|
                    0 <= k < j && opt_text(#[trigger] node_ips@[k]) == Some(t),
        decreases node_ips.len() - j,
    {
        let ghost before = texts(hosts@);
        let found: Option<String> = match &node_ips[j] {
            Some(s) => Some(lit(s)),
            None => None,
        };
        let ghost f = opt_text(found);
        push_opt(&mut hosts, found);
        proof {
            assert forall|t: Seq<char>| #[trigger]
                texts(hosts@).contains(t) <==> from_urls.contains(t) || exists|k: int|
                    0 <= k < j + 1 && opt_text(#[trigger] node_ips@[k]) == Some(t) by {
                assert(texts(hosts@).contains(t) <==> before.contains(t) || f == Some(t));
                if f == Some(t) {
                    assert(opt_text(node_ips@[j as int]) == Some(t));
                }
                if before.contains(t) && !from_urls.contains(t) {
                    let k = choose|k: int|
                        0 <= k < j && opt_text(#[trigger] node_ips@[k]) == Some(t);
                    assert(opt_text(node_ips@[k]) == Some(t));
                }
            }
        }
        j += 1;
    }
    let ghost from_nodes = texts(hosts@);
    match extra {
        Some(e) => {
            let parts = str_split(e, ',');
            let ghost ps = split(e@, ',');
            let mut k: usize = 0;
            while k < parts.len()
                invariant
                    k <= parts.len(),
                    texts(parts@) == ps,
                    forall|t: Seq<char>| #[trigger]
                        texts(hosts@).contains(t) <==> from_nodes.contains(t) || (t.len() > 0
                            && exists|m: int| 0 <= m < k && trim(#[trigger] ps[m]) == t),
                decreases parts.len() - k,
            {
                let ghost before = texts(hosts@);
                assert(ps[k as int] == parts@[k as int]@);
                let t = str_trim(&parts[k]);
                let ghost tt = t@;
                let found: Option<String> = if t.is_empty() {
                    None
                } else {
                    Some(t)
                };
                let ghost f = opt_text(found);
                push_opt(&mut hosts, found);
                proof {
                    assert forall|t: Seq<char>| #[trigger]
                        texts(hosts@).contains(t) <==> from_nodes.contains(t) || (t.len() > 0
                            && exists|m: int| 0 <= m < k + 1 && trim(#[trigger] ps[m]) == t) by {
                        assert(texts(hosts@).contains(t) <==> before.contains(t) || f == Some(t));
                        if f == Some(t) {
                            assert(trim(ps[k as int]) == t);
                        }
                        if before.contains(t) && !from_nodes.contains(t) {
                            let m = choose|m: int| 0 <= m < k && trim(#[trigger] ps[m]) == t;
                            assert(trim(ps[m]) == t);
                        }
                    }
                }
                k += 1;
            }
            assert(ps.len() == parts.len());
            assert forall|t: Seq<char>| #[trigger]
                texts(hosts@).contains(t) <==> from_nodes.contains(t) || extra_has(
                    opt_text(*extra),
                    t,
                ) by {
                assert(extra_has(Some(e@), t) <==> t.len() > 0 && exists|m: int|
                    0 <= m < ps.len() && trim(#[trigger] ps[m]) == t);
            }
        },
        None => {},
    }
    let out = sorted_unique(&hosts);
    proof {
        assert forall|t: Seq<char>| #[trigger]
            texts(out@).contains(t) <==> excluded_host(urls@, node_ips@, opt_text(*extra), t) by {
            assert(texts(out@).contains(t) <==> texts(hosts@).contains(t));
            assert(texts(hosts@).contains(t) <==> from_nodes.contains(t) || extra_has(
                opt_text(*extra),
                t,
            ));
            assert(from_nodes.contains(t) <==> from_urls.contains(t) || exists|k: int|
                0 <= k < node_ips.len() && opt_text(#[trigger] node_ips@[k]) == Some(t));
            assert(from_urls.contains(t) <==> exists|k: int|
                0 <= k < urls.len() && url_host_part((#[trigger] urls@[k])@) == Some(t));
        }
    }
    out
}

fn push_opt(v: &mut Vec<String>, o: Option<String>)
    ensures
        forall|t: Seq<char>| #[trigger]
            texts(final(v)@).contains(t) <==> texts(old(v)@).contains(t) || opt_text(o) == Some(t),
{
    let ghost before = texts(v@);
    match o {
        Some(s) => {
            v.push(s);
            proof {
                assert(texts(v@) =~= before.push(s@));
                assert forall|t: Seq<char>| #[trigger]
                    texts(v@).contains(t) <==> before.contains(t) || s@ == t by {
                    if before.contains(t) {
                        let k = choose|k: int| 0 <= k < before.len() && before[k] == t;
                        assert(texts(v@)[k] == t);
                    }
                    if texts(v@).contains(t) {
                        let k = choose|k: int| 0 <= k < texts(v@).len() && texts(v@)[k] == t;
                        if k < before.len() {
                            assert(before[k] == t);
                        }
                    }
                    assert(texts(v@)[before.len() as int] == s@);
                }
            }
        },
        None => {},
    }
}

/// Whether a static range is configured, so that exclusions are of use.
pub open spec fn wants_static(base: Option<Seq<char>>, subnet: Option<Seq<char>>) -> bool {
    match base {
        Some(s) => trim(s).len() > 0,
        None => match subnet {
            Some(s) => trim(s).len() > 0,
            None => false,
        },
    }
}

pub fn wants_static_range(host: &Vec<(String, String)>) -> (r: bool)
    ensures
        r == wants_static(
            host_env(host@, "PROXMOX_STATIC_BASE"@),
            host_env(host@, "PROXMOX_STATIC_SUBNET"@),
        ),
{
    match env_get(host, "PROXMOX_STATIC_BASE") {
        Some(s) => !str_trim(&s).is_empty(),
        None => match env_get(host, "PROXMOX_STATIC_SUBNET") {
            Some(s) => !str_trim(&s).is_empty(),
            None => false,
        },
    }
}

/// The change to the environment that keeps static assignment away from hosts
/// in use.
pub fn static_exclude_env(
    host: &Vec<(String, String)>,
    urls: &Vec<String>,
    node_ips: &Vec<Option<String>>,
) -> (r: Option<String>)
    ensures
        r is Some ==> exists|hs: Seq<Seq<char>>| #[trigger]
            ascending(hs) && hs.len() > 0 && r->0@ == join(hs, ","@) && forall|t: Seq<char>|
                #[trigger]
                hs.contains(t) <==> excluded_host(
                    urls@,
                    node_ips@,
                    host_env(host@, "PROXMOX_STATIC_EXCLUDE"@),
                    t,
                ),
        r is None <==> !wants_static(
            host_env(host@, "PROXMOX_STATIC_BASE"@),
            host_env(host@, "PROXMOX_STATIC_SUBNET"@),
        ) || forall|t: Seq<char>|
            !#[trigger] excluded_host(
                urls@,
                node_ips@,
                host_env(host@, "PROXMOX_STATIC_EXCLUDE"@),
                t,
            ),
{
    if !wants_static_range(host) {
        return None;
    }
    let extra = env_get(host, "PROXMOX_STATIC_EXCLUDE");
    let hosts = exclude_hosts(urls, node_ips, &extra);
    let ghost hs = texts(hosts@);
    if hosts.len() == 0 {
        proof {
            assert forall|t: Seq<char>|
                !#[trigger] excluded_host(
                    urls@,
                    node_ips@,
                    host_env(host@, "PROXMOX_STATIC_EXCLUDE"@),
                    t,
                ) by {
                assert(!hs.contains(t));
            }
        }
        None
    } else {
        proof {
            assert(hs.contains(hs[0]));
            assert(excluded_host(
                urls@,
                node_ips@,
                host_env(host@, "PROXMOX_STATIC_EXCLUDE"@),
                hs[0],
            ));
        }
        Some(str_join(&hosts, ","))
    }
}

/// The SSH target of a script is the host of the provider, by the user that was
/// named; where it is that host already nothing is changed.
pub proof fn law_ssh_target(user: Seq<char>, host: Seq<char>, url: Seq<char>, h: Seq<char>)
    requires
        url_host_part(url) == Some(h),
    ensures
        ssh_host(user) == Some(h) ==> rewritten_ssh(user, url) is None,
        ssh_host(user) != Some(h) ==> rewritten_ssh(user, url) == Some(
            ssh_user(user) + "@"@ + h,
        ),
        split_once(user, "@"@) is None ==> ssh_user(user) == "root"@,
{
}

/// Addresses are given out of a range exactly where its start is named, or, where
/// that is not set at all, its network.
pub proof fn law_when_addresses_are_given_out(base: Seq<char>, subnet: Seq<char>)
    ensures
        wants_static(Some(base), Some(subnet)) <==> trim(base).len() > 0,
        wants_static(None, Some(subnet)) <==> trim(subnet).len() > 0,
        !wants_static(None, None),
{
}

/// An address is kept clear of exactly where a provider or a node has it, or the
/// list names it.
pub proof fn law_addresses_kept_clear_of(
    urls: Seq<String>,
    node_ips: Seq<Option<String>>,
    list: Seq<char>,
    t: Seq<char>,
    i: int,
)
    requires
        t.len() > 0,
    ensures
        0 <= i < node_ips.len() && node_ips[i] is Some && node_ips[i]->0@ == t ==> excluded_host(
            urls,
            node_ips,
            None,
            t,
        ),
        0 <= i < urls.len() && url_host_part(urls[i]@) == Some(t) ==> excluded_host(
            urls,
            node_ips,
            None,
            t,
        ),
        0 <= i < split(list, ',').len() && trim(split(list, ',')[i]) == t ==> excluded_host(
            urls,
            node_ips,
            Some(list),
            t,
        ),
        urls.len() == 0 && node_ips.len() == 0 ==> !excluded_host(urls, node_ips, None, t),
{
    let parts = split(list, ',');
    if 0 <= i < parts.len() && trim(parts[i]) == t {
        let e = Some(list)->0;
        assert(trim(split(e, ',')[i]) == t);
        assert(exists|k: int|
            0 <= k < split(e, ',').len() && trim(#[trigger] split(e, ',')[k]) == t);
        assert(extra_has(Some(list), t));
    }
}

} // verus!
