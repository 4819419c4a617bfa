//! Reading the progress of a cluster creation out of the lab script's log.
use crate::num::{parse_i64, parse_int};
use crate::text::{
    cat, chars_of, contains, first_word, idx_skip_word, law_parts_are_found, lit, opt_text,
    skip_word, slice_str, split, split_once, starts_with, str_contains, str_first_word,
    str_has_char, str_split_once, str_starts, str_strip_prefix, str_trim, str_trim_parens,
    str_trim_start_char, str_trim_start_str, str_until, strip_prefix, trim, trim_parens,
    trim_start_char, trim_start_str,
};
use vstd::prelude::*;
use vstd::string::*;

verus! {

/// What one line says.
#[derive(Debug, PartialEq, Eq)]
pub enum Progress {
    Nothing,
    /// The virtual IPv4 address was changed.
    Vip(String),
    /// The virtual IPv6 address was changed.
    Vip6(String),
    /// A node, by name.
    Node {
        name: String,
        role: String,
        vmid: Option<i64>,
        ip: Option<String>,
        status: String,
    },
    /// The address of a machine, by number; the node is still being built.
    Address { vmid: i64, ip: String },
}

pub ghost enum ProgressV {
    Nothing,
    Vip(Seq<char>),
    Vip6(Seq<char>),
    Node {
        name: Seq<char>,
        role: Seq<char>,
        vmid: Option<int>,
        ip: Option<Seq<char>>,
        status: Seq<char>,
    },
    Address { vmid: int, ip: Seq<char> },
}

impl View for Progress {
    type V = ProgressV;

    open spec fn view(&self) -> ProgressV {
        match self {
            Progress::Nothing => ProgressV::Nothing,
            Progress::Vip(s) => ProgressV::Vip(s@),
            Progress::Vip6(s) => ProgressV::Vip6(s@),
            Progress::Node { name, role, vmid, ip, status } => ProgressV::Node {
                name: name@,
                role: role@,
                vmid: match vmid {
                    Some(v) => Some(*v as int),
                    None => None,
                },
                ip: opt_text(*ip),
                status: status@,
            },
            Progress::Address { vmid, ip } => ProgressV::Address { vmid: *vmid as int, ip: ip@ },
        }
    }
}

/// The value of `key=value` in a line: what follows the first `key=` up to
/// white space, if anything does.
pub open spec fn kv(s: Seq<char>, key: Seq<char>) -> Option<Seq<char>> {
    match split_once(s, key + "="@) {
        Some((_before, rest)) => {
            let v = rest.subrange(0, skip_word(rest, 0));
            if v.len() == 0 {
                None
            } else {
                Some(v)
            }
        },
        None => None,
    }
}

/// The value of `key=value` in a line.
pub fn extract_kv(s: &str, key: &str) -> (r: Option<String>)
    ensures
        opt_text(r) == kv(s@, key@),
{
    match str_split_once(s, &cat(key, "=")) {
        Some((_before, rest)) => {
            let v = chars_of(&rest);
            let n = idx_skip_word(&v, 0);
            if n == 0 {
                None
            } else {
                Some(slice_str(&v, 0, n))
            }
        },
        None => None,
    }
}

/// The role that a node name shows.
pub open spec fn role_of(name: Seq<char>) -> Seq<char> {
    if contains(name, "-cp-"@) {
        "controlplane"@
    } else {
        "worker"@
    }
}

fn role_of_name(name: &str) -> (r: String)
    ensures
        r@ == role_of(name@),
{
    if str_contains(name, "-cp-") {
        lit("controlplane")
    } else {
        lit("worker")
    }
}

/// A node that is being built.
pub open spec fn building(
    name: Seq<char>,
    role: Seq<char>,
    vmid: Option<int>,
    ip: Option<Seq<char>>,
) -> ProgressV {
    ProgressV::Node { name, role, vmid, ip, status: "provisioning"@ }
}

/// A node that has joined.
pub open spec fn joined(name: Seq<char>, role: Seq<char>, ip: Option<Seq<char>>) -> ProgressV {
    ProgressV::Node { name, role, vmid: None, ip, status: "ready"@ }
}

/// The new address in `… -> address …`.
pub open spec fn reassigned(rest: Seq<char>) -> Option<Seq<char>> {
    match split_once(rest, " -> "@) {
        Some((_from, to)) => if first_word(to).len() > 0 {
            Some(first_word(to))
        } else {
            None
        },
        None => None,
    }
}

/// `VMID=… name=…` of a planned machine.
pub open spec fn planned(role: Seq<char>, rest: Seq<char>) -> ProgressV {
    match (kv(rest, "VMID"@), kv(rest, "name"@)) {
        (Some(v), Some(n)) => match parse_int(v) {
            Some(id) => building(n, role, Some(id), None),
            None => ProgressV::Nothing,
        },
        _ => ProgressV::Nothing,
    }
}

/// `… (name) …` after a machine number.
pub open spec fn creating(rest: Seq<char>) -> ProgressV {
    match split_once(rest, " "@) {
        Some((id, part)) => match parse_int(id) {
            Some(n) => {
                let name = trim(split(trim_start_char(part, '('), ')')[0]);
                if name.len() > 0 {
                    building(name, role_of(name), Some(n), None)
                } else {
                    ProgressV::Nothing
                }
            },
            None => ProgressV::Nothing,
        },
        None => ProgressV::Nothing,
    }
}

/// Either arrow between a machine number and what follows.
pub open spec fn arrow(rest: Seq<char>) -> Option<(Seq<char>, Seq<char>)> {
    match split_once(rest, "→"@) {
        Some(p) => Some(p),
        None => split_once(rest, "->"@),
    }
}

/// `number → address (…)`.
pub open spec fn addressed(rest: Seq<char>) -> ProgressV {
    match arrow(rest) {
        Some((id, after)) => {
            let ip = trim_parens(trim(first_word(after)));
            match parse_int(trim(id)) {
                Some(n) => if ip.len() > 0 && ip.contains('.') {
                    ProgressV::Address { vmid: n, ip }
                } else {
                    ProgressV::Nothing
                },
                None => ProgressV::Nothing,
            }
        },
        None => ProgressV::Nothing,
    }
}

/// `name @ address` of a node that has joined.
pub open spec fn joining(role: Seq<char>, rest: Seq<char>) -> ProgressV {
    match split_once(rest, " @ "@) {
        Some((name, part)) => {
            let ip = trim(first_word(part));
            joined(
                trim(name),
                role,
                if ip.len() == 0 {
                    None
                } else {
                    Some(ip)
                },
            )
        },
        None => ProgressV::Nothing,
    }
}

/// The line without its marker and surrounding white space.
pub open spec fn log_text(line: Seq<char>) -> Seq<char> {
    trim(trim_start_str(trim(line), "==> "@))
}

/// `s` after either of two prefixes.
pub open spec fn strip_either(s: Seq<char>, p: Seq<char>, q: Seq<char>) -> Option<Seq<char>> {
    match strip_prefix(s, p) {
        Some(r) => Some(r),
        None => strip_prefix(s, q),
    }
}

/// What a line of the log says about the cluster; the first form that the line
/// starts with counts.
pub open spec fn progress(cluster: Seq<char>, line: Seq<char>) -> ProgressV {
    let raw = log_text(line);
    let first_cp = cluster + "-cp-1"@;
    if strip_prefix(raw, "VIP reassigned IPv4 "@) is Some {
        match reassigned(strip_prefix(raw, "VIP reassigned IPv4 "@)->0) {
            Some(to) => ProgressV::Vip(to),
            None => ProgressV::Nothing,
        }
    } else if strip_prefix(raw, "VIP reassigned IPv6 "@) is Some {
        match reassigned(strip_prefix(raw, "VIP reassigned IPv6 "@)->0) {
            Some(to) => ProgressV::Vip6(to),
            None => ProgressV::Nothing,
        }
    } else if strip_prefix(raw, "control-plane "@) is Some {
        planned("controlplane"@, strip_prefix(raw, "control-plane "@)->0)
    } else if strip_prefix(raw, "worker "@) is Some {
        planned("worker"@, strip_prefix(raw, "worker "@)->0)
    } else if strip_prefix(raw, "creating VM "@) is Some {
        creating(strip_prefix(raw, "creating VM "@)->0)
    } else if strip_either(raw, "done — open Console for "@, "done - open Console for "@) is Some {
        let name = trim(
            first_word(
                strip_either(raw, "done — open Console for "@, "done - open Console for "@)->0,
            ),
        );
        if name.len() > 0 {
            building(name, role_of(name), None, None)
        } else {
            ProgressV::Nothing
        }
    } else if strip_prefix(raw, "VM "@) is Some {
        addressed(strip_prefix(raw, "VM "@)->0)
    } else if strip_either(raw, "apply controlplane → "@, "apply controlplane -> "@) is Some {
        let ip = trim(
            first_word(
                strip_either(raw, "apply controlplane → "@, "apply controlplane -> "@)->0,
            ),
        );
        if ip.len() > 0 {
            building(first_cp, "controlplane"@, None, Some(ip))
        } else {
            ProgressV::Nothing
        }
    } else if starts_with(raw, "bootstrap CP1 done"@) {
        joined(first_cp, "controlplane"@, None)
    } else if starts_with(raw, "bootstrap CP1"@) {
        building(first_cp, "controlplane"@, None, None)
    } else if strip_prefix(raw, "apply + join-controlplane "@) is Some {
        joining("controlplane"@, strip_prefix(raw, "apply + join-controlplane "@)->0)
    } else if strip_prefix(raw, "join worker "@) is Some {
        joining("worker"@, strip_prefix(raw, "join worker "@)->0)
    } else {
        ProgressV::Nothing
    }
}

fn read_reassigned(rest: &str) -> (r: Option<String>)
    ensures
        opt_text(r) == reassigned(rest@),
{
    match str_split_once(rest, " -> ") {
        Some((_from, to)) => {
            let w = str_first_word(&to);
            if w.is_empty() {
                None
            } else {
                Some(w)
            }
        },
        None => None,
    }
}

fn read_planned(role: &str, rest: &str) -> (r: Progress)
    ensures
        r@ == planned(role@, rest@),
{
    match (extract_kv(rest, "VMID"), extract_kv(rest, "name")) {
        (Some(v), Some(n)) => match parse_i64(&v) {
            Some(id) => Progress::Node {
                name: n,
                role: lit(role),
                vmid: Some(id),
                ip: None,
                status: lit("provisioning"),
            },
            None => Progress::Nothing,
        },
        _ => Progress::Nothing,
    }
}

fn read_creating(rest: &str) -> (r: Progress)
    ensures
        r@ == creating(rest@),
{
    match str_split_once(rest, " ") {
        Some((id, part)) => match parse_i64(&id) {
            Some(n) => {
                let name = str_trim(&str_until(&str_trim_start_char(&part, '('), ')'));
                if name.is_empty() {
                    Progress::Nothing
                } else {
                    let role = role_of_name(&name);
                    Progress::Node {
                        name,
                        role,
                        vmid: Some(n),
                        ip: None,
                        status: lit("provisioning"),
                    }
                }
            },
            None => Progress::Nothing,
        },
        None => Progress::Nothing,
    }
}

fn read_addressed(rest: &str) -> (r: Progress)
    ensures
        r@ == addressed(rest@),
{
    let cut = match str_split_once(rest, "→") {
        Some(p) => Some(p),
        None => str_split_once(rest, "->"),
    };
    match cut {
        Some((id, after)) => {
            let ip = str_trim_parens(&str_trim(&str_first_word(&after)));
            match parse_i64(&str_trim(&id)) {
                Some(n) => if !ip.is_empty() && str_has_char(&ip, '.') {
                    Progress::Address { vmid: n, ip }
                } else {
                    Progress::Nothing
                },
                None => Progress::Nothing,
            }
        },
        None => Progress::Nothing,
    }
}

fn read_joining(role: &str, rest: &str) -> (r: Progress)
    ensures
        r@ == joining(role@, rest@),
{
    match str_split_once(rest, " @ ") {
        Some((name, part)) => {
            let ip = str_trim(&str_first_word(&part));
            Progress::Node {
                name: str_trim(&name),
                role: lit(role),
                vmid: None,
                ip: if ip.is_empty() {
                    None
                } else {
                    Some(ip)
                },
                status: lit("ready"),
            }
        },
        None => Progress::Nothing,
    }
}

fn strip_two(s: &str, p: &str, q: &str) -> (r: Option<String>)
    ensures
        opt_text(r) == strip_either(s@, p@, q@),
{
    match str_strip_prefix(s, p) {
        Some(r) => Some(r),
        None => str_strip_prefix(s, q),
    }
}

/// What a line of the lab script's log says about the cluster.
pub fn create_log_progress(cluster_name: &str, line: &str) -> (r: Progress)
    ensures
        r@ == progress(cluster_name@, line@),
{
    let raw = str_trim(&str_trim_start_str(&str_trim(line), "==> "));
    if let Some(rest) = str_strip_prefix(&raw, "VIP reassigned IPv4 ") {
        return match read_reassigned(&rest) {
            Some(to) => Progress::Vip(to),
            None => Progress::Nothing,
        };
    }
    if let Some(rest) = str_strip_prefix(&raw, "VIP reassigned IPv6 ") {
        return match read_reassigned(&rest) {
            Some(to) => Progress::Vip6(to),
            None => Progress::Nothing,
        };
    }
    if let Some(rest) = str_strip_prefix(&raw, "control-plane ") {
        return read_planned("controlplane", &rest);
    }
    if let Some(rest) = str_strip_prefix(&raw, "worker ") {
        return read_planned("worker", &rest);
    }
    if let Some(rest) = str_strip_prefix(&raw, "creating VM ") {
        return read_creating(&rest);
    }
    if let Some(rest) = strip_two(&raw, "done — open Console for ", "done - open Console for ") {
        let name = str_trim(&str_first_word(&rest));
        if name.is_empty() {
            return Progress::Nothing;
        }
        let role = role_of_name(&name);
        return Progress::Node { name, role, vmid: None, ip: None, status: lit("provisioning") };
    }
    if let Some(rest) = str_strip_prefix(&raw, "VM ") {
        return read_addressed(&rest);
    }
    let first_cp = cat(cluster_name, "-cp-1");
    if let Some(rest) = strip_two(&raw, "apply controlplane → ", "apply controlplane -> ") {
        let ip = str_trim(&str_first_word(&rest));
        if ip.is_empty() {
            return Progress::Nothing;
        }
        return Progress::Node {
            name: first_cp,
            role: lit("controlplane"),
            vmid: None,
            ip: Some(ip),
            status: lit("provisioning"),
        };
    }
    if str_starts(&raw, "bootstrap CP1 done") {
        return Progress::Node {
            name: first_cp,
            role: lit("controlplane"),
            vmid: None,
            ip: None,
            status: lit("ready"),
        };
    }
    if str_starts(&raw, "bootstrap CP1") {
        return Progress::Node {
            name: first_cp,
            role: lit("controlplane"),
            vmid: None,
            ip: None,
            status: lit("provisioning"),
        };
    }
    if let Some(rest) = str_strip_prefix(&raw, "apply + join-controlplane ") {
        return read_joining("controlplane", &rest);
    }
    if let Some(rest) = str_strip_prefix(&raw, "join worker ") {
        return read_joining("worker", &rest);
    }
    Progress::Nothing
}

/// What a line of the log tells: of a node its role and its number, of a machine its
/// address, of a cluster its virtual addresses; a node that joined is ready, one
/// that is being built is not.
#[verifier::rlimit(60)]
pub proof fn law_lines_of_the_log(cluster: Seq<char>, line: Seq<char>, rest: Seq<char>)
    ensures
        log_text(line) == "VIP reassigned IPv4 "@ + rest && reassigned(rest) is Some ==> progress(
            cluster,
            line,
        ) == ProgressV::Vip(reassigned(rest)->0),
        log_text(line) == "VIP reassigned IPv6 "@ + rest && reassigned(rest) is Some ==> progress(
            cluster,
            line,
        ) == ProgressV::Vip6(reassigned(rest)->0),
        log_text(line) == "control-plane "@ + rest ==> progress(cluster, line) == planned(
            "controlplane"@,
            rest,
        ),
        log_text(line) == "worker "@ + rest ==> progress(cluster, line) == planned(
            "worker"@,
            rest,
        ),
        log_text(line) == "creating VM "@ + rest ==> progress(cluster, line) == creating(rest),
        log_text(line) == "VM "@ + rest ==> progress(cluster, line) == addressed(rest),
        log_text(line) == "apply + join-controlplane "@ + rest ==> progress(cluster, line)
            == joining("controlplane"@, rest),
        log_text(line) == "join worker "@ + rest ==> progress(cluster, line) == joining(
            "worker"@,
            rest,
        ),
        log_text(line) == "bootstrap CP1 done"@ + rest ==> progress(cluster, line) == joined(
            cluster + "-cp-1"@,
            "controlplane"@,
            None,
        ),
{
    let t = log_text(line);
    reveal_strlit("VIP reassigned IPv4 ");
    lemma_front(t, "VIP reassigned IPv4 "@, rest);
    reveal_strlit("VIP reassigned IPv6 ");
    lemma_front(t, "VIP reassigned IPv6 "@, rest);
    reveal_strlit("control-plane ");
    lemma_front(t, "control-plane "@, rest);
    reveal_strlit("worker ");
    lemma_front(t, "worker "@, rest);
    reveal_strlit("creating VM ");
    lemma_front(t, "creating VM "@, rest);
    reveal_strlit("done — open Console for ");
    lemma_front(t, "done — open Console for "@, rest);
    reveal_strlit("done - open Console for ");
    lemma_front(t, "done - open Console for "@, rest);
    reveal_strlit("VM ");
    lemma_front(t, "VM "@, rest);
    reveal_strlit("apply controlplane → ");
    lemma_front(t, "apply controlplane → "@, rest);
    reveal_strlit("apply controlplane -> ");
    lemma_front(t, "apply controlplane -> "@, rest);
    reveal_strlit("bootstrap CP1 done");
    lemma_front(t, "bootstrap CP1 done"@, rest);
    reveal_strlit("bootstrap CP1");
    lemma_front(t, "bootstrap CP1"@, rest);
    reveal_strlit("apply + join-controlplane ");
    lemma_front(t, "apply + join-controlplane "@, rest);
    reveal_strlit("join worker ");
    lemma_front(t, "join worker "@, rest);
}

/// A text that begins with another gives back the rest, and begins as that one
/// does.
proof fn lemma_front(t: Seq<char>, p: Seq<char>, v: Seq<char>)
    requires
        p.len() >= 3,
    ensures
        t == p + v ==> starts_with(t, p) && strip_prefix(t, p) == Some(v),
        starts_with(t, p) ==> t[0] == p[0] && t[1] == p[1],
        starts_with(t, p) && p.len() > 6 ==> t[6] == p[6],
        starts_with(t, p) && p.len() > 18 ==> t[18] == p[18],
{
    law_parts_are_found(Seq::empty(), p, v);
    if starts_with(t, p) {
        let f = t.subrange(0, p.len() as int);
        assert(f == p);
        assert(f[0] == t[0] && f[1] == t[1]);
        if p.len() > 6 {
            assert(f[6] == t[6]);
        }
        if p.len() > 18 {
            assert(f[18] == t[18]);
        }
    }
}

/// A planned node is being built under its name, role and number; one that joins is
/// ready at its address.
pub proof fn law_nodes_in_the_log(role: Seq<char>, rest: Seq<char>, n: Seq<char>, v: Seq<char>, id: int)
    ensures
        kv(rest, "VMID"@) == Some(v) && kv(rest, "name"@) == Some(n) && parse_int(v) == Some(id)
            ==> planned(role, rest) == (ProgressV::Node {
            name: n,
            role,
            vmid: Some(id),
            ip: None,
            status: "provisioning"@,
        }),
        kv(rest, "name"@) is None ==> planned(role, rest) is Nothing,
        joining(role, rest) matches ProgressV::Node { status, role: r, .. } ==> status == "ready"@
            && r == role,
        split_once(rest, " @ "@) == Some((n, v)) && trim(first_word(v)).len() > 0 ==> joining(
            role,
            rest,
        ) == (ProgressV::Node {
            name: trim(n),
            role,
            vmid: None,
            ip: Some(trim(first_word(v))),
            status: "ready"@,
        }),
        role_of(n) == "controlplane"@ <==> contains(n, "-cp-"@),
        role_of(n) == "worker"@ <==> !contains(n, "-cp-"@),
{
    reveal_strlit("controlplane");
    reveal_strlit("worker");
    assert("controlplane"@.len() == 12);
    assert("worker"@.len() == 6);
}

} // verus!
