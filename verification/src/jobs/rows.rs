//! What the planners read of a cluster and of its provider, and what they hand
//! to the scripts that build machines.
use crate::text::{lit, put, texts};
use vstd::prelude::*;
use vstd::string::*;

verus! {

/// A stored cluster.
#[derive(Debug, PartialEq, Eq)]
pub struct ClusterRow {
    pub id: String,
    pub name: String,
    pub provider_id: String,
    pub controlplanes: i64,
    pub workers: i64,
    pub vip: Option<String>,
    pub vip6: Option<String>,
    pub cni: String,
    pub k8s_version: String,
    pub cp_memory: i64,
    pub cp_cores: i64,
    pub cp_disk_gb: i64,
    pub worker_memory: i64,
    pub worker_cores: i64,
    pub worker_disk_gb: i64,
    pub cp_vmid: Option<i64>,
    pub network_mode: String,
    pub max_pods: i64,
    pub arch: String,
    pub pod_subnet: String,
    pub service_subnet: String,
    pub pod_subnet_ipv6: Option<String>,
    pub service_subnet_ipv6: Option<String>,
}

/// A stored hypervisor provider.
#[derive(Debug, PartialEq, Eq)]
pub struct ProviderRow {
    pub id: String,
    pub kind: String,
    pub url: String,
    pub token_id: String,
    pub token_secret_enc: String,
    pub node: String,
    pub storage: String,
    pub bridge: String,
    pub insecure: i64,
}

/// One change to the environment of a script.
#[derive(Debug, PartialEq, Eq)]
pub enum EnvOp {
    Assign(String, String),
    Remove(String),
}

/// The mathematical form of a change: the variable, and its new value if it
/// has one.
pub type EnvV = (Seq<char>, Option<Seq<char>>);

impl View for EnvOp {
    type V = EnvV;

    open spec fn view(&self) -> EnvV {
        match self {
            EnvOp::Assign(k, v) => (k@, Some(v@)),
            EnvOp::Remove(k) => (k@, None),
        }
    }
}

pub open spec fn envs(v: Seq<EnvOp>) -> Seq<EnvV> {
    Seq::new(v.len(), |i: int| v[i]@)
}

/// The value of a variable after a list of changes, if any of them names it:
/// the last one counts.
pub open spec fn env_after(v: Seq<EnvV>, key: Seq<char>) -> Option<Option<Seq<char>>>
    decreases v.len(),
{
    if v.len() == 0 {
        None
    } else if v.last().0 == key {
        Some(v.last().1)
    } else {
        env_after(v.drop_last(), key)
    }
}

/// Adds an argument.
pub fn arg(v: &mut Vec<String>, s: &str)
    ensures
        texts(final(v)@) == texts(old(v)@).push(s@),
{
    put(v, s);
}

/// Adds an option and its value.
pub fn arg2(v: &mut Vec<String>, k: &str, s: &str)
    ensures
        texts(final(v)@) == texts(old(v)@).push(k@).push(s@),
{
    arg(v, k);
    arg(v, s);
}

/// Sets a variable.
pub fn set_env(v: &mut Vec<EnvOp>, key: &str, val: &str)
    ensures
        envs(final(v)@) == envs(old(v)@).push((key@, Some(val@))),
{
    let ghost before = v@;
    v.push(EnvOp::Assign(lit(key), lit(val)));
    assert(envs(v@) =~= envs(before).push((key@, Some(val@))));
}

/// Removes a variable.
pub fn unset_env(v: &mut Vec<EnvOp>, key: &str)
    ensures
        envs(final(v)@) == envs(old(v)@).push((key@, None)),
{
    let ghost before = v@;
    v.push(EnvOp::Remove(lit(key)));
    assert(envs(v@) =~= envs(before).push((key@, None)));
}

/// The variables of a process, as far as they are of interest.
pub open spec fn host_env(v: Seq<(String, String)>, key: Seq<char>) -> Option<Seq<char>>
    decreases v.len(),
{
    if v.len() == 0 {
        None
    } else if v[0].0@ == key {
        Some(v[0].1@)
    } else {
        host_env(v.drop_first(), key)
    }
}

/// The value of a variable.
pub fn env_get(v: &Vec<(String, String)>, key: &str) -> (r: Option<String>)
    ensures
        crate::text::opt_text(r) == host_env(v@, key@),
{
    let mut i: usize = 0;
    assert(v@.skip(0) =~= v@);
    while i < v.len()
        invariant
            i <= v.len(),
            host_env(v@, key@) == host_env(v@.skip(i as int), key@),
        decreases v.len() - i,
    {
        assert(v@.skip(i as int).drop_first() =~= v@.skip(i + 1));
        assert(v@.skip(i as int)[0] == v@[i as int]);
        if crate::text::str_eq(&v[i].0, key) {
            return Some(lit(&v[i].1));
        }
        i += 1;
    }
    None
}

/// The value of a variable that is set and not empty.
pub open spec fn env_nonempty(v: Seq<(String, String)>, key: Seq<char>) -> Option<Seq<char>> {
    match host_env(v, key) {
        Some(s) => if s.len() > 0 {
            Some(s)
        } else {
            None
        },
        None => None,
    }
}

pub fn env_get_nonempty(v: &Vec<(String, String)>, key: &str) -> (r: Option<String>)
    ensures
        crate::text::opt_text(r) == env_nonempty(v@, key@),
{
    match env_get(v, key) {
        Some(s) => if s.is_empty() {
            None
        } else {
            Some(s)
        },
        None => None,
    }
}

/// The variable is set to `1` or `true`.
pub open spec fn env_flag(v: Seq<(String, String)>, key: Seq<char>) -> bool {
    match host_env(v, key) {
        Some(s) => s == "1"@ || crate::text::lower(s) == crate::text::lower("true"@),
        None => false,
    }
}

pub fn env_is_on(v: &Vec<(String, String)>, key: &str) -> (r: bool)
    ensures
        r == env_flag(v@, key@),
{
    match env_get(v, key) {
        Some(s) => crate::text::str_eq(&s, "1") || crate::text::str_eq(
            &crate::text::str_lower(&s),
            &crate::text::str_lower("true"),
        ),
        None => false,
    }
}

/// A switch is on exactly where it is one or true, in any case; a variable that is
/// empty counts as not set.
pub proof fn law_switches(v: Seq<(String, String)>, key: Seq<char>, s: Seq<char>)
    requires
        host_env(v, key) == Some(s),
    ensures
        env_flag(v, key) <==> s == "1"@ || crate::text::lower(s) == "true"@,
        s.len() > 0 ==> env_nonempty(v, key) == Some(s),
        s.len() == 0 ==> env_nonempty(v, key) is None,
{
    reveal_strlit("true");
    assert(crate::text::lower("true"@) =~= "true"@);
}

} // verus!
