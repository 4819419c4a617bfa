//! The environment of the scripts that build machines.
use crate::config::{public_url_host_unusable, unusable_host};
use crate::jobs::provider::{
    pve_host_from_url, rewrite_proxmox_ssh_for_provider, rewritten_ssh, url_host_part,
};
use crate::jobs::rows::{
    EnvOp, EnvV, ProviderRow, arg, env_flag, env_get_nonempty, env_is_on, env_nonempty, envs,
    set_env, unset_env,
};
use crate::text::{
    chars_of, is_digit, lit, lower, opt_text, str_eq, str_has_char, str_lower, str_trim,
    str_trim_end_char, texts, trim, trim_end_char,
};
use vstd::prelude::*;
use vstd::string::*;

verus! {

/// The variables of the service that are handed on to a script when set.
pub open spec fn passthrough_keys() -> Seq<Seq<char>> {
    Seq::empty().push("PROXMOX_DISK"@).push("PROXMOX_SSH"@).push("PROXMOX_NO_SSH"@).push(
        "PROXMOX_UPLOAD_STORAGE"@,
    ).push("PROXMOX_SSH_AUTO"@).push("LAB_SUBNET"@).push("LAB_GATEWAY"@).push(
        "NUTANIX_GATEWAY"@,
    ).push("PROXMOX_IMAGES_DIR"@).push("ARCH"@).push("PERTISK_ARCH"@).push(
        "PROXMOX_ARM64_TEMPLATE"@,
    ).push("BOOTSTRAP_TIMEOUT"@).push("PERTISK_VM_JOBS"@).push("PROXMOX_STATIC_BASE"@).push(
        "PROXMOX_STATIC_SUBNET"@,
    ).push("PROXMOX_STATIC_GATEWAY"@).push("PROXMOX_STATIC_NAMESERVER"@).push(
        "PROXMOX_STATIC_EXCLUDE"@,
    ).push("PROXMOX_STATIC_IPS"@).push("NUTANIX_STATIC_IPS"@).push("VSPHERE_STATIC_IPS"@)
}

/// The variables that [`lab_env`] reads and hands on.
pub fn lab_env_keys() -> (r: Vec<String>)
    ensures
        texts(r@) == passthrough_keys(),
{
    let mut v: Vec<String> = Vec::new();
    assert(texts(v@) =~= Seq::<Seq<char>>::empty());
    arg(&mut v, "PROXMOX_DISK");
    arg(&mut v, "PROXMOX_SSH");
    arg(&mut v, "PROXMOX_NO_SSH");
    arg(&mut v, "PROXMOX_UPLOAD_STORAGE");
    arg(&mut v, "PROXMOX_SSH_AUTO");
    arg(&mut v, "LAB_SUBNET");
    arg(&mut v, "LAB_GATEWAY");
    arg(&mut v, "NUTANIX_GATEWAY");
    arg(&mut v, "PROXMOX_IMAGES_DIR");
    arg(&mut v, "ARCH");
    arg(&mut v, "PERTISK_ARCH");
    arg(&mut v, "PROXMOX_ARM64_TEMPLATE");
    arg(&mut v, "BOOTSTRAP_TIMEOUT");
    arg(&mut v, "PERTISK_VM_JOBS");
    arg(&mut v, "PROXMOX_STATIC_BASE");
    arg(&mut v, "PROXMOX_STATIC_SUBNET");
    arg(&mut v, "PROXMOX_STATIC_GATEWAY");
    arg(&mut v, "PROXMOX_STATIC_NAMESERVER");
    arg(&mut v, "PROXMOX_STATIC_EXCLUDE");
    arg(&mut v, "PROXMOX_STATIC_IPS");
    arg(&mut v, "NUTANIX_STATIC_IPS");
    arg(&mut v, "VSPHERE_STATIC_IPS");
    v
}

/// What the service knows when it starts a script.
#[derive(Debug, PartialEq, Eq)]
pub struct LabHost {
    pub images_dir: String,
    pub pertiskctl: String,
    pub public_url: String,
    /// The directory above the scripts.
    pub root: Option<String>,
    /// The service's own environment.
    pub env: Vec<(String, String)>,
}

/// `ops` and, for each of the first `n` keys that is set, its value.
pub open spec fn passed_on(
    ops: Seq<EnvV>,
    env: Seq<(String, String)>,
    keys: Seq<Seq<char>>,
    n: int,
) -> Seq<EnvV>
    decreases n,
{
    if n <= 0 {
        ops
    } else {
        let before = passed_on(ops, env, keys, n - 1);
        match env_nonempty(env, keys[n - 1]) {
            Some(v) => before.push((keys[n - 1], Some(v))),
            None => before,
        }
    }
}

/// Digits and dots, at least one dot.
pub open spec fn dotted_digits(s: Seq<char>) -> bool {
    s.contains('.') && forall|i: int| 0 <= i < s.len() ==> is_digit(#[trigger] s[i]) || s[i] == '.'
}

/// The host to reach by SSH where SSH is on automatically.
pub open spec fn auto_ssh_host(url: Seq<char>) -> Option<Seq<char>> {
    match url_host_part(url) {
        Some(h) => if dotted_digits(h) {
            Some(h)
        } else {
            None
        },
        None => None,
    }
}

/// Whether the script reaches the hypervisor by SSH.
pub open spec fn uses_ssh(env: Seq<(String, String)>, url: Seq<char>) -> bool {
    if env_flag(env, "PROXMOX_NO_SSH"@) {
        false
    } else if env_nonempty(env, "PROXMOX_SSH"@) is Some {
        true
    } else {
        env_flag(env, "PROXMOX_SSH_AUTO"@) && auto_ssh_host(url) is Some
    }
}

/// The changes that settle the SSH target.
pub open spec fn ssh_ops(ops: Seq<EnvV>, env: Seq<(String, String)>, url: Seq<char>) -> Seq<EnvV> {
    if env_flag(env, "PROXMOX_NO_SSH"@) {
        ops.push(("PROXMOX_SSH"@, None))
    } else {
        match env_nonempty(env, "PROXMOX_SSH"@) {
            Some(ssh) => match rewritten_ssh(ssh, url) {
                Some(t) => ops.push(("PROXMOX_SSH"@, Some(t))),
                None => ops,
            },
            None => if env_flag(env, "PROXMOX_SSH_AUTO"@) {
                match auto_ssh_host(url) {
                    Some(h) => ops.push(("PROXMOX_SSH"@, Some("root@"@ + h))),
                    None => ops,
                }
            } else {
                ops
            },
        }
    }
}

/// The note for the job log when the global SSH target was moved to this
/// provider.
pub open spec fn ssh_note(env: Seq<(String, String)>, url: Seq<char>) -> Option<Seq<char>> {
    if env_flag(env, "PROXMOX_NO_SSH"@) {
        None
    } else {
        match env_nonempty(env, "PROXMOX_SSH"@) {
            Some(ssh) => match rewritten_ssh(ssh, url) {
                Some(t) => Some("PROXMOX_SSH="@ + ssh + " → "@ + t + " (this provider)\n"@),
                None => None,
            },
            None => None,
        }
    }
}

/// The shared environment: where images and tools are, the public URL if a
/// guest can reach it, the operator's settings, and how to reach the hypervisor.
pub open spec fn lab_ops(h: LabHost, url: Seq<char>) -> Seq<EnvV> {
    let a = Seq::<EnvV>::empty().push(("PERTISK_IMAGES_DIR"@, Some(h.images_dir@))).push(
        ("PERTISKCTL"@, Some(h.pertiskctl@)),
    );
    let public = trim(h.public_url@);
    let b = if public.len() > 0 && !unusable_host(public) {
        a.push(("MGMT_PUBLIC_URL"@, Some(public)))
    } else {
        a
    };
    let c = match h.root {
        Some(r) => b.push(("PERTISK_ROOT"@, Some(r@))),
        None => b,
    };
    let d = passed_on(c, h.env@, passthrough_keys(), passthrough_keys().len() as int);
    let e = ssh_ops(d, h.env@, url);
    if !uses_ssh(h.env@, url) && env_nonempty(h.env@, "PROXMOX_UPLOAD_STORAGE"@) is None {
        e.push(("PROXMOX_UPLOAD_STORAGE"@, Some("local"@)))
    } else {
        e
    }
}

fn is_dotted_digits(s: &str) -> (r: bool)
    ensures
        r == dotted_digits(s@),
{
    let v = chars_of(s);
    let mut i: usize = 0;
    while i < v.len()
        invariant
            i <= v.len(),
            v@ == s@,
            forall|k: int| 0 <= k < i ==> is_digit(#[trigger] v@[k]) || v@[k] == '.',
        decreases v.len() - i,
    {
        let c: char = v[i];
        if !(crate::text::char_is_digit(c) || c == '.') {
            return false;
        }
        i += 1;
    }
    str_has_char(s, '.')
}

fn auto_host(url: &str) -> (r: Option<String>)
    ensures
        opt_text(r) == auto_ssh_host(url@),
{
    match pve_host_from_url(url) {
        Some(h) => if is_dotted_digits(&h) {
            Some(h)
        } else {
            None
        },
        None => None,
    }
}

fn pass_on(ops: &mut Vec<EnvOp>, env: &Vec<(String, String)>)
    ensures
        envs(final(ops)@) == passed_on(
            envs(old(ops)@),
            env@,
            passthrough_keys(),
            passthrough_keys().len() as int,
        ),
{
    let keys = lab_env_keys();
    let ghost start = envs(ops@);
    let ghost ks = passthrough_keys();
    let mut i: usize = 0;
    while i < keys.len()
        invariant
            i <= keys.len(),
            ks == passthrough_keys(),
            texts(keys@) == ks,
            envs(ops@) == passed_on(start, env@, ks, i as int),
        decreases keys.len() - i,
    {
        assert(ks[i as int] == keys@[i as int]@);
        match env_get_nonempty(env, &keys[i]) {
            Some(v) => {
                set_env(ops, &keys[i], &v);
            },
            None => {},
        }
        i += 1;
    }
    assert(ks.len() == keys.len());
}

/// The shared environment of a script, and a note for the job log when the
/// global SSH target was moved to this provider.
pub fn lab_env(h: &LabHost, provider_url: &str) -> (r: (Vec<EnvOp>, Option<String>))
    ensures
        envs(r.0@) == lab_ops(*h, provider_url@),
        opt_text(r.1) == ssh_note(h.env@, provider_url@),
{
    let mut ops: Vec<EnvOp> = Vec::new();
    assert(envs(ops@) =~= Seq::<EnvV>::empty());
    set_env(&mut ops, "PERTISK_IMAGES_DIR", &h.images_dir);
    set_env(&mut ops, "PERTISKCTL", &h.pertiskctl);
    let public = str_trim(&h.public_url);
    if !public.is_empty() && !public_url_host_unusable(&public) {
        set_env(&mut ops, "MGMT_PUBLIC_URL", &public);
    }
    match &h.root {
        Some(r) => {
            set_env(&mut ops, "PERTISK_ROOT", r);
        },
        None => {},
    }
    pass_on(&mut ops, &h.env);
    let mut note: Option<String> = None;
    let mut ssh_on = false;
    if env_is_on(&h.env, "PROXMOX_NO_SSH") {
        unset_env(&mut ops, "PROXMOX_SSH");
    } else {
        match env_get_nonempty(&h.env, "PROXMOX_SSH") {
            Some(ssh) => {
                match rewrite_proxmox_ssh_for_provider(&ssh, provider_url) {
                    Some(t) => {
                        set_env(&mut ops, "PROXMOX_SSH", &t);
                        note = Some(
                            lit("PROXMOX_SSH=").concat(&ssh).concat(" → ").concat(&t).concat(
                                " (this provider)\n",
                            ),
                        );
                    },
                    None => {},
                }
                ssh_on = true;
            },
            None => {
                if env_is_on(&h.env, "PROXMOX_SSH_AUTO") {
                    match auto_host(provider_url) {
                        Some(host) => {
                            let t = lit("root@").concat(&host);
                            set_env(&mut ops, "PROXMOX_SSH", &t);
                            ssh_on = true;
                        },
                        None => {},
                    }
                }
            },
        }
    }
    if !ssh_on && env_get_nonempty(&h.env, "PROXMOX_UPLOAD_STORAGE").is_none() {
        set_env(&mut ops, "PROXMOX_UPLOAD_STORAGE", "local");
    }
    (ops, note)
}

// ---------------------------------------------------------------------------
// Provider credentials and placement
// ---------------------------------------------------------------------------

/// The hypervisor families.
#[derive(Debug, Clone, Copy, PartialEq, Eq, Structural)]
pub enum Hypervisor {
    Proxmox,
    Vsphere,
    Nutanix,
}

/// The family of a provider kind as cluster creation reads it: exact names.
pub open spec fn create_family(kind: Seq<char>) -> Hypervisor {
    if kind == "vsphere"@ {
        Hypervisor::Vsphere
    } else if kind == "nutanix"@ {
        Hypervisor::Nutanix
    } else {
        Hypervisor::Proxmox
    }
}

/// The family of a provider kind, aliases counted in.
pub open spec fn family(kind: Seq<char>) -> Hypervisor {
    if kind == "nutanix"@ || kind == "ahv"@ || kind == "prism"@ {
        Hypervisor::Nutanix
    } else if kind == "vsphere"@ || kind == "esxi"@ {
        Hypervisor::Vsphere
    } else {
        Hypervisor::Proxmox
    }
}

pub fn create_hypervisor(kind: &str) -> (r: Hypervisor)
    ensures
        r == create_family(kind@),
{
    if str_eq(kind, "vsphere") {
        Hypervisor::Vsphere
    } else if str_eq(kind, "nutanix") {
        Hypervisor::Nutanix
    } else {
        Hypervisor::Proxmox
    }
}

pub fn hypervisor(kind: &str) -> (r: Hypervisor)
    ensures
        r == family(kind@),
{
    if str_eq(kind, "nutanix") || str_eq(kind, "ahv") || str_eq(kind, "prism") {
        Hypervisor::Nutanix
    } else if str_eq(kind, "vsphere") || str_eq(kind, "esxi") {
        Hypervisor::Vsphere
    } else {
        Hypervisor::Proxmox
    }
}

/// Keeps machine addresses apart between hosts on one LAN.
pub open spec fn mac_salt(p: ProviderRow) -> Seq<char> {
    trim_end_char(p.url@, '/') + "|"@ + p.node@
}

/// How a script reaches the provider and where it places machines.
pub open spec fn provider_ops(p: ProviderRow, secret: Seq<char>, f: Hypervisor) -> Seq<EnvV> {
    let none = Seq::<EnvV>::empty();
    match f {
        Hypervisor::Vsphere => {
            let v = none.push(("PROVIDER_KIND"@, Some("vsphere"@))).push(
                ("VSPHERE_URL"@, Some(p.url@)),
            ).push(("VSPHERE_USER"@, Some(p.token_id@))).push(
                ("VSPHERE_PASSWORD"@, Some(secret)),
            ).push(("VSPHERE_HOST"@, Some(p.node@))).push(
                ("VSPHERE_DATASTORE"@, Some(p.storage@)),
            ).push(("VSPHERE_NETWORK"@, Some(p.bridge@)));
            if p.insecure != 0 {
                v.push(("VSPHERE_INSECURE"@, Some("1"@)))
            } else {
                v
            }
        },
        Hypervisor::Nutanix => {
            let v = none.push(("PROVIDER_KIND"@, Some("nutanix"@))).push(
                ("NUTANIX_URL"@, Some(p.url@)),
            ).push(("NUTANIX_USER"@, Some(p.token_id@))).push(
                ("NUTANIX_PASSWORD"@, Some(secret)),
            ).push(("NUTANIX_CLUSTER"@, Some(p.node@))).push(
                ("NUTANIX_STORAGE"@, Some(p.storage@)),
            ).push(("NUTANIX_NETWORK"@, Some(p.bridge@))).push(
                ("NUTANIX_MAC_SALT"@, Some(mac_salt(p))),
            );
            if p.insecure != 0 {
                v.push(("NUTANIX_INSECURE"@, Some("1"@)))
            } else {
                v
            }
        },
        Hypervisor::Proxmox => {
            let v = none.push(("PROXMOX_URL"@, Some(p.url@))).push(
                ("PROXMOX_TOKEN_ID"@, Some(p.token_id@)),
            ).push(("PROXMOX_TOKEN_SECRET"@, Some(secret))).push(
                ("PROXMOX_NODE"@, Some(p.node@)),
            ).push(("PROXMOX_MAC_SALT"@, Some(mac_salt(p)))).push(
                ("PROXMOX_STORAGE"@, Some(p.storage@)),
            ).push(("PROXMOX_BRIDGE"@, Some(p.bridge@)));
            if p.insecure != 0 {
                v.push(("PROXMOX_INSECURE"@, Some("1"@)))
            } else {
                v
            }
        },
    }
}

/// How a script reaches the provider and where it places machines.
pub fn provider_env(p: &ProviderRow, secret: &str, f: Hypervisor) -> (r: Vec<EnvOp>)
    ensures
        envs(r@) == provider_ops(*p, secret@, f),
{
    let mut v: Vec<EnvOp> = Vec::new();
    assert(envs(v@) =~= Seq::<EnvV>::empty());
    let salt = str_trim_end_char(&p.url, '/').concat("|").concat(&p.node);
    match f {
        Hypervisor::Vsphere => {
            set_env(&mut v, "PROVIDER_KIND", "vsphere");
            set_env(&mut v, "VSPHERE_URL", &p.url);
            set_env(&mut v, "VSPHERE_USER", &p.token_id);
            set_env(&mut v, "VSPHERE_PASSWORD", secret);
            set_env(&mut v, "VSPHERE_HOST", &p.node);
            set_env(&mut v, "VSPHERE_DATASTORE", &p.storage);
            set_env(&mut v, "VSPHERE_NETWORK", &p.bridge);
            if p.insecure != 0 {
                set_env(&mut v, "VSPHERE_INSECURE", "1");
            }
        },
        Hypervisor::Nutanix => {
            set_env(&mut v, "PROVIDER_KIND", "nutanix");
            set_env(&mut v, "NUTANIX_URL", &p.url);
            set_env(&mut v, "NUTANIX_USER", &p.token_id);
            set_env(&mut v, "NUTANIX_PASSWORD", secret);
            set_env(&mut v, "NUTANIX_CLUSTER", &p.node);
            set_env(&mut v, "NUTANIX_STORAGE", &p.storage);
            set_env(&mut v, "NUTANIX_NETWORK", &p.bridge);
            set_env(&mut v, "NUTANIX_MAC_SALT", &salt);
            if p.insecure != 0 {
                set_env(&mut v, "NUTANIX_INSECURE", "1");
            }
        },
        Hypervisor::Proxmox => {
            set_env(&mut v, "PROXMOX_URL", &p.url);
            set_env(&mut v, "PROXMOX_TOKEN_ID", &p.token_id);
            set_env(&mut v, "PROXMOX_TOKEN_SECRET", secret);
            set_env(&mut v, "PROXMOX_NODE", &p.node);
            set_env(&mut v, "PROXMOX_MAC_SALT", &salt);
            set_env(&mut v, "PROXMOX_STORAGE", &p.storage);
            set_env(&mut v, "PROXMOX_BRIDGE", &p.bridge);
            if p.insecure != 0 {
                set_env(&mut v, "PROXMOX_INSECURE", "1");
            }
        },
    }
    v
}

/// The script that adds a machine for a provider kind.
pub open spec fn add_script(kind: Seq<char>) -> Seq<char> {
    match family(kind) {
        Hypervisor::Nutanix => "nutanix-add-node.sh"@,
        Hypervisor::Vsphere => "vsphere-add-node.sh"@,
        Hypervisor::Proxmox => "proxmox-add-node.sh"@,
    }
}

pub fn add_node_script_name(kind: &str) -> (r: String)
    ensures
        r@ == add_script(kind@),
{
    match hypervisor(kind) {
        Hypervisor::Nutanix => lit("nutanix-add-node.sh"),
        Hypervisor::Vsphere => lit("vsphere-add-node.sh"),
        Hypervisor::Proxmox => lit("proxmox-add-node.sh"),
    }
}

/// The guest architecture that a setting names: arm64 by either of its names,
/// amd64 otherwise.
pub open spec fn guest_arch(arch: Seq<char>) -> Seq<char> {
    if lower(arch) == "arm64"@ || lower(arch) == "aarch64"@ {
        "arm64"@
    } else {
        "amd64"@
    }
}

pub fn guest_arch_of(arch: &str) -> (r: String)
    ensures
        r@ == guest_arch(arch@),
{
    let a = str_lower(arch);
    if str_eq(&a, "arm64") || str_eq(&a, "aarch64") {
        lit("arm64")
    } else {
        lit("amd64")
    }
}

/// The guest architecture of a new cluster: the operator's override, else the
/// cluster's.
pub open spec fn create_arch(env: Seq<(String, String)>, arch: Seq<char>) -> Seq<char> {
    match env_nonempty(env, "PERTISK_ARCH"@) {
        Some(a) => guest_arch(a),
        None => guest_arch(arch),
    }
}

pub fn create_arch_of(env: &Vec<(String, String)>, arch: &str) -> (r: String)
    ensures
        r@ == create_arch(env@, arch@),
{
    match env_get_nonempty(env, "PERTISK_ARCH") {
        Some(a) => guest_arch_of(&a),
        None => guest_arch_of(arch),
    }
}

// ---------------------------------------------------------------------------
// aarch64 guests on Proxmox
// ---------------------------------------------------------------------------

/// The changes and the log notes for an aarch64 guest. Native hosts need none;
/// on other hosts a template is cloned through the API, or SSH is needed.
pub open spec fn arm64_ops(
    kind: Seq<char>,
    url: Seq<char>,
    native: bool,
    env: Seq<(String, String)>,
) -> (Seq<EnvV>, Seq<Seq<char>>) {
    let none = Seq::<EnvV>::empty();
    let quiet = Seq::<Seq<char>>::empty();
    if family(kind) != Hypervisor::Proxmox {
        (none, quiet)
    } else if native {
        (
            none,
            quiet.push(
                "note: aarch64 PVE — arm64 guests via API (default arch; no SSH/template)\n"@,
            ),
        )
    } else {
        match env_nonempty(env, "PROXMOX_ARM64_TEMPLATE"@) {
            Some(t) => (
                none.push(("PROXMOX_ARM64_TEMPLATE"@, Some(t))).push(
                    ("PROXMOX_NO_SSH"@, Some("1"@)),
                ).push(("PROXMOX_SSH"@, None)),
                quiet.push(
                    "note: arch=arm64 via API clone of PROXMOX_ARM64_TEMPLATE="@ + t
                        + " (no SSH required)\n"@,
                ),
            ),
            None => {
                let ops = none.push(("PROXMOX_NO_SSH"@, None));
                let log = quiet.push(arm64_needs());
                if env_nonempty(env, "PROXMOX_SSH"@) is Some {
                    (ops, log)
                } else {
                    match url_host_part(url) {
                        Some(h) => (
                            ops.push(("PROXMOX_SSH"@, Some("root@"@ + h))),
                            log.push(
                                "auto PROXMOX_SSH="@ + ("root@"@ + h)
                                    + " for cross-arch aarch64 guests\n"@,
                            ),
                        ),
                        None => (
                            ops,
                            log.push("warn: set PROXMOX_ARM64_TEMPLATE or PROXMOX_SSH=root@<pve>\n"@),
                        ),
                    }
                }
            },
        }
    }
}

pub open spec fn arm64_needs() -> Seq<char> {
    "note: arch=arm64 on amd64 PVE — needs pertisk-cloud-arm64*.qcow2 and either PROXMOX_ARM64_TEMPLATE=<vmid> (API) or PROXMOX_SSH=root@<pve>\n"@
}

/// The changes and the log notes for an aarch64 guest; `native` says that the
/// host itself is aarch64.
pub fn arm64_env(
    kind: &str,
    url: &str,
    native: bool,
    env: &Vec<(String, String)>,
) -> (r: (Vec<EnvOp>, Vec<String>))
    ensures
        (envs(r.0@), texts(r.1@)) == arm64_ops(kind@, url@, native, env@),
{
    let mut ops: Vec<EnvOp> = Vec::new();
    let mut log: Vec<String> = Vec::new();
    assert(envs(ops@) =~= Seq::<EnvV>::empty());
    assert(texts(log@) =~= Seq::<Seq<char>>::empty());
    match hypervisor(kind) {
        Hypervisor::Nutanix | Hypervisor::Vsphere => {
            return (ops, log);
        },
        Hypervisor::Proxmox => {},
    }
    if native {
        arg(
            &mut log,
            "note: aarch64 PVE — arm64 guests via API (default arch; no SSH/template)\n",
        );
        return (ops, log);
    }
    match env_get_nonempty(env, "PROXMOX_ARM64_TEMPLATE") {
        Some(t) => {
            set_env(&mut ops, "PROXMOX_ARM64_TEMPLATE", &t);
            set_env(&mut ops, "PROXMOX_NO_SSH", "1");
            unset_env(&mut ops, "PROXMOX_SSH");
            let note = lit("note: arch=arm64 via API clone of PROXMOX_ARM64_TEMPLATE=").concat(
                &t,
            ).concat(" (no SSH required)\n");
            arg(&mut log, &note);
        },
        None => {
            arg(
                &mut log,
                "note: arch=arm64 on amd64 PVE — needs pertisk-cloud-arm64*.qcow2 and either PROXMOX_ARM64_TEMPLATE=<vmid> (API) or PROXMOX_SSH=root@<pve>\n",
            );
            unset_env(&mut ops, "PROXMOX_NO_SSH");
            if env_get_nonempty(env, "PROXMOX_SSH").is_none() {
                match pve_host_from_url(url) {
                    Some(h) => {
                        let t = lit("root@").concat(&h);
                        set_env(&mut ops, "PROXMOX_SSH", &t);
                        let note = lit("auto PROXMOX_SSH=").concat(&t).concat(
                            " for cross-arch aarch64 guests\n",
                        );
                        arg(&mut log, &note);
                    },
                    None => {
                        arg(
                            &mut log,
                            "warn: set PROXMOX_ARM64_TEMPLATE or PROXMOX_SSH=root@<pve>\n",
                        );
                    },
                }
            }
        },
    }
    (ops, log)
}

} // verus!
