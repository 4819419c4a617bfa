//! What a script finds in its environment.
use crate::config::unusable_host;
use crate::jobs::create::{StaticInput, guest_gateway, static_ops, used_ips};
use crate::jobs::creation::create_env;
use crate::jobs::join::add_env;
use crate::jobs::lab::{
    Hypervisor, LabHost, add_script, arm64_ops, create_arch, create_family, guest_arch, lab_ops,
    passed_on, passthrough_keys, provider_ops,
};
use crate::jobs::nodes::api_wait;
use crate::jobs::provider::{rewritten_ssh, url_host_part};
use crate::jobs::rows::{EnvV, ProviderRow, env_after, env_flag, env_nonempty, host_env};
use crate::num::sdec;
use crate::text::{join, lower, trim, trim_end_char};
use vstd::prelude::*;

verus! {

proof fn lemma_set_push(ops: Seq<EnvV>, k: Seq<char>, v: Option<Seq<char>>, key: Seq<char>)
    ensures
        env_after(ops.push((k, v)), key) == (if k == key {
            Some(v)
        } else {
            env_after(ops, key)
        }),
{
    assert(ops.push((k, v)).drop_last() =~= ops);
}

/// A script on Proxmox is told the address, the token, the node, the storage and
/// the bridge of the provider, each under its name; certificates go unchecked
/// exactly where the provider says so.
#[verifier::rlimit(40)]
pub proof fn law_proxmox_script_is_told(p: ProviderRow, secret: Seq<char>)
    ensures
        ({
            let v = provider_ops(p, secret, Hypervisor::Proxmox);
            &&& env_after(v, "PROXMOX_URL"@) == Some(Some(p.url@))
            &&& env_after(v, "PROXMOX_TOKEN_ID"@) == Some(Some(p.token_id@))
            &&& env_after(v, "PROXMOX_TOKEN_SECRET"@) == Some(Some(secret))
            &&& env_after(v, "PROXMOX_NODE"@) == Some(Some(p.node@))
            &&& env_after(v, "PROXMOX_STORAGE"@) == Some(Some(p.storage@))
            &&& env_after(v, "PROXMOX_BRIDGE"@) == Some(Some(p.bridge@))
            &&& env_after(v, "PROXMOX_MAC_SALT"@) == Some(Some(trim_end_char(p.url@, '/') + "|"@ + p.node@))
            &&& env_after(v, "PROXMOX_INSECURE"@) == (if p.insecure != 0 {
                Some(Some("1"@))
            } else {
                None
            })
        }),
{
    let v = provider_ops(p, secret, Hypervisor::Proxmox);
    reveal_strlit("PROXMOX_URL");
    reveal_strlit("PROXMOX_TOKEN_ID");
    reveal_strlit("PROXMOX_TOKEN_SECRET");
    reveal_strlit("PROXMOX_NODE");
    reveal_strlit("PROXMOX_STORAGE");
    reveal_strlit("PROXMOX_BRIDGE");
    reveal_strlit("PROXMOX_MAC_SALT");
    reveal_strlit("PROXMOX_INSECURE");
    assert("PROXMOX_URL"@.len() == 11);
    assert("PROXMOX_TOKEN_ID"@.len() == 16);
    assert("PROXMOX_TOKEN_SECRET"@.len() == 20);
    assert("PROXMOX_NODE"@.len() == 12);
    assert("PROXMOX_STORAGE"@.len() == 15);
    assert("PROXMOX_BRIDGE"@.len() == 14);
    assert("PROXMOX_MAC_SALT"@.len() == 16);
    assert("PROXMOX_INSECURE"@.len() == 16);
    assert("PROXMOX_TOKEN_ID"@[8] == 'T' && "PROXMOX_MAC_SALT"@[8] == 'M');
    assert("PROXMOX_TOKEN_ID"@[8] == 'T' && "PROXMOX_INSECURE"@[8] == 'I');
    assert("PROXMOX_MAC_SALT"@[8] == 'M' && "PROXMOX_INSECURE"@[8] == 'I');
    assert forall|ops: Seq<EnvV>, k: Seq<char>, x: Option<Seq<char>>, key: Seq<char>| #[trigger]
        env_after(ops.push((k, x)), key) == (if k == key {
            Some(x)
        } else {
            env_after(ops, key)
        }) by {
        lemma_set_push(ops, k, x, key);
    }
}

/// A script on ESXi is told the same of its provider.
#[verifier::rlimit(40)]
pub proof fn law_vsphere_script_is_told(p: ProviderRow, secret: Seq<char>)
    ensures
        ({
            let v = provider_ops(p, secret, Hypervisor::Vsphere);
            &&& env_after(v, "PROVIDER_KIND"@) == Some(Some("vsphere"@))
            &&& env_after(v, "VSPHERE_URL"@) == Some(Some(p.url@))
            &&& env_after(v, "VSPHERE_USER"@) == Some(Some(p.token_id@))
            &&& env_after(v, "VSPHERE_PASSWORD"@) == Some(Some(secret))
            &&& env_after(v, "VSPHERE_HOST"@) == Some(Some(p.node@))
            &&& env_after(v, "VSPHERE_DATASTORE"@) == Some(Some(p.storage@))
            &&& env_after(v, "VSPHERE_NETWORK"@) == Some(Some(p.bridge@))
            &&& env_after(v, "VSPHERE_INSECURE"@) == (if p.insecure != 0 {
                Some(Some("1"@))
            } else {
                None
            })
        }),
{
    let v = provider_ops(p, secret, Hypervisor::Vsphere);
    reveal_strlit("PROVIDER_KIND");
    reveal_strlit("VSPHERE_URL");
    reveal_strlit("VSPHERE_USER");
    reveal_strlit("VSPHERE_PASSWORD");
    reveal_strlit("VSPHERE_HOST");
    reveal_strlit("VSPHERE_DATASTORE");
    reveal_strlit("VSPHERE_NETWORK");
    reveal_strlit("VSPHERE_INSECURE");
    assert("PROVIDER_KIND"@.len() == 13);
    assert("VSPHERE_URL"@.len() == 11);
    assert("VSPHERE_USER"@.len() == 12);
    assert("VSPHERE_PASSWORD"@.len() == 16);
    assert("VSPHERE_HOST"@.len() == 12);
    assert("VSPHERE_DATASTORE"@.len() == 17);
    assert("VSPHERE_NETWORK"@.len() == 15);
    assert("VSPHERE_INSECURE"@.len() == 16);
    assert("VSPHERE_USER"@[8] == 'U' && "VSPHERE_HOST"@[8] == 'H');
    assert("VSPHERE_PASSWORD"@[8] == 'P' && "VSPHERE_INSECURE"@[8] == 'I');
    assert forall|ops: Seq<EnvV>, k: Seq<char>, x: Option<Seq<char>>, key: Seq<char>| #[trigger]
        env_after(ops.push((k, x)), key) == (if k == key {
            Some(x)
        } else {
            env_after(ops, key)
        }) by {
        lemma_set_push(ops, k, x, key);
    }
}

/// A script on Nutanix is told the same of its provider.
#[verifier::rlimit(40)]
pub proof fn law_nutanix_script_is_told(p: ProviderRow, secret: Seq<char>)
    ensures
        ({
            let v = provider_ops(p, secret, Hypervisor::Nutanix);
            &&& env_after(v, "PROVIDER_KIND"@) == Some(Some("nutanix"@))
            &&& env_after(v, "NUTANIX_URL"@) == Some(Some(p.url@))
            &&& env_after(v, "NUTANIX_USER"@) == Some(Some(p.token_id@))
            &&& env_after(v, "NUTANIX_PASSWORD"@) == Some(Some(secret))
            &&& env_after(v, "NUTANIX_CLUSTER"@) == Some(Some(p.node@))
            &&& env_after(v, "NUTANIX_STORAGE"@) == Some(Some(p.storage@))
            &&& env_after(v, "NUTANIX_NETWORK"@) == Some(Some(p.bridge@))
            &&& env_after(v, "NUTANIX_MAC_SALT"@) == Some(Some(trim_end_char(p.url@, '/') + "|"@ + p.node@))
            &&& env_after(v, "NUTANIX_INSECURE"@) == (if p.insecure != 0 {
                Some(Some("1"@))
            } else {
                None
            })
        }),
{
    let v = provider_ops(p, secret, Hypervisor::Nutanix);
    reveal_strlit("PROVIDER_KIND");
    reveal_strlit("NUTANIX_URL");
    reveal_strlit("NUTANIX_USER");
    reveal_strlit("NUTANIX_PASSWORD");
    reveal_strlit("NUTANIX_CLUSTER");
    reveal_strlit("NUTANIX_STORAGE");
    reveal_strlit("NUTANIX_NETWORK");
    reveal_strlit("NUTANIX_MAC_SALT");
    reveal_strlit("NUTANIX_INSECURE");
    assert("PROVIDER_KIND"@.len() == 13);
    assert("NUTANIX_URL"@.len() == 11);
    assert("NUTANIX_USER"@.len() == 12);
    assert("NUTANIX_PASSWORD"@.len() == 16);
    assert("NUTANIX_CLUSTER"@.len() == 15);
    assert("NUTANIX_STORAGE"@.len() == 15);
    assert("NUTANIX_NETWORK"@.len() == 15);
    assert("NUTANIX_MAC_SALT"@.len() == 16);
    assert("NUTANIX_INSECURE"@.len() == 16);
    assert("NUTANIX_PASSWORD"@[8] == 'P' && "NUTANIX_MAC_SALT"@[8] == 'M');
    assert("NUTANIX_PASSWORD"@[8] == 'P' && "NUTANIX_INSECURE"@[8] == 'I');
    assert("NUTANIX_MAC_SALT"@[8] == 'M' && "NUTANIX_INSECURE"@[8] == 'I');
    assert("NUTANIX_CLUSTER"@[8] == 'C' && "NUTANIX_STORAGE"@[8] == 'S');
    assert("NUTANIX_CLUSTER"@[8] == 'C' && "NUTANIX_NETWORK"@[8] == 'N');
    assert("NUTANIX_STORAGE"@[8] == 'S' && "NUTANIX_NETWORK"@[8] == 'N');
    assert forall|ops: Seq<EnvV>, k: Seq<char>, x: Option<Seq<char>>, key: Seq<char>| #[trigger]
        env_after(ops.push((k, x)), key) == (if k == key {
            Some(x)
        } else {
            env_after(ops, key)
        }) by {
        lemma_set_push(ops, k, x, key);
    }
}

/// Each kind of provider has its own script for new nodes.
pub proof fn law_script_of_a_provider(kind: Seq<char>)
    ensures
        (kind == "nutanix"@ || kind == "ahv"@ || kind == "prism"@) <==> add_script(kind)
            == "nutanix-add-node.sh"@,
        (kind == "vsphere"@ || kind == "esxi"@) <==> add_script(kind) == "vsphere-add-node.sh"@,
        add_script(kind) == "nutanix-add-node.sh"@ || add_script(kind) == "vsphere-add-node.sh"@
            || add_script(kind) == "proxmox-add-node.sh"@,
        create_family(kind) is Vsphere <==> kind == "vsphere"@,
        create_family(kind) is Nutanix <==> kind == "nutanix"@,
{
    reveal_strlit("nutanix");
    reveal_strlit("ahv");
    reveal_strlit("prism");
    reveal_strlit("vsphere");
    reveal_strlit("esxi");
    reveal_strlit("nutanix-add-node.sh");
    reveal_strlit("vsphere-add-node.sh");
    reveal_strlit("proxmox-add-node.sh");
    assert("nutanix"@.len() == 7);
    assert("ahv"@.len() == 3);
    assert("prism"@.len() == 5);
    assert("vsphere"@.len() == 7);
    assert("esxi"@.len() == 4);
    assert("nutanix-add-node.sh"@.len() == 19);
    assert("vsphere-add-node.sh"@.len() == 19);
    assert("proxmox-add-node.sh"@.len() == 19);
    assert("nutanix"@[0] == 'n' && "vsphere"@[0] == 'v');
    assert("nutanix-add-node.sh"@[0] == 'n' && "vsphere-add-node.sh"@[0] == 'v');
    assert("nutanix-add-node.sh"@[0] == 'n' && "proxmox-add-node.sh"@[0] == 'p');
    assert("vsphere-add-node.sh"@[0] == 'v' && "proxmox-add-node.sh"@[0] == 'p');
}

/// A guest is of the arm family exactly where its architecture is written so; the
/// service's own environment comes before the cluster's.
pub proof fn law_architecture_of_a_guest(env: Seq<(String, String)>, arch: Seq<char>)
    ensures
        guest_arch(arch) == "arm64"@ <==> (lower(arch) == "arm64"@ || lower(arch) == "aarch64"@),
        guest_arch(arch) == "arm64"@ || guest_arch(arch) == "amd64"@,
        env_nonempty(env, "PERTISK_ARCH"@) is None ==> create_arch(env, arch) == guest_arch(arch),
        env_nonempty(env, "PERTISK_ARCH"@) is Some ==> create_arch(env, arch) == guest_arch(
            env_nonempty(env, "PERTISK_ARCH"@)->0,
        ),
{
    reveal_strlit("arm64");
    reveal_strlit("amd64");
    reveal_strlit("aarch64");
    assert("arm64"@.len() == 5);
    assert("amd64"@.len() == 5);
    assert("aarch64"@.len() == 7);
    assert("arm64"@[1] == 'r' && "amd64"@[1] == 'm');
}

/// Only on Proxmox, and only on a host of the other family, does an arm guest need
/// anything: a template, with which nothing goes over SSH, or else SSH to the host.
#[verifier::rlimit(40)]
pub proof fn law_arm_guest_needs(
    kind: Seq<char>,
    url: Seq<char>,
    native: bool,
    env: Seq<(String, String)>,
)
    ensures
        ({
            let (v, notes) = arm64_ops(kind, url, native, env);
            let other = kind == "nutanix"@ || kind == "ahv"@ || kind == "prism"@ || kind
                == "vsphere"@ || kind == "esxi"@;
            let template = env_nonempty(env, "PROXMOX_ARM64_TEMPLATE"@);
            &&& other || native ==> v.len() == 0
            &&& other ==> notes.len() == 0
            &&& !other && !native && template is Some ==> {
                &&& env_after(v, "PROXMOX_ARM64_TEMPLATE"@) == Some(template)
                &&& env_after(v, "PROXMOX_NO_SSH"@) == Some(Some("1"@))
                &&& env_after(v, "PROXMOX_SSH"@) == Some(None::<Seq<char>>)
            }
            &&& !other && !native && template is None ==> {
                &&& env_after(v, "PROXMOX_NO_SSH"@) == Some(None::<Seq<char>>)
                &&& env_nonempty(env, "PROXMOX_SSH"@) is Some ==> env_after(v, "PROXMOX_SSH"@) is None
                &&& env_nonempty(env, "PROXMOX_SSH"@) is None && url_host_part(url) is Some
                    ==> env_after(v, "PROXMOX_SSH"@) == Some(Some("root@"@ + url_host_part(url)->0))
            }
        }),
{
    reveal_strlit("nutanix");
    reveal_strlit("ahv");
    reveal_strlit("prism");
    reveal_strlit("vsphere");
    reveal_strlit("esxi");
    reveal_strlit("PROXMOX_ARM64_TEMPLATE");
    reveal_strlit("PROXMOX_NO_SSH");
    reveal_strlit("PROXMOX_SSH");
    assert("nutanix"@.len() == 7);
    assert("ahv"@.len() == 3);
    assert("prism"@.len() == 5);
    assert("vsphere"@.len() == 7);
    assert("esxi"@.len() == 4);
    assert("PROXMOX_ARM64_TEMPLATE"@.len() == 22);
    assert("PROXMOX_NO_SSH"@.len() == 14);
    assert("PROXMOX_SSH"@.len() == 11);
    assert("nutanix"@[0] == 'n' && "vsphere"@[0] == 'v');
    assert forall|ops: Seq<EnvV>, k: Seq<char>, x: Option<Seq<char>>, key: Seq<char>| #[trigger]
        env_after(ops.push((k, x)), key) == (if k == key {
            Some(x)
        } else {
            env_after(ops, key)
        }) by {
        lemma_set_push(ops, k, x, key);
    }
}

proof fn lemma_passed_on(
    ops: Seq<EnvV>,
    env: Seq<(String, String)>,
    keys: Seq<Seq<char>>,
    n: int,
    key: Seq<char>,
)
    requires
        0 <= n <= keys.len(),
    ensures
        env_after(passed_on(ops, env, keys, n), key) == (if keys.take(n).contains(key) && env_nonempty(
            env,
            key,
        ) is Some {
            Some(env_nonempty(env, key))
        } else {
            env_after(ops, key)
        }),
    decreases n,
{
    if n > 0 {
        lemma_passed_on(ops, env, keys, n - 1, key);
        let before = passed_on(ops, env, keys, n - 1);
        let a = keys.take(n - 1);
        let b = keys.take(n);
        assert(b =~= a.push(keys[n - 1]));
        if a.contains(key) {
            let i = choose|i: int| 0 <= i < a.len() && a[i] == key;
            assert(b[i] == key);
        }
        if keys[n - 1] == key {
            assert(b[n - 1] == key);
        }
        if b.contains(key) && keys[n - 1] != key {
            let i = choose|i: int| 0 <= i < b.len() && b[i] == key;
            assert(a[i] == key);
        }
        match env_nonempty(env, keys[n - 1]) {
            Some(v) => {
                lemma_set_push(before, keys[n - 1], Some(v), key);
            },
            None => {},
        }
    }
}

/// A variable of the service that scripts read is passed on as it is, unless it is
/// about SSH.
#[verifier::rlimit(60)]
pub proof fn law_service_environment_is_passed_on(h: LabHost, url: Seq<char>, key: Seq<char>)
    requires
        passthrough_keys().contains(key),
        key != "PROXMOX_SSH"@,
        env_nonempty(h.env@, key) is Some,
    ensures
        env_after(lab_ops(h, url), key) == Some(env_nonempty(h.env@, key)),
{
    let keys = passthrough_keys();
    assert(keys.take(keys.len() as int) =~= keys);
    let public = trim(h.public_url@);
    let a = Seq::<EnvV>::empty().push(("PERTISK_IMAGES_DIR"@, Some(h.images_dir@))).push(
        ("PERTISKCTL"@, Some(h.pertiskctl@)),
    );
    let b = if public.len() > 0 && !unusable_host(public) {
        a.push(("MGMT_PUBLIC_URL"@, Some(public)))
    } else {
        a
    };
    let c = match h.root {
        Some(r) => b.push(("PERTISK_ROOT"@, Some(r@))),
        None => b,
    };
    lemma_passed_on(c, h.env@, keys, keys.len() as int, key);
    assert forall|ops: Seq<EnvV>, k: Seq<char>, x: Option<Seq<char>>, q: Seq<char>| #[trigger]
        env_after(ops.push((k, x)), q) == (if k == q {
            Some(x)
        } else {
            env_after(ops, q)
        }) by {
        lemma_set_push(ops, k, x, q);
    }
}

/// Over SSH goes what the service says: nothing where it forbids SSH, the host of
/// this provider where it names another one, and, only where it allows that, the
/// host by itself. Where nothing goes over SSH, uploads go to the local storage
/// unless another is named.
#[verifier::rlimit(60)]
pub proof fn law_ssh_of_a_script(h: LabHost, url: Seq<char>)
    ensures
        ({
            let v = lab_ops(h, url);
            let env = h.env@;
            let ssh = env_nonempty(env, "PROXMOX_SSH"@);
            let forbidden = env_flag(env, "PROXMOX_NO_SSH"@);
            let storage = env_nonempty(env, "PROXMOX_UPLOAD_STORAGE"@);
            &&& forbidden ==> env_after(v, "PROXMOX_SSH"@) == Some(None::<Seq<char>>)
            &&& !forbidden && ssh is Some && rewritten_ssh(ssh->0, url) is Some ==> env_after(
                v,
                "PROXMOX_SSH"@,
            ) == Some(rewritten_ssh(ssh->0, url))
            &&& !forbidden && ssh is Some && rewritten_ssh(ssh->0, url) is None ==> env_after(
                v,
                "PROXMOX_SSH"@,
            ) == Some(ssh)
            &&& !forbidden && ssh is None && !env_flag(env, "PROXMOX_SSH_AUTO"@) ==> env_after(
                v,
                "PROXMOX_SSH"@,
            ) is None
            &&& forbidden && storage is None ==> env_after(v, "PROXMOX_UPLOAD_STORAGE"@) == Some(
                Some("local"@),
            )
            &&& storage is Some ==> env_after(v, "PROXMOX_UPLOAD_STORAGE"@) == Some(storage)
            &&& !forbidden && ssh is Some && storage is None ==> env_after(
                v,
                "PROXMOX_UPLOAD_STORAGE"@,
            ) is None
        }),
{
    let keys = passthrough_keys();
    assert(keys.take(keys.len() as int) =~= keys);
    assert(keys[1] == "PROXMOX_SSH"@ && keys[3] == "PROXMOX_UPLOAD_STORAGE"@);
    assert(keys.contains("PROXMOX_SSH"@) && keys.contains("PROXMOX_UPLOAD_STORAGE"@));
    reveal_strlit("PERTISK_IMAGES_DIR");
    reveal_strlit("PERTISKCTL");
    reveal_strlit("MGMT_PUBLIC_URL");
    reveal_strlit("PERTISK_ROOT");
    reveal_strlit("PROXMOX_SSH");
    reveal_strlit("PROXMOX_UPLOAD_STORAGE");
    assert("PERTISK_IMAGES_DIR"@.len() == 18);
    assert("PERTISKCTL"@.len() == 10);
    assert("MGMT_PUBLIC_URL"@.len() == 15);
    assert("PERTISK_ROOT"@.len() == 12);
    assert("PROXMOX_SSH"@.len() == 11);
    assert("PROXMOX_UPLOAD_STORAGE"@.len() == 22);
    let public = trim(h.public_url@);
    let a = Seq::<EnvV>::empty().push(("PERTISK_IMAGES_DIR"@, Some(h.images_dir@))).push(
        ("PERTISKCTL"@, Some(h.pertiskctl@)),
    );
    let b = if public.len() > 0 && !unusable_host(public) {
        a.push(("MGMT_PUBLIC_URL"@, Some(public)))
    } else {
        a
    };
    let c = match h.root {
        Some(r) => b.push(("PERTISK_ROOT"@, Some(r@))),
        None => b,
    };
    lemma_passed_on(c, h.env@, keys, keys.len() as int, "PROXMOX_SSH"@);
    lemma_passed_on(c, h.env@, keys, keys.len() as int, "PROXMOX_UPLOAD_STORAGE"@);
    assert forall|ops: Seq<EnvV>, k: Seq<char>, x: Option<Seq<char>>, q: Seq<char>| #[trigger]
        env_after(ops.push((k, x)), q) == (if k == q {
            Some(x)
        } else {
            env_after(ops, q)
        }) by {
        lemma_set_push(ops, k, x, q);
    }
}

/// The scripts find the images, the machine tool, the address of the service where
/// it is one that machines can reach, and the directory of the scripts.
#[verifier::rlimit(60)]
pub proof fn law_paths_of_a_script(h: LabHost, url: Seq<char>)
    ensures
        ({
            let v = lab_ops(h, url);
            let public = trim(h.public_url@);
            &&& env_after(v, "PERTISK_IMAGES_DIR"@) == Some(Some(h.images_dir@))
            &&& env_after(v, "PERTISKCTL"@) == Some(Some(h.pertiskctl@))
            &&& env_after(v, "MGMT_PUBLIC_URL"@) == (if public.len() > 0 && !unusable_host(public) {
                Some(Some(public))
            } else {
                None
            })
            &&& env_after(v, "PERTISK_ROOT"@) == (match h.root {
                Some(r) => Some(Some(r@)),
                None => None,
            })
        }),
{
    let keys = passthrough_keys();
    assert(keys.take(keys.len() as int) =~= keys);
    reveal_strlit("PERTISK_IMAGES_DIR");
    reveal_strlit("PERTISKCTL");
    reveal_strlit("MGMT_PUBLIC_URL");
    reveal_strlit("PERTISK_ROOT");
    reveal_strlit("PROXMOX_DISK");
    reveal_strlit("PROXMOX_SSH");
    reveal_strlit("PROXMOX_NO_SSH");
    reveal_strlit("PROXMOX_UPLOAD_STORAGE");
    reveal_strlit("PROXMOX_SSH_AUTO");
    reveal_strlit("LAB_SUBNET");
    reveal_strlit("LAB_GATEWAY");
    reveal_strlit("NUTANIX_GATEWAY");
    reveal_strlit("PROXMOX_IMAGES_DIR");
    reveal_strlit("ARCH");
    reveal_strlit("PERTISK_ARCH");
    reveal_strlit("PROXMOX_ARM64_TEMPLATE");
    reveal_strlit("BOOTSTRAP_TIMEOUT");
    reveal_strlit("PERTISK_VM_JOBS");
    reveal_strlit("PROXMOX_STATIC_BASE");
    reveal_strlit("PROXMOX_STATIC_SUBNET");
    reveal_strlit("PROXMOX_STATIC_GATEWAY");
    reveal_strlit("PROXMOX_STATIC_NAMESERVER");
    reveal_strlit("PROXMOX_STATIC_EXCLUDE");
    reveal_strlit("PROXMOX_STATIC_IPS");
    reveal_strlit("NUTANIX_STATIC_IPS");
    reveal_strlit("VSPHERE_STATIC_IPS");
    assert("PERTISK_IMAGES_DIR"@.len() == 18);
    assert("PERTISKCTL"@.len() == 10);
    assert("MGMT_PUBLIC_URL"@.len() == 15);
    assert("PERTISK_ROOT"@.len() == 12);
    assert("PROXMOX_DISK"@.len() == 12);
    assert("PROXMOX_SSH"@.len() == 11);
    assert("PROXMOX_NO_SSH"@.len() == 14);
    assert("PROXMOX_UPLOAD_STORAGE"@.len() == 22);
    assert("PROXMOX_SSH_AUTO"@.len() == 16);
    assert("LAB_SUBNET"@.len() == 10);
    assert("LAB_GATEWAY"@.len() == 11);
    assert("NUTANIX_GATEWAY"@.len() == 15);
    assert("PROXMOX_IMAGES_DIR"@.len() == 18);
    assert("ARCH"@.len() == 4);
    assert("PERTISK_ARCH"@.len() == 12);
    assert("PROXMOX_ARM64_TEMPLATE"@.len() == 22);
    assert("BOOTSTRAP_TIMEOUT"@.len() == 17);
    assert("PERTISK_VM_JOBS"@.len() == 15);
    assert("PROXMOX_STATIC_BASE"@.len() == 19);
    assert("PROXMOX_STATIC_SUBNET"@.len() == 21);
    assert("PROXMOX_STATIC_GATEWAY"@.len() == 22);
    assert("PROXMOX_STATIC_NAMESERVER"@.len() == 25);
    assert("PROXMOX_STATIC_EXCLUDE"@.len() == 22);
    assert("PROXMOX_STATIC_IPS"@.len() == 18);
    assert("NUTANIX_STATIC_IPS"@.len() == 18);
    assert("VSPHERE_STATIC_IPS"@.len() == 18);
    assert("PERTISK_IMAGES_DIR"@[1] == 'E' && "PROXMOX_IMAGES_DIR"@[1] == 'R');
    assert("PERTISK_IMAGES_DIR"@[1] == 'E' && "PROXMOX_STATIC_IPS"@[1] == 'R');
    assert("PERTISK_IMAGES_DIR"@[0] == 'P' && "NUTANIX_STATIC_IPS"@[0] == 'N');
    assert("PERTISK_IMAGES_DIR"@[0] == 'P' && "VSPHERE_STATIC_IPS"@[0] == 'V');
    assert("PROXMOX_IMAGES_DIR"@[8] == 'I' && "PROXMOX_STATIC_IPS"@[8] == 'S');
    assert("PROXMOX_IMAGES_DIR"@[0] == 'P' && "NUTANIX_STATIC_IPS"@[0] == 'N');
    assert("PROXMOX_IMAGES_DIR"@[0] == 'P' && "VSPHERE_STATIC_IPS"@[0] == 'V');
    assert("PROXMOX_STATIC_IPS"@[0] == 'P' && "NUTANIX_STATIC_IPS"@[0] == 'N');
    assert("PROXMOX_STATIC_IPS"@[0] == 'P' && "VSPHERE_STATIC_IPS"@[0] == 'V');
    assert("NUTANIX_STATIC_IPS"@[0] == 'N' && "VSPHERE_STATIC_IPS"@[0] == 'V');
    assert("PERTISKCTL"@[0] == 'P' && "LAB_SUBNET"@[0] == 'L');
    assert("MGMT_PUBLIC_URL"@[0] == 'M' && "NUTANIX_GATEWAY"@[0] == 'N');
    assert("MGMT_PUBLIC_URL"@[0] == 'M' && "PERTISK_VM_JOBS"@[0] == 'P');
    assert("NUTANIX_GATEWAY"@[0] == 'N' && "PERTISK_VM_JOBS"@[0] == 'P');
    assert("PERTISK_ROOT"@[1] == 'E' && "PROXMOX_DISK"@[1] == 'R');
    assert("PERTISK_ROOT"@[8] == 'R' && "PERTISK_ARCH"@[8] == 'A');
    assert("PROXMOX_DISK"@[1] == 'R' && "PERTISK_ARCH"@[1] == 'E');
    assert("PROXMOX_SSH"@[0] == 'P' && "LAB_GATEWAY"@[0] == 'L');
    assert("PROXMOX_UPLOAD_STORAGE"@[8] == 'U' && "PROXMOX_ARM64_TEMPLATE"@[8] == 'A');
    assert("PROXMOX_UPLOAD_STORAGE"@[8] == 'U' && "PROXMOX_STATIC_GATEWAY"@[8] == 'S');
    assert("PROXMOX_UPLOAD_STORAGE"@[8] == 'U' && "PROXMOX_STATIC_EXCLUDE"@[8] == 'S');
    assert("PROXMOX_ARM64_TEMPLATE"@[8] == 'A' && "PROXMOX_STATIC_GATEWAY"@[8] == 'S');
    assert("PROXMOX_ARM64_TEMPLATE"@[8] == 'A' && "PROXMOX_STATIC_EXCLUDE"@[8] == 'S');
    assert("PROXMOX_STATIC_GATEWAY"@[15] == 'G' && "PROXMOX_STATIC_EXCLUDE"@[15] == 'E');
    assert(keys[0] == "PROXMOX_DISK"@);
    assert(keys[1] == "PROXMOX_SSH"@);
    assert(keys[2] == "PROXMOX_NO_SSH"@);
    assert(keys[3] == "PROXMOX_UPLOAD_STORAGE"@);
    assert(keys[4] == "PROXMOX_SSH_AUTO"@);
    assert(keys[5] == "LAB_SUBNET"@);
    assert(keys[6] == "LAB_GATEWAY"@);
    assert(keys[7] == "NUTANIX_GATEWAY"@);
    assert(keys[8] == "PROXMOX_IMAGES_DIR"@);
    assert(keys[9] == "ARCH"@);
    assert(keys[10] == "PERTISK_ARCH"@);
    assert(keys[11] == "PROXMOX_ARM64_TEMPLATE"@);
    assert(keys[12] == "BOOTSTRAP_TIMEOUT"@);
    assert(keys[13] == "PERTISK_VM_JOBS"@);
    assert(keys[14] == "PROXMOX_STATIC_BASE"@);
    assert(keys[15] == "PROXMOX_STATIC_SUBNET"@);
    assert(keys[16] == "PROXMOX_STATIC_GATEWAY"@);
    assert(keys[17] == "PROXMOX_STATIC_NAMESERVER"@);
    assert(keys[18] == "PROXMOX_STATIC_EXCLUDE"@);
    assert(keys[19] == "PROXMOX_STATIC_IPS"@);
    assert(keys[20] == "NUTANIX_STATIC_IPS"@);
    assert(keys[21] == "VSPHERE_STATIC_IPS"@);
    let public = trim(h.public_url@);
    let a = Seq::<EnvV>::empty().push(("PERTISK_IMAGES_DIR"@, Some(h.images_dir@))).push(
        ("PERTISKCTL"@, Some(h.pertiskctl@)),
    );
    let b = if public.len() > 0 && !unusable_host(public) {
        a.push(("MGMT_PUBLIC_URL"@, Some(public)))
    } else {
        a
    };
    let c = match h.root {
        Some(r) => b.push(("PERTISK_ROOT"@, Some(r@))),
        None => b,
    };
    assert(!keys.contains("PERTISK_IMAGES_DIR"@));
    lemma_passed_on(c, h.env@, keys, keys.len() as int, "PERTISK_IMAGES_DIR"@);
    assert(!keys.contains("PERTISKCTL"@));
    lemma_passed_on(c, h.env@, keys, keys.len() as int, "PERTISKCTL"@);
    assert(!keys.contains("MGMT_PUBLIC_URL"@));
    lemma_passed_on(c, h.env@, keys, keys.len() as int, "MGMT_PUBLIC_URL"@);
    assert(!keys.contains("PERTISK_ROOT"@));
    lemma_passed_on(c, h.env@, keys, keys.len() as int, "PERTISK_ROOT"@);
    assert forall|ops: Seq<EnvV>, k: Seq<char>, x: Option<Seq<char>>, q: Seq<char>| #[trigger]
        env_after(ops.push((k, x)), q) == (if k == q {
            Some(x)
        } else {
            env_after(ops, q)
        }) by {
        lemma_set_push(ops, k, x, q);
    }
}

/// A script that adds a node is told its architecture under both names, the
/// addresses that it may not take, and the time that it may wait.
#[verifier::rlimit(40)]
pub proof fn law_add_environment(
    lab: Seq<EnvV>,
    excluded: Option<Seq<char>>,
    arch: Seq<char>,
    disk_gb: int,
)
    ensures
        ({
            let none = Seq::<EnvV>::empty();
            let v = add_env(lab, excluded, none, arch, none, disk_gb);
            &&& env_after(v, "ARCH"@) == Some(Some(arch))
            &&& env_after(v, "PERTISK_ARCH"@) == Some(Some(arch))
            &&& excluded is Some ==> env_after(v, "PROXMOX_STATIC_EXCLUDE"@) == Some(excluded)
            &&& excluded is None ==> env_after(v, "PROXMOX_STATIC_EXCLUDE"@) == env_after(
                lab,
                "PROXMOX_STATIC_EXCLUDE"@,
            )
            &&& env_after(v, "API_AFTER_IP_TIMEOUT"@) == Some(Some(sdec(api_wait(disk_gb))))
        }),
{
    reveal_strlit("ARCH");
    reveal_strlit("PERTISK_ARCH");
    reveal_strlit("PROXMOX_STATIC_EXCLUDE");
    reveal_strlit("API_AFTER_IP_TIMEOUT");
    assert("ARCH"@.len() == 4);
    assert("PERTISK_ARCH"@.len() == 12);
    assert("PROXMOX_STATIC_EXCLUDE"@.len() == 22);
    assert("API_AFTER_IP_TIMEOUT"@.len() == 20);
    let none = Seq::<EnvV>::empty();
    let a = match excluded {
        Some(x) => lab.push(("PROXMOX_STATIC_EXCLUDE"@, Some(x))),
        None => lab,
    };
    assert(a + none =~= a);
    let b = a.push(("PERTISK_ARCH"@, Some(arch))).push(("ARCH"@, Some(arch)));
    assert(b + none =~= b);
    assert forall|ops: Seq<EnvV>, k: Seq<char>, x: Option<Seq<char>>, q: Seq<char>| #[trigger]
        env_after(ops.push((k, x)), q) == (if k == q {
            Some(x)
        } else {
            env_after(ops, q)
        }) by {
        lemma_set_push(ops, k, x, q);
    }
}

/// Addresses that are free are handed to the script of the provider under its own
/// name, on Proxmox with a gateway; without any, the script is left to find some.
#[verifier::rlimit(40)]
pub proof fn law_free_addresses_are_handed_out(i: StaticInput, free: Seq<Seq<char>>)
    ensures
        ({
            let v = static_ops(i, free).0;
            let kind = i.kind@;
            let list = join(used_ips(free, i.need as int), " "@);
            let nutanix = kind == "nutanix"@ || kind == "ahv"@ || kind == "prism"@;
            let esxi = kind == "vsphere"@ || kind == "esxi"@;
            &&& nutanix && free.len() > 0 ==> env_after(v, "NUTANIX_STATIC_IPS"@) == Some(
                Some(list),
            )
            &&& esxi && free.len() > 0 ==> env_after(v, "VSPHERE_STATIC_IPS"@) == Some(Some(list))
            &&& !nutanix && !esxi && free.len() > 0 ==> env_after(v, "PROXMOX_STATIC_IPS"@)
                == Some(Some(list)) && env_after(v, "PROXMOX_STATIC_GATEWAY"@) == Some(
                Some(guest_gateway(i)),
            )
            &&& (nutanix || esxi) && free.len() == 0 ==> v.len() == 0
        }),
{
    reveal_strlit("nutanix");
    reveal_strlit("ahv");
    reveal_strlit("prism");
    reveal_strlit("vsphere");
    reveal_strlit("esxi");
    reveal_strlit("NUTANIX_STATIC_IPS");
    reveal_strlit("VSPHERE_STATIC_IPS");
    reveal_strlit("PROXMOX_STATIC_IPS");
    reveal_strlit("PROXMOX_STATIC_GATEWAY");
    assert("nutanix"@.len() == 7);
    assert("ahv"@.len() == 3);
    assert("prism"@.len() == 5);
    assert("vsphere"@.len() == 7);
    assert("esxi"@.len() == 4);
    assert("NUTANIX_STATIC_IPS"@.len() == 18);
    assert("VSPHERE_STATIC_IPS"@.len() == 18);
    assert("PROXMOX_STATIC_IPS"@.len() == 18);
    assert("PROXMOX_STATIC_GATEWAY"@.len() == 22);
    assert("nutanix"@[0] == 'n' && "vsphere"@[0] == 'v');
    assert("NUTANIX_STATIC_IPS"@[0] == 'N' && "VSPHERE_STATIC_IPS"@[0] == 'V');
    assert("NUTANIX_STATIC_IPS"@[0] == 'N' && "PROXMOX_STATIC_IPS"@[0] == 'P');
    assert("VSPHERE_STATIC_IPS"@[0] == 'V' && "PROXMOX_STATIC_IPS"@[0] == 'P');
    assert forall|ops: Seq<EnvV>, k: Seq<char>, x: Option<Seq<char>>, q: Seq<char>| #[trigger]
        env_after(ops.push((k, x)), q) == (if k == q {
            Some(x)
        } else {
            env_after(ops, q)
        }) by {
        lemma_set_push(ops, k, x, q);
    }
}

/// The gateway of guests is the one that the service names, else that of the
/// route, else the first address of the network.
pub proof fn law_gateway_of_guests(i: StaticInput, g: Seq<char>)
    ensures
        env_nonempty(i.env@, "PROXMOX_STATIC_GATEWAY"@) == Some(g) ==> guest_gateway(i) == g,
        host_env(i.env@, "PROXMOX_STATIC_GATEWAY"@) is None && env_nonempty(
            i.env@,
            "LAB_GATEWAY"@,
        ) == Some(g) ==> guest_gateway(i) == g,
        host_env(i.env@, "PROXMOX_STATIC_GATEWAY"@) is None && host_env(i.env@, "LAB_GATEWAY"@)
            is None && i.route_gateway is Some ==> guest_gateway(i) == i.route_gateway->0@,
{
}

/// The script that makes a cluster is told where to put it and its version.
#[verifier::rlimit(40)]
pub proof fn law_create_environment(
    out: Seq<char>,
    version: Seq<char>,
    excluded: Option<Seq<char>>,
    arch: Seq<char>,
)
    ensures
        ({
            let none = Seq::<EnvV>::empty();
            let v = create_env(out, version, none, none, none, excluded, arch, none);
            &&& env_after(v, "CLUSTER_OUT"@) == Some(Some(out))
            &&& env_after(v, "K8S_VER"@) == Some(Some(version))
            &&& env_after(v, "ARCH"@) == Some(Some(arch))
            &&& env_after(v, "PERTISK_ARCH"@) == Some(Some(arch))
            &&& excluded is Some ==> env_after(v, "PROXMOX_STATIC_EXCLUDE"@) == Some(excluded)
        }),
{
    reveal_strlit("CLUSTER_OUT");
    reveal_strlit("K8S_VER");
    reveal_strlit("ARCH");
    reveal_strlit("PERTISK_ARCH");
    reveal_strlit("PROXMOX_STATIC_EXCLUDE");
    assert("CLUSTER_OUT"@.len() == 11);
    assert("K8S_VER"@.len() == 7);
    assert("ARCH"@.len() == 4);
    assert("PERTISK_ARCH"@.len() == 12);
    assert("PROXMOX_STATIC_EXCLUDE"@.len() == 22);
    let none = Seq::<EnvV>::empty();
    let a = Seq::<EnvV>::empty().push(("CLUSTER_OUT"@, Some(out))).push(("K8S_VER"@, Some(version)));
    assert(a + none + none + none =~= a);
    let b = match excluded {
        Some(x) => a.push(("PROXMOX_STATIC_EXCLUDE"@, Some(x))),
        None => a,
    };
    let c = b.push(("PERTISK_ARCH"@, Some(arch))).push(("ARCH"@, Some(arch)));
    assert(c + none =~= c);
    assert forall|ops: Seq<EnvV>, k: Seq<char>, x: Option<Seq<char>>, q: Seq<char>| #[trigger]
        env_after(ops.push((k, x)), q) == (if k == q {
            Some(x)
        } else {
            env_after(ops, q)
        }) by {
        lemma_set_push(ops, k, x, q);
    }
}

} // verus!
