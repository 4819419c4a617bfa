//! Jobs that go from node to node: reboots, configurations, upgrades.
use crate::jobs::action::{Act, ActV, act, acts, fail, failed, idle, log, logged, no_acts};
use crate::jobs::node_upgrade::{ToolResult, given, log_output, machine_args, printed};
use crate::jobs::upgrade::{
    NodeTuple, etcd_recovery_target, first_cp1, is_zero_downtime, zero_downtime,
};
use crate::json::{Json, str_in, str_of, text_or};
use crate::k8s::kubectl::CommandOutput;
use crate::num::{dec, i64_str, sdec, u64_str, usize_str};
use crate::text::{cat, lit, no_texts, opt_text, put, texts, trim};
use vstd::prelude::*;
use vstd::string::*;

verus! {

/// What a round asks of each node.
#[derive(Debug, Clone, Copy, PartialEq, Eq, Structural)]
pub enum Round {
    Reboot,
    Apply,
}

/// The start of a node in a round: what to do, and whether the node has failed
/// without being asked. A node is asked where the last action is a call of the
/// tool.
pub open spec fn round_start(
    round: Round,
    name: Seq<char>,
    ip: Option<Seq<char>>,
    tool: bool,
    file: Seq<char>,
) -> (Seq<ActV>, bool) {
    let a = idle().push(
        logged(
            match round {
                Round::Reboot => "reboot "@ + name + "\n"@,
                Round::Apply => "apply config to "@ + name + "\n"@,
            },
        ),
    );
    match ip {
        None => (a.push(logged("skip (no IP)\n"@)), true),
        Some(ip) => if tool {
            (
                a.push(
                    ActV::Machine {
                        args: match round {
                            Round::Reboot => machine_args(ip, "reboot"@),
                            Round::Apply => machine_args(ip, "apply"@).push("-f"@).push(file),
                        },
                    },
                ),
                false,
            )
        } else {
            match round {
                Round::Reboot => (a.push(logged("pertiskctl missing\n"@)), true),
                Round::Apply => (
                    a.push(logged("pertiskctl missing; config update recorded\n"@)),
                    false,
                ),
            }
        },
    }
}

/// Starts with a node in a round; `file` is where its configuration is.
pub fn round_begin(round: Round, name: &str, ip: &Option<String>, tool: bool, file: &str) -> (r: (
    Vec<Act>,
    bool,
))
    ensures
        (acts(r.0@), r.1) == round_start(round, name@, opt_text(*ip), tool, file@),
{
    let mut v = no_acts();
    match round {
        Round::Reboot => log(&mut v, &lit("reboot ").concat(name).concat("\n")),
        Round::Apply => log(&mut v, &lit("apply config to ").concat(name).concat("\n")),
    }
    match ip {
        None => {
            log(&mut v, "skip (no IP)\n");
            (v, true)
        },
        Some(ip) => {
            if tool {
                let mut args = no_texts();
                put(&mut args, "-e");
                put(&mut args, &cat(ip, ":50000"));
                match round {
                    Round::Reboot => {
                        put(&mut args, "reboot");
                        assert(texts(args@) =~= machine_args(ip@, "reboot"@));
                    },
                    Round::Apply => {
                        put(&mut args, "apply");
                        put(&mut args, "-f");
                        put(&mut args, file);
                        assert(texts(args@) =~= machine_args(ip@, "apply"@).push("-f"@).push(file@));
                    },
                }
                act(&mut v, Act::Machine { args });
                (v, false)
            } else {
                match round {
                    Round::Reboot => {
                        log(&mut v, "pertiskctl missing\n");
                        (v, true)
                    },
                    Round::Apply => {
                        log(&mut v, "pertiskctl missing; config update recorded\n");
                        (v, false)
                    },
                }
            }
        },
    }
}

/// The word for what a round asks.
pub open spec fn round_word(round: Round) -> Seq<char> {
    match round {
        Round::Reboot => "reboot"@,
        Round::Apply => "apply"@,
    }
}

/// The end of a node in a round, and whether the node has failed; `exit` is how
/// the tool ended.
pub open spec fn round_end(round: Round, name: Seq<char>, got: ToolResult, exit: Seq<char>) -> (
    Seq<ActV>,
    bool,
) {
    match got {
        Ok(out) => if out.success {
            (printed(idle(), out), false)
        } else {
            (
                printed(idle(), out).push(
                    logged(
                        round_word(round) + " failed on "@ + name + " (exit "@ + exit + ")\n"@,
                    ),
                ),
                true,
            )
        },
        Err(e) => (
            idle().push(logged("pertiskctl error on "@ + name + ": "@ + e@ + "\n"@)),
            true,
        ),
    }
}

/// After a node was asked in a round.
pub fn round_answered(round: Round, name: &str, got: &ToolResult, exit: &str) -> (r: (
    Vec<Act>,
    bool,
))
    ensures
        (acts(r.0@), r.1) == round_end(round, name@, *got, exit@),
{
    let mut v = no_acts();
    match got {
        Ok(out) => {
            log_output(&mut v, out);
            if out.success {
                return (v, false);
            }
            let word = match round {
                Round::Reboot => lit("reboot"),
                Round::Apply => lit("apply"),
            };
            log(
                &mut v,
                &word.concat(" failed on ").concat(name).concat(" (exit ").concat(exit).concat(
                    ")\n",
                ),
            );
        },
        Err(e) => {
            log(
                &mut v,
                &lit("pertiskctl error on ").concat(name).concat(": ").concat(e).concat("\n"),
            );
        },
    }
    (v, true)
}

/// A node that has an address and a tool to ask it with is asked, and fails only
/// by its answer.
pub proof fn law_reachable_node_is_asked(
    round: Round,
    name: Seq<char>,
    ip: Seq<char>,
    file: Seq<char>,
    out: CommandOutput,
    exit: Seq<char>,
)
    ensures
        round_start(round, name, Some(ip), true, file).0.last() is Machine,
        !round_start(round, name, Some(ip), true, file).1,
        round_end(round, name, Ok(out), exit).1 == !out.success,
{
}

// ---------------------------------------------------------------------------
// Kubernetes
// ---------------------------------------------------------------------------

/// The version that an upgrade asks for.
pub fn upgrade_version(p: &Json) -> (r: String)
    ensures
        r@ == text_or(str_in(p@.get("version"@)), "latest"@),
{
    match str_of(p.get("version")) {
        Some(v) => v,
        None => lit("latest"),
    }
}

/// What the log says before an upgrade of Kubernetes.
pub fn upgrade_note(version: &str, controlplanes: i64) -> (r: String)
    ensures
        r@ == "rolling upgrade → "@ + version@
            + " (kubeadm-shaped: CP one-by-one, then workers)\n"@ + (if zero_downtime(
            controlplanes as int,
        ) {
            "zero-downtime mode: HA control planes (≥3) — drain → upgrade → wait Ready → uncordon\n"@
        } else {
            "NOTE: controlplanes="@ + sdec(controlplanes as int)
                + " (<3) — API may blip during CP upgrade; use M=3 + VIP for zero-downtime\n"@
        }),
{
    let head = lit("rolling upgrade → ").concat(version).concat(
        " (kubeadm-shaped: CP one-by-one, then workers)\n",
    );
    let tail = if is_zero_downtime(controlplanes) {
        lit(
            "zero-downtime mode: HA control planes (≥3) — drain → upgrade → wait Ready → uncordon\n",
        )
    } else {
        lit("NOTE: controlplanes=").concat(&i64_str(controlplanes)).concat(
            " (<3) — API may blip during CP upgrade; use M=3 + VIP for zero-downtime\n",
        )
    };
    head.concat(&tail)
}

/// What the log says before a control plane is upgraded; `at` counts from zero.
pub open spec fn cp_note(at: int, of: int, name: Seq<char>) -> Seq<char> {
    "==> CP "@ + dec((at + 1) as nat) + "/"@ + dec(of as nat) + " "@ + name + " ("@ + (if at == 0 {
        "primary — upgrade apply"@
    } else {
        "additional — upgrade node"@
    }) + ")\n"@
}

pub fn cp_step_note(at: usize, of: usize, name: &str) -> (r: String)
    requires
        at < of,
    ensures
        r@ == cp_note(at as int, of as int, name@),
{
    let what = if at == 0 {
        lit("primary — upgrade apply")
    } else {
        lit("additional — upgrade node")
    };
    lit("==> CP ").concat(&usize_str(at + 1)).concat("/").concat(&usize_str(of)).concat(
        " ",
    ).concat(name).concat(" (").concat(&what).concat(")\n")
}

/// What the log says before a worker is upgraded; `at` counts from zero.
pub open spec fn worker_note(at: int, of: int, name: Seq<char>) -> Seq<char> {
    "==> worker "@ + dec((at + 1) as nat) + "/"@ + dec(of as nat) + " "@ + name + "\n"@
}

pub fn worker_step_note(at: usize, of: usize, name: &str) -> (r: String)
    requires
        at < of,
    ensures
        r@ == worker_note(at as int, of as int, name@),
{
    lit("==> worker ").concat(&usize_str(at + 1)).concat("/").concat(&usize_str(of)).concat(
        " ",
    ).concat(name).concat("\n")
}

/// What the log says after an upgrade of Kubernetes.
pub const UPGRADED: &'static str = "upgrade complete — verify: kubectl get nodes\n";

// ---------------------------------------------------------------------------
// Operating system
// ---------------------------------------------------------------------------

/// What the log says before an upgrade of the operating system.
pub fn os_upgrade_note(version: &str, bundle: &str, trust_path: &str) -> (r: String)
    ensures
        r@ == "OS A/B upgrade → "@ + version@ + " (bundle "@ + bundle@ + ")\nwill install "@
            + trust_path@ + " on nodes if missing\n"@,
{
    lit("OS A/B upgrade → ").concat(version).concat(" (bundle ").concat(bundle).concat(
        ")\nwill install ",
    ).concat(trust_path).concat(" on nodes if missing\n")
}

/// The start of an upgrade of the operating system: it needs a kubeconfig, and
/// the log says how the control planes fare. The addresses of the nodes are read
/// again.
pub open spec fn os_start(controlplanes: int, kubeconfig: Option<String>) -> Seq<ActV> {
    if !given(kubeconfig) {
        idle().push(
            failed(
                "kubeconfig required to stage the OS bundle (privileged hostPath pod); Kubernetes is not changed"@,
            ),
        )
    } else {
        idle().push(
            logged(
                if controlplanes < 3 {
                    "NOTE: controlplanes="@ + sdec(controlplanes)
                        + " (<3) — API may blip while a CP reboots; STATE/etcd stay on disk\n"@
                } else {
                    "HA control planes (≥3): workers first, then CPs one-by-one; Kubernetes version unchanged\n"@
                },
            ),
        ).push(ActV::SyncNodes)
    }
}

/// Starts an upgrade of the operating system.
pub fn os_upgrade_begin(controlplanes: i64, kubeconfig: &Option<String>) -> (r: Vec<Act>)
    ensures
        acts(r@) == os_start(controlplanes as int, *kubeconfig),
{
    let mut v = no_acts();
    let there = match kubeconfig {
        Some(k) => !k.is_empty(),
        None => false,
    };
    if !there {
        fail(
            &mut v,
            "kubeconfig required to stage the OS bundle (privileged hostPath pod); Kubernetes is not changed",
        );
        return v;
    }
    if controlplanes < 3 {
        log(
            &mut v,
            &lit("NOTE: controlplanes=").concat(&i64_str(controlplanes)).concat(
                " (<3) — API may blip while a CP reboots; STATE/etcd stay on disk\n",
            ),
        );
    } else {
        log(
            &mut v,
            "HA control planes (≥3): workers first, then CPs one-by-one; Kubernetes version unchanged\n",
        );
    }
    act(&mut v, Act::SyncNodes);
    v
}

/// What the log says of the server that answered.
pub open spec fn server_note(server: Option<Seq<char>>) -> Option<Seq<char>> {
    match server {
        Some(s) => Some("using apiserver "@ + s + " for kubectl (kubeconfig VIP not required)\n"@),
        None => None,
    }
}

pub fn api_server_note(server: &Option<String>) -> (r: Option<String>)
    ensures
        opt_text(r) == server_note(opt_text(*server)),
{
    match server {
        Some(s) => Some(
            lit("using apiserver ").concat(s).concat(
                " for kubectl (kubeconfig VIP not required)\n",
            ),
        ),
        None => None,
    }
}

/// What the log says before the operating system of a node is upgraded; `at`
/// counts from zero.
pub open spec fn os_note(
    control_plane: bool,
    at: int,
    of: int,
    name: Seq<char>,
    version: Seq<char>,
) -> Seq<char> {
    (if control_plane {
        "==> CP "@
    } else {
        "==> worker "@
    }) + dec((at + 1) as nat) + "/"@ + dec(of as nat) + " "@ + name + " (os "@ + version + ")\n"@
}

pub fn os_step_note(control_plane: bool, at: usize, of: usize, name: &str, version: &str) -> (r:
    String)
    requires
        at < of,
    ensures
        r@ == os_note(control_plane, at as int, of as int, name@, version@),
{
    let head = if control_plane {
        lit("==> CP ")
    } else {
        lit("==> worker ")
    };
    head.concat(&usize_str(at + 1)).concat("/").concat(&usize_str(of)).concat(" ").concat(
        name,
    ).concat(" (os ").concat(version).concat(")\n")
}

/// What the log says after an upgrade of the operating system.
pub const OS_UPGRADED: &'static str =
    "OS upgrade complete — Kubernetes version unchanged; verify: kubectl get nodes\n";

// ---------------------------------------------------------------------------
// Recovering the store of a cluster
// ---------------------------------------------------------------------------

/// The arguments of `pertiskctl` that start the store anew from one node.
pub open spec fn recover_args(ip: Seq<char>) -> Seq<Seq<char>> {
    seq!["-e"@, ip + ":50000"@, "etcd"@, "recover"@, "--force-new-cluster"@, "--force"@]
}

/// The store is recovered on the first control plane, or that cannot be.
pub open spec fn recover_start(cps: Seq<NodeTuple>) -> Seq<ActV> {
    let k = first_cp1(cps, 0);
    if k >= cps.len() {
        idle().push(failed("no *-cp-1 node to recover etcd"@))
    } else if cps[k].3 is None || trim(cps[k].3->0@).len() == 0 {
        idle().push(failed("no IP for "@ + cps[k].1@))
    } else {
        idle().push(
            logged(
                "API down on VIP and CP IPs — etcd recover --force-new-cluster on "@ + cps[k].1@
                    + " ("@ + trim(cps[k].3->0@) + ")\n"@,
            ),
        ).push(ActV::Machine { args: recover_args(trim(cps[k].3->0@)) })
    }
}

/// Recovers the store on the first control plane, or says why that cannot be.
pub fn recover_etcd_on_cp1(cps: &Vec<NodeTuple>) -> (r: Vec<Act>)
    ensures
        acts(r@) == recover_start(cps@),
{
    let mut v = no_acts();
    match etcd_recovery_target(cps) {
        Ok((i, ip)) => {
            log(
                &mut v,
                &lit("API down on VIP and CP IPs — etcd recover --force-new-cluster on ").concat(
                    &cps[i].1,
                ).concat(" (").concat(&ip).concat(")\n"),
            );
            let mut args = no_texts();
            put(&mut args, "-e");
            put(&mut args, &cat(&ip, ":50000"));
            put(&mut args, "etcd");
            put(&mut args, "recover");
            put(&mut args, "--force-new-cluster");
            put(&mut args, "--force");
            assert(texts(args@) =~= recover_args(ip@));
            act(&mut v, Act::Machine { args });
        },
        Err(e) => {
            fail(&mut v, &e);
        },
    }
    v
}

/// What is done once the store was to be recovered: where that went well, the
/// servers are waited for again.
pub open spec fn recover_end(name: Seq<char>, got: ToolResult) -> Seq<ActV> {
    match got {
        Ok(out) => if out.success {
            printed(idle(), out).push(ActV::WaitApi)
        } else {
            printed(idle(), out).push(
                failed(
                    "etcd recover failed on "@ + name
                        + " (guest may be too old for the RPC). Run ./scripts/recover-not-ready-nodes.sh against this cluster kubeconfig, then retry OS upgrade."@,
                ),
            )
        },
        Err(e) => idle().push(failed(e@)),
    }
}

/// After the store was to be recovered.
pub fn etcd_recovered(name: &str, got: &ToolResult) -> (r: Vec<Act>)
    ensures
        acts(r@) == recover_end(name@, *got),
{
    let mut v = no_acts();
    match got {
        Ok(out) => {
            log_output(&mut v, out);
            if out.success {
                act(&mut v, Act::WaitApi);
            } else {
                fail(
                    &mut v,
                    &lit("etcd recover failed on ").concat(name).concat(
                        " (guest may be too old for the RPC). Run ./scripts/recover-not-ready-nodes.sh against this cluster kubeconfig, then retry OS upgrade.",
                    ),
                );
            }
        },
        Err(e) => {
            fail(&mut v, e);
        },
    }
    v
}

// ---------------------------------------------------------------------------
// Growing a disk
// ---------------------------------------------------------------------------

/// How often a guest is asked before its disk is grown.
pub const GROW_ROUNDS: u32 = 60;

/// A round of the wait for a guest.
#[derive(Debug, Clone, Copy, PartialEq, Eq, Structural)]
pub enum GrowWait {
    /// The guest is up.
    Up,
    /// It is asked again.
    Again,
    /// It is not asked again.
    Never,
}

/// What the `round`th answer of a guest means.
pub fn grow_wait(open: bool, round: u32) -> (r: GrowWait)
    ensures
        r == (if open {
            GrowWait::Up
        } else if round >= GROW_ROUNDS {
            GrowWait::Never
        } else {
            GrowWait::Again
        }),
{
    if open {
        GrowWait::Up
    } else if round >= GROW_ROUNDS {
        GrowWait::Never
    } else {
        GrowWait::Again
    }
}

/// What the log says of a guest that was waited for.
pub fn grow_wait_note(ip: &str, round: u32, up: bool) -> (r: String)
    ensures
        r@ == (if up {
            "guest API up ("@ + ip@ + ":50000) after ~"@ + dec(round as nat) + "s\n"@
        } else {
            "guest API "@ + ip@ + ":50000 not ready\n"@
        }),
{
    if up {
        lit("guest API up (").concat(ip).concat(":50000) after ~").concat(
            &u64_str(round as u64),
        ).concat("s\n")
    } else {
        lit("guest API ").concat(ip).concat(":50000 not ready\n")
    }
}

/// The answer of a tool that grows a disk: what the log says, and whether the
/// disk has grown. `exit` is how the tool ended.
pub open spec fn grow_end(got: ToolResult, exit: Seq<char>, offline: bool) -> (Seq<ActV>, bool) {
    match got {
        Ok(out) => (
            printed(idle(), out).push(
                logged(
                    if out.success {
                        if offline {
                            "offline EPHEMERAL grow ok\n"@
                        } else {
                            "guest EPHEMERAL grow-disk ok\n"@
                        }
                    } else if offline {
                        "offline grow failed (exit "@ + exit + ")\n"@
                    } else {
                        "grow-disk failed (exit "@ + exit
                            + ") — older image may lack GrowDisk RPC\n"@
                    },
                ),
            ),
            out.success,
        ),
        Err(e) => (
            idle().push(
                logged(
                    (if offline {
                        "offline grow spawn error: "@
                    } else {
                        "grow-disk spawn error: "@
                    }) + e@ + "\n"@,
                ),
            ),
            false,
        ),
    }
}

/// After a tool was to grow a disk.
pub fn grow_answered(got: &ToolResult, exit: &str, offline: bool) -> (r: (Vec<Act>, bool))
    ensures
        (acts(r.0@), r.1) == grow_end(*got, exit@, offline),
{
    let mut v = no_acts();
    match got {
        Ok(out) => {
            log_output(&mut v, out);
            let text = if out.success {
                if offline {
                    lit("offline EPHEMERAL grow ok\n")
                } else {
                    lit("guest EPHEMERAL grow-disk ok\n")
                }
            } else if offline {
                lit("offline grow failed (exit ").concat(exit).concat(")\n")
            } else {
                lit("grow-disk failed (exit ").concat(exit).concat(
                    ") — older image may lack GrowDisk RPC\n",
                )
            };
            log(&mut v, &text);
            (v, out.success)
        },
        Err(e) => {
            let head = if offline {
                lit("offline grow spawn error: ")
            } else {
                lit("grow-disk spawn error: ")
            };
            log(&mut v, &head.concat(e).concat("\n"));
            (v, false)
        },
    }
}

/// The start of a grow from outside the guest: it needs a way to the hypervisor
/// and the script, which is then called.
pub open spec fn offline_grow_start(ssh: Seq<char>, script: Option<Seq<char>>, vmid: int) -> Seq<
    ActV,
> {
    if ssh.len() == 0 {
        idle().push(
            logged(
                "PROXMOX_SSH unset — cannot offline-grow EPHEMERAL (set PROXMOX_SSH=root@pve)\n"@,
            ),
        )
    } else {
        match script {
            None => idle().push(logged("proxmox-grow-ephemeral.sh not found\n"@)),
            Some(path) => idle().push(
                logged(
                    "offline grow via "@ + path + " --vmid "@ + sdec(vmid) + " (SSH "@ + ssh
                        + ")\n"@,
                ),
            ).push(ActV::Script { args: seq!["--vmid"@, sdec(vmid)] }),
        }
    }
}

/// Starts to grow a disk from outside the guest.
pub fn offline_grow_begin(ssh: &str, script: &Option<String>, vmid: i64) -> (r: Vec<Act>)
    ensures
        acts(r@) == offline_grow_start(ssh@, opt_text(*script), vmid as int),
{
    let mut v = no_acts();
    if ssh.is_empty() {
        log(
            &mut v,
            "PROXMOX_SSH unset — cannot offline-grow EPHEMERAL (set PROXMOX_SSH=root@pve)\n",
        );
        return v;
    }
    match script {
        None => log(&mut v, "proxmox-grow-ephemeral.sh not found\n"),
        Some(path) => {
            log(
                &mut v,
                &lit("offline grow via ").concat(path).concat(" --vmid ").concat(
                    &i64_str(vmid),
                ).concat(" (SSH ").concat(ssh).concat(")\n"),
            );
            let mut args = no_texts();
            put(&mut args, "--vmid");
            put(&mut args, &i64_str(vmid));
            assert(texts(args@) =~= seq!["--vmid"@, sdec(vmid as int)]);
            act(&mut v, Act::Script { args });
        },
    }
    v
}

/// A node that can be reached is told to reboot, or to take its configuration, at
/// its address; one without an address or tool is left out with a note.
pub proof fn law_what_a_node_is_told(name: Seq<char>, ip: Seq<char>, file: Seq<char>)
    ensures
        ({
            let (r, failed_r) = round_start(Round::Reboot, name, Some(ip), true, file);
            let (a, failed_a) = round_start(Round::Apply, name, Some(ip), true, file);
            &&& r.last() == (ActV::Machine { args: seq!["-e"@, ip + ":50000"@, "reboot"@] })
            &&& a.last() == (ActV::Machine {
                args: seq!["-e"@, ip + ":50000"@, "apply"@, "-f"@, file],
            })
            &&& !failed_r && !failed_a
            &&& round_start(Round::Reboot, name, None, true, file).1 && round_start(
                Round::Apply,
                name,
                None,
                true,
                file,
            ).1
            &&& round_start(Round::Reboot, name, Some(ip), false, file).1
            &&& !round_start(Round::Apply, name, Some(ip), false, file).1
        }),
{
    assert(machine_args(ip, "apply"@).push("-f"@).push(file) =~= seq![
        "-e"@,
        ip + ":50000"@,
        "apply"@,
        "-f"@,
        file,
    ]);
}

/// A round counts a node as failed exactly where the tool could not be run or did
/// not go well.
pub proof fn law_failures_of_a_round(
    round: Round,
    name: Seq<char>,
    got: ToolResult,
    exit: Seq<char>,
)
    ensures
        round_end(round, name, got, exit).1 <==> got is Err || !got->Ok_0.success,
{
}

/// An upgrade of the system needs a kubeconfig; with one, it begins with a look at
/// the nodes.
pub proof fn law_start_of_a_system_upgrade(controlplanes: int, kc: Option<String>)
    ensures
        os_start(controlplanes, kc).last() is Fail <==> kc is None || kc->0@.len() == 0,
        os_start(controlplanes, kc).last() is SyncNodes <==> kc is Some && kc->0@.len() > 0,
{
}

/// The store of a cluster is recovered on the first control plane, at its address,
/// by force and as a new cluster; the service waits for the API exactly where that
/// went well.
pub proof fn law_recovery_of_the_store(ip: Seq<char>, name: Seq<char>, got: ToolResult)
    ensures
        recover_args(ip) == seq![
            "-e"@,
            ip + ":50000"@,
            "etcd"@,
            "recover"@,
            "--force-new-cluster"@,
            "--force"@,
        ],
        recover_end(name, got).last() is WaitApi <==> got is Ok && got->Ok_0.success,
        recover_end(name, got).last() is Fail <==> got is Err || !got->Ok_0.success,
{
}

/// The file system counts as grown exactly where the tool went well; it is grown
/// while the machine is off only where the host can be reached.
pub proof fn law_growing_a_file_system(
    got: ToolResult,
    exit: Seq<char>,
    offline: bool,
    ssh: Seq<char>,
    path: Seq<char>,
    vmid: int,
)
    ensures
        grow_end(got, exit, offline).1 <==> got is Ok && got->Ok_0.success,
        ssh.len() > 0 ==> offline_grow_start(ssh, Some(path), vmid).last() == (ActV::Script {
            args: seq!["--vmid"@, sdec(vmid)],
        }),
        ssh.len() == 0 ==> offline_grow_start(ssh, Some(path), vmid).last() is Log,
        offline_grow_start(ssh, None, vmid).last() is Log,
{
}

} // verus!
