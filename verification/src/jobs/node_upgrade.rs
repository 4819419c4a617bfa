//! Upgrading one node, step by step: its operating system, or its Kubernetes.
//!
//! Each function takes the answer to the last action of the step before it and
//! says what to do next.
use crate::jobs::action::{Act, ActV, act, acts, fail, failed, idle, log, logged, no_acts};
use crate::jobs::agent::agent_needed;
use crate::jobs::upgrade::{GUEST_ROUNDS, os_node_address, os_upgrade_args, os_upgrade_arguments};
use crate::json::text_or;
use crate::k8s::kubectl::CommandOutput;
use crate::num::{dec, u64_str, usize_str};
use crate::text::{again, cat, lit, no_texts, opt_text, put, str_eq, str_trim, texts, trim};
use vstd::prelude::*;
use vstd::string::*;

verus! {

/// What a tool that ran to its end left behind, or why it could not be started.
pub type ToolResult = Result<CommandOutput, String>;

/// The arguments of `kubectl` that move workloads away from a node.
pub open spec fn drain_args(name: Seq<char>) -> Seq<Seq<char>> {
    seq![
        "drain"@,
        name,
        "--ignore-daemonsets"@,
        "--delete-emptydir-data"@,
        "--force"@,
        "--grace-period=30"@,
        "--timeout=5m"@,
    ]
}

fn drain_arguments(name: &str) -> (r: Vec<String>)
    ensures
        texts(r@) == drain_args(name@),
{
    let mut v = no_texts();
    put(&mut v, "drain");
    put(&mut v, name);
    put(&mut v, "--ignore-daemonsets");
    put(&mut v, "--delete-emptydir-data");
    put(&mut v, "--force");
    put(&mut v, "--grace-period=30");
    put(&mut v, "--timeout=5m");
    assert(texts(v@) =~= drain_args(name@));
    v
}

/// The arguments of `kubectl` that wait until a node is ready.
pub open spec fn ready_args(name: Seq<char>) -> Seq<Seq<char>> {
    seq!["wait"@, "--for=condition=Ready"@, "node/"@ + name, "--timeout=10m"@]
}

fn ready_arguments(name: &str) -> (r: Vec<String>)
    ensures
        texts(r@) == ready_args(name@),
{
    let mut v = no_texts();
    put(&mut v, "wait");
    put(&mut v, "--for=condition=Ready");
    put(&mut v, &cat("node/", name));
    put(&mut v, "--timeout=10m");
    assert(texts(v@) =~= ready_args(name@));
    v
}

/// Workloads move away from a node.
pub open spec fn drained(a: Seq<ActV>, server: Option<Seq<char>>, name: Seq<char>) -> Seq<ActV> {
    a.push(logged("drain "@ + name + "\n"@)).push(
        ActV::Kubectl { server, args: drain_args(name) },
    )
}

fn drain(v: &mut Vec<Act>, server: &Option<String>, name: &str)
    ensures
        acts(final(v)@) == drained(acts(old(v)@), opt_text(*server), name@),
{
    log(v, &lit("drain ").concat(name).concat("\n"));
    act(v, Act::Kubectl { server: again(server), args: drain_arguments(name) });
}

/// The node is waited for.
pub open spec fn awaited(a: Seq<ActV>, server: Option<Seq<char>>, name: Seq<char>) -> Seq<ActV> {
    a.push(logged("wait Ready "@ + name + "\n"@)).push(
        ActV::Kubectl { server, args: ready_args(name) },
    )
}

fn await_node(v: &mut Vec<Act>, server: &Option<String>, name: &str)
    ensures
        acts(final(v)@) == awaited(acts(old(v)@), opt_text(*server), name@),
{
    log(v, &lit("wait Ready ").concat(name).concat("\n"));
    act(v, Act::Kubectl { server: again(server), args: ready_arguments(name) });
}

/// Workloads may come back to a node.
pub open spec fn uncordoned(a: Seq<ActV>, server: Option<Seq<char>>, name: Seq<char>) -> Seq<ActV> {
    a.push(logged("uncordon "@ + name + "\n"@)).push(
        ActV::Kubectl { server, args: seq!["uncordon"@, name] },
    )
}

fn uncordon(v: &mut Vec<Act>, server: &Option<String>, name: &str)
    ensures
        acts(final(v)@) == uncordoned(acts(old(v)@), opt_text(*server), name@),
{
    log(v, &lit("uncordon ").concat(name).concat("\n"));
    let mut args = no_texts();
    put(&mut args, "uncordon");
    put(&mut args, name);
    assert(texts(args@) =~= seq!["uncordon"@, name@]);
    act(v, Act::Kubectl { server: again(server), args });
}

/// What a tool printed goes to the log.
pub open spec fn printed(a: Seq<ActV>, out: CommandOutput) -> Seq<ActV> {
    a.push(logged(out.stdout@)).push(logged(out.stderr@))
}

pub fn log_output(v: &mut Vec<Act>, out: &CommandOutput)
    ensures
        acts(final(v)@) == printed(acts(old(v)@), *out),
{
    log(v, &out.stdout);
    log(v, &out.stderr);
}

// ---------------------------------------------------------------------------
// Operating system
// ---------------------------------------------------------------------------

/// A job that upgrades the operating system of a node.
#[derive(Debug, PartialEq, Eq)]
pub struct OsNodeJob {
    pub name: String,
    pub ip: Option<String>,
    /// Where the machine tool is.
    pub tool: String,
    /// Where the bundle is on the node.
    pub host_bundle: String,
    pub version: String,
    pub reboot: bool,
    pub drain: bool,
}

/// The text is there and not empty.
pub open spec fn given(o: Option<String>) -> bool {
    o is Some && o->0@.len() > 0
}

/// The first step of the upgrade of an operating system.
pub open spec fn os_started(j: OsNodeJob, tool_there: bool) -> Seq<ActV> {
    let a = idle().push(ActV::NodeUpgrading);
    if !given(j.ip) {
        a.push(failed("no IP for "@ + j.name@ + "; cannot reach Machine API"@))
    } else if !tool_there {
        a.push(failed("pertiskctl not found at "@ + j.tool@))
    } else {
        a.push(ActV::WaitApi)
    }
}

/// Starts to upgrade the operating system of a node.
pub fn os_begin(j: &OsNodeJob, tool_there: bool) -> (r: Vec<Act>)
    ensures
        acts(r@) == os_started(*j, tool_there),
{
    let mut v = no_acts();
    act(&mut v, Act::NodeUpgrading);
    match os_node_address(&j.name, &j.ip) {
        Ok(_) => {
            if !tool_there {
                fail(&mut v, &cat("pertiskctl not found at ", &j.tool));
            } else {
                act(&mut v, Act::WaitApi);
            }
        },
        Err(e) => {
            fail(&mut v, &e);
        },
    }
    v
}

/// What is done once the API of the cluster answers: the bundle is put on the
/// node through the server that answered.
pub open spec fn os_stage(j: OsNodeJob, got: Result<Option<String>, String>) -> Seq<ActV> {
    match got {
        Ok(server) => idle().push(
            logged("stage OS bundle on "@ + j.name@ + " via hostPath\n"@),
        ).push(ActV::StageBundle { server: opt_text(server) }),
        Err(e) => idle().push(failed(e@)),
    }
}

/// After the API of the cluster was waited for.
pub fn os_api_ready(j: &OsNodeJob, got: &Result<Option<String>, String>) -> (r: Vec<Act>)
    ensures
        acts(r@) == os_stage(*j, *got),
{
    let mut v = no_acts();
    match got {
        Ok(server) => {
            log(&mut v, &lit("stage OS bundle on ").concat(&j.name).concat(" via hostPath\n"));
            act(&mut v, Act::StageBundle { server: again(server) });
        },
        Err(e) => {
            fail(&mut v, e);
        },
    }
    v
}

/// What is done once the bundle is on the node: workloads move away and the
/// machine tool upgrades.
pub open spec fn os_upgrade(j: OsNodeJob, server: Option<Seq<char>>, got: Result<(), String>) ->
    Seq<ActV> {
    match got {
        Ok(_) => {
            let a = if j.drain {
                drained(idle(), server, j.name@)
            } else {
                idle()
            };
            a.push(
                logged(
                    "pertiskctl upgrade --bundle "@ + j.host_bundle@ + (if j.reboot {
                        " --reboot"@
                    } else {
                        ""@
                    }) + "\n"@,
                ),
            ).push(
                ActV::Machine {
                    args: os_upgrade_args(
                        text_or(opt_text(j.ip), ""@),
                        j.host_bundle@,
                        j.reboot,
                    ),
                },
            )
        },
        Err(e) => idle().push(failed(e@)),
    }
}

/// The address that a job names, the empty text where it names none.
pub fn job_address(j: &OsNodeJob) -> (r: String)
    ensures
        r@ == text_or(opt_text(j.ip), ""@),
{
    match &j.ip {
        Some(s) => lit(s),
        None => lit(""),
    }
}

/// After the bundle was put on the node.
pub fn os_staged(j: &OsNodeJob, server: &Option<String>, got: &Result<(), String>) -> (r: Vec<Act>)
    ensures
        acts(r@) == os_upgrade(*j, opt_text(*server), *got),
{
    let mut v = no_acts();
    match got {
        Ok(_) => {
            if j.drain {
                drain(&mut v, server, &j.name);
            }
            let tail = if j.reboot {
                " --reboot"
            } else {
                ""
            };
            log(
                &mut v,
                &lit("pertiskctl upgrade --bundle ").concat(&j.host_bundle).concat(tail).concat(
                    "\n",
                ),
            );
            act(
                &mut v,
                Act::Machine {
                    args: os_upgrade_arguments(&job_address(j), &j.host_bundle, j.reboot),
                },
            );
        },
        Err(e) => {
            fail(&mut v, e);
        },
    }
    v
}

/// A command of the machine tool at an address.
pub open spec fn machine_args(ip: Seq<char>, command: Seq<char>) -> Seq<Seq<char>> {
    seq!["-e"@, ip + ":50000"@, command]
}

fn machine(v: &mut Vec<Act>, ip: &str, command: &str)
    ensures
        acts(final(v)@) == acts(old(v)@).push(
            ActV::Machine { args: machine_args(ip@, command@) },
        ),
{
    let mut args = no_texts();
    put(&mut args, "-e");
    put(&mut args, &cat(ip, ":50000"));
    put(&mut args, command);
    assert(texts(args@) =~= machine_args(ip@, command@));
    act(v, Act::Machine { args });
}

/// What is done once the machine tool has upgraded: the reboot is waited for, or
/// the new slot is marked as good at once.
pub open spec fn os_after(j: OsNodeJob, got: ToolResult) -> Seq<ActV> {
    let ip = text_or(opt_text(j.ip), ""@);
    match got {
        Ok(out) => {
            let a = printed(idle(), out);
            if !out.success {
                a.push(failed("pertiskctl upgrade failed on "@ + j.name@))
            } else if j.reboot {
                a.push(
                    logged("wait Machine API "@ + ip + ":50000 after OS reboot\n"@),
                ).push(ActV::WaitReboot { ip })
            } else {
                a.push(ActV::Machine { args: machine_args(ip, "mark-boot-good"@) })
            }
        },
        Err(e) => idle().push(failed(e@)),
    }
}

/// After the machine tool was to upgrade.
pub fn os_upgraded(j: &OsNodeJob, got: &ToolResult) -> (r: Vec<Act>)
    ensures
        acts(r@) == os_after(*j, *got),
{
    let mut v = no_acts();
    let ip = job_address(j);
    match got {
        Ok(out) => {
            log_output(&mut v, out);
            if !out.success {
                fail(&mut v, &cat("pertiskctl upgrade failed on ", &j.name));
            } else if j.reboot {
                log(
                    &mut v,
                    &lit("wait Machine API ").concat(&ip).concat(":50000 after OS reboot\n"),
                );
                act(&mut v, Act::WaitReboot { ip });
            } else {
                machine(&mut v, &ip, "mark-boot-good");
            }
        },
        Err(e) => {
            fail(&mut v, e);
        },
    }
    v
}

/// What is done once the machine is back: the new slot is marked as good, at the
/// address where the machine is now.
pub open spec fn os_back(got: Result<String, String>) -> Seq<ActV> {
    match got {
        Ok(ip) => idle().push(ActV::Machine { args: machine_args(ip@, "mark-boot-good"@) }),
        Err(e) => idle().push(failed(e@)),
    }
}

/// After the reboot of the machine was waited for.
pub fn os_rebooted(got: &Result<String, String>) -> (r: Vec<Act>)
    ensures
        acts(r@) == os_back(*got),
{
    let mut v = no_acts();
    match got {
        Ok(ip) => {
            machine(&mut v, ip, "mark-boot-good");
        },
        Err(e) => {
            fail(&mut v, e);
        },
    }
    v
}

/// How often the new slot is to be marked.
pub const MARK_ATTEMPTS: usize = 8;

/// What is done once the slot was to be marked for the `attempt`th time: if it
/// was not, it is tried again, and after the last try the upgrade goes on with a
/// warning.
pub open spec fn os_mark(ip: Seq<char>, attempt: usize, got: ToolResult) -> Seq<ActV> {
    let a = match got {
        Ok(out) => printed(idle(), out),
        Err(e) => idle().push(logged("mark-boot-good: "@ + e@ + "\n"@)),
    };
    if got is Ok && got->Ok_0.success {
        a.push(ActV::Machine { args: machine_args(ip, "upgrade-status"@) })
    } else {
        let b = a.push(
            logged("mark-boot-good retry "@ + dec(attempt as nat) + "/8\n"@),
        ).push(ActV::Pause { secs: 5 });
        if attempt < MARK_ATTEMPTS {
            b.push(ActV::Machine { args: machine_args(ip, "mark-boot-good"@) })
        } else {
            b.push(
                logged(
                    "WARNING: mark-boot-good failed — node may auto-rollback after 3 failed boots\n"@,
                ),
            ).push(ActV::Machine { args: machine_args(ip, "upgrade-status"@) })
        }
    }
}

/// After the slot was to be marked as good.
pub fn os_marked(ip: &str, attempt: usize, got: &ToolResult) -> (r: Vec<Act>)
    ensures
        acts(r@) == os_mark(ip@, attempt, *got),
{
    let mut v = no_acts();
    let mut marked = false;
    match got {
        Ok(out) => {
            log_output(&mut v, out);
            marked = out.success;
        },
        Err(e) => {
            log(&mut v, &lit("mark-boot-good: ").concat(e).concat("\n"));
        },
    }
    if marked {
        machine(&mut v, ip, "upgrade-status");
        return v;
    }
    log(&mut v, &lit("mark-boot-good retry ").concat(&usize_str(attempt)).concat("/8\n"));
    act(&mut v, Act::Pause { secs: 5 });
    if attempt < MARK_ATTEMPTS {
        machine(&mut v, ip, "mark-boot-good");
    } else {
        log(
            &mut v,
            "WARNING: mark-boot-good failed — node may auto-rollback after 3 failed boots\n",
        );
        machine(&mut v, ip, "upgrade-status");
    }
    v
}

/// What is done once the state of the upgrade was asked for.
pub open spec fn os_state(got: ToolResult) -> Seq<ActV> {
    let a = match got {
        Ok(out) => printed(idle(), out),
        Err(_) => idle(),
    };
    a.push(ActV::WaitApi)
}

/// After the state of the upgrade was asked for.
pub fn os_status_read(got: &ToolResult) -> (r: Vec<Act>)
    ensures
        acts(r@) == os_state(*got),
{
    let mut v = no_acts();
    match got {
        Ok(out) => log_output(&mut v, out),
        Err(_) => {},
    }
    act(&mut v, Act::WaitApi);
    v
}

/// What is done once the API answers again: the node is waited for, workloads
/// may come back, and the version that the node runs is stored, else the one of
/// the bundle.
pub open spec fn os_finish(
    j: OsNodeJob,
    running: Option<Seq<char>>,
    got: Result<Option<String>, String>,
) -> Seq<ActV> {
    match got {
        Ok(server) => {
            let a = awaited(idle(), opt_text(server), j.name@);
            let b = if j.drain {
                uncordoned(a, opt_text(server), j.name@)
            } else {
                a
            };
            b.push(ActV::StoreOs { version: text_or(running, j.version@) }).push(
                ActV::SyncNodes,
            ).push(ActV::Done)
        },
        Err(e) => idle().push(failed(e@)),
    }
}

/// After the API was waited for the second time; `running` is the version that
/// the state of the upgrade gave.
pub fn os_api_back(
    j: &OsNodeJob,
    running: &Option<String>,
    got: &Result<Option<String>, String>,
) -> (r: Vec<Act>)
    ensures
        acts(r@) == os_finish(*j, opt_text(*running), *got),
{
    let mut v = no_acts();
    match got {
        Ok(server) => {
            await_node(&mut v, server, &j.name);
            if j.drain {
                uncordon(&mut v, server, &j.name);
            }
            let version = match running {
                Some(s) => lit(s),
                None => lit(&j.version),
            };
            act(&mut v, Act::StoreOs { version });
            act(&mut v, Act::SyncNodes);
            act(&mut v, Act::Done);
        },
        Err(e) => {
            fail(&mut v, e);
        },
    }
    v
}

/// A node whose upgrade ends well was waited for, and workloads that were moved
/// away may come back.
pub proof fn law_os_upgrade_lets_workloads_back(
    j: OsNodeJob,
    running: Option<Seq<char>>,
    server: Option<String>,
)
    requires
        j.drain,
    ensures
        os_finish(j, running, Ok(server)).contains(
            ActV::Kubectl { server: opt_text(server), args: ready_args(j.name@) },
        ),
        os_finish(j, running, Ok(server)).contains(
            ActV::Kubectl { server: opt_text(server), args: seq!["uncordon"@, j.name@] },
        ),
        os_finish(j, running, Ok(server)).last() is Done,
{
    let a = os_finish(j, running, Ok(server));
    assert(a[1] == (ActV::Kubectl { server: opt_text(server), args: ready_args(j.name@) }));
    assert(a[3] == (ActV::Kubectl {
        server: opt_text(server),
        args: seq!["uncordon"@, j.name@],
    }));
}

/// A slot is marked at most as often as it is to be tried.
pub proof fn law_marking_ends(ip: Seq<char>, attempt: usize, got: ToolResult)
    requires
        attempt >= MARK_ATTEMPTS,
    ensures
        os_mark(ip, attempt, got).last() == (ActV::Machine {
            args: machine_args(ip, "upgrade-status"@),
        }),
{
}

// ---------------------------------------------------------------------------
// Waiting for a machine to reboot
// ---------------------------------------------------------------------------

/// The machine got another address: the note on it, where it did.
pub fn guest_moved(live: &str, found: &Option<String>, from_hypervisor: bool) -> (r: Option<String>)
    ensures
        opt_text(r) == (match opt_text(*found) {
            Some(next) => if next != live@ {
                Some(
                    (if from_hypervisor {
                        "node IP from Prism after reboot: "@
                    } else {
                        "node IP after reboot: "@
                    }) + live@ + " → "@ + next + "\n"@,
                )
            } else {
                None
            },
            None => None,
        }),
{
    match found {
        Some(next) => {
            if str_eq(next, live) {
                return None;
            }
            let head = if from_hypervisor {
                "node IP from Prism after reboot: "
            } else {
                "node IP after reboot: "
            };
            Some(lit(head).concat(live).concat(" → ").concat(next).concat("\n"))
        },
        None => None,
    }
}

/// The note on a machine that is back after a round.
pub fn guest_up_note(ip: &str, round: u32) -> (r: String)
    requires
        round <= GUEST_ROUNDS,
    ensures
        r@ == "guest API up ("@ + ip@ + ":50000) after OS reboot (~"@ + dec((2 * round) as nat)
            + "s)\n"@,
{
    lit("guest API up (").concat(ip).concat(":50000) after OS reboot (~").concat(
        &u64_str(2 * round as u64),
    ).concat("s)\n")
}

/// How often a machine is asked until it is gone.
pub const DOWN_ROUNDS: u32 = 45;

/// The note on a machine that is gone after a round.
pub fn guest_down_note(ip: &str, round: u32) -> (r: String)
    requires
        round <= DOWN_ROUNDS,
    ensures
        r@ == "guest API down ("@ + ip@ + ":50000) after ~"@ + dec((2 * round) as nat) + "s\n"@,
{
    lit("guest API down (").concat(ip).concat(":50000) after ~").concat(
        &u64_str(2 * round as u64),
    ).concat("s\n")
}

/// The complaint about a machine that never went away.
pub fn guest_never_down(ip: &str) -> (r: String)
    ensures
        r@ == "guest API "@ + ip@
            + ":50000 never dropped after upgrade --reboot — reboot did not start"@,
{
    lit("guest API ").concat(ip).concat(
        ":50000 never dropped after upgrade --reboot — reboot did not start",
    )
}

// ---------------------------------------------------------------------------
// Kubernetes
// ---------------------------------------------------------------------------

/// A job that upgrades the Kubernetes of a node.
#[derive(Debug, PartialEq, Eq)]
pub struct KubeNodeJob {
    pub name: String,
    pub control_plane: bool,
    pub ip: Option<String>,
    /// The version, with its leading letter.
    pub version: String,
    /// The cluster has a kubeconfig.
    pub kubeconfig: bool,
    pub drain: bool,
}

/// The end of the upgrade of a node: the version is stored.
pub open spec fn kube_done(a: Seq<ActV>, j: KubeNodeJob) -> Seq<ActV> {
    a.push(ActV::StoreKubernetes { version: j.version@ }).push(ActV::Done)
}

fn finish_kube(v: &mut Vec<Act>, j: &KubeNodeJob)
    ensures
        acts(final(v)@) == kube_done(acts(old(v)@), *j),
{
    act(v, Act::StoreKubernetes { version: lit(&j.version) });
    act(v, Act::Done);
}

/// After the configuration of the machine: the API is waited for, where there is
/// a kubeconfig to reach it with.
pub open spec fn then_api(a: Seq<ActV>, j: KubeNodeJob) -> Seq<ActV> {
    if j.kubeconfig {
        a.push(ActV::WaitApi)
    } else {
        kube_done(
            a.push(
                logged("no kubeconfig — cannot run upgrade agent or wait for version\n"@),
            ),
            j,
        )
    }
}

fn go_api(v: &mut Vec<Act>, j: &KubeNodeJob)
    ensures
        acts(final(v)@) == then_api(acts(old(v)@), *j),
{
    if j.kubeconfig {
        act(v, Act::WaitApi);
    } else {
        log(v, "no kubeconfig — cannot run upgrade agent or wait for version\n");
        finish_kube(v, j);
    }
}

/// The first step of the upgrade of a node: workloads move away, and the machine
/// configuration gets the version, where the machine can be reached and its
/// configuration is known.
pub open spec fn kube_started(j: KubeNodeJob, tool: bool, config: Option<Seq<char>>) -> Seq<ActV> {
    let a = idle().push(ActV::NodeUpgrading);
    let b = if j.drain {
        if j.kubeconfig {
            drained(a, None, j.name@)
        } else {
            a.push(logged("skip drain (no kubeconfig)\n"@))
        }
    } else {
        a
    };
    match j.ip {
        Some(ip) => if tool {
            match config {
                Some(path) => b.push(
                    logged(
                        "apply "@ + path + " (kubernetesVersion="@ + j.version@ + ") @ "@ + ip@
                            + ":50000\n"@,
                    ),
                ).push(ActV::ApplyConfig { version: j.version@, ip: ip@ }),
                None => then_api(
                    b.push(
                        logged(
                            "no machine config for "@ + j.name@
                                + "; skip apply (agent will still upgrade runtime)\n"@,
                        ),
                    ),
                    j,
                ),
            }
        } else {
            then_api(b.push(logged("pertiskctl not found; skipping apply\n"@)), j)
        },
        None => then_api(
            b.push(logged("no IP for "@ + j.name@ + "; skip on-node apply\n"@)),
            j,
        ),
    }
}

/// Starts to upgrade the Kubernetes of a node; `config` is where its machine
/// configuration is.
pub fn kube_begin(j: &KubeNodeJob, tool: bool, config: &Option<String>) -> (r: Vec<Act>)
    ensures
        acts(r@) == kube_started(*j, tool, opt_text(*config)),
{
    let mut v = no_acts();
    act(&mut v, Act::NodeUpgrading);
    if j.drain {
        if j.kubeconfig {
            drain(&mut v, &None, &j.name);
        } else {
            log(&mut v, "skip drain (no kubeconfig)\n");
        }
    }
    match &j.ip {
        Some(ip) => {
            if tool {
                match config {
                    Some(path) => {
                        log(
                            &mut v,
                            &lit("apply ").concat(path).concat(" (kubernetesVersion=").concat(
                                &j.version,
                            ).concat(") @ ").concat(ip).concat(":50000\n"),
                        );
                        act(
                            &mut v,
                            Act::ApplyConfig { version: lit(&j.version), ip: lit(ip) },
                        );
                    },
                    None => {
                        log(
                            &mut v,
                            &lit("no machine config for ").concat(&j.name).concat(
                                "; skip apply (agent will still upgrade runtime)\n",
                            ),
                        );
                        go_api(&mut v, j);
                    },
                }
            } else {
                log(&mut v, "pertiskctl not found; skipping apply\n");
                go_api(&mut v, j);
            }
        },
        None => {
            log(&mut v, &lit("no IP for ").concat(&j.name).concat("; skip on-node apply\n"));
            go_api(&mut v, j);
        },
    }
    v
}

/// What is done once the machine configuration was applied, well or not.
pub open spec fn kube_apply(j: KubeNodeJob, got: ToolResult) -> Seq<ActV> {
    let a = match got {
        Ok(out) => if out.success {
            printed(idle(), out)
        } else {
            printed(idle(), out).push(logged("apply returned non-zero\n"@))
        },
        Err(e) => idle().push(logged("apply failed: "@ + e@ + "\n"@)),
    };
    then_api(a, j)
}

/// After the machine configuration was to be applied.
pub fn kube_applied(j: &KubeNodeJob, got: &ToolResult) -> (r: Vec<Act>)
    ensures
        acts(r@) == kube_apply(*j, *got),
{
    let mut v = no_acts();
    match got {
        Ok(out) => {
            log_output(&mut v, out);
            if !out.success {
                log(&mut v, "apply returned non-zero\n");
            }
        },
        Err(e) => {
            log(&mut v, &lit("apply failed: ").concat(e).concat("\n"));
        },
    }
    go_api(&mut v, j);
    v
}

/// What is done once the API answers.
pub open spec fn kube_ask(got: Result<(), String>) -> Seq<ActV> {
    match got {
        Ok(_) => idle().push(ActV::KubeletVersion),
        Err(e) => idle().push(failed(e@)),
    }
}

/// After the API was waited for.
pub fn kube_api_ready(got: &Result<(), String>) -> (r: Vec<Act>)
    ensures
        acts(r@) == kube_ask(*got),
{
    let mut v = no_acts();
    match got {
        Ok(_) => {
            act(&mut v, Act::KubeletVersion);
        },
        Err(e) => {
            fail(&mut v, e);
        },
    }
    v
}

/// The node and its kubelet are waited for.
pub open spec fn then_wait(a: Seq<ActV>, j: KubeNodeJob) -> Seq<ActV> {
    awaited(a, None, j.name@).push(
        logged("wait kubelet "@ + j.version@ + " on "@ + j.name@ + "\n"@),
    ).push(ActV::WaitKubelet { version: j.version@ })
}

fn go_wait(v: &mut Vec<Act>, j: &KubeNodeJob)
    ensures
        acts(final(v)@) == then_wait(acts(old(v)@), *j),
{
    await_node(v, &None, &j.name);
    log(v, &lit("wait kubelet ").concat(&j.version).concat(" on ").concat(&j.name).concat("\n"));
    act(v, Act::WaitKubelet { version: lit(&j.version) });
}

/// What is done once the version of the kubelet is known: the agent runs unless
/// the kubelet has the version.
pub open spec fn kube_agent(j: KubeNodeJob, running: Option<Seq<char>>) -> Seq<ActV> {
    if running == Some(j.version@) {
        then_wait(
            idle().push(
                logged(
                    "skip agent — "@ + j.name@ + " already kubelet="@ + j.version@ + "\n"@,
                ),
            ),
            j,
        )
    } else {
        idle().push(
            logged(
                "upgrade agent on "@ + j.name@ + " (static pods="@ + (if j.control_plane {
                    "yes"@
                } else {
                    "n/a"@
                }) + ", kubelet → "@ + j.version@ + ")\n"@,
            ),
        ).push(ActV::RunAgent { version: j.version@, control_plane: j.control_plane })
    }
}

/// After the version of the kubelet was asked for.
pub fn kube_version_read(j: &KubeNodeJob, running: &Option<String>) -> (r: Vec<Act>)
    ensures
        acts(r@) == kube_agent(*j, opt_text(*running)),
{
    let mut v = no_acts();
    if !agent_needed(running, &j.version) {
        log(
            &mut v,
            &lit("skip agent — ").concat(&j.name).concat(" already kubelet=").concat(
                &j.version,
            ).concat("\n"),
        );
        go_wait(&mut v, j);
        return v;
    }
    let pods = if j.control_plane {
        "yes"
    } else {
        "n/a"
    };
    log(
        &mut v,
        &lit("upgrade agent on ").concat(&j.name).concat(" (static pods=").concat(pods).concat(
            ", kubelet → ",
        ).concat(&j.version).concat(")\n"),
    );
    act(
        &mut v,
        Act::RunAgent { version: lit(&j.version), control_plane: j.control_plane },
    );
    v
}

/// What is done once the agent has run, well or not: the kubelet decides.
pub open spec fn kube_agent_over(j: KubeNodeJob, got: Result<(), String>) -> Seq<ActV> {
    match got {
        Ok(_) => then_wait(idle(), j),
        Err(e) => then_wait(
            idle().push(
                logged(
                    "upgrade agent create/run issue on "@ + j.name@ + ": "@ + e@
                        + " — will wait for kubelet "@ + j.version@ + "\n"@,
                ),
            ),
            j,
        ),
    }
}

/// After the agent has run.
pub fn kube_agent_ran(j: &KubeNodeJob, got: &Result<(), String>) -> (r: Vec<Act>)
    ensures
        acts(r@) == kube_agent_over(*j, *got),
{
    let mut v = no_acts();
    match got {
        Ok(_) => {},
        Err(e) => {
            log(
                &mut v,
                &lit("upgrade agent create/run issue on ").concat(&j.name).concat(": ").concat(
                    e,
                ).concat(" — will wait for kubelet ").concat(&j.version).concat("\n"),
            );
        },
    }
    go_wait(&mut v, j);
    v
}

/// What is done once the kubelet runs the version.
pub open spec fn kube_finish(j: KubeNodeJob, got: Result<(), String>) -> Seq<ActV> {
    match got {
        Ok(_) => {
            let a = if j.drain {
                uncordoned(idle(), None, j.name@)
            } else {
                idle()
            };
            kube_done(a.push(ActV::SyncNodes), j)
        },
        Err(e) => idle().push(failed(e@)),
    }
}

/// After the kubelet was waited for.
pub fn kube_kubelet_waited(j: &KubeNodeJob, got: &Result<(), String>) -> (r: Vec<Act>)
    ensures
        acts(r@) == kube_finish(*j, *got),
{
    let mut v = no_acts();
    match got {
        Ok(_) => {
            if j.drain {
                uncordon(&mut v, &None, &j.name);
            }
            act(&mut v, Act::SyncNodes);
            finish_kube(&mut v, j);
        },
        Err(e) => {
            fail(&mut v, e);
        },
    }
    v
}

/// With a kubeconfig, a version is stored only after the kubelet was seen to run
/// it.
pub proof fn law_version_is_stored_only_when_seen(
    j: KubeNodeJob,
    tool: bool,
    config: Option<Seq<char>>,
    out: ToolResult,
    running: Option<Seq<char>>,
    agent: Result<(), String>,
    waited: Result<(), String>,
)
    requires
        j.kubeconfig,
    ensures
        !(kube_started(j, tool, config).last() is Done),
        !(kube_apply(j, out).last() is Done),
        !(kube_agent(j, running).last() is Done),
        !(kube_agent_over(j, agent).last() is Done),
        kube_finish(j, waited).last() is Done ==> waited is Ok,
{
}

/// How the wait for a kubelet goes on: done, again or over, with what goes to
/// the log.
#[derive(Debug, PartialEq, Eq)]
pub enum KubeletWait {
    Done(String),
    Again(Option<String>),
    Failed(String),
}

#[verifier::ext_equal]
pub ghost enum KubeletWaitV {
    Done(Seq<char>),
    Again(Option<Seq<char>>),
    Failed(Seq<char>),
}

impl View for KubeletWait {
    type V = KubeletWaitV;

    open spec fn view(&self) -> KubeletWaitV {
        match self {
            KubeletWait::Done(s) => KubeletWaitV::Done(s@),
            KubeletWait::Again(o) => KubeletWaitV::Again(opt_text(*o)),
            KubeletWait::Failed(s) => KubeletWaitV::Failed(s@),
        }
    }
}

/// How the wait goes on, given what the kubelet runs.
pub open spec fn kubelet_wait(
    name: Seq<char>,
    want: Seq<char>,
    running: Option<Seq<char>>,
    over: bool,
) -> KubeletWaitV {
    if over {
        KubeletWaitV::Failed("timed out waiting for "@ + name + " kubelet="@ + want)
    } else {
        match running {
            Some(got) => if got == want {
                KubeletWaitV::Done("node/"@ + name + " kubelet="@ + got + "\n"@)
            } else {
                KubeletWaitV::Again(
                    Some(
                        "node/"@ + name + " kubelet="@ + got + " (want "@ + want
                            + "); retry\n"@,
                    ),
                )
            },
            None => KubeletWaitV::Again(None),
        }
    }
}

/// One round of the wait for a kubelet; `over` says that the time is over.
pub fn wait_node_kubelet_version(
    name: &str,
    want: &str,
    running: &Option<String>,
    over: bool,
) -> (r: KubeletWait)
    ensures
        r@ == kubelet_wait(name@, want@, opt_text(*running), over),
{
    if over {
        return KubeletWait::Failed(
            lit("timed out waiting for ").concat(name).concat(" kubelet=").concat(want),
        );
    }
    match running {
        Some(got) => {
            let head = lit("node/").concat(name).concat(" kubelet=").concat(got);
            if str_eq(got, want) {
                KubeletWait::Done(head.concat("\n"))
            } else {
                KubeletWait::Again(
                    Some(head.concat(" (want ").concat(want).concat("); retry\n")),
                )
            }
        },
        None => KubeletWait::Again(None),
    }
}

/// The version that `kubectl` printed of a kubelet.
pub fn node_kubelet_version(out: &CommandOutput) -> (r: Option<String>)
    ensures
        opt_text(r) == (if out.success && trim(out.stdout@).len() > 0 {
            Some(trim(out.stdout@))
        } else {
            None
        }),
{
    if !out.success {
        return None;
    }
    let got = str_trim(&out.stdout);
    if got.is_empty() {
        None
    } else {
        Some(got)
    }
}

} // verus!
