//! The pods that an upgrade runs on a node.
use crate::jobs::action::{Act, ActV, act, acts, fail, failed, idle, log, logged, no_acts};
use crate::jobs::node_upgrade::{ToolResult, log_output, printed};
use crate::k8s::kubectl::CommandOutput;
use crate::num::{dec, usize_str};
use crate::text::{
    cat, contains, join, law_parts_are_found, lines, lit, no_texts, opt_eq, opt_text, put, str_eq,
    str_join, str_lines, str_trim, texts, trim,
};
use vstd::prelude::*;
use vstd::string::*;

verus! {

/// The pod that stages an OS bundle on a node: it mounts the bundle directory
/// of the host.
pub open spec fn stage_pod(pod: Seq<char>, node: Seq<char>, host: Seq<char>) -> Seq<char> {
    "apiVersion: v1\nkind: Pod\nmetadata:\n  name: "@ + pod
        + "\n  namespace: kube-system\n  labels:\n    app: pertisk-os-upgrade\nspec:\n  nodeName: "@
        + node
        + "\n  hostPID: true\n  restartPolicy: Never\n  tolerations:\n  - operator: Exists\n  containers:\n  - name: stage\n    image: alpine:3.20\n    imagePullPolicy: IfNotPresent\n    securityContext:\n      privileged: true\n    command: [\"sleep\", \"600\"]\n    volumeMounts:\n    - name: bundle\n      mountPath: /bundle\n  volumes:\n  - name: bundle\n    hostPath:\n      path: "@
        + host + "\n      type: DirectoryOrCreate\n"@
}

pub fn render_stage_pod(pod: &str, node: &str, host: &str) -> (r: String)
    ensures
        r@ == stage_pod(pod@, node@, host@),
{
    lit("apiVersion: v1\nkind: Pod\nmetadata:\n  name: ").concat(pod).concat(
        "\n  namespace: kube-system\n  labels:\n    app: pertisk-os-upgrade\nspec:\n  nodeName: ",
    ).concat(node).concat(
        "\n  hostPID: true\n  restartPolicy: Never\n  tolerations:\n  - operator: Exists\n  containers:\n  - name: stage\n    image: alpine:3.20\n    imagePullPolicy: IfNotPresent\n    securityContext:\n      privileged: true\n    command: [\"sleep\", \"600\"]\n    volumeMounts:\n    - name: bundle\n      mountPath: /bundle\n  volumes:\n  - name: bundle\n    hostPath:\n      path: ",
    ).concat(host).concat("\n      type: DirectoryOrCreate\n")
}

/// The script of the upgrade agent: on a control plane it bumps the static pod
/// images; then it replaces the kubelet and stops it, so that it restarts.
pub open spec fn agent_script(version: Seq<char>, control_plane: bool) -> Seq<char> {
    "set -eu\napk add --no-cache curl >/dev/null\nVER=\""@ + version + "\"\nCP=\""@ + (
    if control_plane {
        "1"@
    } else {
        "0"@
    })
        + "\"\nif [ \"$CP\" = \"1\" ]; then\n  for f in /host/manifests/kube-apiserver.yaml \\\n           /host/manifests/kube-controller-manager.yaml \\\n           /host/manifests/kube-scheduler.yaml; do\n    [ -f \"$f\" ] || continue\n    sed -i -E \"s#(image:[[:space:]]*registry\\.k8s\\.io/kube-[^:]+):v[0-9]+\\.[0-9]+\\.[0-9]+#\\1:${VER}#g\" \"$f\"\n    echo \"bumped $f\"\n  done\nfi\nARCH=$(uname -m)\ncase \"$ARCH\" in x86_64) A=amd64;; aarch64|arm64) A=arm64;; *) A=amd64;; esac\necho \"download kubelet $VER ($A)\"\ncurl -fsSL -o /host/bin/.kubelet.new \"https://dl.k8s.io/release/${VER}/bin/linux/${A}/kubelet\"\nchmod 755 /host/bin/.kubelet.new\nmv /host/bin/.kubelet.new /host/bin/kubelet\necho \"installed kubelet\"\n# hostPID: kill host kubelet; pertiskd will restart it. Do this last — CNI may\n# die and the agent pod can be torn down before exit 0 is observed.\nkilled=0\nfor p in /proc/[0-9]*; do\n  cmd=$(cat \"$p/cmdline\" 2>/dev/null | tr '\\0' ' ' || true)\n  case \"$cmd\" in\n    */usr/local/bin/kubelet*)\n      pid=${p#/proc/}\n      echo \"kill kubelet pid=$pid\"\n      kill \"$pid\" 2>/dev/null || true\n      killed=1\n      break\n      ;;\n  esac\ndone\necho \"upgrade agent done killed=$killed\"\nexit 0\n"@
}

pub fn render_agent_script(version: &str, control_plane: bool) -> (r: String)
    ensures
        r@ == agent_script(version@, control_plane),
{
    let flag = if control_plane {
        lit("1")
    } else {
        lit("0")
    };
    lit("set -eu\napk add --no-cache curl >/dev/null\nVER=\"").concat(version).concat(
        "\"\nCP=\"",
    ).concat(&flag).concat(
        "\"\nif [ \"$CP\" = \"1\" ]; then\n  for f in /host/manifests/kube-apiserver.yaml \\\n           /host/manifests/kube-controller-manager.yaml \\\n           /host/manifests/kube-scheduler.yaml; do\n    [ -f \"$f\" ] || continue\n    sed -i -E \"s#(image:[[:space:]]*registry\\.k8s\\.io/kube-[^:]+):v[0-9]+\\.[0-9]+\\.[0-9]+#\\1:${VER}#g\" \"$f\"\n    echo \"bumped $f\"\n  done\nfi\nARCH=$(uname -m)\ncase \"$ARCH\" in x86_64) A=amd64;; aarch64|arm64) A=arm64;; *) A=amd64;; esac\necho \"download kubelet $VER ($A)\"\ncurl -fsSL -o /host/bin/.kubelet.new \"https://dl.k8s.io/release/${VER}/bin/linux/${A}/kubelet\"\nchmod 755 /host/bin/.kubelet.new\nmv /host/bin/.kubelet.new /host/bin/kubelet\necho \"installed kubelet\"\n# hostPID: kill host kubelet; pertiskd will restart it. Do this last — CNI may\n# die and the agent pod can be torn down before exit 0 is observed.\nkilled=0\nfor p in /proc/[0-9]*; do\n  cmd=$(cat \"$p/cmdline\" 2>/dev/null | tr '\\0' ' ' || true)\n  case \"$cmd\" in\n    */usr/local/bin/kubelet*)\n      pid=${p#/proc/}\n      echo \"kill kubelet pid=$pid\"\n      kill \"$pid\" 2>/dev/null || true\n      killed=1\n      break\n      ;;\n  esac\ndone\necho \"upgrade agent done killed=$killed\"\nexit 0\n",
    )
}

/// Each line eight spaces in.
pub open spec fn indented(ls: Seq<Seq<char>>) -> Seq<Seq<char>> {
    Seq::new(ls.len(), |i: int| "        "@ + ls[i])
}

fn indent_lines(text: &str) -> (r: String)
    ensures
        r@ == join(indented(lines(text@)), "\n"@),
{
    let ls = str_lines(text);
    let ghost want = lines(text@);
    let mut out: Vec<String> = Vec::new();
    let mut i: usize = 0;
    while i < ls.len()
        invariant
            i <= ls.len(),
            want == texts(ls@),
            out.len() == i,
            forall|k: int| 0 <= k < i ==> (#[trigger] out@[k])@ == "        "@ + want[k],
        decreases ls.len() - i,
    {
        assert(want[i as int] == ls@[i as int]@);
        out.push(cat("        ", &ls[i]));
        i += 1;
    }
    assert(want.len() == ls.len());
    assert(texts(out@) =~= indented(want));
    str_join(&out, "\n")
}

/// The pod of the upgrade agent: on the host's network and process table, with
/// the static pod manifests and the binaries of the host mounted.
pub open spec fn agent_pod(
    pod: Seq<char>,
    node: Seq<char>,
    version: Seq<char>,
    control_plane: bool,
) -> Seq<char> {
    "apiVersion: v1\nkind: Pod\nmetadata:\n  name: "@ + pod
        + "\n  namespace: kube-system\n  labels:\n    app: pertisk-upgrade-agent\nspec:\n  nodeName: "@
        + node
        + "\n  hostNetwork: true\n  hostPID: true\n  restartPolicy: Never\n  tolerations:\n  - operator: Exists\n  containers:\n  - name: upgrade\n    image: alpine:3.20\n    imagePullPolicy: IfNotPresent\n    securityContext:\n      privileged: true\n    volumeMounts:\n    - name: manifests\n      mountPath: /host/manifests\n    - name: bin\n      mountPath: /host/bin\n    command: [\"/bin/sh\", \"-c\"]\n    args:\n      - |\n"@
        + join(indented(lines(agent_script(version, control_plane))), "\n"@)
        + "\n  volumes:\n  - name: manifests\n    hostPath:\n      path: /etc/kubernetes/manifests\n      type: DirectoryOrCreate\n  - name: bin\n    hostPath:\n      path: /usr/local/bin\n      type: Directory\n"@
}

pub fn render_agent_pod(pod: &str, node: &str, version: &str, control_plane: bool) -> (r: String)
    ensures
        r@ == agent_pod(pod@, node@, version@, control_plane),
{
    let script = indent_lines(&render_agent_script(version, control_plane));
    lit("apiVersion: v1\nkind: Pod\nmetadata:\n  name: ").concat(pod).concat(
        "\n  namespace: kube-system\n  labels:\n    app: pertisk-upgrade-agent\nspec:\n  nodeName: ",
    ).concat(node).concat(
        "\n  hostNetwork: true\n  hostPID: true\n  restartPolicy: Never\n  tolerations:\n  - operator: Exists\n  containers:\n  - name: upgrade\n    image: alpine:3.20\n    imagePullPolicy: IfNotPresent\n    securityContext:\n      privileged: true\n    volumeMounts:\n    - name: manifests\n      mountPath: /host/manifests\n    - name: bin\n      mountPath: /host/bin\n    command: [\"/bin/sh\", \"-c\"]\n    args:\n      - |\n",
    ).concat(&script).concat(
        "\n  volumes:\n  - name: manifests\n    hostPath:\n      path: /etc/kubernetes/manifests\n      type: DirectoryOrCreate\n  - name: bin\n    hostPath:\n      path: /usr/local/bin\n      type: Directory\n",
    )
}

/// Whether a node still needs the agent.
pub fn agent_needed(kubelet: &Option<String>, want: &str) -> (r: bool)
    ensures
        r == (opt_text(*kubelet) != Some(want@)),
{
    !opt_eq(kubelet, want)
}

// ---------------------------------------------------------------------------
// What is asked of the pods
// ---------------------------------------------------------------------------

/// The arguments of `kubectl` that wait for the pod that holds the bundle.
pub open spec fn wait_pod_args(pod: Seq<char>) -> Seq<Seq<char>> {
    seq!["wait"@, "--for=condition=Ready"@, "pod/"@ + pod, "-n"@, "kube-system"@, "--timeout=120s"@]
}

/// The arguments of `kubectl` that wait for the pod that holds the bundle.
pub fn wait_pod_arguments(pod: &str) -> (r: Vec<String>)
    ensures
        texts(r@) == wait_pod_args(pod@),
{
    let mut v = no_texts();
    put(&mut v, "wait");
    put(&mut v, "--for=condition=Ready");
    put(&mut v, &cat("pod/", pod));
    put(&mut v, "-n");
    put(&mut v, "kube-system");
    put(&mut v, "--timeout=120s");
    assert(texts(v@) =~= wait_pod_args(pod@));
    v
}

/// The arguments of `kubectl` that unpack the bundle in the pod.
pub open spec fn unpack_args(pod: Seq<char>) -> Seq<Seq<char>> {
    seq!["exec"@, "-i"@, "-n"@, "kube-system"@, pod, "--"@, "tar"@, "-C"@, "/bundle"@, "-xf"@, "-"@]
}

/// The arguments of `kubectl` that unpack the bundle in the pod.
pub fn unpack_arguments(pod: &str) -> (r: Vec<String>)
    ensures
        texts(r@) == unpack_args(pod@),
{
    let mut v = no_texts();
    put(&mut v, "exec");
    put(&mut v, "-i");
    put(&mut v, "-n");
    put(&mut v, "kube-system");
    put(&mut v, pod);
    put(&mut v, "--");
    put(&mut v, "tar");
    put(&mut v, "-C");
    put(&mut v, "/bundle");
    put(&mut v, "-xf");
    put(&mut v, "-");
    assert(texts(v@) =~= unpack_args(pod@));
    v
}

/// The script that puts the public key where the first process finds it.
pub const INSTALL_KEY: &'static str = "set -eux\necho \"pid1=$(cat /proc/1/comm 2>/dev/null || echo unknown)\"\nls -l /bundle || true\nls -l /bundle/os-trust.pk\ntest -s /bundle/os-trust.pk\nls -ld /proc/1/root /proc/1/root/system /proc/1/root/system/state || true\nmkdir -p /proc/1/root/system/state/secrets\ncp /bundle/os-trust.pk /proc/1/root/system/state/secrets/os-trust.pk\nchmod 700 /proc/1/root/system/state/secrets\nchmod 600 /proc/1/root/system/state/secrets/os-trust.pk\nls -l /proc/1/root/system/state/secrets/os-trust.pk\ntest -s /proc/1/root/system/state/secrets/os-trust.pk\necho \"os-trust.pk present on STATE via /proc/1/root\"\n";

/// The arguments of `kubectl` that install the public key from the pod.
pub open spec fn install_key_args(pod: Seq<char>) -> Seq<Seq<char>> {
    seq!["exec"@, "-n"@, "kube-system"@, pod, "--"@, "sh"@, "-c"@, INSTALL_KEY@]
}

/// The arguments of `kubectl` that install the public key from the pod.
pub fn install_key_arguments(pod: &str) -> (r: Vec<String>)
    ensures
        texts(r@) == install_key_args(pod@),
{
    let mut v = no_texts();
    put(&mut v, "exec");
    put(&mut v, "-n");
    put(&mut v, "kube-system");
    put(&mut v, pod);
    put(&mut v, "--");
    put(&mut v, "sh");
    put(&mut v, "-c");
    put(&mut v, INSTALL_KEY);
    assert(texts(v@) =~= install_key_args(pod@));
    v
}

/// The arguments of `kubectl` that ask for the phase of the agent.
pub open spec fn pod_phase_args(pod: Seq<char>) -> Seq<Seq<char>> {
    seq!["get"@, "pod"@, "-n"@, "kube-system"@, pod, "-o"@, "jsonpath={.status.phase}"@]
}

/// The arguments of `kubectl` that ask for the phase of the agent.
pub fn pod_phase_arguments(pod: &str) -> (r: Vec<String>)
    ensures
        texts(r@) == pod_phase_args(pod@),
{
    let mut v = no_texts();
    put(&mut v, "get");
    put(&mut v, "pod");
    put(&mut v, "-n");
    put(&mut v, "kube-system");
    put(&mut v, pod);
    put(&mut v, "-o");
    put(&mut v, "jsonpath={.status.phase}");
    assert(texts(v@) =~= pod_phase_args(pod@));
    v
}

/// The arguments of `kubectl` that read the log of the agent.
pub open spec fn pod_logs_args(pod: Seq<char>) -> Seq<Seq<char>> {
    seq!["logs"@, "-n"@, "kube-system"@, pod, "--tail=200"@]
}

/// The arguments of `kubectl` that read the log of the agent.
pub fn pod_logs_arguments(pod: &str) -> (r: Vec<String>)
    ensures
        texts(r@) == pod_logs_args(pod@),
{
    let mut v = no_texts();
    put(&mut v, "logs");
    put(&mut v, "-n");
    put(&mut v, "kube-system");
    put(&mut v, pod);
    put(&mut v, "--tail=200");
    assert(texts(v@) =~= pod_logs_args(pod@));
    v
}

/// The arguments of `kubectl` that delete the pod that holds the bundle.
pub open spec fn delete_pod_args(pod: Seq<char>, wait: bool) -> Seq<Seq<char>> {
    let a = seq!["delete"@, "pod"@, pod, "-n"@, "kube-system"@, "--ignore-not-found=true"@];
    if wait {
        a.push("--wait=true"@).push("--timeout=60s"@)
    } else {
        a.push("--wait=false"@)
    }
}

/// The arguments of `kubectl` that delete the pod that holds the bundle.
pub fn delete_pod_arguments(pod: &str, wait: bool) -> (r: Vec<String>)
    ensures
        texts(r@) == delete_pod_args(pod@, wait),
{
    let mut v = no_texts();
    put(&mut v, "delete");
    put(&mut v, "pod");
    put(&mut v, pod);
    put(&mut v, "-n");
    put(&mut v, "kube-system");
    put(&mut v, "--ignore-not-found=true");
    if wait {
        put(&mut v, "--wait=true");
        put(&mut v, "--timeout=60s");
    } else {
        put(&mut v, "--wait=false");
    }
    assert(texts(v@) =~= delete_pod_args(pod@, wait));
    v
}

/// The phase of the agent, from what `kubectl` printed.
pub fn read_pod_phase(out: &CommandOutput) -> (r: Option<String>)
    ensures
        opt_text(r) == (if out.success {
            Some(trim(out.stdout@))
        } else {
            None
        }),
{
    if out.success {
        Some(str_trim(&out.stdout))
    } else {
        None
    }
}

// ---------------------------------------------------------------------------
// The bundle of an operating system on a node, step by step
// ---------------------------------------------------------------------------

/// How often the pod that holds the bundle is applied.
pub const STAGE_ATTEMPTS: usize = 6;

/// What is done once the pod was to be applied for the `attempt`th time.
pub open spec fn stage_apply(attempt: usize, got: ToolResult) -> Seq<ActV> {
    match got {
        Ok(out) => {
            let a = printed(idle(), out);
            if out.success {
                a.push(ActV::WaitPod)
            } else if attempt < STAGE_ATTEMPTS {
                a.push(ActV::Pause { secs: 5 }).push(ActV::WaitApi)
            } else {
                a.push(ActV::Pause { secs: 5 }).push(
                    failed(
                        "kubectl apply staging pod failed (attempt "@ + dec(attempt as nat)
                            + "): "@ + out.stderr@,
                    ),
                )
            }
        },
        Err(e) => idle().push(failed(e@)),
    }
}

/// After the pod that holds the bundle was to be applied.
pub fn stage_applied(attempt: usize, got: &ToolResult) -> (r: Vec<Act>)
    ensures
        acts(r@) == stage_apply(attempt, *got),
{
    let mut v = no_acts();
    match got {
        Ok(out) => {
            log_output(&mut v, out);
            if out.success {
                act(&mut v, Act::WaitPod);
            } else if attempt < STAGE_ATTEMPTS {
                act(&mut v, Act::Pause { secs: 5 });
                act(&mut v, Act::WaitApi);
            } else {
                act(&mut v, Act::Pause { secs: 5 });
                fail(
                    &mut v,
                    &lit("kubectl apply staging pod failed (attempt ").concat(
                        &usize_str(attempt),
                    ).concat("): ").concat(&out.stderr),
                );
            }
        },
        Err(e) => {
            fail(&mut v, e);
        },
    }
    v
}

/// A step in the pod: the next action where it went well, else the pod goes away
/// and the job fails.
pub open spec fn stage_next(got: ToolResult, next: ActV, error: Seq<char>) -> Seq<ActV> {
    match got {
        Ok(out) => {
            let a = printed(idle(), out);
            if out.success {
                a.push(next)
            } else {
                a.push(ActV::DeletePod { wait: false }).push(failed(error))
            }
        },
        Err(e) => idle().push(failed(e@)),
    }
}

/// After the pod was waited for.
pub fn stage_pod_ready(pod: &str, node: &str, got: &ToolResult) -> (r: Vec<Act>)
    ensures
        acts(r@) == stage_next(
            *got,
            ActV::CopyBundle,
            "staging pod "@ + pod@ + " not Ready on "@ + node@,
        ),
{
    let mut v = no_acts();
    match got {
        Ok(out) => {
            log_output(&mut v, out);
            if out.success {
                act(&mut v, Act::CopyBundle);
            } else {
                act(&mut v, Act::DeletePod { wait: false });
                fail(
                    &mut v,
                    &lit("staging pod ").concat(pod).concat(" not Ready on ").concat(node),
                );
            }
        },
        Err(e) => {
            fail(&mut v, e);
        },
    }
    v
}

/// What is done once the bundle was to be copied: both ends of the copy must
/// have gone well.
pub open spec fn stage_copy(node: Seq<char>, trust_path: Seq<char>, packed: bool, got: ToolResult) ->
    Seq<ActV> {
    match got {
        Ok(out) => {
            let a = printed(idle(), out);
            if out.success && packed {
                a.push(logged("install "@ + trust_path + " via /proc/1/root\n"@)).push(
                    ActV::InstallKey,
                )
            } else {
                a.push(ActV::DeletePod { wait: false }).push(
                    failed("copy OS bundle onto "@ + node + " failed"@),
                )
            }
        },
        Err(e) => idle().push(failed(e@)),
    }
}

/// After the bundle was to be copied; `packed` says that it was packed.
pub fn stage_copied(node: &str, trust_path: &str, packed: bool, got: &ToolResult) -> (r: Vec<Act>)
    ensures
        acts(r@) == stage_copy(node@, trust_path@, packed, *got),
{
    let mut v = no_acts();
    match got {
        Ok(out) => {
            log_output(&mut v, out);
            if out.success && packed {
                log(&mut v, &lit("install ").concat(trust_path).concat(" via /proc/1/root\n"));
                act(&mut v, Act::InstallKey);
            } else {
                act(&mut v, Act::DeletePod { wait: false });
                fail(&mut v, &lit("copy OS bundle onto ").concat(node).concat(" failed"));
            }
        },
        Err(e) => {
            fail(&mut v, e);
        },
    }
    v
}

/// What is done once the key was to be installed.
pub open spec fn stage_install(node: Seq<char>, host: Seq<char>, got: ToolResult) -> Seq<ActV> {
    match got {
        Ok(out) => {
            let a = printed(idle(), out);
            if out.success {
                a.push(ActV::DeletePod { wait: true }).push(
                    logged(
                        "staged bundle at "@ + host + " on "@ + node
                            + "; trust key installed\n"@,
                    ),
                ).push(ActV::Done)
            } else {
                a.push(ActV::DeletePod { wait: false }).push(
                    failed(
                        "failed to install os-trust.pk into PID 1 STATE on "@ + node + ": "@ + trim(
                            out.stdout@ + out.stderr@,
                        ),
                    ),
                )
            }
        },
        Err(e) => idle().push(failed(e@)),
    }
}

/// After the key was to be installed.
pub fn stage_installed(node: &str, host: &str, got: &ToolResult) -> (r: Vec<Act>)
    ensures
        acts(r@) == stage_install(node@, host@, *got),
{
    let mut v = no_acts();
    match got {
        Ok(out) => {
            log_output(&mut v, out);
            if out.success {
                act(&mut v, Act::DeletePod { wait: true });
                log(
                    &mut v,
                    &lit("staged bundle at ").concat(host).concat(" on ").concat(node).concat(
                        "; trust key installed\n",
                    ),
                );
                act(&mut v, Act::Done);
            } else {
                act(&mut v, Act::DeletePod { wait: false });
                fail(
                    &mut v,
                    &lit("failed to install os-trust.pk into PID 1 STATE on ").concat(
                        node,
                    ).concat(": ").concat(&str_trim(&cat(&out.stdout, &out.stderr))),
                );
            }
        },
        Err(e) => {
            fail(&mut v, e);
        },
    }
    v
}

/// A pod that was applied goes away in the end, also where a step in it failed.
pub proof fn law_staging_pod_goes_away(
    node: Seq<char>,
    host: Seq<char>,
    trust_path: Seq<char>,
    packed: bool,
    next: ActV,
    error: Seq<char>,
    out: CommandOutput,
)
    ensures
        !out.success ==> stage_next(Ok(out), next, error).contains(
            ActV::DeletePod { wait: false },
        ),
        !out.success || !packed ==> stage_copy(node, trust_path, packed, Ok(out)).contains(
            ActV::DeletePod { wait: false },
        ),
        stage_install(node, host, Ok(out)).contains(ActV::DeletePod { wait: out.success }),
{
    let a = stage_next(Ok(out), next, error);
    let b = stage_copy(node, trust_path, packed, Ok(out));
    let c = stage_install(node, host, Ok(out));
    if !out.success {
        assert(a[2] == (ActV::DeletePod { wait: false }));
    }
    if !out.success || !packed {
        assert(b[2] == (ActV::DeletePod { wait: false }));
    }
    assert(c[2] == (ActV::DeletePod { wait: out.success }));
}

// ---------------------------------------------------------------------------
// The upgrade agent on a node, step by step
// ---------------------------------------------------------------------------

/// How often the agent is applied.
pub const AGENT_ATTEMPTS: usize = 8;

/// What is done once the agent was to be applied for the `attempt`th time. After
/// the last time the kubelet is asked whether it has the version all the same.
pub open spec fn agent_apply(attempt: usize, got: ToolResult) -> Seq<ActV> {
    match got {
        Ok(out) => {
            let a = printed(idle(), out);
            if out.success {
                a.push(ActV::KubeletVersion)
            } else {
                let b = a.push(
                    logged(
                        "upgrade agent apply attempt "@ + dec(attempt as nat)
                            + "/8 failed; retrying after API wait\n"@,
                    ),
                ).push(ActV::Pause { secs: 5 });
                if attempt < AGENT_ATTEMPTS {
                    b.push(ActV::WaitApi)
                } else {
                    b.push(ActV::KubeletVersion)
                }
            }
        },
        Err(e) => idle().push(failed(e@)),
    }
}

/// After the agent was to be applied.
pub fn agent_applied(attempt: usize, got: &ToolResult) -> (r: Vec<Act>)
    ensures
        acts(r@) == agent_apply(attempt, *got),
{
    let mut v = no_acts();
    match got {
        Ok(out) => {
            log_output(&mut v, out);
            if out.success {
                act(&mut v, Act::KubeletVersion);
            } else {
                log(
                    &mut v,
                    &lit("upgrade agent apply attempt ").concat(&usize_str(attempt)).concat(
                        "/8 failed; retrying after API wait\n",
                    ),
                );
                act(&mut v, Act::Pause { secs: 5 });
                if attempt < AGENT_ATTEMPTS {
                    act(&mut v, Act::WaitApi);
                } else {
                    act(&mut v, Act::KubeletVersion);
                }
            }
        },
        Err(e) => {
            fail(&mut v, e);
        },
    }
    v
}

/// What is done where the agent could not be applied: all is well if the kubelet
/// has the version.
pub open spec fn agent_unapply(
    node: Seq<char>,
    want: Seq<char>,
    running: Option<Seq<char>>,
    said: Seq<char>,
) -> Seq<ActV> {
    if running == Some(want) {
        idle().push(
            logged(
                "upgrade agent apply failed but kubelet already "@ + want + " on "@ + node
                    + " — continuing\n"@,
            ),
        ).push(ActV::Done)
    } else {
        idle().push(failed("failed to create upgrade agent pod on "@ + node + ": "@ + said))
    }
}

/// After the kubelet was asked where the agent could not be applied; `said` is
/// what the last try printed.
pub fn agent_not_applied(node: &str, want: &str, running: &Option<String>, said: &str) -> (r: Vec<
    Act,
>)
    ensures
        acts(r@) == agent_unapply(node@, want@, opt_text(*running), said@),
{
    let mut v = no_acts();
    if agent_needed(running, want) {
        fail(
            &mut v,
            &lit("failed to create upgrade agent pod on ").concat(node).concat(": ").concat(said),
        );
    } else {
        log(
            &mut v,
            &lit("upgrade agent apply failed but kubelet already ").concat(want).concat(
                " on ",
            ).concat(node).concat(" — continuing\n"),
        );
        act(&mut v, Act::Done);
    }
    v
}

/// What is done in a round of the wait for the agent, once the kubelet was
/// asked: all is well if it has the version, else the pod is asked.
pub open spec fn agent_look(node: Seq<char>, want: Seq<char>, running: Option<Seq<char>>) -> Seq<
    ActV,
> {
    if running == Some(want) {
        idle().push(
            logged("upgrade agent on "@ + node + ": kubelet already "@ + want + "\n"@),
        ).push(ActV::PodLogs)
    } else {
        idle().push(ActV::PodPhase)
    }
}

/// After the kubelet was asked in a round of the wait.
pub fn agent_looked(node: &str, want: &str, running: &Option<String>) -> (r: Vec<Act>)
    ensures
        acts(r@) == agent_look(node@, want@, opt_text(*running)),
{
    let mut v = no_acts();
    if agent_needed(running, want) {
        act(&mut v, Act::PodPhase);
    } else {
        log(
            &mut v,
            &lit("upgrade agent on ").concat(node).concat(": kubelet already ").concat(
                want,
            ).concat("\n"),
        );
        act(&mut v, Act::PodLogs);
    }
    v
}

/// What is done once the pod was asked: it is over, or asked again after a while
/// unless the time is over.
pub open spec fn agent_phase(phase: Option<Seq<char>>, over: bool) -> Seq<ActV> {
    if phase == Some("Succeeded"@) || phase == Some("Failed"@) {
        idle().push(ActV::PodLogs)
    } else if over {
        idle().push(ActV::Pause { secs: 3 }).push(ActV::PodLogs)
    } else {
        idle().push(ActV::Pause { secs: 3 }).push(ActV::KubeletVersion)
    }
}

/// After the pod was asked for its phase; `over` says that the time is over
/// after the pause.
pub fn agent_phase_read(phase: &Option<String>, over: bool) -> (r: Vec<Act>)
    ensures
        acts(r@) == agent_phase(opt_text(*phase), over),
{
    let mut v = no_acts();
    if opt_eq(phase, "Succeeded") || opt_eq(phase, "Failed") {
        act(&mut v, Act::PodLogs);
        return v;
    }
    act(&mut v, Act::Pause { secs: 3 });
    if over {
        act(&mut v, Act::PodLogs);
    } else {
        act(&mut v, Act::KubeletVersion);
    }
    v
}

/// The end of an agent: its pod goes away, and the log says how it went. The
/// kubelet, not the pod, decides whether the upgrade worked.
pub open spec fn agent_end(node: Seq<char>, phase: Seq<char>) -> Seq<ActV> {
    idle().push(ActV::DeletePod { wait: false }).push(
        logged(
            if phase != "Succeeded"@ {
                "upgrade agent on "@ + node + " phase="@ + phase
                    + " (ok if kubelet version matches next)\n"@
            } else {
                "upgrade agent on "@ + node + " succeeded\n"@
            },
        ),
    ).push(ActV::Done)
}

/// After the log of the agent was copied; `phase` is the last that was seen.
pub fn agent_over(node: &str, phase: &str) -> (r: Vec<Act>)
    ensures
        acts(r@) == agent_end(node@, phase@),
{
    let mut v = no_acts();
    act(&mut v, Act::DeletePod { wait: false });
    if !str_eq(phase, "Succeeded") {
        log(
            &mut v,
            &lit("upgrade agent on ").concat(node).concat(" phase=").concat(phase).concat(
                " (ok if kubelet version matches next)\n",
            ),
        );
    } else {
        log(&mut v, &lit("upgrade agent on ").concat(node).concat(" succeeded\n"));
    }
    act(&mut v, Act::Done);
    v
}

// ---------------------------------------------------------------------------
// What the agents are told
// ---------------------------------------------------------------------------

/// The calls about a pod all name that pod, in its namespace: it is waited for,
/// unpacked into, asked for its phase and its log, and deleted.
pub proof fn law_calls_name_the_pod(pod: Seq<char>, wait: bool)
    ensures
        wait_pod_args(pod).contains("pod/"@ + pod) && wait_pod_args(pod)[0] == "wait"@,
        unpack_args(pod)[0] == "exec"@ && unpack_args(pod)[4] == pod && unpack_args(pod)[6]
            == "tar"@,
        install_key_args(pod)[0] == "exec"@ && install_key_args(pod)[3] == pod,
        pod_phase_args(pod).take(5) == seq!["get"@, "pod"@, "-n"@, "kube-system"@, pod],
        pod_logs_args(pod).take(4) == seq!["logs"@, "-n"@, "kube-system"@, pod],
        delete_pod_args(pod, wait).take(5) == seq!["delete"@, "pod"@, pod, "-n"@, "kube-system"@],
        delete_pod_args(pod, true).contains("--wait=true"@),
        delete_pod_args(pod, false).contains("--wait=false"@),
        !delete_pod_args(pod, false).contains("--wait=true"@) || pod == "--wait=true"@,
{
    let w = wait_pod_args(pod);
    assert(w[2] == "pod/"@ + pod);
    assert(pod_phase_args(pod).take(5) =~= seq!["get"@, "pod"@, "-n"@, "kube-system"@, pod]);
    assert(pod_logs_args(pod).take(4) =~= seq!["logs"@, "-n"@, "kube-system"@, pod]);
    assert(delete_pod_args(pod, wait).take(5) =~= seq![
        "delete"@,
        "pod"@,
        pod,
        "-n"@,
        "kube-system"@,
    ]);
    let t = delete_pod_args(pod, true);
    let f = delete_pod_args(pod, false);
    assert(t[6] == "--wait=true"@);
    assert(f[6] == "--wait=false"@);
    reveal_strlit("delete");
    reveal_strlit("pod");
    reveal_strlit("-n");
    reveal_strlit("kube-system");
    reveal_strlit("--ignore-not-found=true");
    reveal_strlit("--wait=true");
    reveal_strlit("--wait=false");
    assert("delete"@.len() == 6);
    assert("pod"@.len() == 3);
    assert("-n"@.len() == 2);
    assert("kube-system"@.len() == 11);
    assert("--ignore-not-found=true"@.len() == 23);
    assert("--wait=true"@.len() == 11);
    assert("--wait=false"@.len() == 12);
    assert("kube-system"@[0] == 'k' && "--wait=true"@[0] == '-');
}

/// The agent that replaces the kubelet is told the version, and to change the
/// control plane exactly on a control plane.
pub proof fn law_agent_is_told(version: Seq<char>, control_plane: bool)
    ensures
        exists|head: Seq<char>, tail: Seq<char>|
            #![trigger head + tail]
            agent_script(version, control_plane) == head + version + "\"\nCP=\""@ + (
            if control_plane {
                "1"@
            } else {
                "0"@
            }) + tail && head == "set -eu\napk add --no-cache curl >/dev/null\nVER=\""@,
        agent_script(version, true) != agent_script(version, false),
{
    let head = "set -eu\napk add --no-cache curl >/dev/null\nVER=\""@;
    let front = head + version + "\"\nCP=\""@;
    let s = agent_script(version, control_plane);
    reveal_strlit("1");
    reveal_strlit("0");
    let one = agent_script(version, true);
    let zero = agent_script(version, false);
    assert(one[front.len() as int] == '1');
    assert(zero[front.len() as int] == '0');
    let tail = s.skip(front.len() as int + 1);
    assert((head + tail).len() >= 0);
    assert(s =~= front + (if control_plane {
        "1"@
    } else {
        "0"@
    }) + tail);
}

/// The pods are put on the node that is meant, and hold what is meant for it.
pub proof fn law_pods_are_put_on_their_node(
    pod: Seq<char>,
    node: Seq<char>,
    host: Seq<char>,
    version: Seq<char>,
    control_plane: bool,
)
    ensures
        contains(
            stage_pod(pod, node, host),
            "\nspec:\n  nodeName: "@ + node + "\n  hostPID: true\n"@,
        ),
        contains(stage_pod(pod, node, host), "\n      path: "@ + host + "\n"@),
        contains(
            agent_pod(pod, node, version, control_plane),
            "\nspec:\n  nodeName: "@ + node + "\n  hostNetwork: true\n"@,
        ),
        contains(
            agent_pod(pod, node, version, control_plane),
            join(indented(lines(agent_script(version, control_plane))), "\n"@),
        ),
{
    lemma_stage_node(pod, node, host);
    lemma_agent_node(pod, node, version, control_plane);
}
proof fn lemma_stage_node(pod: Seq<char>, node: Seq<char>, host: Seq<char>)
    ensures
        contains(
            stage_pod(pod, node, host),
            "\nspec:\n  nodeName: "@ + node + "\n  hostPID: true\n"@,
        ),
        contains(stage_pod(pod, node, host), "\n      path: "@ + host + "\n"@),
{
    let y = stage_pod(pod, node, host);
    let l1 = "apiVersion: v1\nkind: Pod\nmetadata:\n  name: "@;
    let l2 = "\n  namespace: kube-system\n  labels:\n    app: pertisk-os-upgrade\nspec:\n  nodeName: "@;
    let l3 = "\n  hostPID: true\n  restartPolicy: Never\n  tolerations:\n  - operator: Exists\n  containers:\n  - name: stage\n    image: alpine:3.20\n    imagePullPolicy: IfNotPresent\n    securityContext:\n      privileged: true\n    command: [\"sleep\", \"600\"]\n    volumeMounts:\n    - name: bundle\n      mountPath: /bundle\n  volumes:\n  - name: bundle\n    hostPath:\n      path: "@;
    let l4 = "\n      type: DirectoryOrCreate\n"@;
    let s2 = "\nspec:\n  nodeName: "@;
    let p3 = "\n  hostPID: true\n"@;
    let s3 = "\n      path: "@;
    let p4 = "\n"@;
    reveal_strlit("\n  namespace: kube-system\n  labels:\n    app: pertisk-os-upgrade\nspec:\n  nodeName: ");
    reveal_strlit("\n  hostPID: true\n  restartPolicy: Never\n  tolerations:\n  - operator: Exists\n  containers:\n  - name: stage\n    image: alpine:3.20\n    imagePullPolicy: IfNotPresent\n    securityContext:\n      privileged: true\n    command: [\"sleep\", \"600\"]\n    volumeMounts:\n    - name: bundle\n      mountPath: /bundle\n  volumes:\n  - name: bundle\n    hostPath:\n      path: ");
    reveal_strlit("\n      type: DirectoryOrCreate\n");
    reveal_strlit("\nspec:\n  nodeName: ");
    reveal_strlit("\n  hostPID: true\n");
    reveal_strlit("\n      path: ");
    reveal_strlit("\n");
    let a2 = l2.take(l2.len() - s2.len());
    assert(l2 =~= a2 + s2);
    let r3 = l3.skip(p3.len() as int);
    assert(l3 =~= p3 + r3);
    let a3 = l3.take(l3.len() - s3.len());
    assert(l3 =~= a3 + s3);
    let r4 = l4.skip(1);
    assert(l4 =~= p4 + r4);
    assert(y =~= (l1 + pod + a2) + (s2 + node + p3) + (r3 + host + l4));
    law_parts_are_found(l1 + pod + a2, s2 + node + p3, r3 + host + l4);
    assert(y =~= (l1 + pod + l2 + node + a3) + (s3 + host + p4) + r4);
    law_parts_are_found(l1 + pod + l2 + node + a3, s3 + host + p4, r4);
}

proof fn lemma_agent_node(
    pod: Seq<char>,
    node: Seq<char>,
    version: Seq<char>,
    control_plane: bool,
)
    ensures
        contains(
            agent_pod(pod, node, version, control_plane),
            "\nspec:\n  nodeName: "@ + node + "\n  hostNetwork: true\n"@,
        ),
        contains(
            agent_pod(pod, node, version, control_plane),
            join(indented(lines(agent_script(version, control_plane))), "\n"@),
        ),
{
    let y = agent_pod(pod, node, version, control_plane);
    let script = join(indented(lines(agent_script(version, control_plane))), "\n"@);
    let l1 = "apiVersion: v1\nkind: Pod\nmetadata:\n  name: "@;
    let l2 = "\n  namespace: kube-system\n  labels:\n    app: pertisk-upgrade-agent\nspec:\n  nodeName: "@;
    let l3 = "\n  hostNetwork: true\n  hostPID: true\n  restartPolicy: Never\n  tolerations:\n  - operator: Exists\n  containers:\n  - name: upgrade\n    image: alpine:3.20\n    imagePullPolicy: IfNotPresent\n    securityContext:\n      privileged: true\n    volumeMounts:\n    - name: manifests\n      mountPath: /host/manifests\n    - name: bin\n      mountPath: /host/bin\n    command: [\"/bin/sh\", \"-c\"]\n    args:\n      - |\n"@;
    let l4 = "\n  volumes:\n  - name: manifests\n    hostPath:\n      path: /etc/kubernetes/manifests\n      type: DirectoryOrCreate\n  - name: bin\n    hostPath:\n      path: /usr/local/bin\n      type: Directory\n"@;
    let s2 = "\nspec:\n  nodeName: "@;
    let p3 = "\n  hostNetwork: true\n"@;
    reveal_strlit("\n  namespace: kube-system\n  labels:\n    app: pertisk-upgrade-agent\nspec:\n  nodeName: ");
    reveal_strlit("\n  hostNetwork: true\n  hostPID: true\n  restartPolicy: Never\n  tolerations:\n  - operator: Exists\n  containers:\n  - name: upgrade\n    image: alpine:3.20\n    imagePullPolicy: IfNotPresent\n    securityContext:\n      privileged: true\n    volumeMounts:\n    - name: manifests\n      mountPath: /host/manifests\n    - name: bin\n      mountPath: /host/bin\n    command: [\"/bin/sh\", \"-c\"]\n    args:\n      - |\n");
    reveal_strlit("\nspec:\n  nodeName: ");
    reveal_strlit("\n  hostNetwork: true\n");
    let a2 = l2.take(l2.len() - s2.len());
    assert(l2 =~= a2 + s2);
    let r3 = l3.skip(p3.len() as int);
    assert(l3 =~= p3 + r3);
    assert(y =~= (l1 + pod + a2) + (s2 + node + p3) + (r3 + script + l4));
    law_parts_are_found(l1 + pod + a2, s2 + node + p3, r3 + script + l4);
    assert(y =~= (l1 + pod + l2 + node + l3) + script + l4);
    law_parts_are_found(l1 + pod + l2 + node + l3, script, l4);
}

/// A call that failed is tried again a few times only; one that went well is not
/// tried again.
pub proof fn law_attempts_end(attempt: usize, out: CommandOutput)
    ensures
        ({
            let s = stage_apply(attempt, Ok(out));
            let a = agent_apply(attempt, Ok(out));
            &&& out.success ==> s.last() is WaitPod && a.last() is KubeletVersion
            &&& !out.success && attempt < 6 ==> s.last() is WaitApi
            &&& !out.success && attempt >= 6 ==> s.last() is Fail
            &&& !out.success && attempt < 8 ==> a.last() is WaitApi
            &&& !out.success && attempt >= 8 ==> a.last() is KubeletVersion
        }),
{
}

/// An agent is done with once its pod has ended, or the version is there, or the
/// time is over; until then it is looked at again.
pub proof fn law_agent_is_looked_at(
    node: Seq<char>,
    want: Seq<char>,
    running: Option<Seq<char>>,
    phase: Option<Seq<char>>,
    over: bool,
)
    ensures
        agent_look(node, want, running).last() is PodLogs <==> running == Some(want),
        agent_look(node, want, running).last() is PodPhase <==> running != Some(want),
        agent_phase(phase, over).last() is PodLogs <==> over || phase == Some("Succeeded"@) || phase
            == Some("Failed"@),
        agent_phase(phase, over).last() is KubeletVersion <==> !over && phase != Some("Succeeded"@)
            && phase != Some("Failed"@),
        agent_unapply(node, want, running, Seq::empty()).last() is Done <==> running == Some(want),
        agent_unapply(node, want, running, Seq::empty()).last() is Fail <==> running != Some(want),
{
}

} // verus!
