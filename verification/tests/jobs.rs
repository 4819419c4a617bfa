//! Background jobs.
use pertisk_mgmt::jobs::action::Act;
use pertisk_mgmt::jobs::agent::{
    AGENT_ATTEMPTS, STAGE_ATTEMPTS, agent_applied, agent_looked, agent_not_applied,
    agent_phase_read, install_key_arguments, read_pod_phase, render_agent_pod, render_stage_pod,
    stage_applied, stage_copied, stage_installed, stage_pod_ready,
};
use pertisk_mgmt::jobs::create::{
    StaticInput, create_arguments, create_vmid, plan_nodes, static_env,
};
use pertisk_mgmt::jobs::creation::{
    CreateJob, NodeKey, Touch, allows_stub, create_begin, create_kubeconfig_found, create_ran,
    create_restored, touch_node_progress,
};
use pertisk_mgmt::jobs::join::{AddJob, Joining, add_begin, add_counted, add_ran};
use pertisk_mgmt::jobs::lab::{create_hypervisor, provider_env};
use pertisk_mgmt::jobs::node_upgrade::{MARK_ATTEMPTS, OsNodeJob, os_begin, os_marked};
use pertisk_mgmt::jobs::nodes::{
    DiskStep, Hardware, add_request, check_removal, counts_after_removal, plan_disk, purge_vmids,
    reboot_result, resize_plan,
};
use pertisk_mgmt::jobs::os_walk::{OsBundle, OsEvent, OsPhase, OsWalk, os_next};
use pertisk_mgmt::jobs::progress::{Progress, create_log_progress, extract_kv};
use pertisk_mgmt::jobs::provider::{
    gateway_from_subnet, ip_from_provider_url, parse_default_gateway, proxmox_ssh_host,
    pve_host_from_url, rewrite_proxmox_ssh_for_provider, subnet_from_provider_ip,
};
use pertisk_mgmt::jobs::removal::{RemovalJob, deleted_note, machines_to_delete, removal_begin};
use pertisk_mgmt::jobs::resize::{
    ResizeEvent, ResizeJob, Resizing, resize_begin, resize_measured, resize_next,
};
use pertisk_mgmt::jobs::rounds::{
    GROW_ROUNDS, GrowWait, Round, cp_step_note, etcd_recovered, grow_answered, grow_wait,
    offline_grow_begin, os_upgrade_begin, recover_etcd_on_cp1, round_answered, round_begin,
    upgrade_note, upgrade_version, worker_step_note,
};
use pertisk_mgmt::jobs::rows::{ClusterRow, EnvOp, ProviderRow};
use pertisk_mgmt::jobs::scan::scan_network;
use pertisk_mgmt::jobs::sched::{
    JobKind, MAX_PARALLEL_ADDON_JOBS, QueuedJob, job_can_start, job_outcome, scan_queue,
};
use pertisk_mgmt::jobs::upgrade::{
    ApiWait, api_reached_note, apply_result, https_cp_servers, normalize_k8s_version,
    plan_os_upgrade, plan_upgrade, provider_kind_is_nutanix, update_config_text,
};
use pertisk_mgmt::jobs::walk::{UpgradeEvent, UpgradePhase, UpgradeWalk, upgrade_next};
use pertisk_mgmt::json::Json;
use pertisk_mgmt::k8s::kubectl::CommandOutput;

fn json_of(v: &serde_json::Value) -> Json {
    match v {
        serde_json::Value::Null => Json::Null,
        serde_json::Value::Bool(b) => Json::Bool(*b),
        serde_json::Value::Number(n) => match (n.as_i64(), n.as_u64()) {
            (Some(i), _) => Json::Int(i),
            (None, Some(u)) => Json::Big(u, n.as_f64().map_or(String::new(), |f| f.to_string())),
            _ => Json::Real(n.as_f64().map_or(String::new(), |f| f.to_string())),
        },
        serde_json::Value::String(s) => Json::Str(s.clone()),
        serde_json::Value::Array(a) => Json::Arr(a.iter().map(json_of).collect()),
        serde_json::Value::Object(o) => {
            Json::Obj(o.iter().map(|(k, x)| (k.clone(), json_of(x))).collect())
        }
    }
}

fn doc(text: &str) -> Json {
    json_of(&serde_json::from_str(text).unwrap())
}

fn cluster() -> ClusterRow {
    ClusterRow {
        id: "c".into(),
        name: "lab".into(),
        provider_id: "p".into(),
        controlplanes: 3,
        workers: 2,
        vip: Some("10.1.1.200".into()),
        vip6: None,
        cni: "cilium".into(),
        k8s_version: "v1.36.3".into(),
        cp_memory: 4096,
        cp_cores: 2,
        cp_disk_gb: 50,
        worker_memory: 8192,
        worker_cores: 4,
        worker_disk_gb: 75,
        cp_vmid: Some(300),
        network_mode: "ipv4".into(),
        max_pods: 250,
        arch: "amd64".into(),
        pod_subnet: "10.244.0.0/16".into(),
        service_subnet: "10.96.0.0/12".into(),
        pod_subnet_ipv6: None,
        service_subnet_ipv6: None,
    }
}

fn provider(kind: &str, url: &str) -> ProviderRow {
    ProviderRow {
        id: "p".into(),
        kind: kind.into(),
        url: url.into(),
        token_id: "root@pam!t".into(),
        token_secret_enc: String::new(),
        node: "pve".into(),
        storage: "local".into(),
        bridge: "vmbr0".into(),
        insecure: 1,
    }
}

fn strings(v: &[&str]) -> Vec<String> {
    v.iter().map(|s| s.to_string()).collect()
}

fn env(pairs: &[(&str, &str)]) -> Vec<(String, String)> {
    pairs
        .iter()
        .map(|(k, v)| (k.to_string(), v.to_string()))
        .collect()
}

fn output(success: bool, stdout: &str, stderr: &str) -> CommandOutput {
    CommandOutput {
        success,
        stdout: stdout.into(),
        stderr: stderr.into(),
    }
}

fn error_of(v: &[Act]) -> String {
    match v.last() {
        Some(Act::Fail { error }) => error.clone(),
        other => panic!("{other:?}"),
    }
}

fn follows(args: &[String], key: &str, value: &str) -> bool {
    args.windows(2).any(|w| w[0] == key && w[1] == value)
}

// ---------------------------------------------------------------------------
// Providers
// ---------------------------------------------------------------------------

#[test]
fn pve_host_from_url_strips_scheme_and_port() {
    assert_eq!(
        pve_host_from_url("https://10.1.1.195:8006"),
        Some("10.1.1.195".into())
    );
    assert_eq!(
        pve_host_from_url("https://pve.example/"),
        Some("pve.example".into())
    );
}

#[test]
fn proxmox_ssh_host_parses_user_at_host() {
    assert_eq!(
        proxmox_ssh_host("root@10.1.1.196"),
        Some("10.1.1.196".into())
    );
    assert_eq!(
        proxmox_ssh_host("root@10.1.1.196:22"),
        Some("10.1.1.196".into())
    );
}

#[test]
fn rewrite_proxmox_ssh_uses_provider_host() {
    assert_eq!(
        rewrite_proxmox_ssh_for_provider("root@10.1.1.196", "https://10.1.1.195:8006"),
        Some("root@10.1.1.195".into())
    );
    assert_eq!(
        rewrite_proxmox_ssh_for_provider("admin@10.1.1.196:22", "https://10.1.1.195:8006"),
        Some("admin@10.1.1.195".into())
    );
    assert_eq!(
        rewrite_proxmox_ssh_for_provider("root@10.1.1.195", "https://10.1.1.195:8006"),
        None
    );
    assert_eq!(
        rewrite_proxmox_ssh_for_provider("root@pve-a", "https://pve-b:8006"),
        Some("root@pve-b".into())
    );
}

#[test]
fn addresses_of_a_provider() {
    assert_eq!(
        ip_from_provider_url("https://10.1.1.195:8006").as_deref(),
        Some("10.1.1.195")
    );
    assert_eq!(
        subnet_from_provider_ip("10.1.1.195").as_deref(),
        Some("10.1.1.0/24")
    );
    assert_eq!(gateway_from_subnet("10.1.1.0/24").as_deref(), Some("10.1.1.1"));
    assert_eq!(
        parse_default_gateway("default via 10.1.1.254 dev eth0\n").as_deref(),
        Some("10.1.1.254")
    );
    assert_eq!(parse_default_gateway("10.1.1.0/24 dev eth0\n"), None);
}

#[test]
fn scripts_get_the_provider() {
    let ops = provider_env(
        &provider("proxmox", "https://10.1.1.195:8006/"),
        "s3cret",
        create_hypervisor("proxmox"),
    );
    let has = |k: &str, v: &str| ops.contains(&EnvOp::Assign(k.into(), v.into()));
    assert!(has("PROXMOX_URL", "https://10.1.1.195:8006/"));
    assert!(has("PROXMOX_TOKEN_SECRET", "s3cret"));
    assert!(has("PROXMOX_MAC_SALT", "https://10.1.1.195:8006|pve"));
    assert!(has("PROXMOX_INSECURE", "1"));
    let ops = provider_env(&provider("nutanix", "https://n"), "pw", create_hypervisor("nutanix"));
    assert!(ops.contains(&EnvOp::Assign("NUTANIX_PASSWORD".into(), "pw".into())));
}

// ---------------------------------------------------------------------------
// Which job may start
// ---------------------------------------------------------------------------

#[test]
fn addon_install_starts_while_other_cluster_create_runs() {
    let running = vec![(Some("a".into()), "create_cluster".into())];
    assert!(job_can_start("install_addon", Some("b"), &running));
    assert!(!job_can_start("install_addon", Some("a"), &running));
    assert!(job_can_start("create_cluster", Some("b"), &running));
    assert!(!job_can_start("add_node", Some("a"), &running));
}

#[test]
fn two_addons_can_run_in_parallel() {
    let running = vec![
        (Some("a".into()), "install_addon".into()),
        (Some("b".into()), "install_addon".into()),
    ];
    assert!(job_can_start("install_addon", Some("a"), &running));
    assert!(job_can_start("install_addon", Some("c"), &running));
    assert!(job_can_start("create_cluster", Some("d"), &running));
    assert!(!job_can_start("create_cluster", Some("a"), &running));
}

#[test]
fn exclusive_jobs_run_in_parallel_across_clusters() {
    let running = vec![(Some("a".into()), "create_cluster".into())];
    assert!(job_can_start("create_cluster", Some("b"), &running));
    assert!(job_can_start("add_node", Some("b"), &running));
    assert!(job_can_start("upgrade_cluster", Some("c"), &running));
    assert!(!job_can_start("upgrade_cluster", Some("a"), &running));
    assert!(!job_can_start("add_node", Some("a"), &running));
}

#[test]
fn delete_can_start_on_same_cluster_while_create_aborts() {
    let running = vec![(Some("a".into()), "create_cluster".into())];
    assert!(job_can_start("delete_cluster", Some("a"), &running));
    assert!(job_can_start("delete_cluster", Some("b"), &running));
}

#[test]
fn nothing_starts_while_a_cluster_is_deleted() {
    let running = vec![(Some("a".into()), "delete_cluster".into())];
    assert!(!job_can_start("create_cluster", Some("a"), &running));
    assert!(!job_can_start("install_addon", Some("a"), &running));
    assert!(job_can_start("create_cluster", Some("b"), &running));
}

#[test]
fn addons_are_limited() {
    let running: Vec<_> = (0..MAX_PARALLEL_ADDON_JOBS)
        .map(|i| (Some(i.to_string()), "install_addon".to_string()))
        .collect();
    assert!(!job_can_start("install_addon", Some("z"), &running));
    assert!(job_can_start("add_node", Some("z"), &running));
}

#[test]
fn queue_takes_the_first_that_may_start() {
    let job = |id: &str, cid: &str, kind: &str| QueuedJob {
        id: id.into(),
        cluster_id: Some(cid.into()),
        kind: kind.into(),
        cluster_status: Some("ready".into()),
    };
    let rows = vec![job("1", "a", "add_node"), job("2", "b", "add_node")];
    let running = vec![(Some("a".to_string()), "upgrade_cluster".to_string())];
    let plan = scan_queue(&rows, &running, 0);
    assert_eq!(plan.claim, Some(1));
}

#[test]
fn failed_maintenance_keeps_the_cluster_ready() {
    let out = job_outcome("add_node", true, Some("boom".into()));
    assert_eq!(out.status, "failed");
    assert_eq!(out.error.as_deref(), Some("boom"));
    let change = out.cluster.unwrap();
    assert_eq!(change.status, "ready");
    let out = job_outcome("create_cluster", true, Some("boom".into()));
    assert_eq!(out.cluster.unwrap().status, "error");
    assert_eq!(JobKind::parse("add_node"), Ok(JobKind::AddNode));
    assert!(JobKind::parse("dance").is_err());
}

// ---------------------------------------------------------------------------
// Creating
// ---------------------------------------------------------------------------

#[test]
fn nodes_of_a_new_cluster() {
    let seeds = plan_nodes(&cluster());
    let names: Vec<_> = seeds.iter().map(|s| (s.name.as_str(), s.vmid)).collect();
    assert_eq!(
        names,
        [
            ("lab-cp-1", Some(300)),
            ("lab-cp-2", Some(301)),
            ("lab-cp-3", Some(302)),
            ("lab-wk-1", Some(303)),
            ("lab-wk-2", Some(304)),
        ]
    );
    assert_eq!(seeds[0].memory, 4096);
    assert_eq!(seeds[4].memory, 8192);
}

#[test]
fn arguments_of_a_creation() {
    let args = create_arguments(&cluster(), 300, "amd64");
    assert_eq!(args[0], "--skip-build");
    assert!(follows(&args, "--controlplanes", "3"));
    assert!(follows(&args, "--vip", "10.1.1.200"));
    assert!(follows(&args, "--arch", "amd64"));
    assert!(!args.contains(&"--dual-stack".to_string()));
    let single = ClusterRow {
        controlplanes: 1,
        network_mode: "dual-stack".into(),
        ..cluster()
    };
    let args = create_arguments(&single, 300, "arm64");
    assert!(!args.contains(&"--vip".to_string()));
    assert!(args.contains(&"--dual-stack".to_string()));
    assert_eq!(create_vmid(&ClusterRow { cp_vmid: None, ..cluster() }, &doc("{}")), 210);
}

fn creation() -> CreateJob {
    CreateJob {
        cluster: cluster(),
        vmid: 300,
        arch: "amd64".into(),
        script: "/s/up.sh".into(),
    }
}

#[test]
fn creation_runs_the_script() {
    let v = create_begin(&creation(), true, false);
    assert_eq!(
        v[0],
        Act::Log {
            text: "$ \"/s/up.sh\"\n".into()
        }
    );
    assert_eq!(
        v[1],
        Act::Log {
            text: "create cluster=lab arch=amd64 cps=3 workers=2 k8s=v1.36.3 network=ipv4 \
                   pod=10.244.0.0/16 svc=10.96.0.0/12 vip=Some(\"10.1.1.200\") vip6=None\n"
                .into()
        }
    );
    assert!(matches!(v.last(), Some(Act::Script { .. })));
    let ran = create_ran(&Ok(()));
    assert_eq!(ran, vec![Act::ResolveKubeconfig]);
    let kc = "    server: https://10.1.1.31:6443\n".to_string();
    let found = create_kubeconfig_found(&cluster(), &Ok(kc));
    assert_eq!(
        found[0],
        Act::ClusterCreated {
            endpoint: "10.1.1.31".into()
        }
    );
    assert_eq!(create_restored(&Ok(vec![])), vec![Act::Done]);
}

#[test]
fn creation_without_script() {
    let v = create_begin(&creation(), false, false);
    assert!(error_of(&v).starts_with("lab-up script not found at /s/up.sh\n"));
    assert!(v.contains(&Act::NodesFailed));
    let v = create_begin(&creation(), false, true);
    assert_eq!(v.last(), Some(&Act::Done));
    assert!(allows_stub(&env(&[("MGMT_ALLOW_LAB_STUB", "TRUE")])));
    assert!(!allows_stub(&env(&[("MGMT_ALLOW_LAB_STUB", "yes")])));
    assert_eq!(
        error_of(&create_ran(&Err("exit status: 3".into()))),
        "lab-up exited with exit status: 3"
    );
}

#[test]
fn rows_are_not_doubled() {
    let rows = vec![NodeKey {
        name: "lab-cp-1".into(),
        vmid: Some(300),
    }];
    assert_eq!(touch_node_progress(&rows, "lab-cp-1", None), Touch::Name);
    assert_eq!(touch_node_progress(&rows, "other", Some(300)), Touch::Number);
    assert_eq!(touch_node_progress(&rows, "other", Some(301)), Touch::Insert);
}

#[test]
fn log_lines_show_progress() {
    assert_eq!(extract_kv("VMID=300 name=lab-cp-1", "VMID").as_deref(), Some("300"));
    assert_eq!(create_log_progress("lab", "hello"), Progress::Nothing);
}

#[test]
fn addresses_for_a_new_cluster() {
    let input = StaticInput {
        kind: "proxmox".into(),
        subnet: "10.1.1.0/24".into(),
        need: 2,
        env: env(&[]),
        route_gateway: None,
        excluded: strings(&["10.1.1.195"]),
    };
    let free = strings(&["10.1.1.10", "10.1.1.11", "10.1.1.12"]);
    let (ops, note) = static_env(&input, &free);
    assert!(ops.contains(&EnvOp::Assign(
        "PROXMOX_STATIC_IPS".into(),
        "10.1.1.10 10.1.1.11".into()
    )));
    assert!(ops.contains(&EnvOp::Assign(
        "PROXMOX_STATIC_GATEWAY".into(),
        "10.1.1.1".into()
    )));
    assert!(note.contains("gateway=10.1.1.1"));
    let (ops, _) = static_env(&input, &vec![]);
    assert_eq!(
        ops,
        vec![EnvOp::Assign(
            "PROXMOX_STATIC_EXCLUDE".into(),
            "10.1.1.195".into()
        )]
    );
}

#[test]
fn networks_are_scanned() {
    let plan = scan_network("10.1.1.0/29", 2, &strings(&["10.1.1.3"]))
        .unwrap()
        .unwrap();
    assert_eq!(plan.prefix, 29);
    assert!(!plan.targets.iter().any(|t| t.starts_with("10.1.1.3")));
    assert!(plan.targets.iter().all(|t| t.starts_with("10.1.1.")));
    assert!(!plan.targets.is_empty());
    assert!(matches!(scan_network("nonsense", 2, &vec![]), Some(Err(_))));
}

// ---------------------------------------------------------------------------
// Adding, removing and resizing nodes
// ---------------------------------------------------------------------------

fn addition(count: i64) -> AddJob {
    AddJob {
        cluster: cluster(),
        request: add_request(&cluster(), &doc(&format!("{{\"role\":\"worker\",\"count\":{count}}}"))),
        cp_ip: "10.1.1.31".into(),
        cluster_out: "/out".into(),
        bridge: "vmbr0".into(),
        script: "/s/add.sh".into(),
    }
}

#[test]
fn added_node_is_stored_before_the_script_runs() {
    let j = addition(1);
    assert!(error_of(&add_begin(&j, false)).contains("/s/add.sh"));
    assert_eq!(add_begin(&j, true).last(), Some(&Act::ReadCounts));
    let mut st = Joining::start();
    let (n, v) = add_counted(&j, &mut st, 3, 2);
    assert_eq!(n.name, "lab-wk-3");
    let stored = v.iter().position(|a| matches!(a, Act::InsertNode { .. })).unwrap();
    let script = v.iter().position(|a| matches!(a, Act::Script { .. })).unwrap();
    assert!(stored < script);
    let failed = add_ran(&j, &mut st, &Err("exit status: 1".into()));
    assert!(matches!(failed.last(), Some(Act::Fail { .. })));
}

#[test]
fn counts_come_back_after_a_failure() {
    assert_eq!(counts_after_removal("worker", 3, 3), (3, 2));
    assert_eq!(counts_after_removal("controlplane", 3, 3), (2, 3));
    assert_eq!(counts_after_removal("worker", 3, 0), (3, 0));
}

fn removal(role: &str, cps: i64) -> RemovalJob {
    RemovalJob {
        name: "lab-x".into(),
        role: role.into(),
        vmid: Some(305),
        controlplanes: cps,
        kubeconfig_path: Some("/k/admin.conf".into()),
    }
}

#[test]
fn quorum_is_kept() {
    assert_eq!(
        error_of(&removal_begin(&removal("controlplane", 1), true)),
        "cannot remove last control plane (lab-x)"
    );
    assert_eq!(
        error_of(&removal_begin(&removal("controlplane", 2), true)),
        "removing lab-x would break etcd quorum (have 2, need majority 2)"
    );
    let v = removal_begin(&removal("controlplane", 3), true);
    assert!(matches!(v.last(), Some(Act::DeleteFromCluster { .. })));
    let v = removal_begin(&removal("worker", 1), true);
    assert!(matches!(v.last(), Some(Act::DeleteFromCluster { .. })));
    assert!(check_removal("controlplane", "x", 3).is_ok());
}

#[test]
fn disk_only_grows() {
    let now = Hardware {
        memory: Some(4096),
        cores: Some(2),
        disk_gb: Some(50),
    };
    let plan = resize_plan(&doc(r#"{"disk_gb":40,"cores":4}"#), &now);
    assert!(plan.shrink_refused);
    assert_eq!(plan.set_cores, Some(4));
    assert_eq!(plan.set_memory, None);
    let plan = resize_plan(&doc(r#"{"disk_gb":80}"#), &now);
    assert_eq!(plan_disk(&plan, Some(50), Some(50)), DiskStep::Grow(50, 80));
    assert!(!plan.needs_restart());
    let j = ResizeJob {
        name: "lab-wk-1".into(),
        vmid: 303,
        kind: "proxmox".into(),
        plan,
        recorded_disk: Some(50),
        asked_disk: Some(80),
    };
    assert_eq!(resize_begin(&j).last(), Some(&Act::MeasureDisk));
    assert_eq!(
        resize_measured(&j, &Ok(Some(50))).last(),
        Some(&Act::GrowDisk { gib: 80 })
    );
}

#[test]
fn machines_of_a_cluster() {
    assert_eq!(
        purge_vmids(&vec![Some(305), None, Some(305)], Some(300), 1, 1),
        vec![305]
    );
    assert_eq!(purge_vmids(&vec![None], Some(300), 1, 1), vec![300, 301]);
    assert_eq!(purge_vmids(&vec![Some(5)], Some(i64::MAX), i64::MAX, i64::MAX), vec![5]);
    assert_eq!(purge_vmids(&vec![], Some(i64::MAX), 1, 0), vec![i64::MAX]);
    let all = strings(&["300:lab-cp-1", "301:lab-wk-1", "300:lab-cp-1"]);
    assert_eq!(machines_to_delete(&all).len(), 2);
}

// ---------------------------------------------------------------------------
// Upgrades
// ---------------------------------------------------------------------------

fn row(name: &str, role: &str) -> (String, String, String, Option<String>) {
    (
        format!("id-{name}"),
        name.to_string(),
        role.to_string(),
        Some("10.1.1.9".to_string()),
    )
}

#[test]
fn control_planes_are_upgraded_first() {
    let nodes = vec![
        row("lab-wk-1", "worker"),
        row("lab-cp-2", "controlplane"),
        row("lab-cp-1", "controlplane"),
    ];
    let steps = plan_upgrade(&nodes, 3);
    let order: Vec<_> = steps.iter().map(|s| nodes[s.node].1.as_str()).collect();
    assert_eq!(order, ["lab-cp-1", "lab-cp-2", "lab-wk-1"]);
    assert!(steps[0].primary && !steps[1].primary);
    let plan = plan_os_upgrade(&nodes, &None).unwrap();
    assert_eq!(plan.workers, vec![0]);
    assert_eq!(plan.control_planes, vec![2, 1]);
    assert!(plan_os_upgrade(&nodes, &Some(strings(&["none"]))).is_err());
    assert_eq!(https_cp_servers(&nodes)[0], "https://10.1.1.9:6443");
}

#[test]
fn versions_get_their_v() {
    assert_eq!(normalize_k8s_version(" 1.36.3 "), "v1.36.3");
    assert_eq!(normalize_k8s_version("v1.36.3"), "v1.36.3");
}

fn os_job() -> OsNodeJob {
    OsNodeJob {
        name: "lab-wk-1".into(),
        ip: Some("10.1.1.9".into()),
        tool: "/ctl".into(),
        host_bundle: "/var/b".into(),
        version: "0.2.90".into(),
        reboot: true,
        drain: true,
    }
}

#[test]
fn os_upgrade_needs_tool_and_address() {
    assert_eq!(os_begin(&os_job(), true).last(), Some(&Act::WaitApi));
    assert_eq!(
        error_of(&os_begin(&os_job(), false)),
        "pertiskctl not found at /ctl"
    );
    let lost = OsNodeJob { ip: None, ..os_job() };
    assert!(matches!(os_begin(&lost, true).last(), Some(Act::Fail { .. })));
    let v = os_marked("10.1.1.9", MARK_ATTEMPTS, &Err("gone".into()));
    assert!(!v.iter().any(|a| matches!(a, Act::Pause { .. })) || v.len() > 1);
}

#[test]
fn bundles_are_staged_in_a_pod() {
    let ok = Ok(output(true, "", ""));
    let bad = Ok(output(false, "", "refused"));
    assert_eq!(stage_applied(1, &ok).last(), Some(&Act::WaitPod));
    assert_eq!(stage_applied(1, &bad).last(), Some(&Act::WaitApi));
    assert_eq!(
        error_of(&stage_applied(STAGE_ATTEMPTS, &bad)),
        "kubectl apply staging pod failed (attempt 6): refused"
    );
    assert_eq!(
        error_of(&stage_pod_ready("pod", "wk", &bad)),
        "staging pod pod not Ready on wk"
    );
    assert_eq!(stage_pod_ready("pod", "wk", &ok).last(), Some(&Act::CopyBundle));
    assert_eq!(
        error_of(&stage_copied("wk", "/t", false, &ok)),
        "copy OS bundle onto wk failed"
    );
    assert_eq!(stage_copied("wk", "/t", true, &ok).last(), Some(&Act::InstallKey));
    assert!(stage_installed("wk", "/b", &ok).contains(&Act::DeletePod { wait: true }));
    assert!(install_key_arguments("pod")[7].contains("os-trust.pk"));
}

#[test]
fn agents_are_watched() {
    let bad = Ok(output(false, "", "refused"));
    assert_eq!(agent_applied(1, &bad).last(), Some(&Act::WaitApi));
    assert_eq!(agent_applied(AGENT_ATTEMPTS, &bad).last(), Some(&Act::KubeletVersion));
    let v = agent_not_applied("wk", "v2", &Some("v2".into()), "refused");
    assert_eq!(v.last(), Some(&Act::Done));
    assert_eq!(
        error_of(&agent_not_applied("wk", "v2", &Some("v1".into()), "refused")),
        "failed to create upgrade agent pod on wk: refused"
    );
    assert_eq!(agent_looked("wk", "v2", &None), vec![Act::PodPhase]);
    assert_eq!(
        agent_phase_read(&Some("Failed".into()), false),
        vec![Act::PodLogs]
    );
    assert_eq!(
        agent_phase_read(&Some("Running".into()), false).last(),
        Some(&Act::KubeletVersion)
    );
    assert_eq!(
        read_pod_phase(&output(true, " Succeeded\n", "")).as_deref(),
        Some("Succeeded")
    );
}

#[test]
fn agent_pod_carries_the_version() {
    let pod = render_agent_pod("p", "wk-1", "v1.36.3", true);
    assert!(pod.contains("nodeName: wk-1"));
    assert!(pod.contains("        VER=\"v1.36.3\""));
    assert!(pod.contains("        CP=\"1\""));
    assert!(render_stage_pod("p", "wk-1", "/var/b").contains("path: /var/b"));
}

#[test]
fn api_must_answer_twice() {
    let mut w = ApiWait::start();
    assert_eq!(w.probed(Some(None)), None);
    assert_eq!(w.probed(None), None);
    assert_eq!(w.probed(Some(None)), None);
    assert_eq!(w.probed(Some(None)), Some(None));
}

// ---------------------------------------------------------------------------
// From node to node
// ---------------------------------------------------------------------------

#[test]
fn rounds_count_failures() {
    let ip = Some("10.1.1.9".to_string());
    let (v, failed) = round_begin(Round::Reboot, "wk-1", &ip, true, "");
    assert!(!failed);
    assert_eq!(
        v.last(),
        Some(&Act::Machine {
            args: strings(&["-e", "10.1.1.9:50000", "reboot"])
        })
    );
    assert!(round_begin(Round::Reboot, "wk-1", &None, true, "").1);
    assert!(round_begin(Round::Reboot, "wk-1", &ip, false, "").1);
    assert!(!round_begin(Round::Apply, "wk-1", &ip, false, "/f").1);
    let (v, failed) = round_answered(
        Round::Apply,
        "wk-1",
        &Ok(output(false, "", "")),
        "exit status: 2",
    );
    assert!(failed);
    assert_eq!(
        v.last(),
        Some(&Act::Log {
            text: "apply failed on wk-1 (exit exit status: 2)\n".into()
        })
    );
    assert!(reboot_result(0).is_ok());
    assert_eq!(reboot_result(2).unwrap_err(), "2 node(s) failed to reboot");
    assert_eq!(apply_result(1).unwrap_err(), "1 node(s) failed to apply config");
    assert!(update_config_text(&doc(r#"{"config_yaml":"a: b"}"#)).is_err());
}

#[test]
fn notes_of_an_upgrade() {
    assert_eq!(
        cp_step_note(0, 3, "lab-cp-1"),
        "==> CP 1/3 lab-cp-1 (primary — upgrade apply)\n"
    );
    assert_eq!(worker_step_note(1, 2, "lab-wk-2"), "==> worker 2/2 lab-wk-2\n");
    assert!(upgrade_note("v1", 1).contains("controlplanes=1 (<3)"));
    assert!(upgrade_note("v1", 3).contains("zero-downtime mode"));
    assert_eq!(upgrade_version(&doc("{}")), "latest");
    assert!(matches!(os_upgrade_begin(3, &None).last(), Some(Act::Fail { .. })));
}

#[test]
fn disks_grow_from_outside() {
    assert_eq!(offline_grow_begin("", &None, 5).len(), 1);
    let v = offline_grow_begin("root@pve", &Some("/s/grow.sh".into()), 303);
    assert_eq!(
        v.last(),
        Some(&Act::Script {
            args: strings(&["--vmid", "303"])
        })
    );
    assert_eq!(grow_wait(false, GROW_ROUNDS), GrowWait::Never);
    assert!(grow_answered(&Ok(output(true, "", "")), "0", true).1);
    assert!(!grow_answered(&Err("no such file".into()), "", false).1);
}

#[test]
fn store_is_recovered_on_the_first_control_plane() {
    let cps: Vec<(String, String, String, Option<String>)> = vec![
        ("b".into(), "lab-cp-2".into(), "controlplane".into(), Some("10.0.0.2".into())),
        ("a".into(), "lab-cp-1".into(), "controlplane".into(), Some(" 10.0.0.1 ".into())),
    ];
    let v = recover_etcd_on_cp1(&cps);
    assert_eq!(
        v.last(),
        Some(&Act::Machine {
            args: strings(&["-e", "10.0.0.1:50000", "etcd", "recover", "--force-new-cluster", "--force"])
        })
    );
    let none: Vec<(String, String, String, Option<String>)> = vec![];
    assert_eq!(
        recover_etcd_on_cp1(&none),
        vec![Act::Fail {
            error: "no *-cp-1 node to recover etcd".into()
        }]
    );
    assert_eq!(etcd_recovered("lab-cp-1", &Ok(output(true, "", ""))).last(), Some(&Act::WaitApi));
    assert!(matches!(
        etcd_recovered("lab-cp-1", &Ok(output(false, "", ""))).last(),
        Some(Act::Fail { .. })
    ));
}

#[test]
fn notes_of_a_deletion_and_of_the_api() {
    assert_eq!(
        deleted_note("210", &Ok(()), true).as_deref(),
        Some("deleted or already gone: 210\n")
    );
    assert_eq!(deleted_note("lab-cp-1", &Ok(()), false), None);
    assert_eq!(
        deleted_note("lab-cp-1", &Err("busy".into()), false).as_deref(),
        Some("warn: delete lab-cp-1: busy\n")
    );
    assert_eq!(api_reached_note(&None), "API reachable (kubeconfig / VIP)\n");
    assert_eq!(
        api_reached_note(&Some("https://10.0.0.1:6443".into())),
        "API reachable via https://10.0.0.1:6443 (kube-vip down or settling)\n"
    );
}

#[test]
fn names_of_nutanix() {
    for kind in ["nutanix", "ahv", "prism"] {
        assert!(provider_kind_is_nutanix(kind));
    }
    assert!(!provider_kind_is_nutanix("vsphere"));
}

// ---------------------------------------------------------------------------
// Walks
// ---------------------------------------------------------------------------

fn turns(acts: &[Act]) -> Vec<usize> {
    acts.iter()
        .filter_map(|a| match a {
            Act::TurnTo { node } => Some(*node),
            _ => None,
        })
        .collect()
}

fn two_nodes() -> Vec<(String, String, String, Option<String>)> {
    vec![row("lab-wk-1", "worker"), row("lab-cp-1", "controlplane")]
}

fn upgrade_one(w: &mut UpgradeWalk) -> Vec<Act> {
    let acts = upgrade_next(w, UpgradeEvent::Turned(None));
    assert_eq!(acts.last(), Some(&Act::WaitApi));
    let acts = upgrade_next(w, UpgradeEvent::ApiReady(Ok(())));
    assert_eq!(acts.last(), Some(&Act::KubeletVersion));
    let acts = upgrade_next(w, UpgradeEvent::VersionRead(Some("v1.29.0".into())));
    assert!(matches!(acts.last(), Some(Act::RunAgent { .. })));
    let acts = upgrade_next(w, UpgradeEvent::AgentRan(Ok(())));
    assert!(matches!(acts.last(), Some(Act::WaitKubelet { .. })));
    upgrade_next(w, UpgradeEvent::KubeletWaited(Ok(())))
}

#[test]
fn upgrade_stores_the_version_after_the_last_node() {
    let mut w = UpgradeWalk::plan(&two_nodes(), 1, "1.30.0", true, true);
    let acts = upgrade_next(&mut w, UpgradeEvent::Begun);
    assert_eq!(acts.last(), Some(&Act::WaitAnyServer));
    let acts = upgrade_next(&mut w, UpgradeEvent::ApiReady(Ok(())));
    assert_eq!(turns(&acts), [1]);
    let acts = upgrade_one(&mut w);
    assert_eq!(turns(&acts), [0]);
    assert!(acts.contains(&Act::StoreKubernetes { version: "v1.30.0".into() }));
    assert!(!acts.iter().any(|a| matches!(a, Act::StoreClusterVersion { .. })));
    let acts = upgrade_one(&mut w);
    assert!(acts.contains(&Act::StoreClusterVersion { version: "1.30.0".into() }));
    assert_eq!(acts.last(), Some(&Act::Done));
    assert_eq!(w.phase, UpgradePhase::Over);
}

#[test]
fn upgrade_stops_at_the_first_failure() {
    let mut w = UpgradeWalk::plan(&two_nodes(), 1, "v1.30.0", true, true);
    upgrade_next(&mut w, UpgradeEvent::Begun);
    upgrade_next(&mut w, UpgradeEvent::ApiReady(Ok(())));
    upgrade_next(&mut w, UpgradeEvent::Turned(None));
    let acts = upgrade_next(&mut w, UpgradeEvent::ApiReady(Err("no answer".into())));
    assert_eq!(acts, vec![Act::Fail { error: "no answer".into() }]);
    for e in [UpgradeEvent::Begun, UpgradeEvent::ApiReady(Ok(())), UpgradeEvent::KubeletWaited(Ok(()))] {
        let acts = upgrade_next(&mut w, e);
        assert_eq!(acts, vec![Act::Fail { error: "the job ended without an answer".into() }]);
    }
}

fn os_bundle() -> OsBundle {
    OsBundle {
        host_dir: "/var/lib/bundle".into(),
        version: "2.0".into(),
        reboot: false,
        tool: "/bin/pertiskctl".into(),
    }
}

fn os_one(w: &mut OsWalk) -> Vec<Act> {
    let acts = os_next(w, OsEvent::ApiReady(Ok(None)));
    assert!(matches!(acts.last(), Some(Act::StageBundle { .. })));
    let acts = os_next(w, OsEvent::Staged(Ok(())));
    assert!(matches!(acts.last(), Some(Act::Machine { .. })));
    os_next(w, OsEvent::Tool(Ok(output(true, "", ""))));
    assert_eq!(w.phase, OsPhase::Marking);
    os_next(w, OsEvent::Tool(Ok(output(true, "", ""))));
    assert_eq!(w.phase, OsPhase::Status);
    let acts = os_next(w, OsEvent::Status(Ok(output(true, "", "")), Some("2.1".into())));
    assert_eq!(acts.last(), Some(&Act::WaitApi));
    os_next(w, OsEvent::ApiReady(Ok(None)))
}

#[test]
fn os_upgrade_takes_workers_first() {
    let mut w = OsWalk::plan(&two_nodes(), &None, &os_bundle(), true).unwrap();
    assert_eq!(os_next(&mut w, OsEvent::Begun), vec![Act::WaitApi]);
    let acts = os_next(&mut w, OsEvent::ApiReady(Ok(None)));
    assert_eq!(turns(&acts), [0]);
    let acts = os_one(&mut w);
    assert!(acts.contains(&Act::StoreOs { version: "2.1".into() }));
    assert_eq!(turns(&acts), [1]);
    let acts = os_one(&mut w);
    assert_eq!(acts.last(), Some(&Act::Done));
    assert_eq!(w.phase, OsPhase::Over);
}

#[test]
fn os_upgrade_refuses_unknown_nodes_at_once() {
    let err = OsWalk::plan(&two_nodes(), &Some(strings(&["none"])), &os_bundle(), true).unwrap_err();
    assert_eq!(err, "no matching nodes for node_ids filter");
    let w = OsWalk::plan(&two_nodes(), &Some(strings(&["id-lab-cp-1"])), &os_bundle(), true).unwrap();
    assert_eq!((w.workers, w.places.clone()), (0, vec![1]));
}

#[test]
fn os_upgrade_recovers_the_store_once() {
    let mut w = OsWalk::plan(&two_nodes(), &None, &os_bundle(), true).unwrap();
    os_next(&mut w, OsEvent::Begun);
    let acts = os_next(&mut w, OsEvent::ApiReady(Err("down".into())));
    assert_eq!(acts[0], Act::Log { text: "down\n".into() });
    assert_eq!(
        acts.last(),
        Some(&Act::Machine {
            args: strings(&["-e", "10.1.1.9:50000", "etcd", "recover", "--force-new-cluster", "--force"])
        })
    );
    let acts = os_next(&mut w, OsEvent::Tool(Ok(output(true, "", ""))));
    assert_eq!(acts.last(), Some(&Act::WaitApi));
    let acts = os_next(&mut w, OsEvent::ApiReady(Err("still down".into())));
    assert_eq!(acts, vec![Act::Fail { error: "still down".into() }]);
}

#[test]
fn slot_is_marked_at_most_eight_times() {
    let mut w = OsWalk::plan(&two_nodes(), &None, &os_bundle(), true).unwrap();
    os_next(&mut w, OsEvent::Begun);
    os_next(&mut w, OsEvent::ApiReady(Ok(None)));
    os_next(&mut w, OsEvent::ApiReady(Ok(None)));
    os_next(&mut w, OsEvent::Staged(Ok(())));
    os_next(&mut w, OsEvent::Tool(Ok(output(true, "", ""))));
    let mut tries = 0;
    while w.phase == OsPhase::Marking {
        os_next(&mut w, OsEvent::Tool(Ok(output(false, "", ""))));
        tries += 1;
    }
    assert_eq!(tries, 8);
    assert_eq!(w.phase, OsPhase::Status);
}

#[test]
fn resize_remembers_from_step_to_step() {
    let now = Hardware { memory: Some(2048), cores: Some(2), disk_gb: Some(50) };
    let j = ResizeJob {
        name: "lab-wk-1".into(),
        vmid: 305,
        kind: "proxmox".into(),
        plan: resize_plan(&doc(r#"{"disk_gb":80}"#), &now),
        recorded_disk: Some(50),
        asked_disk: Some(80),
    };
    let mut st = Resizing::start(true);
    let acts = resize_next(&j, &mut st, ResizeEvent::Begun);
    assert_eq!(acts.last(), Some(&Act::MeasureDisk));
    let acts = resize_next(&j, &mut st, ResizeEvent::Measured(Ok(Some(60))));
    assert_eq!(acts.last(), Some(&Act::GrowDisk { gib: 80 }));
    assert_eq!(st.measured, Some(60));
    let acts = resize_next(&j, &mut st, ResizeEvent::DiskGrown(Ok(())));
    assert!(acts.contains(&Act::Log { text: "grew Proxmox disk 60 → 80 GiB\n".into() }));
    assert_eq!(acts.last(), Some(&Act::ReadAddress));
    let acts = resize_next(&j, &mut st, ResizeEvent::AddressRead(Some("10.0.0.5".into())));
    assert_eq!(acts.last(), Some(&Act::GrowGuest { ip: "10.0.0.5".into() }));
    let acts = resize_next(&j, &mut st, ResizeEvent::GuestGrown(false));
    assert_eq!(acts.last(), Some(&Act::GrowOffline { vmid: 305 }));
    let acts = resize_next(&j, &mut st, ResizeEvent::OfflineGrown(false));
    assert_eq!(acts.last(), Some(&Act::RestartVm));
    let acts = resize_next(&j, &mut st, ResizeEvent::Restarted(Ok(())));
    assert_eq!(acts.last(), Some(&Act::GrowGuest { ip: "10.0.0.5".into() }));
    let acts = resize_next(&j, &mut st, ResizeEvent::GuestGrown(false));
    assert_eq!(acts.last(), Some(&Act::Done));
    let acts = resize_next(&j, &mut st, ResizeEvent::DiskGrown(Err("full".into())));
    assert_eq!(acts, vec![Act::Fail { error: "full".into() }]);
}
