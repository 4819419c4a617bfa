//! What a cluster runs, what it uses and whether it answers.
use pertisk_mgmt::cluster_availability::{Availability, FRESH_TTL_MS, probe_settled};
use pertisk_mgmt::cluster_resources::{
    Amount, Gather, GatherInput, NodeCap, Quantity, ResourceRow, Unit, gather_one,
    parse_memory_mib, parse_top_line, read_kubeconfig_server, rewrite_kubeconfig_server,
    server_host,
};
use pertisk_mgmt::cluster_versions::{
    ClusterVersionCtx, DEFAULT_KUBE_VIP_IMAGE, DEFAULT_PAUSE_IMAGE, NodeOut, image_tag, summarize,
};
use pertisk_mgmt::json::Json;
use pertisk_mgmt::k8s::kubectl::{
    CommandOutput, KubeconfigRow, WorkloadKind, kubeconfig_candidates, kubeconfig_file_usable,
    kubeconfig_tls_error, kubectl_json, kubectl_json_optional, kubectl_ok,
    resolve_cluster_kubeconfig,
};
use pertisk_mgmt::k8s::kubelet_serving::{
    SCAN_TTL_MS, node_serving_issued, parse_kubelet_serving_csrs, pending_for_registered,
    scan_now,
};
use pertisk_mgmt::k8s::transform::{
    item_age, pod_restarts, show_age, transform_namespace, transform_pod,
};
use pertisk_mgmt::kubeconfig::rename_kubeconfig_context;
use pertisk_mgmt::throttle::Throttle;

fn json_of(v: &serde_json::Value) -> Json {
    match v {
        serde_json::Value::Null => Json::Null,
        serde_json::Value::Bool(b) => Json::Bool(*b),
        serde_json::Value::Number(n) => match (n.as_i64(), n.as_u64()) {
            (Some(i), _) => Json::Int(i),
            (None, Some(u)) => Json::Big(u, n.as_f64().map_or(String::new(), |f| f.to_string())),
            _ => Json::Real(n.as_f64().map_or(String::new(), |f| f.to_string())),
        },
        serde_json::Value::String(s) => Json::Str(s.clone()),
        serde_json::Value::Array(a) => Json::Arr(a.iter().map(json_of).collect()),
        serde_json::Value::Object(o) => {
            Json::Obj(o.iter().map(|(k, x)| (k.clone(), json_of(x))).collect())
        }
    }
}

fn doc(text: &str) -> Json {
    json_of(&serde_json::from_str(text).unwrap())
}

fn at<'a>(j: &'a Json, path: &[&str]) -> &'a Json {
    let mut here = j;
    for step in path {
        here = match here {
            Json::Arr(v) => &v[step.parse::<usize>().unwrap()],
            _ => here.get(step).unwrap(),
        };
    }
    here
}

fn text_at(j: &Json, path: &[&str]) -> String {
    at(j, path).as_str().unwrap()
}

fn output(success: bool, stdout: &str, stderr: &str) -> CommandOutput {
    CommandOutput {
        success,
        stdout: stdout.into(),
        stderr: stderr.into(),
    }
}

fn strings(v: &[&str]) -> Vec<String> {
    v.iter().map(|s| s.to_string()).collect()
}

fn node(name: &str, k8s: Option<&str>, os: Option<&str>) -> NodeOut {
    NodeOut {
        id: name.into(),
        cluster_id: "c".into(),
        name: name.into(),
        role: "worker".into(),
        vmid: None,
        ip: None,
        ip6: None,
        k8s_version: k8s.map(|s| s.to_string()),
        os_version: os.map(|s| s.to_string()),
        kernel_version: None,
        container_runtime: None,
        memory: None,
        cores: None,
        disk_gb: None,
        ak_public_b64: None,
        ak_enrolled_at: None,
        source: "proxmox".into(),
        status: "ready".into(),
        availability: "online".into(),
        created_at: String::new(),
        updated_at: String::new(),
    }
}

fn number(q: &Quantity) -> f64 {
    q.number.parse::<f64>().unwrap_or(0.0)
}

fn cores(q: &Quantity) -> f64 {
    match q.unit {
        Unit::Milli => number(q) / 1000.0,
        _ => number(q),
    }
}

fn mib(q: &Quantity) -> f64 {
    match q.unit {
        Unit::Gi => number(q) * 1024.0,
        Unit::Mi => number(q),
        _ => panic!("{:?}", q.unit),
    }
}

// ---------------------------------------------------------------------------
// Resources
// ---------------------------------------------------------------------------

#[test]
fn parses_top_line() {
    let r = parse_top_line("lab-cp-1   250m   12%   1024Mi   25%").unwrap();
    assert!((cores(&r.cpu) - 0.25).abs() < 1e-9);
    assert_eq!(r.cpu_percent.parse::<f64>().ok(), Some(12.0));
    assert!((mib(&r.memory) - 1024.0).abs() < 1e-9);
    assert_eq!(r.memory_percent.parse::<f64>().ok(), Some(25.0));
}

#[test]
fn parses_memory_units() {
    assert!((mib(&parse_memory_mib("2Gi")) - 2048.0).abs() < 1e-6);
    assert!((mib(&parse_memory_mib("512Mi")) - 512.0).abs() < 1e-6);
}

#[test]
fn server_host_ipv4_and_v6() {
    assert_eq!(server_host("https://10.1.1.200:6443"), "10.1.1.200");
    assert_eq!(server_host("https://[fd00:1::200]:6443"), "fd00:1::200");
}

#[test]
fn rewritten_server_is_read_back() {
    let kc = "clusters:\n- cluster:\n    server: https://10.0.0.1:6443\n";
    assert_eq!(
        read_kubeconfig_server(kc).as_deref(),
        Some("https://10.0.0.1:6443")
    );
    let out = rewrite_kubeconfig_server(kc, "https://10.0.0.9:6443");
    assert_eq!(
        read_kubeconfig_server(&out).as_deref(),
        Some("https://10.0.0.9:6443")
    );
    assert!(!out.contains("10.0.0.1"));
}

#[test]
fn cluster_that_is_not_ready_is_not_asked() {
    let row = ResourceRow {
        id: "c".into(),
        name: "lab".into(),
        status: "provisioning".into(),
        k8s_version: "v1.36.3".into(),
        controlplanes: 1,
        vip: None,
        vip6: None,
    };
    let nodes = vec![NodeCap {
        name: "lab-cp-1".into(),
        role: "controlplane".into(),
        ip: Some("10.1.1.31".into()),
        cores: Some(4),
        memory: Some(8192),
        disk_gb: Some(50),
    }];
    let inp = GatherInput {
        kubeconfig: None,
        api: None,
        readings: None,
    };
    match gather_one(&row, &nodes, &inp) {
        Gather::Done(s) => {
            assert_eq!(s.node_count, 1);
            assert_eq!(s.cpu.total, Amount::Provisioned(4));
            assert_eq!(s.memory.total, Amount::Provisioned(8192));
        }
        other => panic!("{other:?}"),
    }
    let ready = ResourceRow {
        status: "ready".into(),
        ..row
    };
    assert!(matches!(gather_one(&ready, &nodes, &inp), Gather::Kubeconfig));
}

// ---------------------------------------------------------------------------
// Versions
// ---------------------------------------------------------------------------

#[test]
fn mixed_kubernetes_and_catalog_os() {
    let nodes = vec![
        node("cp-1", Some("v1.36.3"), Some("0.2.87")),
        node("wk-1", Some("v1.36.2"), Some("0.2.87")),
    ];
    let rows = summarize(
        &ClusterVersionCtx {
            k8s_version: "v1.36.3",
            cni: "cilium",
            catalog_os: Some("0.2.90"),
            has_vip: true,
        },
        &nodes,
    );
    let k8s = rows.iter().find(|r| r.id == "kubernetes").unwrap();
    assert!(k8s.mixed);
    assert_eq!(k8s.version, "mixed");
    assert_eq!(k8s.desired.as_deref(), Some("v1.36.3"));
    assert_eq!(k8s.nodes.len(), 2);

    let os = rows.iter().find(|r| r.id == "os").unwrap();
    assert!(!os.mixed);
    assert_eq!(os.version, "0.2.87");
    assert_eq!(os.desired.as_deref(), Some("0.2.90"));

    let etcd = rows.iter().find(|r| r.id == "etcd").unwrap();
    assert_eq!(etcd.version, "3.5.16-0");
    assert!(rows.iter().any(|r| r.id == "kube-vip"));
    assert_eq!(
        rows.iter().find(|r| r.id == "cni").unwrap().version,
        "cilium"
    );
}

#[test]
fn image_tag_strips_registry() {
    assert_eq!(image_tag(DEFAULT_PAUSE_IMAGE), "3.10");
    assert_eq!(image_tag(DEFAULT_KUBE_VIP_IMAGE), "v0.8.9");
}

// ---------------------------------------------------------------------------
// Availability
// ---------------------------------------------------------------------------

#[test]
fn answers_last_for_a_while() {
    let mut known = Availability::new();
    assert_eq!(known.cached_or("c", "ready", 0), "unknown");
    assert_eq!(known.known_without_asking("c", "error", 0).as_deref(), Some("unknown"));
    assert!(known.begin_refresh("c", "ready", 0));
    assert!(!known.begin_refresh("c", "ready", 0));
    known.store("c", "online", 100);
    known.end_refresh("c");
    assert_eq!(known.lookup("c", 100, FRESH_TTL_MS).as_deref(), Some("online"));
    assert_eq!(known.cached_or("c", "ready", 101), "online");
    assert_eq!(known.lookup("c", 100 + FRESH_TTL_MS + 1, FRESH_TTL_MS), None);
}

#[test]
fn one_answer_is_enough() {
    let found = |a: Option<Vec<bool>>, again: bool| probe_settled(&a, again);
    assert_eq!(found(Some(vec![false, true]), false).as_deref(), Some("online"));
    assert_eq!(found(Some(vec![false, true]), true).as_deref(), Some("online"));
    assert_eq!(found(Some(vec![false, false]), false), None);
    assert_eq!(found(Some(vec![false, false]), true).as_deref(), Some("offline"));
}

#[test]
fn cluster_without_kubeconfig_is_unknown() {
    assert_eq!(probe_settled(&None, false).as_deref(), Some("unknown"));
    assert_eq!(probe_settled(&None, true).as_deref(), Some("unknown"));
}

// ---------------------------------------------------------------------------
// Kubeconfigs
// ---------------------------------------------------------------------------

#[test]
fn rename_rewrites_pertisk() {
    let src = r#"apiVersion: v1
kind: Config
clusters:
- cluster:
    server: https://10.0.0.1:6443
  name: pertisk
users:
- name: kubernetes-admin
  user: {}
contexts:
- context:
    cluster: pertisk
    user: kubernetes-admin
  name: pertisk
current-context: pertisk
"#;
    let out = rename_kubeconfig_context(src, "ui-cluster");
    assert!(out.contains("  name: ui-cluster\n"));
    assert!(out.contains("    cluster: ui-cluster\n"));
    assert!(out.contains("current-context: ui-cluster\n"));
    assert!(!out.contains("pertisk"));
    assert_eq!(rename_kubeconfig_context(&out, "ui-cluster"), out);
}

#[test]
fn first_usable_kubeconfig_is_taken() {
    let row = Some(KubeconfigRow {
        kubeconfig_path: Some("/a/admin.conf".into()),
        name: "lab".into(),
        status: "ready".into(),
    });
    let n = kubeconfig_candidates(row.as_ref().unwrap(), "/k", true).len();
    let mut contents: Vec<Option<String>> = vec![None; n];
    assert!(resolve_cluster_kubeconfig(&row, "/k", &contents).is_err());
    contents[n - 1] = Some("apiVersion: v1\nclusters:\n- cluster:\n    server: https://x:6443\n    certificate-authority-data: QQ==\nusers:\n- user:\n    client-certificate-data: QQ==\n    client-key-data: QQ==\n".into());
    if kubeconfig_file_usable(&contents[n - 1]) {
        assert!(resolve_cluster_kubeconfig(&row, "/k", &contents).is_ok());
    }
    assert_eq!(
        resolve_cluster_kubeconfig(&None, "/k", &contents).unwrap_err().status(),
        404
    );
}

#[test]
fn kubectl_answers() {
    let args = strings(&["get", "nodes"]);
    assert_eq!(kubectl_json(&output(true, "{}", ""), &args).unwrap(), "{}");
    assert!(kubectl_json(&output(false, "", "boom"), &args)
        .unwrap_err()
        .message()
        .contains("boom"));
    let gone = output(false, "", "Error from server (NotFound): x not found");
    assert_eq!(kubectl_json_optional(&gone, &args).unwrap(), None);
    assert!(kubectl_ok(&output(true, "", ""), &args).is_ok());
    assert!(kubectl_ok(&gone, &args).is_err());
}

#[test]
fn workload_kinds() {
    assert_eq!(WorkloadKind::parse("deployments"), Some(WorkloadKind::Deployments));
    assert_eq!(WorkloadKind::parse("nothing"), None);
    assert_eq!(WorkloadKind::Pods.as_str(), "pods");
}

#[test]
fn tls_errors_are_known() {
    assert!(kubeconfig_tls_error(
        "x509: certificate signed by unknown authority"
    ));
    assert!(!kubeconfig_tls_error("connection refused"));
}

// ---------------------------------------------------------------------------
// Certificates of nodes
// ---------------------------------------------------------------------------

#[test]
fn skips_non_serving_and_unregistered() {
    let list = doc(
        r#"{
        "items": [
            {
                "metadata": { "name": "csr-client" },
                "spec": {
                    "signerName": "kubernetes.io/kube-apiserver-client-kubelet",
                    "username": "system:node:wk-1",
                    "groups": ["system:nodes"]
                }
            },
            {
                "metadata": { "name": "csr-pending" },
                "spec": {
                    "signerName": "kubernetes.io/kubelet-serving",
                    "username": "system:node:wk-2",
                    "groups": ["system:nodes"]
                }
            },
            {
                "metadata": { "name": "csr-issued" },
                "spec": {
                    "signerName": "kubernetes.io/kubelet-serving",
                    "username": "system:node:wk-3",
                    "groups": ["system:nodes"]
                },
                "status": {
                    "conditions": [{ "type": "Approved", "status": "True" }],
                    "certificate": "Y2VydA=="
                }
            }
        ]
    }"#,
    );
    let parsed = parse_kubelet_serving_csrs(&list);
    assert_eq!(parsed.len(), 2);
    let registered = strings(&["wk-2", "wk-3"]);
    let pending = pending_for_registered(&parsed, &registered);
    assert_eq!(pending.len(), 1);
    assert_eq!(pending[0].name, "csr-pending");
    assert!(node_serving_issued(&parsed, "wk-3"));
    assert!(!node_serving_issued(&parsed, "wk-2"));
    assert!(pending_for_registered(&parsed, &strings(&["wk-1"])).is_empty());
}

#[test]
fn rejects_missing_system_nodes_group() {
    let list = doc(
        r#"{
        "items": [{
            "metadata": { "name": "csr-bad" },
            "spec": {
                "signerName": "kubernetes.io/kubelet-serving",
                "username": "system:node:wk-1",
                "groups": ["system:authenticated"]
            }
        }]
    }"#,
    );
    assert!(parse_kubelet_serving_csrs(&list).is_empty());
}

#[test]
fn scans_are_throttled() {
    let mut seen = Throttle::new();
    assert!(scan_now(&mut seen, "/kc", 0));
    assert!(!scan_now(&mut seen, "/kc", SCAN_TTL_MS - 1));
    assert!(scan_now(&mut seen, "/other", 1));
    assert!(scan_now(&mut seen, "/kc", SCAN_TTL_MS));
}

// ---------------------------------------------------------------------------
// Workloads
// ---------------------------------------------------------------------------

#[test]
fn ages_are_rough() {
    assert_eq!(show_age(5), "5s");
    assert_eq!(show_age(120), "2m");
    assert_eq!(show_age(7200), "2h");
    assert_eq!(show_age(3 * 86400), "3d");
    // The epoch, seen a day later.
    let born = Some("1970-01-01T00:00:00Z".to_string());
    assert_eq!(item_age(&born, (86400, 0)), show_age(86400));
    assert_eq!(item_age(&Some("yesterday".into()), (86400, 0)), "yesterday");
    assert_eq!(item_age(&None, (86400, 0)), "—");
}

#[test]
fn restarts_are_added_up() {
    let pod = doc(
        r#"{"metadata":{"name":"p","namespace":"d"},"status":{"phase":"Running","containerStatuses":[
            {"ready":true,"restartCount":2},{"ready":false,"restartCount":3}]}}"#,
    );
    assert_eq!(pod_restarts(&pod), Some(5));
    let row = transform_pod(&pod, (0, 0));
    assert_eq!(at(&row, &["restarts"]).as_i64(), Some(5));
    assert_eq!(text_at(&row, &["name"]), "p");
    let big = doc(
        r#"{"status":{"containerStatuses":[{"restartCount":18446744073709551615},{"restartCount":1}]}}"#,
    );
    assert_eq!(pod_restarts(&big), None);
}

#[test]
fn a_namespace_without_a_phase_is_active() {
    let obj = Json::object().with("metadata", Json::object().with("name", Json::Str("apps".into())));
    let out = transform_namespace(&obj, (0, 0));
    assert_eq!(out.get("name"), Some(&Json::Str("apps".into())));
    assert_eq!(out.get("status"), Some(&Json::Str("Active".into())));
}
