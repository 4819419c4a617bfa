//! Nodes: their status, their addresses and their attestation.
use pertisk_mgmt::cluster_availability::Availability;
use pertisk_mgmt::ip::{Ip, ip_addr, ipv4, ipv4_str, ipv6, ipv6_str};
use pertisk_mgmt::json::Json;
use pertisk_mgmt::k8s::kubectl::CommandOutput;
use pertisk_mgmt::node_attestation::{
    AkRow, QuoteParse, VerifyStep, decode_hex, enroll, fingerprint_b64, run_quote, status, verify,
};
use pertisk_mgmt::node_availability::{begin_probe, normalize_probe_ip, socket_text};
use pertisk_mgmt::node_status::{
    FetchLogs, Metric, count_requests, fetch_logs, parse_health_line, parse_kubectl_top,
    parse_prometheus,
};
use pertisk_mgmt::node_sync::{
    AddressWait, NodeSnapshot, is_placeholder_os_version, nodes_from_kubectl,
    parse_container_runtime, parse_kubectl_wide_from_log, parse_os_image,
    parse_pertiskctl_hostname, parse_pertiskctl_node_version, persist_snapshot,
    wait_node_addresses,
};
use pertisk_mgmt::num::{i64_str, parse_i64, parse_u64_max, u64_str};
use pertisk_mgmt::order::{sorted_unique, str_less};
use pertisk_mgmt::rediscover::{
    NodeAddress, from_hypervisor, heal_candidate, kubelet_absent, parse_health_kubelet,
    rediscover_plan, scan_addresses, usable_lan_ipv4,
};
use pertisk_mgmt::throttle::Throttle;
use pertisk_mgmt::yaml::{patch_yaml_hostname, patch_yaml_kubernetes_version};

fn json_of(v: &serde_json::Value) -> Json {
    match v {
        serde_json::Value::Null => Json::Null,
        serde_json::Value::Bool(b) => Json::Bool(*b),
        serde_json::Value::Number(n) => match (n.as_i64(), n.as_u64()) {
            (Some(i), _) => Json::Int(i),
            (None, Some(u)) => Json::Big(u, n.as_f64().map_or(String::new(), |f| f.to_string())),
            _ => Json::Real(n.as_f64().map_or(String::new(), |f| f.to_string())),
        },
        serde_json::Value::String(s) => Json::Str(s.clone()),
        serde_json::Value::Array(a) => Json::Arr(a.iter().map(json_of).collect()),
        serde_json::Value::Object(o) => {
            Json::Obj(o.iter().map(|(k, x)| (k.clone(), json_of(x))).collect())
        }
    }
}

fn doc(text: &str) -> Json {
    json_of(&serde_json::from_str(text).unwrap())
}

fn output(success: bool, stdout: &str, stderr: &str) -> CommandOutput {
    CommandOutput {
        success,
        stdout: stdout.into(),
        stderr: stderr.into(),
    }
}

fn quote(ak: &str) -> QuoteParse {
    QuoteParse {
        available: true,
        message: String::new(),
        nonce_hex: "00ff".into(),
        quoted_b64: "cXVvdGU=".into(),
        signature_b64: "c2ln".into(),
        ak_public_b64: ak.into(),
        ek_fingerprint: "ab".repeat(32),
        ek_chain_status: "ok".into(),
        ek_chain_message: String::new(),
        pcrs: vec![],
    }
}

// ---------------------------------------------------------------------------
// Status
// ---------------------------------------------------------------------------

#[test]
fn strips_cidr_and_space() {
    assert_eq!(
        normalize_probe_ip(" 10.1.1.245/24 ").as_deref(),
        Some("10.1.1.245")
    );
    assert_eq!(
        normalize_probe_ip("10.1.1.245").as_deref(),
        Some("10.1.1.245")
    );
    assert_eq!(
        normalize_probe_ip("fd00:1::1/64").as_deref(),
        Some("fd00:1::1")
    );
    assert_eq!(normalize_probe_ip("  ").as_deref(), None);
}

#[test]
fn parses_health() {
    let h = parse_health_line("ready=true containerd=up kubelet=up — all good");
    assert_eq!(h.ready, Some(true));
    assert_eq!(h.containerd.as_deref(), Some("up"));
    assert_eq!(h.kubelet.as_deref(), Some("up"));
    assert_eq!(h.message.as_deref(), Some("all good"));
    assert!(h.error.is_none());
}

#[test]
fn parses_prometheus_api() {
    let body = r#"
# HELP pertisk_node_ready x
# TYPE pertisk_node_ready gauge
pertisk_node_ready 1
pertisk_containerd_up 1
pertisk_api_requests_total{method="Health"} 10
pertisk_api_requests_total{method="Version"} 2
pertisk_api_request_duration_seconds_sum 0.05
pertisk_api_request_duration_seconds_count 12
"#;
    let samples = parse_prometheus(body);
    assert_eq!(samples.len(), 6);
    let mut requests = Vec::new();
    let mut ready = None;
    let mut sum = 0.0;
    let mut count = 0u64;
    for s in &samples {
        let v: f64 = s.value.parse().unwrap();
        match &s.metric {
            Metric::Requests(m) => requests.push((m.clone(), v as u64)),
            Metric::DurationSum => sum = v,
            Metric::DurationCount => count = v as u64,
            Metric::Gauge(n) => {
                if n == "pertisk_node_ready" {
                    ready = Some(v);
                }
            }
        }
    }
    let api = count_requests(&requests);
    assert_eq!(ready, Some(1.0));
    assert_eq!(api.total, Some(12));
    let health = api.by_method.iter().find(|(m, _)| m == "Health").map(|(_, n)| *n);
    assert_eq!(health, Some(10));
    assert!((sum - 0.05f64).abs() < 1e-9);
    assert_eq!(count, 12);
}

#[test]
fn parses_top() {
    let r = parse_kubectl_top("lab-cp-1   250m   12%   1024Mi   25%");
    assert_eq!(r.cpu.as_deref(), Some("250m"));
    assert_eq!(r.cpu_percent.unwrap().parse::<f64>().ok(), Some(12.0));
    assert_eq!(r.memory.as_deref(), Some("1024Mi"));
    assert_eq!(r.memory_percent.unwrap().parse::<f64>().ok(), Some(25.0));
}

#[test]
fn logs_only_of_known_services() {
    let ip = Some("10.1.1.5".to_string());
    assert!(matches!(
        fetch_logs("kubelet", 100, &ip),
        FetchLogs::Run { .. }
    ));
    assert!(!matches!(
        fetch_logs("sshd; reboot", 100, &ip),
        FetchLogs::Run { .. }
    ));
    assert!(!matches!(
        fetch_logs("kubelet", 100, &None),
        FetchLogs::Run { .. }
    ));
}

#[test]
fn socket_texts() {
    assert_eq!(socket_text("10.1.1.5", 50000).as_deref(), Some("10.1.1.5:50000"));
    assert_eq!(
        socket_text("fd00:1::5", 50000).as_deref(),
        Some("[fd00:1::5]:50000")
    );
    assert_eq!(socket_text(" 10.1.1.5/24 ", 50000).as_deref(), Some("10.1.1.5:50000"));
    assert_eq!(socket_text("  ", 50000), None);
}

// ---------------------------------------------------------------------------
// Reading nodes
// ---------------------------------------------------------------------------

#[test]
fn parses_wide_lines() {
    let log = r#"
  kubectl get nodes -o wide
NAME                          STATUS   ROLES           AGE   VERSION   INTERNAL-IP   EXTERNAL-IP
lab-ha-cp-1   Ready    control-plane   75s   v1.36.3   10.1.1.31     <none>
lab-ha-wk-1   Ready    <none>          42s   v1.36.2   10.1.1.134    <none>
"#;
    let rows = parse_kubectl_wide_from_log(log);
    assert_eq!(rows.len(), 2);
    assert_eq!(rows[0].0, "lab-ha-cp-1");
    assert_eq!(rows[0].1.ip.as_deref(), Some("10.1.1.31"));
    assert_eq!(rows[0].1.k8s_version.as_deref(), Some("v1.36.3"));
}

#[test]
fn parses_pertiskctl_node_version() {
    let out = "pertiskctl 0.1.0\nnode 0.2.89 hostname=lab-ha-285h-cp-3 (api v1alpha1 / linux)\n";
    assert_eq!(parse_pertiskctl_node_version(out).as_deref(), Some("0.2.89"));
    assert_eq!(
        parse_pertiskctl_node_version("pertiskctl 0.1.0\nnode: unreachable (timeout)\n").as_deref(),
        None
    );
    assert!(is_placeholder_os_version(Some("0.1.0")));
    assert!(!is_placeholder_os_version(Some("0.2.89")));
    assert_eq!(
        parse_pertiskctl_hostname(out).as_deref(),
        Some("lab-ha-285h-cp-3")
    );
}

#[test]
fn parses_os_image() {
    assert_eq!(parse_os_image("pertisk-kos 0.2.87").as_deref(), Some("0.2.87"));
    assert_eq!(parse_os_image("pertisk-kos").as_deref(), None);
    assert_eq!(parse_os_image("  ").as_deref(), None);
    assert_eq!(
        parse_os_image("Alpine Linux v3.20").as_deref(),
        Some("Alpine Linux v3.20")
    );
}

#[test]
fn parses_containerd_runtime() {
    assert_eq!(
        parse_container_runtime("containerd://2.3.4").as_deref(),
        Some("2.3.4")
    );
    assert_eq!(
        parse_container_runtime("cri-o://1.32.0").as_deref(),
        Some("cri-o://1.32.0")
    );
    assert_eq!(parse_container_runtime("").as_deref(), None);
}

#[test]
fn parses_health_kubelet() {
    assert_eq!(
        parse_health_kubelet("ready=true containerd=up kubelet=absent — containerd=up kubelet=absent")
            .as_deref(),
        Some("absent")
    );
    assert_eq!(
        parse_health_kubelet("ready=true containerd=up kubelet=up — all good").as_deref(),
        Some("up")
    );
}

#[test]
fn patches_hostname_and_k8s_version() {
    let yaml = "machine:\n  type: worker\n  network:\n    hostname: old-wk-1\ncluster:\n  kubernetesVersion: v1.36.1\n";
    let y = patch_yaml_hostname(yaml, "lab-ha-nutanix-wk-1");
    assert!(y.contains("hostname: lab-ha-nutanix-wk-1"));
    let y = patch_yaml_kubernetes_version(&y, "v1.36.3");
    assert!(y.contains("kubernetesVersion: v1.36.3"));
    assert!(!y.contains("v1.36.1"));
}

#[test]
fn reads_nodes_from_kubectl() {
    let list = doc(
        r#"{"items":[{"metadata":{"name":"wk-1"},"status":{
            "addresses":[{"type":"InternalIP","address":"10.1.1.9"},{"type":"InternalIP","address":"fd00::9"}],
            "nodeInfo":{"kubeletVersion":"v1.36.3","osImage":"pertisk-kos 0.2.90","kernelVersion":"6.12","containerRuntimeVersion":"containerd://2.3.4"}}}]}"#,
    );
    let rows = nodes_from_kubectl(&list).unwrap();
    assert_eq!(rows.len(), 1);
    let (name, snap) = &rows[0];
    assert_eq!(name, "wk-1");
    assert_eq!(snap.ip.as_deref(), Some("10.1.1.9"));
    assert_eq!(snap.ip6.as_deref(), Some("fd00::9"));
    assert_eq!(snap.k8s_version.as_deref(), Some("v1.36.3"));
    assert_eq!(snap.os_version.as_deref(), Some("0.2.90"));
    assert_eq!(snap.container_runtime.as_deref(), Some("2.3.4"));
}

#[test]
fn dual_stack_waits_for_both() {
    let only4 = || NodeSnapshot {
        ip: Some("10.1.1.9".into()),
        ..NodeSnapshot::default()
    };
    let rows = Some(vec![("wk-1".to_string(), only4())]);
    assert!(matches!(
        wait_node_addresses(NodeSnapshot::default(), &rows, "wk-1", false, false),
        AddressWait::Done(_)
    ));
    assert!(matches!(
        wait_node_addresses(NodeSnapshot::default(), &rows, "wk-1", true, false),
        AddressWait::Again(_)
    ));
    assert!(!matches!(
        wait_node_addresses(NodeSnapshot::default(), &None, "wk-1", false, true),
        AddressWait::Again(_)
    ));
}

// ---------------------------------------------------------------------------
// Finding nodes again
// ---------------------------------------------------------------------------

#[test]
fn virtual_address_is_no_node() {
    let vip = Some("10.1.1.200".to_string());
    let given = vec![Some("10.1.1.200".to_string()), Some("10.1.1.31".to_string())];
    assert_eq!(
        from_hypervisor(&given, &vip),
        vec![None, Some("10.1.1.31".to_string())]
    );
    assert!(!scan_addresses((10, 1, 1), &vip).contains(&"10.1.1.200".to_string()));
    assert!(usable_lan_ipv4("192.168.1.5"));
    assert!(!usable_lan_ipv4("127.0.0.1"));
    assert!(!usable_lan_ipv4("169.254.3.3"));
}

#[test]
fn moved_nodes_are_stored() {
    let nodes = vec![NodeAddress {
        id: "1".into(),
        name: "cp-1".into(),
        role: "controlplane".into(),
        ip: Some("10.1.1.31".into()),
    }];
    let moved = rediscover_plan(&nodes, &vec![Some("10.1.1.77".to_string())]);
    assert_eq!(moved.updates, vec![("1".to_string(), "10.1.1.77".to_string())]);
    let stays = rediscover_plan(&nodes, &vec![Some("10.1.1.31".to_string())]);
    assert!(stays.updates.is_empty());
    assert_eq!(stays.controlplane, None);
}

#[test]
fn healed_kubelets_rest() {
    let mut seen = Throttle::new();
    let snap = NodeSnapshot {
        ip: Some("10.1.1.9".into()),
        kubelet_status: Some("NotReady".into()),
        ..NodeSnapshot::default()
    };
    let first = heal_candidate(&mut seen, &snap, 0);
    let second = heal_candidate(&mut seen, &snap, 1);
    assert!(first.is_none() || second.is_none());
    assert!(kubelet_absent(&Some("absent".into())));
    assert!(!kubelet_absent(&Some("up".into())));
}

// ---------------------------------------------------------------------------
// Attestation
// ---------------------------------------------------------------------------

#[test]
fn only_the_enrolled_key_passes() {
    let (row, out) = enroll(&Some(Ok(quote("YWsta2V5"))), "2026-01-01T00:00:00Z").unwrap();
    let row = row.unwrap();
    assert!(out.enrolled);
    assert_eq!(row.ak_public_b64.as_deref(), Some("YWsta2V5"));
    assert_eq!(out.ak_fingerprint, fingerprint_b64("YWsta2V5"));

    let other = Some(quote("b3RoZXI="));
    match verify(&Some(row), &other, &None).unwrap() {
        VerifyStep::Done(out) => assert_eq!(out.ok, Some(false)),
        step => panic!("{step:?}"),
    }
}

#[test]
fn enrolled_quote_is_checked() {
    let row = || {
        Some(AkRow {
            ak_public_b64: Some("YWsta2V5".into()),
            ak_enrolled_at: Some("2026-01-01T00:00:00Z".into()),
            ek_fingerprint: None,
        })
    };
    assert!(matches!(verify(&row(), &None, &None).unwrap(), VerifyStep::Quote));
    let q = Some(quote("YWsta2V5"));
    match verify(&row(), &q, &None).unwrap() {
        VerifyStep::Check(c) => {
            assert_eq!(c.quoted, b"quote".to_vec());
            assert_eq!(c.signature, b"sig".to_vec());
            assert_eq!(c.ak_public, b"ak-key".to_vec());
            assert_eq!(c.nonce, vec![0, 255]);
        }
        step => panic!("{step:?}"),
    }
    match verify(&row(), &q, &Some(Ok(()))).unwrap() {
        VerifyStep::Done(out) => assert_eq!(out.ok, Some(true)),
        step => panic!("{step:?}"),
    }
    match verify(&row(), &q, &Some(Err("bad signature".into()))).unwrap() {
        VerifyStep::Done(out) => {
            assert_eq!(out.ok, Some(false));
            assert!(out.message.contains("bad signature"));
        }
        step => panic!("{step:?}"),
    }
    match verify(&None, &None, &None).unwrap() {
        VerifyStep::Done(out) => assert!(!out.enrolled && out.ok == Some(false)),
        step => panic!("{step:?}"),
    }
}

#[test]
fn fingerprints_are_short_digests() {
    let fp = fingerprint_b64("YWsta2V5").unwrap();
    assert!(fp.len() >= 16 && fp.chars().all(|c| c.is_ascii_hexdigit()));
    assert_eq!(fingerprint_b64("***"), None);
    assert!(run_quote(&output(false, "", "no tpm")).is_err());
    assert_eq!(decode_hex("00fF").unwrap(), vec![0, 255]);
    assert!(decode_hex("0").is_err());
    assert!(decode_hex("zz").is_err());
    assert!(!status(&None).enrolled);
}

// ---------------------------------------------------------------------------
// Addresses and numbers
// ---------------------------------------------------------------------------

#[test]
fn addresses_read_and_written() {
    assert_eq!(ipv4("10.1.1.5"), Some((10, 1, 1, 5)));
    assert_eq!(ipv4("010.1.1.5"), None);
    assert_eq!(ipv4("10.1.1.256"), None);
    assert_eq!(ipv4(&ipv4_str(255, 0, 10, 1)), Some((255, 0, 10, 1)));
    assert_eq!(
        ipv6("fd00:1::5").unwrap(),
        vec![0xfd00, 1, 0, 0, 0, 0, 0, 5]
    );
    assert_eq!(ipv6("1::2::3"), None);
    assert_eq!(ipv6_str(&vec![0, 0, 0, 0, 0, 0, 0, 1]), "::1");
    assert_eq!(
        ipv6_str(&vec![0, 0, 0, 0, 0, 0xffff, 0x0a01, 0x0105]),
        "::ffff:10.1.1.5"
    );
    assert_eq!(ip_addr("10.1.1.5"), Some(Ip::V4(10, 1, 1, 5)));
    assert_eq!(ip_addr("host"), None);
}

#[test]
fn numbers_read_and_written() {
    assert_eq!(u64_str(0), "0");
    assert_eq!(u64_str(u64::MAX), "18446744073709551615");
    assert_eq!(i64_str(i64::MIN), "-9223372036854775808");
    assert_eq!(parse_u64_max("300", 255), None);
    assert_eq!(parse_i64("-17"), Some(-17));
    assert_eq!(parse_i64("+5"), Some(5));
    assert_eq!(parse_i64("x"), None);
}

#[test]
fn names_in_order() {
    let v = vec!["b".to_string(), "a".to_string(), "b".to_string()];
    assert_eq!(sorted_unique(&v), vec!["a".to_string(), "b".to_string()]);
    assert!(str_less("a", "b"));
    assert!(!str_less("b", "b"));
}

#[test]
fn last_value_stays() {
    let once = patch_yaml_hostname("hostname: a\n", "b");
    assert_eq!(patch_yaml_hostname(&once, "b"), once);
    assert_eq!(patch_yaml_hostname(&once, "c"), patch_yaml_hostname("hostname: a\n", "c"));
}

#[test]
fn reading_a_node_loses_nothing_that_is_stored() {
    let row = NodeSnapshot {
        ip: Some("10.0.0.1".into()),
        os_version: Some("0.2.90".into()),
        kernel_version: Some("6.1".into()),
        ..NodeSnapshot::default()
    };
    let read = NodeSnapshot {
        ip: Some("10.0.0.9".into()),
        os_version: Some("0.2.91".into()),
        k8s_version: Some("v1.36.3".into()),
        ..NodeSnapshot::default()
    };
    let next = persist_snapshot(&row, &read);
    assert_eq!(next.ip.as_deref(), Some("10.0.0.9"));
    assert_eq!(next.kernel_version.as_deref(), Some("6.1"));
    assert_eq!(next.k8s_version.as_deref(), Some("v1.36.3"));
    assert_eq!(next.os_version.as_deref(), Some("0.2.90"));
    let placeholder = NodeSnapshot {
        os_version: Some("v0.1.0".into()),
        ..NodeSnapshot::default()
    };
    assert_eq!(
        persist_snapshot(&placeholder, &read).os_version.as_deref(),
        Some("0.2.91")
    );
}

#[test]
fn a_node_is_asked_by_one_at_a_time() {
    let mut known = Availability::new();
    let first = begin_probe(&mut known, Some("10.0.0.1"), None, "ready", 0);
    assert!(first.is_some());
    assert_eq!(begin_probe(&mut known, Some("10.0.0.1"), None, "ready", 1), None);
    assert_eq!(begin_probe(&mut known, None, None, "ready", 1), None);
}

#[test]
fn last_sample_of_a_method_counts() {
    let v = vec![("A".to_string(), 1), ("B".to_string(), 2), ("A".to_string(), 5)];
    let c = count_requests(&v);
    assert_eq!(c.by_method, vec![("A".to_string(), 5), ("B".to_string(), 2)]);
    assert_eq!(c.total, Some(7));
    let v = vec![("A".to_string(), u64::MAX), ("B".to_string(), 1)];
    assert_eq!(count_requests(&v).total, None);
}
