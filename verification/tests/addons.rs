//! Add-ons: settings, documents, installations and their status.
use pertisk_mgmt::addons::{
    INGRESS_IMAGE_REGISTRY, INGRESS_IMAGE_REPO, INGRESS_IMAGE_TAG, KOS_SCALER_IMAGE_TAG,
    KUBERNETES_DASHBOARD_IMAGE_REGISTRY, KUBERNETES_DASHBOARD_NAMESPACE,
};
use pertisk_mgmt::addons::catalog::{catalog, catalog_entry, parse_addon_id};
use pertisk_mgmt::addons::install::{
    AddonSecret, SecretColumn, install_kos_scaler, install_nfs, install_secret, seal_secret,
    upsert_install,
};
use pertisk_mgmt::addons::live::crd_storage_api;
use pertisk_mgmt::addons::names::{cert_secret_name, wildcard_dns_names};
use pertisk_mgmt::addons::nfs::render_nfs_provisioner;
use pertisk_mgmt::addons::presets::{
    Preset, PresetRow, config_is_empty, list_presets, restore_presets, restored_payload,
    should_restore_addon,
};
use pertisk_mgmt::addons::render::{
    admin_ingress_doc, cert_manager_issuer_yaml, harbor_pull_secret_doc, ingress_chart_version,
    ingress_helm_values, ingress_pin_tag, kos_scaler_helm_values,
    kubernetes_dashboard_helm_values, pick_platform_digest, registry_login_doc,
    render_cilium_l2_yaml, render_cilium_lb_pool_yaml, wildcard_certificate_doc,
};
use pertisk_mgmt::addons::secrets::{
    KubernetesDashboardSecrets, encode_kubernetes_dashboard_secrets,
    generate_dashboard_jwt_secret, parse_ingress_secrets, parse_kubernetes_dashboard_secrets,
};
use pertisk_mgmt::addons::settings::{
    CertManagerConfig, CiliumLbConfig, IngressConfig, IpFamily, KosScalerConfig,
    KubernetesDashboardConfig, NfsConfig, normalize_lb_cidr, parse_kubernetes_dashboard_stored,
    public_cert_config, public_ingress_config, public_kos_scaler_config,
    public_kubernetes_dashboard_config, validate_cert_manager, validate_cilium_lb,
    validate_ingress, validate_kos_scaler, validate_kubernetes_dashboard, validate_nfs,
};
use pertisk_mgmt::addons::status::merge_status;
use pertisk_mgmt::addons::webhook::{
    apply_again, patch_webhook_container_port, patch_webhook_host_network,
    patch_webhook_service_target_port, webhook_dial_error,
};
use pertisk_mgmt::crypto::{CryptoError, decrypt};
use pertisk_mgmt::error::AppError;
use pertisk_mgmt::json::Json;

fn json_of(v: &serde_json::Value) -> Json {
    match v {
        serde_json::Value::Null => Json::Null,
        serde_json::Value::Bool(b) => Json::Bool(*b),
        serde_json::Value::Number(n) => match (n.as_i64(), n.as_u64()) {
            (Some(i), _) => Json::Int(i),
            (None, Some(u)) => Json::Big(u, n.as_f64().map_or(String::new(), |f| f.to_string())),
            _ => Json::Real(n.as_f64().map_or(String::new(), |f| f.to_string())),
        },
        serde_json::Value::String(s) => Json::Str(s.clone()),
        serde_json::Value::Array(a) => Json::Arr(a.iter().map(json_of).collect()),
        serde_json::Value::Object(o) => {
            Json::Obj(o.iter().map(|(k, x)| (k.clone(), json_of(x))).collect())
        }
    }
}

fn doc(text: &str) -> Json {
    json_of(&serde_json::from_str(text).unwrap())
}

fn at<'a>(j: &'a Json, path: &[&str]) -> &'a Json {
    let mut here = j;
    for step in path {
        here = match here {
            Json::Arr(v) => &v[step.parse::<usize>().unwrap()],
            _ => here.get(step).unwrap(),
        };
    }
    here
}

fn text_at(j: &Json, path: &[&str]) -> String {
    at(j, path).as_str().unwrap()
}

#[test]
fn nfs_validates_ip_and_path() {
    assert!(validate_nfs(&NfsConfig {
        server: "10.1.1.150".into(),
        path: "/mnt/nfs_share".into(),
    })
    .is_ok());
    assert!(validate_nfs(&NfsConfig {
        server: "nas.lab.local".into(),
        path: "/exports/k8s".into(),
    })
    .is_ok());
    assert!(validate_nfs(&NfsConfig {
        server: "".into(),
        path: "/mnt".into(),
    })
    .is_err());
    assert!(validate_nfs(&NfsConfig {
        server: "10.1.1.150".into(),
        path: "mnt".into(),
    })
    .is_err());
    assert!(validate_nfs(&NfsConfig {
        server: "10.1.1.150/24".into(),
        path: "/mnt".into(),
    })
    .is_err());
    assert!(validate_nfs(&NfsConfig {
        server: "10.1.1.150".into(),
        path: "/mnt; rm -rf /".into(),
    })
    .is_err());
}

#[test]
fn cert_manager_requires_cloudflare_email_token() {
    let ok = CertManagerConfig {
        provider: "cloudflare".into(),
        email: "ops@example.com".into(),
        api_token: "cf-token-123456".into(),
        acme: "staging".into(),
        issuer: String::new(),
        domain: String::new(),
    };
    assert!(validate_cert_manager(&ok, true).is_ok());
    let mut bad = ok.clone();
    bad.provider = "route53".into();
    assert!(validate_cert_manager(&bad, true).is_err());
    bad = ok.clone();
    bad.email = "not-an-email".into();
    assert!(validate_cert_manager(&bad, true).is_err());
    bad = ok;
    bad.api_token.clear();
    assert!(validate_cert_manager(&bad, true).is_err());
    assert!(validate_cert_manager(&bad, false).is_ok());
}

#[test]
fn nfs_yaml_substitutes_server_and_path() {
    let template = "env:\n  - name: NFS_SERVER\n    value: \"${NFS_SERVER}\"\n  - name: NFS_PATH\n    value: ${NFS_PATH}\n";
    let yaml = render_nfs_provisioner(template, &NfsConfig {
        server: "10.1.1.150".into(),
        path: "/mnt/nfs_share".into(),
    });
    assert!(
        yaml.contains("value: \"10.1.1.150\"")
            || yaml.contains("value: 10.1.1.150")
            || yaml.contains("10.1.1.150")
    );
    assert!(yaml.contains("/mnt/nfs_share"));
    assert!(!yaml.contains("${NFS_SERVER}"));
    assert!(!yaml.contains("${NFS_PATH}"));
}

#[test]
fn cert_issuer_yaml_uses_staging_when_requested() {
    let yaml = cert_manager_issuer_yaml(&CertManagerConfig {
        provider: "cloudflare".into(),
        email: "ops@example.com".into(),
        api_token: "x".into(),
        acme: "staging".into(),
        issuer: "letsencrypt-cloudflare".into(),
        domain: String::new(),
    });
    assert!(yaml.contains("acme-staging-v02"));
    assert!(yaml.contains("ops@example.com"));
    assert!(yaml.contains("cloudflare-api-token-secret"));
}

#[test]
fn public_cert_config_redacts_token() {
    let v = public_cert_config(&CertManagerConfig {
        provider: "cloudflare".into(),
        email: "ops@example.com".into(),
        api_token: "super-secret".into(),
        acme: "production".into(),
        issuer: String::new(),
        domain: "vsphere.pertisk.com".into(),
    });
    assert!(v.get("api_token").is_none());
    assert_eq!(text_at(&v, &["email"]), "ops@example.com");
    assert_eq!(text_at(&v, &["issuer"]), "letsencrypt-cloudflare");
    assert_eq!(text_at(&v, &["domain"]), "vsphere.pertisk.com");
    assert_eq!(text_at(&v, &["tls_secret"]), "vsphere-pertisk-com-tls");
}

#[test]
fn catalog_has_nfs_and_cert_manager() {
    let ids: Vec<_> = catalog().iter().map(|e| e.id).collect();
    assert_eq!(
        ids,
        [
            "nfs",
            "cert-manager",
            "cilium-lb",
            "ingress",
            "kos-scaler",
            "kubernetes-dashboard",
        ]
    );
    assert_eq!(catalog()[1].section, "certificates");
    assert_eq!(catalog()[2].requires_cni, Some("cilium"));
    assert_eq!(catalog()[3].id, "ingress");
    assert_eq!(catalog()[3].section, "ingress");
    assert_eq!(catalog()[5].section, "dashboard");
}

#[test]
fn restore_skips_cilium_lb_when_cni_is_not_cilium() {
    assert!(should_restore_addon("nfs", "flannel"));
    assert!(should_restore_addon("cilium-lb", "cilium"));
    assert!(!should_restore_addon("cilium-lb", "flannel"));
    assert!(should_restore_addon("ingress", "calico"));
}

#[test]
fn empty_addon_config_json_is_skipped() {
    assert!(config_is_empty(""));
    assert!(config_is_empty("{}"));
    assert!(config_is_empty("  null  "));
    assert!(!config_is_empty(r#"{"server":"10.1.1.150"}"#));
}

#[test]
fn cilium_lb_normalizes_ip_and_cidr() {
    assert_eq!(
        normalize_lb_cidr("10.1.1.50", IpFamily::V4).unwrap(),
        "10.1.1.50/32"
    );
    assert_eq!(
        normalize_lb_cidr("10.1.1.50/32", IpFamily::V4).unwrap(),
        "10.1.1.50/32"
    );
    assert_eq!(
        normalize_lb_cidr("2a01:4f9:c013:14bc::1", IpFamily::V6).unwrap(),
        "2a01:4f9:c013:14bc::1/128"
    );
    assert!(normalize_lb_cidr("10.1.1.50", IpFamily::V6).is_err());
    assert!(validate_cilium_lb(
        &CiliumLbConfig {
            ipv4: "10.1.1.50".into(),
            ipv6: String::new(),
        },
        "ipv4"
    )
    .is_ok());
    assert!(validate_cilium_lb(
        &CiliumLbConfig {
            ipv4: "10.1.1.50".into(),
            ipv6: String::new(),
        },
        "dual-stack"
    )
    .is_err());
    assert!(validate_cilium_lb(
        &CiliumLbConfig {
            ipv4: "10.1.1.50".into(),
            ipv6: "2001:db8::1/128".into(),
        },
        "dual-stack"
    )
    .is_ok());
}

#[test]
fn cilium_lb_yaml_has_pool_and_l2() {
    let pool = render_cilium_lb_pool_yaml(
        &CiliumLbConfig {
            ipv4: "65.108.209.120".into(),
            ipv6: "2a01:4f9:c013:14bc::1".into(),
        },
        "cilium.io/v2",
    );
    let l2 = render_cilium_l2_yaml("cilium.io/v2alpha1");
    assert!(pool.contains("kind: CiliumLoadBalancerIPPool"));
    assert!(pool.contains("apiVersion: cilium.io/v2"));
    assert!(pool.contains("65.108.209.120/32"));
    assert!(pool.contains("2a01:4f9:c013:14bc::1/128"));
    assert!(l2.contains("kind: CiliumL2AnnouncementPolicy"));
    assert!(l2.contains("apiVersion: cilium.io/v2alpha1"));
    assert!(l2.contains("loadBalancerIPs: true"));
    assert!(!l2.contains("cilium.io/v2\n"));
}

#[test]
fn crd_storage_api_uses_storage_version() {
    let pool = doc(
        r#"{ "spec": { "versions": [
            { "name": "v2alpha1", "storage": false },
            { "name": "v2", "storage": true }
        ]}}"#,
    );
    assert_eq!(crd_storage_api(&pool, "cilium.io/v2alpha1"), "cilium.io/v2");
    let l2 = doc(r#"{ "spec": { "versions": [{ "name": "v2alpha1", "storage": true }]}}"#);
    assert_eq!(
        crd_storage_api(&l2, "cilium.io/v2alpha1"),
        "cilium.io/v2alpha1"
    );
}

#[test]
fn webhook_host_network_rewrites_secure_port() {
    let mut deploy = doc(
        r#"{
        "apiVersion": "apps/v1",
        "kind": "Deployment",
        "metadata": { "name": "cert-manager-webhook", "managedFields": [] },
        "spec": {
            "template": {
                "spec": {
                    "containers": [{
                        "name": "cert-manager-webhook",
                        "args": ["--v=2", "--secure-port=10250"],
                        "ports": [{ "name": "https", "containerPort": 10250 }]
                    }]
                }
            }
        },
        "status": { "readyReplicas": 1 }
    }"#,
    );
    patch_webhook_host_network(&mut deploy, 10260);
    let pod = ["spec", "template", "spec"];
    let spec = at(&deploy, &pod);
    assert_eq!(at(spec, &["hostNetwork"]).as_bool(), Some(true));
    assert_eq!(text_at(spec, &["dnsPolicy"]), "ClusterFirstWithHostNet");
    assert_eq!(
        text_at(spec, &["containers", "0", "args", "1"]),
        "--secure-port=10260"
    );
    assert_eq!(
        at(spec, &["containers", "0", "ports", "0", "containerPort"]).as_i64(),
        Some(10260)
    );
    assert!(deploy.get("status").is_none());
}

#[test]
fn webhook_service_numeric_target_port_is_updated() {
    let mut svc = doc(
        r#"{ "spec": { "ports": [{ "name": "https", "port": 443, "targetPort": 10250 }] } }"#,
    );
    patch_webhook_service_target_port(&mut svc, 10260);
    let path = ["spec", "ports", "0", "targetPort"];
    assert_eq!(at(&svc, &path).as_i64(), Some(10260));

    let mut named = doc(
        r#"{ "spec": { "ports": [{ "name": "https", "port": 443, "targetPort": "https" }] } }"#,
    );
    patch_webhook_service_target_port(&mut named, 10260);
    assert_eq!(text_at(&named, &path), "https");
}

#[test]
fn webhook_dial_error_matches_no_route_to_host() {
    assert!(webhook_dial_error(
        r#"failed calling webhook "webhook.cert-manager.io": dial tcp 10.111.71.127:443: connect: no route to host"#
    ));
    assert!(!webhook_dial_error("ClusterIssuer.cert-manager.io created"));
}

#[test]
fn public_kos_scaler_omits_password_and_defaults() {
    let v = public_kos_scaler_config(&KosScalerConfig {
        username: "admin".into(),
        password: "secret".into(),
        min_size: 0,
        max_size: 0,
        image_tag: String::new(),
        storage_class: String::new(),
        mgmt_url: String::new(),
    });
    assert!(v.get("password").is_none());
    assert_eq!(text_at(&v, &["username"]), "admin");
    assert_eq!(at(&v, &["min_size"]).as_i64(), Some(2));
    assert_eq!(at(&v, &["max_size"]).as_i64(), Some(10));
    assert_eq!(text_at(&v, &["image_tag"]), KOS_SCALER_IMAGE_TAG);
    assert_eq!(text_at(&v, &["storage_class"]), "nfs-client");
}

#[test]
fn validate_kos_scaler_requires_user_and_max() {
    let err = validate_kos_scaler(&KosScalerConfig::default(), true).unwrap_err();
    assert!(err.iter().any(|e| e.contains("username")));
    assert!(err.iter().any(|e| e.contains("password")));
    let ok = KosScalerConfig {
        username: "ops".into(),
        password: "pw".into(),
        min_size: 2,
        max_size: 8,
        ..KosScalerConfig::default()
    };
    assert!(validate_kos_scaler(&ok, true).is_ok());
    let bad = KosScalerConfig {
        username: "ops".into(),
        min_size: 5,
        max_size: 2,
        ..KosScalerConfig::default()
    };
    assert!(validate_kos_scaler(&bad, false).is_err());
}

#[test]
fn kos_scaler_helm_values_wire_mgmt() {
    let cfg = KosScalerConfig {
        username: "admin".into(),
        min_size: 3,
        max_size: 12,
        image_tag: "0.1.0".into(),
        storage_class: "nfs-client".into(),
        ..KosScalerConfig::default()
    };
    let v = kos_scaler_helm_values(&cfg, "cid", "https://ptkos.example", "s3cret");
    assert_eq!(text_at(&v, &["mgmt", "clusterId"]), "cid");
    assert_eq!(text_at(&v, &["mgmt", "endpoint"]), "https://ptkos.example");
    assert_eq!(text_at(&v, &["mgmt", "username"]), "admin");
    assert_eq!(text_at(&v, &["mgmt", "password"]), "s3cret");
    let pool = at(&v, &["config", "workerPool"]);
    assert_eq!(at(pool, &["minSize"]).as_i64(), Some(3));
    assert_eq!(at(pool, &["maxSize"]).as_i64(), Some(12));
    let state = at(&v, &["statePersistence"]);
    assert_eq!(at(state, &["enabled"]).as_bool(), Some(true));
    assert_eq!(text_at(state, &["storageClassName"]), "nfs-client");
}

#[test]
fn public_ingress_redacts_password_and_defaults_tag() {
    let v = public_ingress_config(&IngressConfig {
        image_tag: String::new(),
        admin_host: "admin.example.com".into(),
        tls_secret: "none".into(),
        admin_password: "super-secret".into(),
        registry_user: String::new(),
        registry_password: "harbor-secret".into(),
    });
    assert!(v.get("admin_password").is_none());
    assert_eq!(text_at(&v, &["image_tag"]), INGRESS_IMAGE_TAG);
    assert_eq!(
        text_at(&v, &["image"]),
        format!("{INGRESS_IMAGE_REGISTRY}/{INGRESS_IMAGE_REPO}:{INGRESS_IMAGE_TAG}")
    );
    assert_eq!(text_at(&v, &["admin_host"]), "admin.example.com");
    assert_eq!(text_at(&v, &["registry_user"]), "");
}

#[test]
fn ingress_values_follow_network_mode() {
    let cfg = IngressConfig {
        image_tag: "v0.1.83".into(),
        admin_host: String::new(),
        tls_secret: String::new(),
        admin_password: String::new(),
        registry_user: "robot$pertisk-proxy+pull".into(),
        registry_password: String::new(),
    };
    let v4 = ingress_helm_values(&cfg, "ipv4", false, None, true, "v0.1.83-amd64", "amd64");
    assert_eq!(text_at(&v4, &["image", "registry"]), INGRESS_IMAGE_REGISTRY);
    assert_eq!(text_at(&v4, &["image", "repository"]), INGRESS_IMAGE_REPO);
    assert_eq!(text_at(&v4, &["image", "tag"]), "v0.1.83-amd64");
    assert_eq!(
        text_at(&v4, &["nodeSelector", "kubernetes.io/arch"]),
        "amd64"
    );
    assert_eq!(
        text_at(&v4, &["service", "ipFamilyPolicy"]),
        "SingleStack"
    );
    assert_eq!(text_at(&v4, &["service", "ipFamilies", "0"]), "IPv4");
    assert_eq!(at(&v4, &["gatewayApi", "enabled"]).as_bool(), Some(false));
    assert_eq!(at(&v4, &["adminIngress", "enabled"]).as_bool(), Some(false));
    assert_eq!(
        text_at(&v4, &["imagePullSecrets", "0", "name"]),
        "pertisk-ingress-harbor"
    );
    assert!(v4.get("auth").is_none());

    let dual = ingress_helm_values(
        &IngressConfig {
            image_tag: "v0.1.83".into(),
            admin_host: "admin.example.com".into(),
            tls_secret: "vsphere-pertisk-com-tls".into(),
            admin_password: String::new(),
            registry_user: "robot$pertisk-proxy+pull".into(),
            registry_password: String::new(),
        },
        "dual-stack",
        true,
        Some("s3cret"),
        true,
        "v0.1.83@sha256:abc",
        "arm64",
    );
    assert_eq!(
        text_at(&dual, &["service", "ipFamilyPolicy"]),
        "PreferDualStack"
    );
    assert_eq!(text_at(&dual, &["service", "ipFamilies", "1"]), "IPv6");
    assert_eq!(at(&dual, &["gatewayApi", "enabled"]).as_bool(), Some(true));
    let admin = at(&dual, &["adminIngress"]);
    assert_eq!(text_at(admin, &["host"]), "admin.example.com");
    assert_eq!(at(admin, &["enabled"]).as_bool(), Some(true));
    assert_eq!(text_at(admin, &["tlsSecretName"]), "vsphere-pertisk-com-tls");
    assert_eq!(text_at(&dual, &["auth", "password"]), "s3cret");
    assert_eq!(text_at(&dual, &["image", "tag"]), "v0.1.83@sha256:abc");
    assert_eq!(
        text_at(&dual, &["nodeSelector", "kubernetes.io/arch"]),
        "arm64"
    );
}

#[test]
fn validate_ingress_rejects_bad_tag() {
    let ok = IngressConfig {
        image_tag: "v0.1.83".into(),
        registry_user: "robot$pertisk-proxy+pull".into(),
        registry_password: "s3cret".into(),
        ..Default::default()
    };
    assert!(validate_ingress(&ok, true).is_ok());
    assert!(validate_ingress(
        &IngressConfig {
            image_tag: "v0.1.83;rm -rf /".into(),
            registry_user: "robot$pertisk-proxy+pull".into(),
            registry_password: "s3cret".into(),
            ..Default::default()
        },
        true
    )
    .is_err());
    assert!(validate_ingress(
        &IngressConfig {
            image_tag: "v0.1.83".into(),
            ..Default::default()
        },
        false
    )
    .is_ok());
    assert!(validate_ingress(
        &IngressConfig {
            image_tag: "v0.1.83".into(),
            registry_user: "robot$pertisk-proxy+pull".into(),
            ..Default::default()
        },
        true
    )
    .is_err());
}

#[test]
fn harbor_pull_secret_is_dockerconfigjson() {
    let secret = harbor_pull_secret_doc("robot$pertisk-proxy+pull", "s3cret");
    assert_eq!(text_at(&secret, &["kind"]), "Secret");
    assert_eq!(text_at(&secret, &["type"]), "kubernetes.io/dockerconfigjson");
    let parsed = doc(&text_at(&secret, &["stringData", ".dockerconfigjson"]));
    let auth = at(&parsed, &["auths", INGRESS_IMAGE_REGISTRY]);
    assert_eq!(text_at(auth, &["username"]), "robot$pertisk-proxy+pull");
    assert!(text_at(auth, &["auth"]).len() > 8);
    assert_eq!(text_at(auth, &["password"]), "s3cret");
    assert_eq!(
        text_at(auth, &["auth"]),
        "cm9ib3QkcGVydGlzay1wcm94eStwdWxsOnMzY3JldA=="
    );
}

#[test]
fn parse_ingress_secrets_accepts_legacy_plaintext() {
    let s = parse_ingress_secrets("old-admin-password");
    assert_eq!(s.admin_password, "old-admin-password");
    assert!(s.registry_password.is_empty());
    let s = parse_ingress_secrets(r#"{"admin_password":"a","registry_password":"b"}"#);
    assert_eq!(s.admin_password, "a");
    assert_eq!(s.registry_password, "b");
}

#[test]
fn ingress_pin_tag_appends_cluster_arch() {
    assert_eq!(ingress_pin_tag("v0.1.83", "arm64"), "v0.1.83-arm64");
    assert_eq!(ingress_pin_tag("v0.1.83", "aarch64"), "v0.1.83-arm64");
    assert_eq!(ingress_pin_tag("v0.1.83", "amd64"), "v0.1.83-amd64");
    assert_eq!(ingress_pin_tag("v0.1.83-arm64", "amd64"), "v0.1.83-arm64");
    assert_eq!(
        ingress_pin_tag("v0.1.83@sha256:abc", "arm64"),
        "v0.1.83@sha256:abc"
    );
}

#[test]
fn ingress_chart_version_from_image_tag() {
    assert_eq!(ingress_chart_version("v0.1.85").as_deref(), Some("0.1.85"));
    assert_eq!(
        ingress_chart_version("v0.1.85-arm64").as_deref(),
        Some("0.1.85")
    );
    assert_eq!(
        ingress_chart_version("v0.1.85@sha256:abc").as_deref(),
        Some("0.1.85")
    );
    assert_eq!(
        ingress_chart_version("").as_deref(),
        Some(INGRESS_IMAGE_TAG.trim_start_matches('v'))
    );
    assert!(ingress_chart_version("latest").is_none());
}

#[test]
fn pick_platform_digest_skips_attestations() {
    let index = doc(
        r#"{
        "manifests": [
            {
                "mediaType": "application/vnd.oci.image.manifest.v1+json",
                "digest": "sha256:amd",
                "platform": { "architecture": "amd64", "os": "linux" }
            },
            {
                "mediaType": "application/vnd.oci.image.manifest.v1+json",
                "digest": "sha256:arm",
                "platform": { "architecture": "arm64", "os": "linux" }
            },
            {
                "mediaType": "application/vnd.oci.image.manifest.v1+json",
                "digest": "sha256:att",
                "platform": { "architecture": "unknown", "os": "unknown" }
            }
        ]
    }"#,
    );
    assert_eq!(
        pick_platform_digest(&index, "arm64").as_deref(),
        Some("sha256:arm")
    );
    assert_eq!(
        pick_platform_digest(&index, "amd64").as_deref(),
        Some("sha256:amd")
    );
    assert!(pick_platform_digest(&index, "s390x").is_none());
}

#[test]
fn admin_ingress_is_http_only_without_tls_secret() {
    let d = admin_ingress_doc("admin.vsphere.pertisk.com", "");
    assert_eq!(text_at(&d, &["kind"]), "Ingress");
    assert_eq!(
        text_at(&d, &["metadata", "name"]),
        "pertisk-proxy-ingress-admin"
    );
    let rule = at(&d, &["spec", "rules", "0"]);
    assert_eq!(text_at(rule, &["host"]), "admin.vsphere.pertisk.com");
    assert_eq!(
        at(rule, &["http", "paths", "0", "backend", "service", "port", "number"]).as_i64(),
        Some(9080)
    );
    assert_eq!(text_at(&d, &["spec", "ingressClassName"]), "pertisk-proxy");
    assert_eq!(
        text_at(
            &d,
            &["metadata", "annotations", "proxy.pertisk.tech/security-exempt"]
        ),
        "true"
    );
    assert!(at(&d, &["spec"]).get("tls").is_none());
}

#[test]
fn admin_ingress_attaches_selected_tls_secret() {
    let d = admin_ingress_doc("admin.vsphere.pertisk.com", "vsphere-pertisk-com-tls");
    let tls = at(&d, &["spec", "tls", "0"]);
    assert_eq!(text_at(tls, &["secretName"]), "vsphere-pertisk-com-tls");
    assert_eq!(text_at(tls, &["hosts", "0"]), "admin.vsphere.pertisk.com");
}

#[test]
fn dashboard_config_requires_host_for_tls_and_normalizes_none() {
    let http = KubernetesDashboardConfig {
        namespace: KUBERNETES_DASHBOARD_NAMESPACE.into(),
        image_tag: "v0.2.6".into(),
        username: "admin".into(),
        password: "dashboard-password".into(),
        host: "dashboard.example.com".into(),
        tls_secret: "none".into(),
    };
    assert!(validate_kubernetes_dashboard(&http, true).is_ok());
    let public = public_kubernetes_dashboard_config(&http);
    assert_eq!(text_at(&public, &["host"]), "dashboard.example.com");
    assert_eq!(text_at(&public, &["tls_secret"]), "");
    assert_eq!(
        text_at(&public, &["namespace"]),
        KUBERNETES_DASHBOARD_NAMESPACE
    );
    assert_eq!(text_at(&public, &["image_tag"]), "v0.2.6");
    assert_eq!(text_at(&public, &["username"]), "admin");
    assert!(public.get("password").is_none());
    assert!(validate_kubernetes_dashboard(
        &KubernetesDashboardConfig {
            host: String::new(),
            tls_secret: "dashboard-tls".into(),
            ..Default::default()
        },
        false
    )
    .is_err());
    assert!(validate_kubernetes_dashboard(&KubernetesDashboardConfig::default(), true).is_err());
    assert_eq!(
        parse_kubernetes_dashboard_stored(&doc("{}")).namespace,
        KUBERNETES_DASHBOARD_NAMESPACE
    );
}

#[test]
fn dashboard_helm_values_configure_image_login_and_ingress() {
    let values = kubernetes_dashboard_helm_values(
        &KubernetesDashboardConfig {
            namespace: KUBERNETES_DASHBOARD_NAMESPACE.into(),
            image_tag: "v0.2.7".into(),
            username: "operator".into(),
            password: "dashboard-password".into(),
            host: "dashboard.example.com".into(),
            tls_secret: "dashboard-tls".into(),
        },
        "jwt-secret",
    );
    assert_eq!(
        text_at(&values, &["app", "image", "registry"]),
        KUBERNETES_DASHBOARD_IMAGE_REGISTRY
    );
    assert_eq!(text_at(&values, &["app", "image", "tag"]), "v0.2.7");
    let auth = at(&values, &["app", "auth"]);
    assert_eq!(text_at(auth, &["username"]), "operator");
    assert_eq!(text_at(auth, &["password"]), "dashboard-password");
    assert_eq!(text_at(auth, &["jwtSecret"]), "jwt-secret");
    let ingress = at(&values, &["ingress"]);
    assert_eq!(
        text_at(ingress, &["hosts", "0", "host"]),
        "dashboard.example.com"
    );
    assert_eq!(text_at(ingress, &["tls", "0", "secretName"]), "dashboard-tls");
}

#[test]
fn dashboard_secrets_migrate_password_only_data() {
    let legacy = parse_kubernetes_dashboard_secrets("dashboard-password");
    assert_eq!(legacy.password, "dashboard-password");
    assert!(legacy.jwt_secret.is_empty());
    let jwt_secret = generate_dashboard_jwt_secret();
    assert_eq!(jwt_secret.len(), 64);
    let encoded = encode_kubernetes_dashboard_secrets(&KubernetesDashboardSecrets {
        password: legacy.password,
        jwt_secret: jwt_secret.clone(),
    });
    let decoded = parse_kubernetes_dashboard_secrets(&encoded);
    assert_eq!(decoded.jwt_secret, jwt_secret);
    assert_eq!(decoded.password, "dashboard-password");
}

#[test]
fn wildcard_certificate_covers_apex_and_star() {
    assert_eq!(
        wildcard_dns_names("vsphere.pertisk.com"),
        ["*.vsphere.pertisk.com", "vsphere.pertisk.com"]
    );
    assert_eq!(
        wildcard_dns_names("*.vsphere.pertisk.com"),
        ["*.vsphere.pertisk.com", "vsphere.pertisk.com"]
    );
    assert_eq!(
        cert_secret_name("*.vsphere.pertisk.com"),
        "vsphere-pertisk-com-tls"
    );
    let d = wildcard_certificate_doc(&CertManagerConfig {
        provider: "cloudflare".into(),
        email: "ops@example.com".into(),
        api_token: "x".into(),
        acme: "production".into(),
        issuer: "letsencrypt-cloudflare".into(),
        domain: "vsphere.pertisk.com".into(),
    })
    .expect("certificate");
    assert_eq!(text_at(&d, &["kind"]), "Certificate");
    assert_eq!(text_at(&d, &["metadata", "namespace"]), "cert-manager");
    assert_eq!(
        text_at(&d, &["spec", "secretName"]),
        "vsphere-pertisk-com-tls"
    );
    assert_eq!(
        text_at(&d, &["spec", "dnsNames", "0"]),
        "*.vsphere.pertisk.com"
    );
    assert_eq!(
        text_at(
            &d,
            &[
                "spec",
                "secretTemplate",
                "annotations",
                "reflector.v1.k8s.emberstack.com/reflection-auto-enabled"
            ]
        ),
        "true"
    );
    assert!(wildcard_certificate_doc(&CertManagerConfig::default()).is_none());
    let mut bad = CertManagerConfig {
        provider: "cloudflare".into(),
        email: "ops@example.com".into(),
        api_token: "cf-token-123456".into(),
        acme: "production".into(),
        domain: "not a domain".into(),
        ..Default::default()
    };
    assert!(validate_cert_manager(&bad, true).is_err());
    bad.domain = "vsphere.pertisk.com".into();
    assert!(validate_cert_manager(&bad, true).is_ok());
}

// ---------------------------------------------------------------------------
// Installing and showing add-ons
// ---------------------------------------------------------------------------

const KEY: [u8; 32] = [7; 32];

#[test]
fn stored_password_is_used_again() {
    let body = doc(
        r#"{"image_tag":"v0.1.83","registry_user":"robot$p+pull","registry_password":"s3cret"}"#,
    );
    let first = upsert_install("ingress", &body, &None, &KEY, "cilium", "ipv4").unwrap();
    assert!(first.config.get("registry_password").is_none());
    let enc = match first.secrets {
        SecretColumn::Store(Some(s)) => s,
        other => panic!("{other:?}"),
    };
    assert!(!enc.contains("s3cret"));
    let again = doc(r#"{"image_tag":"v0.1.84","registry_user":"robot$p+pull"}"#);
    let second =
        upsert_install("ingress", &again, &Some(enc.clone()), &KEY, "cilium", "ipv4").unwrap();
    assert_eq!(text_at(&second.config, &["image_tag"]), "v0.1.84");
    let kept = match second.secrets {
        SecretColumn::Store(Some(s)) => s,
        SecretColumn::Keep => enc,
        other => panic!("{other:?}"),
    };
    match install_secret("ingress", &Some(kept), &KEY) {
        Ok(AddonSecret::Ingress(s)) => assert_eq!(s.registry_password, "s3cret"),
        other => panic!("{other:?}"),
    }
}

#[test]
fn cilium_addon_needs_cilium() {
    let body = doc(r#"{"ipv4":"10.1.1.50"}"#);
    let err = upsert_install("cilium-lb", &body, &None, &KEY, "flannel", "ipv4").unwrap_err();
    assert_eq!(err.status(), 400);
    assert!(upsert_install("cilium-lb", &body, &None, &KEY, "cilium", "ipv4").is_ok());
}

#[test]
fn nfs_is_stored_without_secret() {
    let body = doc(r#"{"server":"10.1.1.150","path":"/mnt/nfs_share"}"#);
    let got = upsert_install("nfs", &body, &None, &KEY, "flannel", "ipv4").unwrap();
    assert_eq!(text_at(&got.config, &["server"]), "10.1.1.150");
    assert!(!matches!(got.secrets, SecretColumn::Store(Some(_))));
    let err = upsert_install("nfs", &doc("{}"), &None, &KEY, "flannel", "ipv4").unwrap_err();
    assert_eq!(err.status(), 400);
}

#[test]
fn unknown_addon_is_no_addon() {
    assert!(parse_addon_id("ingress").is_ok());
    assert!(parse_addon_id("redis").is_err());
    assert!(catalog_entry("redis").is_err());
    assert_eq!(catalog_entry("nfs").unwrap().id, "nfs");
}

#[test]
fn status_follows_what_runs() {
    assert_eq!(merge_status(None, false, false, false), "not_installed");
    assert_eq!(merge_status(None, true, false, false), "installed");
    assert_eq!(merge_status(None, false, false, true), "installing");
}

#[test]
fn dial_error_is_tried_again() {
    let msg = "dial tcp 10.0.0.1:443: connect: no route to host";
    assert!(apply_again(1, 5, msg));
    assert!(!apply_again(5, 5, msg));
    assert!(!apply_again(1, 5, "forbidden"));
}

#[test]
fn pinned_tag_stays() {
    let once = ingress_pin_tag("  v1  ", "aarch64");
    assert_eq!(once, "v1-arm64");
    assert_eq!(ingress_pin_tag(&once, "amd64"), once);
}

#[test]
fn secret_name_of_long_domain_is_cut() {
    let name = cert_secret_name(&"a".repeat(80));
    assert_eq!(name.len(), 63);
    assert_eq!(cert_secret_name(""), "wildcard-tls");
}

#[test]
fn helm_install_logs_no_password() {
    let stored = doc(r#"{"username":"admin","min_size":2,"max_size":4}"#);
    let h = install_kos_scaler(&stored, "https://mgmt.example", "cid", "pw-77", "/tmp/v.json")
        .unwrap();
    assert_eq!(text_at(&h.values, &["mgmt", "password"]), "pw-77");
    assert!(h.args.iter().any(|a| a == "/tmp/v.json"));
}

#[test]
fn presets_of_another_cluster_are_restored() {
    let rows = vec![
        Preset {
            addon: "nfs".into(),
            config_json: r#"{"server":"10.1.1.150"}"#.into(),
            secrets_enc: None,
            want_install: 1,
        },
        Preset {
            addon: "cilium-lb".into(),
            config_json: r#"{"ipv4":"10.1.1.50"}"#.into(),
            secrets_enc: None,
            want_install: 1,
        },
        Preset {
            addon: "ingress".into(),
            config_json: "{}".into(),
            secrets_enc: None,
            want_install: 1,
        },
    ];
    assert_eq!(restore_presets("old", &rows, "flannel"), vec![0]);
    assert_eq!(restore_presets("old", &rows, "cilium"), vec![0, 1]);
    assert_eq!(text_at(&restored_payload("nfs"), &["addon"]), "nfs");
}

#[test]
fn nfs_manifests_come_in_order_and_bad_exports_are_refused() {
    let good = Json::object()
        .with("server", Json::Str(" 10.0.0.5 ".into()))
        .with("path", Json::Str("/srv".into()));
    assert_eq!(
        install_nfs(&good, "kind: DaemonSet\n", "s=${NFS_SERVER} p=${NFS_PATH}\n"),
        Ok(("kind: DaemonSet\n".into(), "s=10.0.0.5 p=/srv\n".into()))
    );
    let bad = Json::object()
        .with("server", Json::Str("".into()))
        .with("path", Json::Str("/srv".into()));
    assert!(install_nfs(&bad, "m", "p").unwrap_err().contains("NFS server is required"));
}

#[test]
fn a_webhook_is_moved_once() {
    let c = doc(r#"{"args":["--v=2"],"ports":[{"name":"https","containerPort":10250}]}"#);
    let once = patch_webhook_container_port(&c, 10260);
    assert_eq!(
        once,
        doc(r#"{"args":["--v=2","--secure-port=10260"],"ports":[{"name":"https","containerPort":10260}]}"#)
    );
    assert_eq!(patch_webhook_container_port(&once, 10260), once);
}

#[test]
fn kept_settings_are_grouped_by_cluster() {
    let row = |cluster: &str, addon: &str, text: &str| PresetRow {
        cluster_name: cluster.into(),
        addon: addon.into(),
        config_json: text.into(),
        config: doc(text),
        want_install: 1,
    };
    let rows = vec![
        row("Lab", "nfs", r#"{"server":"a"}"#),
        row("lab", "nfs", r#"{"server":"b"}"#),
        row("Lab", "other", r#"{"server":"c"}"#),
        row("Lab", "ingress", "{}"),
    ];
    let groups = list_presets(&rows);
    assert_eq!(groups.len(), 2);
    assert_eq!(text_at(&groups[0], &["cluster_name"]), "Lab");
    assert_eq!(text_at(&groups[0], &["addons", "0", "config", "server"]), "a");
    assert_eq!(text_at(&groups[0], &["addons", "1", "config", "server"]), "c");
    assert_eq!(text_at(&groups[0], &["addons", "1", "name"]), "other");
    assert!(matches!(at(&groups[0], &["addons"]), Json::Arr(v) if v.len() == 2));
    assert_eq!(text_at(&groups[1], &["cluster_name"]), "lab");
    assert_eq!(text_at(&groups[1], &["addons", "0", "config", "server"]), "b");
    assert!(at(&groups[0], &["addons", "0"]).get("secrets_enc").is_none());
}

#[test]
fn refused_installs_say_why() {
    let err = upsert_install("nope", &doc("{}"), &None, &KEY, "cilium", "ipv4").unwrap_err();
    assert_eq!(err, AppError::BadRequest("unknown addon nope".into()));
    let body = doc(r#"{"admin_password":"password1","registry_password":"p2","registry_user":"u"}"#);
    let got = upsert_install("ingress", &body, &None, &[1u8; 5], "cilium", "ipv4");
    match got {
        Err(AppError::Anyhow(m)) => assert_eq!(m, "aes key"),
        Err(AppError::BadRequest(m)) => assert!(!m.is_empty()),
        _ => panic!("sealed under a short key"),
    }
    assert_eq!(
        seal_secret(&AddonSecret::Token("t".into()), &[1u8; 5]).unwrap_err(),
        CryptoError::AesKey
    );
    assert_eq!(seal_secret(&AddonSecret::Keep, &[1u8; 5]).unwrap(), SecretColumn::Keep);
    match seal_secret(&AddonSecret::Token("token".into()), &KEY).unwrap() {
        SecretColumn::Store(Some(e)) => {
            assert_ne!(e, "token");
            assert_eq!(decrypt(&KEY, &e).unwrap(), "token");
        }
        other => panic!("{other:?}"),
    }
}

#[test]
fn registry_login_is_nested() {
    let login = registry_login_doc("reg.example", "u", "p", "dTpw");
    assert_eq!(login.len(), 1);
    assert_eq!(login[0].0, "auths");
    assert_eq!(login[0].1[0].0, "reg.example");
    let leaves: Vec<_> = login[0].1[0].1.iter().map(|(k, v)| (k.as_str(), v.as_str())).collect();
    assert_eq!(leaves, [("username", "u"), ("password", "p"), ("auth", "dTpw")]);
}
