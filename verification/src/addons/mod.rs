//! Optional cluster add-ons: NFS storage, cert-manager, the Cilium load
//! balancer, ingress, the autoscaler and the dashboard.
use vstd::prelude::*;

pub mod catalog;
pub mod document_laws;
pub mod install;
pub mod live;
pub mod names;
pub mod nfs;
pub mod presets;
pub mod render;
pub mod secrets;
pub mod settings;
pub mod settings_laws;
pub mod state_laws;
pub mod status;
pub mod webhook;

verus! {

pub const CERT_MANAGER_VERSION: &'static str = "v1.21.1";

pub const CERT_MANAGER_MANIFEST_URL: &'static str = "https://github.com/cert-manager/cert-manager/releases/download/v1.21.1/cert-manager.yaml";

/// Keeps clear of the kubelet port when the webhook runs on the host network.
pub const WEBHOOK_HOST_PORT: u16 = 10260;

pub const NFS_ID: &'static str = "nfs";

pub const CERT_MANAGER_ID: &'static str = "cert-manager";

pub const CILIUM_LB_ID: &'static str = "cilium-lb";

pub const CILIUM_LB_POOL: &'static str = "default-pool";

pub const CILIUM_LB_L2: &'static str = "default-l2-announcement-policy";

pub const INGRESS_ID: &'static str = "ingress";

pub const INGRESS_HELM_REPO: &'static str = "https://chart.tools.pertisk.com";

pub const INGRESS_HELM_CHART: &'static str = "pertisk-ingress";

pub const INGRESS_RELEASE: &'static str = "pertisk-ingress";

pub const INGRESS_NAMESPACE: &'static str = "pertisk-proxy";

pub const INGRESS_DEPLOY: &'static str = "pertisk-proxy-ingress";

pub const INGRESS_ADMIN: &'static str = "pertisk-proxy-ingress-admin";

pub const INGRESS_PULL_SECRET: &'static str = "pertisk-ingress-harbor";

pub const INGRESS_IMAGE_REGISTRY: &'static str = "harbor.tools.pertisk.com";

pub const INGRESS_IMAGE_REPO: &'static str = "pertisk-proxy/ingress";

pub const INGRESS_IMAGE_TAG: &'static str = "v0.1.83";

pub const KOS_SCALER_ID: &'static str = "kos-scaler";

pub const KOS_SCALER_HELM_CHART: &'static str = "kos-scaler";

pub const KOS_SCALER_RELEASE: &'static str = "kos-scaler";

pub const KOS_SCALER_NAMESPACE: &'static str = "kos-scaler";

pub const KOS_SCALER_DEPLOY: &'static str = "kos-scaler";

pub const KOS_SCALER_IMAGE_TAG: &'static str = "0.1.0";

pub const KUBERNETES_DASHBOARD_ID: &'static str = "kubernetes-dashboard";

pub const KUBERNETES_DASHBOARD_HELM_CHART: &'static str = "pertisk-kube";

pub const KUBERNETES_DASHBOARD_RELEASE: &'static str = "pertisk-kube";

pub const KUBERNETES_DASHBOARD_NAMESPACE: &'static str = "pertisk-dashboard";

pub const KUBERNETES_DASHBOARD_DEPLOY: &'static str = "pertisk-kube";

pub const KUBERNETES_DASHBOARD_IMAGE_REGISTRY: &'static str = "harbor.tools.pertisk.com";

pub const KUBERNETES_DASHBOARD_IMAGE_REPO: &'static str = "pertisksoft/pertisk-kube/web";

pub const KUBERNETES_DASHBOARD_IMAGE_TAG: &'static str = "v0.2.6";

pub const CERT_NS: &'static str = "cert-manager";

pub const REFLECTOR_MANIFEST_URL: &'static str = "https://github.com/emberstack/kubernetes-reflector/releases/latest/download/reflector.yaml";

pub const ACME_PROD: &'static str = "https://acme-v02.api.letsencrypt.org/directory";

pub const ACME_STAGING: &'static str = "https://acme-staging-v02.api.letsencrypt.org/directory";

} // verus!
