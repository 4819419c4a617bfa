//! What the documents of the add-ons say to the cluster, member by member.
use crate::addons::{
    CERT_NS, CILIUM_LB_POOL, INGRESS_ADMIN, INGRESS_DEPLOY, INGRESS_IMAGE_REGISTRY,
    INGRESS_IMAGE_REPO, INGRESS_IMAGE_TAG, INGRESS_NAMESPACE, INGRESS_PULL_SECRET,
    KOS_SCALER_IMAGE_TAG, KUBERNETES_DASHBOARD_IMAGE_REGISTRY, KUBERNETES_DASHBOARD_IMAGE_REPO,
};
use crate::addons::names::{chosen_name, dns_names};
use crate::addons::render::{
    admin_ingress, dashboard_values, entry_digest, index_digest, ingress_values, ip_policy,
    l2_policy, lb_pool, node_arch, pull_secret, resolved_tag, scaler_endpoint, scaler_values,
    token_secret, wildcard_certificate,
};
use crate::addons::secrets::json_tree;
use crate::addons::settings::{
    CertManagerConfigV, CiliumLbConfigV, IngressConfigV, IpFamily, KosScalerConfigV,
    KubernetesDashboardConfigV, lb_cidr, public_cert, public_scaler,
};
use crate::crypto::b64_text;
use crate::json::{JsonV, str_arr};
use crate::text::{contains, ends_with, lower, starts_with, trim, trim_end_char};
use vstd::prelude::*;
use vstd::utf8::encode_utf8;

verus! {

/// The text without white space around it, or another where nothing is left.
pub open spec fn kept_or(s: Seq<char>, d: Seq<char>) -> Seq<char> {
    if trim(s).len() > 0 {
        trim(s)
    } else {
        d
    }
}

/// A secret or class is named: neither nothing nor `none`, in any case.
pub open spec fn is_named(s: Seq<char>) -> bool {
    trim(s).len() > 0 && lower(trim(s)) != "none"@
}

proof fn lemma_named(s: Seq<char>)
    ensures
        chosen_name(s) == (if is_named(s) {
            trim(s)
        } else {
            Seq::empty()
        }),
        is_named(s) ==> chosen_name(s).len() > 0,
{
    reveal_strlit("none");
    assert(lower("none"@) =~= "none"@);
}

/// A machine is of the arm family exactly where its architecture is written so.
pub proof fn law_architecture_of_a_node(raw: Seq<char>)
    ensures
        node_arch(raw) == "arm64"@ <==> (lower(trim(raw)) == "arm64"@ || lower(trim(raw))
            == "aarch64"@),
        node_arch(raw) != "arm64"@ ==> node_arch(raw) == "amd64"@,
{
    reveal_strlit("arm64");
    reveal_strlit("aarch64");
    reveal_strlit("amd64");
    assert("arm64"@.len() == 5);
    assert("aarch64"@.len() == 7);
    assert("amd64"@.len() == 5);
    assert("arm64"@[1] == 'r' && "amd64"@[1] == 'm');
}

/// An entry of an image index is for the architecture.
pub open spec fn serves(m: JsonV, arch: Seq<char>) -> bool {
    let a = m.get2("platform"@, "architecture"@);
    &&& a is Some && a->0 is Str
    &&& a->0->Str_0 == arch || (arch == "arm64"@ && starts_with(a->0->Str_0, "arm64"@))
    &&& match m.get2("platform"@, "os"@) {
        Some(JsonV::Str(os)) => os == "linux"@,
        _ => true,
    }
}

/// The digest that is picked for a machine is the one of the first entry that
/// serves it: an entry for Linux and the architecture, with a digest, that is not
/// an attestation; and one is picked wherever there is such an entry.
pub proof fn law_digest_is_for_the_machine(s: Seq<JsonV>, arch: Seq<char>, i: int)
    requires
        0 <= i <= s.len(),
        arch == "arm64"@ || arch == "amd64"@,
    ensures
        match index_digest(s, arch, i) {
            Some(d) => exists|k: int|
                i <= k < s.len() && serves(#[trigger] s[k], arch) && s[k].get("digest"@) == Some(
                    JsonV::Str(d),
                ) && starts_with(d, "sha256:"@) && forall|n: int|
                    i <= n < k ==> entry_digest(#[trigger] s[n], arch) is None,
            None => forall|k: int|
                i <= k < s.len() && serves(#[trigger] s[k], arch) ==> !(s[k].get("digest"@) is Some
                    && s[k].get("digest"@)->0 is Str && starts_with(
                    s[k].get("digest"@)->0->Str_0,
                    "sha256:"@,
                )) || (s[k].get("mediaType"@) is Some && s[k].get("mediaType"@)->0 is Str
                    && contains(s[k].get("mediaType"@)->0->Str_0, "attestation"@)),
        },
    decreases s.len() - i,
{
    reveal_strlit("arm64");
    reveal_strlit("amd64");
    reveal_strlit("unknown");
    reveal_strlit("linux");
    reveal_strlit("sha256:");
    reveal_strlit("");
    assert("arm64"@.len() == 5);
    assert("amd64"@.len() == 5);
    assert("unknown"@.len() == 7);
    assert("linux"@.len() == 5);
    assert("sha256:"@.len() == 7);
    assert(""@.len() == 0);
    assert("arm64"@[1] == 'r' && "amd64"@[1] == 'm');
    assert("arm64"@[0] == 'a' && "linux"@[0] == 'l');
    assert("amd64"@[0] == 'a' && "linux"@[0] == 'l');
    assert("unknown"@[0] == 'u' && "sha256:"@[0] == 's');
    reveal_strlit("attestation");
    if i < s.len() {
        law_digest_is_for_the_machine(s, arch, i + 1);
        if entry_digest(s[i], arch) is Some {
            assert(serves(s[i], arch));
        } else if index_digest(s, arch, i + 1) is Some {
            let d = index_digest(s, arch, i + 1)->0;
            let k = choose|k: int|
                i + 1 <= k < s.len() && serves(#[trigger] s[k], arch) && s[k].get("digest"@)
                    == Some(JsonV::Str(d)) && starts_with(d, "sha256:"@) && forall|n: int|
                    i + 1 <= n < k ==> entry_digest(#[trigger] s[n], arch) is None;
            assert forall|n: int| i <= n < k implies entry_digest(#[trigger] s[n], arch) is None by {
                if n > i {
                }
            }
            assert(serves(s[k], arch));
        }
    }
}

/// A tag that is found in the index pins the digest of the machine's own image;
/// a tag that names its architecture or digest stays as it is.
pub proof fn law_image_is_pinned(raw: Seq<char>, arch: Seq<char>, s: Seq<JsonV>, index: JsonV)
    requires
        index.get("manifests"@) == Some(JsonV::Arr(s)),
    ensures
        ({
            let tag = kept_or(raw, INGRESS_IMAGE_TAG@);
            let machine = if lower(trim(arch)) == "arm64"@ || lower(trim(arch)) == "aarch64"@ {
                "arm64"@
            } else {
                "amd64"@
            };
            let stays = ends_with(tag, "-amd64"@) || ends_with(tag, "-arm64"@) || tag.contains('@');
            &&& stays ==> resolved_tag(raw, arch, Some(index)) == Ok::<Seq<char>, Seq<char>>(tag)
            &&& !stays && index_digest(s, machine, 0) is Some ==> resolved_tag(
                raw,
                arch,
                Some(index),
            ) == Ok::<Seq<char>, Seq<char>>(tag + "@"@ + index_digest(s, machine, 0)->0)
            &&& !stays && index_digest(s, machine, 0) is None ==> resolved_tag(
                raw,
                arch,
                Some(index),
            ) is Err
        }),
{
}

/// The address families of a service: the second one exactly on a network of both.
pub proof fn law_families_of_a_service(mode: Seq<char>)
    ensures
        ip_policy(mode).1.contains("IPv6"@) <==> (lower(trim(mode)) == "ipv6"@ || lower(trim(mode))
            == "dual-stack"@ || lower(trim(mode)) == "dualstack"@),
        ip_policy(mode).1.contains("IPv4"@) <==> lower(trim(mode)) != "ipv6"@,
        ip_policy(mode).0 == "PreferDualStack"@ <==> ip_policy(mode).1.len() == 2,
        ip_policy(mode).0 != "PreferDualStack"@ ==> ip_policy(mode).0 == "SingleStack"@
            && ip_policy(mode).1.len() == 1,
{
    reveal_strlit("ipv6");
    reveal_strlit("dual-stack");
    reveal_strlit("dualstack");
    reveal_strlit("IPv4");
    reveal_strlit("IPv6");
    reveal_strlit("PreferDualStack");
    reveal_strlit("SingleStack");
    assert("ipv6"@.len() == 4);
    assert("dual-stack"@.len() == 10);
    assert("dualstack"@.len() == 9);
    assert("IPv4"@.len() == 4);
    assert("IPv6"@.len() == 4);
    assert("PreferDualStack"@.len() == 15);
    assert("SingleStack"@.len() == 11);
    assert("ipv6"@[0] == 'i' && "IPv4"@[0] == 'I');
    assert("ipv6"@[0] == 'i' && "IPv6"@[0] == 'I');
    assert("IPv4"@[3] == '4' && "IPv6"@[3] == '6');
    let f = ip_policy(mode).1;
    if f.len() == 2 {
        assert(f[0] == "IPv4"@ && f[1] == "IPv6"@);
    } else {
        assert(f[0] == "IPv4"@ || f[0] == "IPv6"@);
    }
}

/// The values of the ingress: the image with the tag that was found, on machines
/// of the cluster's architecture, the admin page exactly where a host is given,
/// the pull secret exactly where there is one, and a password exactly where one
/// is given.
#[verifier::rlimit(60)]
pub proof fn law_ingress_values(
    cfg: IngressConfigV,
    mode: Seq<char>,
    gateway_api: bool,
    password: Option<Seq<char>>,
    pull_secret: bool,
    tag: Seq<char>,
    arch: Seq<char>,
)
    ensures
        ({
            let v = ingress_values(cfg, mode, gateway_api, password, pull_secret, tag, arch);
            let secret = password is Some && trim(password->0).len() > 0;
            &&& v.get2("image"@, "tag"@) == Some(
                JsonV::Str(kept_or(tag, kept_or(cfg.image_tag, INGRESS_IMAGE_TAG@))),
            )
            &&& v.get2("image"@, "registry"@) == Some(JsonV::Str(INGRESS_IMAGE_REGISTRY@))
            &&& v.get2("image"@, "repository"@) == Some(JsonV::Str(INGRESS_IMAGE_REPO@))
            &&& v.get2("image"@, "pullPolicy"@) == Some(JsonV::Str("Always"@))
            &&& v.get2("nodeSelector"@, "kubernetes.io/arch"@) == Some(JsonV::Str(node_arch(arch)))
            &&& v.get2("service"@, "type"@) == Some(JsonV::Str("LoadBalancer"@))
            &&& v.get2("service"@, "ipFamilyPolicy"@) == Some(JsonV::Str(ip_policy(mode).0))
            &&& v.get2("service"@, "ipFamilies"@) == Some(str_arr(ip_policy(mode).1))
            &&& v.get2("gatewayApi"@, "enabled"@) == Some(JsonV::Bool(gateway_api))
            &&& v.get2("gatewayClassResource"@, "enabled"@) == Some(JsonV::Bool(gateway_api))
            &&& v.get2("adminIngress"@, "enabled"@) == Some(
                JsonV::Bool(trim(cfg.admin_host).len() > 0),
            )
            &&& v.get2("adminIngress"@, "host"@) == Some(JsonV::Str(trim(cfg.admin_host)))
            &&& v.get2("adminIngress"@, "tlsSecretName"@) == Some(
                JsonV::Str(
                    if is_named(cfg.tls_secret) {
                        trim(cfg.tls_secret)
                    } else {
                        Seq::empty()
                    },
                ),
            )
            &&& v.get("ingressClassName"@) == Some(JsonV::Str("pertisk-proxy"@))
            &&& v.get("imagePullSecrets"@) is Some <==> pull_secret
            &&& pull_secret ==> v.get("imagePullSecrets"@)->0 is Arr
                && v.get("imagePullSecrets"@)->0->Arr_0.len() == 1
                && v.get("imagePullSecrets"@)->0->Arr_0[0].get("name"@) == Some(
                JsonV::Str(INGRESS_PULL_SECRET@),
            )
            &&& v.get("auth"@) is Some <==> secret
            &&& secret ==> v.get2("auth"@, "password"@) == Some(JsonV::Str(trim(password->0)))
                && v.get2("auth"@, "createSecret"@) == Some(JsonV::Bool(true))
        }),
{
    broadcast use {crate::json::lemma_get_with, crate::json::lemma_get_empty};

    reveal_strlit("image");
    reveal_strlit("registry");
    reveal_strlit("repository");
    reveal_strlit("tag");
    reveal_strlit("pullPolicy");
    reveal_strlit("nodeSelector");
    reveal_strlit("kubernetes.io/arch");
    reveal_strlit("service");
    reveal_strlit("type");
    reveal_strlit("ipFamilyPolicy");
    reveal_strlit("ipFamilies");
    reveal_strlit("gatewayApi");
    reveal_strlit("gatewayClassResource");
    reveal_strlit("adminIngress");
    reveal_strlit("enabled");
    reveal_strlit("host");
    reveal_strlit("tlsSecretName");
    reveal_strlit("ingressClassName");
    reveal_strlit("imagePullSecrets");
    reveal_strlit("auth");
    reveal_strlit("createSecret");
    reveal_strlit("password");
    assert("image"@.len() == 5);
    assert("registry"@.len() == 8);
    assert("repository"@.len() == 10);
    assert("tag"@.len() == 3);
    assert("pullPolicy"@.len() == 10);
    assert("nodeSelector"@.len() == 12);
    assert("kubernetes.io/arch"@.len() == 18);
    assert("service"@.len() == 7);
    assert("type"@.len() == 4);
    assert("ipFamilyPolicy"@.len() == 14);
    assert("ipFamilies"@.len() == 10);
    assert("gatewayApi"@.len() == 10);
    assert("gatewayClassResource"@.len() == 20);
    assert("adminIngress"@.len() == 12);
    assert("enabled"@.len() == 7);
    assert("host"@.len() == 4);
    assert("tlsSecretName"@.len() == 13);
    assert("ingressClassName"@.len() == 16);
    assert("imagePullSecrets"@.len() == 16);
    assert("auth"@.len() == 4);
    assert("createSecret"@.len() == 12);
    assert("password"@.len() == 8);
    assert("registry"@[0] == 'r' && "password"@[0] == 'p');
    assert("repository"@[0] == 'r' && "pullPolicy"@[0] == 'p');
    assert("repository"@[0] == 'r' && "ipFamilies"@[0] == 'i');
    assert("repository"@[0] == 'r' && "gatewayApi"@[0] == 'g');
    assert("pullPolicy"@[0] == 'p' && "ipFamilies"@[0] == 'i');
    assert("pullPolicy"@[0] == 'p' && "gatewayApi"@[0] == 'g');
    assert("ipFamilies"@[0] == 'i' && "gatewayApi"@[0] == 'g');
    assert("nodeSelector"@[0] == 'n' && "adminIngress"@[0] == 'a');
    assert("nodeSelector"@[0] == 'n' && "createSecret"@[0] == 'c');
    assert("adminIngress"@[0] == 'a' && "createSecret"@[0] == 'c');
    assert("service"@[0] == 's' && "enabled"@[0] == 'e');
    assert("type"@[0] == 't' && "host"@[0] == 'h');
    assert("type"@[0] == 't' && "auth"@[0] == 'a');
    assert("host"@[0] == 'h' && "auth"@[0] == 'a');
    assert("ingressClassName"@[1] == 'n' && "imagePullSecrets"@[1] == 'm');
    lemma_named(cfg.tls_secret);
}

/// The values of the autoscaler: its bounds, its account and its cluster are
/// those of the settings, and state is kept exactly where a class is named.
pub proof fn law_scaler_values(
    cfg: KosScalerConfigV,
    cluster: Seq<char>,
    endpoint: Seq<char>,
    password: Seq<char>,
)
    ensures
        ({
            let v = scaler_values(cfg, cluster, endpoint, password);
            &&& v.get2("mgmt"@, "endpoint"@) == Some(JsonV::Str(endpoint))
            &&& v.get2("mgmt"@, "clusterId"@) == Some(JsonV::Str(cluster))
            &&& v.get2("mgmt"@, "username"@) == Some(JsonV::Str(trim(cfg.username)))
            &&& v.get2("mgmt"@, "password"@) == Some(JsonV::Str(password))
            &&& v.get2("image"@, "tag"@) == Some(
                JsonV::Str(kept_or(cfg.image_tag, KOS_SCALER_IMAGE_TAG@)),
            )
            &&& v.get3("config"@, "workerPool"@, "minSize"@) == Some(
                JsonV::Int(
                    if cfg.min_size > 0 {
                        cfg.min_size as int
                    } else {
                        2
                    },
                ),
            )
            &&& v.get3("config"@, "workerPool"@, "maxSize"@) == Some(
                JsonV::Int(
                    if cfg.max_size > 0 {
                        cfg.max_size as int
                    } else {
                        10
                    },
                ),
            )
            &&& v.get2("statePersistence"@, "enabled"@) == Some(
                JsonV::Bool(is_named(cfg.storage_class)),
            )
            &&& v.get2("statePersistence"@, "storageClassName"@) == (if is_named(
                cfg.storage_class,
            ) {
                Some(JsonV::Str(trim(cfg.storage_class)))
            } else {
                None
            })
        }),
{
    broadcast use {crate::json::lemma_get_with, crate::json::lemma_get_empty};

    reveal_strlit("image");
    reveal_strlit("tag");
    reveal_strlit("mgmt");
    reveal_strlit("endpoint");
    reveal_strlit("clusterId");
    reveal_strlit("username");
    reveal_strlit("password");
    reveal_strlit("config");
    reveal_strlit("workerPool");
    reveal_strlit("minSize");
    reveal_strlit("maxSize");
    reveal_strlit("statePersistence");
    reveal_strlit("enabled");
    reveal_strlit("storageClassName");
    assert("image"@.len() == 5);
    assert("tag"@.len() == 3);
    assert("mgmt"@.len() == 4);
    assert("endpoint"@.len() == 8);
    assert("clusterId"@.len() == 9);
    assert("username"@.len() == 8);
    assert("password"@.len() == 8);
    assert("config"@.len() == 6);
    assert("workerPool"@.len() == 10);
    assert("minSize"@.len() == 7);
    assert("maxSize"@.len() == 7);
    assert("statePersistence"@.len() == 16);
    assert("enabled"@.len() == 7);
    assert("storageClassName"@.len() == 16);
    assert("endpoint"@[0] == 'e' && "username"@[0] == 'u');
    assert("endpoint"@[0] == 'e' && "password"@[0] == 'p');
    assert("username"@[0] == 'u' && "password"@[0] == 'p');
    assert("minSize"@[1] == 'i' && "maxSize"@[1] == 'a');
    assert("minSize"@[0] == 'm' && "enabled"@[0] == 'e');
    assert("maxSize"@[0] == 'm' && "enabled"@[0] == 'e');
    assert("statePersistence"@[2] == 'a' && "storageClassName"@[2] == 'o');
    lemma_named(cfg.storage_class);
}

/// The settings show the bounds that the autoscaler gets.
pub proof fn law_shown_bounds_are_the_scalers(
    cfg: KosScalerConfigV,
    cluster: Seq<char>,
    endpoint: Seq<char>,
    password: Seq<char>,
)
    ensures
        public_scaler(cfg).get("min_size"@) == scaler_values(
            cfg,
            cluster,
            endpoint,
            password,
        ).get3("config"@, "workerPool"@, "minSize"@),
        public_scaler(cfg).get("max_size"@) == scaler_values(
            cfg,
            cluster,
            endpoint,
            password,
        ).get3("config"@, "workerPool"@, "maxSize"@),
        public_scaler(cfg).get("image_tag"@) == scaler_values(
            cfg,
            cluster,
            endpoint,
            password,
        ).get2("image"@, "tag"@),
{
    broadcast use {crate::json::lemma_get_with, crate::json::lemma_get_empty};

    reveal_strlit("username");
    reveal_strlit("min_size");
    reveal_strlit("max_size");
    reveal_strlit("image_tag");
    reveal_strlit("storage_class");
    reveal_strlit("mgmt_url");
    assert("username"@.len() == 8);
    assert("min_size"@.len() == 8);
    assert("max_size"@.len() == 8);
    assert("image_tag"@.len() == 9);
    assert("storage_class"@.len() == 13);
    assert("mgmt_url"@.len() == 8);
    assert("username"@[0] == 'u' && "min_size"@[0] == 'm');
    assert("username"@[0] == 'u' && "max_size"@[0] == 'm');
    assert("username"@[0] == 'u' && "mgmt_url"@[0] == 'm');
    assert("min_size"@[1] == 'i' && "max_size"@[1] == 'a');
    assert("min_size"@[1] == 'i' && "mgmt_url"@[1] == 'g');
    assert("max_size"@[1] == 'a' && "mgmt_url"@[1] == 'g');
    law_scaler_values(cfg, cluster, endpoint, password);
}

/// The autoscaler calls the address of its settings, else the public one; a slash
/// at the end is dropped.
pub proof fn law_scaler_calls(cfg: KosScalerConfigV, public_url: Seq<char>)
    ensures
        ({
            let own = trim_end_char(trim(cfg.mgmt_url), '/');
            &&& own.len() > 0 ==> scaler_endpoint(cfg, public_url) == own
            &&& own.len() == 0 ==> scaler_endpoint(cfg, public_url) == trim_end_char(
                trim(public_url),
                '/',
            )
        }),
{
}

/// The values of the dashboard: the account and the image of the settings; it is
/// reached from outside exactly where a host is given, by that host alone, and
/// with a certificate exactly where a secret is named as well.
#[verifier::rlimit(40)]
pub proof fn law_dashboard_values(cfg: KubernetesDashboardConfigV, jwt_secret: Seq<char>)
    ensures
        ({
            let v = dashboard_values(cfg, jwt_secret);
            let host = trim(cfg.host);
            let hosts = v.get2("ingress"@, "hosts"@);
            let tls = v.get2("ingress"@, "tls"@);
            &&& v.get3("app"@, "image"@, "registry"@) == Some(
                JsonV::Str(KUBERNETES_DASHBOARD_IMAGE_REGISTRY@),
            )
            &&& v.get3("app"@, "image"@, "repository"@) == Some(
                JsonV::Str(KUBERNETES_DASHBOARD_IMAGE_REPO@),
            )
            &&& v.get3("app"@, "image"@, "tag"@) == Some(JsonV::Str(trim(cfg.image_tag)))
            &&& v.get3("app"@, "auth"@, "username"@) == Some(JsonV::Str(trim(cfg.username)))
            &&& v.get3("app"@, "auth"@, "password"@) == Some(JsonV::Str(trim(cfg.password)))
            &&& v.get3("app"@, "auth"@, "jwtSecret"@) == Some(JsonV::Str(jwt_secret))
            &&& v.get2("ingress"@, "enabled"@) == Some(JsonV::Bool(host.len() > 0))
            &&& v.get2("ingress"@, "className"@) == Some(JsonV::Str("pertisk-proxy"@))
            &&& hosts is Some <==> host.len() > 0
            &&& host.len() > 0 ==> hosts->0 is Arr && hosts->0->Arr_0.len() == 1
                && hosts->0->Arr_0[0].get("host"@) == Some(JsonV::Str(host)) && tls is Some
                && tls->0 is Arr
            &&& host.len() > 0 && is_named(cfg.tls_secret) ==> tls->0->Arr_0.len() == 1
                && tls->0->Arr_0[0].get("secretName"@) == Some(JsonV::Str(trim(cfg.tls_secret)))
                && tls->0->Arr_0[0].get("hosts"@) == Some(JsonV::Arr(seq![JsonV::Str(host)]))
            &&& host.len() > 0 && !is_named(cfg.tls_secret) ==> tls->0->Arr_0.len() == 0
        }),
{
    broadcast use {crate::json::lemma_get_with, crate::json::lemma_get_empty};

    reveal_strlit("app");
    reveal_strlit("image");
    reveal_strlit("registry");
    reveal_strlit("repository");
    reveal_strlit("tag");
    reveal_strlit("auth");
    reveal_strlit("username");
    reveal_strlit("password");
    reveal_strlit("jwtSecret");
    reveal_strlit("ingress");
    reveal_strlit("enabled");
    reveal_strlit("className");
    reveal_strlit("hosts");
    reveal_strlit("host");
    reveal_strlit("paths");
    reveal_strlit("tls");
    reveal_strlit("secretName");
    assert("app"@.len() == 3);
    assert("image"@.len() == 5);
    assert("registry"@.len() == 8);
    assert("repository"@.len() == 10);
    assert("tag"@.len() == 3);
    assert("auth"@.len() == 4);
    assert("username"@.len() == 8);
    assert("password"@.len() == 8);
    assert("jwtSecret"@.len() == 9);
    assert("ingress"@.len() == 7);
    assert("enabled"@.len() == 7);
    assert("className"@.len() == 9);
    assert("hosts"@.len() == 5);
    assert("host"@.len() == 4);
    assert("paths"@.len() == 5);
    assert("tls"@.len() == 3);
    assert("secretName"@.len() == 10);
    assert("app"@[0] == 'a' && "tag"@[0] == 't');
    assert("app"@[0] == 'a' && "tls"@[0] == 't');
    assert("tag"@[1] == 'a' && "tls"@[1] == 'l');
    assert("image"@[0] == 'i' && "hosts"@[0] == 'h');
    assert("image"@[0] == 'i' && "paths"@[0] == 'p');
    assert("hosts"@[0] == 'h' && "paths"@[0] == 'p');
    assert("registry"@[0] == 'r' && "username"@[0] == 'u');
    assert("registry"@[0] == 'r' && "password"@[0] == 'p');
    assert("username"@[0] == 'u' && "password"@[0] == 'p');
    assert("repository"@[0] == 'r' && "secretName"@[0] == 's');
    assert("auth"@[0] == 'a' && "host"@[0] == 'h');
    assert("jwtSecret"@[0] == 'j' && "className"@[0] == 'c');
    assert("ingress"@[0] == 'i' && "enabled"@[0] == 'e');
    lemma_named(cfg.tls_secret);
}

/// The route to the admin page: its host, to the port of the admin service, and
/// with a certificate for that host exactly where a secret is named.
#[verifier::rlimit(40)]
pub proof fn law_admin_route(host: Seq<char>, tls_secret: Seq<char>)
    ensures
        ({
            let v = admin_ingress(host, tls_secret);
            let rules = v.get2("spec"@, "rules"@);
            let tls = v.get2("spec"@, "tls"@);
            let rule = rules->0->Arr_0[0];
            let paths = rule.get2("http"@, "paths"@);
            &&& v.get("kind"@) == Some(JsonV::Str("Ingress"@))
            &&& v.get2("metadata"@, "name"@) == Some(JsonV::Str(INGRESS_ADMIN@))
            &&& v.get2("metadata"@, "namespace"@) == Some(JsonV::Str(INGRESS_NAMESPACE@))
            &&& v.get2("spec"@, "ingressClassName"@) == Some(JsonV::Str("pertisk-proxy"@))
            &&& rules is Some && rules->0 is Arr && rules->0->Arr_0.len() == 1
            &&& rule.get("host"@) == Some(JsonV::Str(trim(host)))
            &&& paths is Some && paths->0 is Arr && paths->0->Arr_0.len() == 1
            &&& paths->0->Arr_0[0].get("path"@) == Some(JsonV::Str("/"@))
            &&& paths->0->Arr_0[0].get3("backend"@, "service"@, "name"@) == Some(
                JsonV::Str(INGRESS_DEPLOY@),
            )
            &&& paths->0->Arr_0[0].get3("backend"@, "service"@, "port"@) is Some
            &&& paths->0->Arr_0[0].get3("backend"@, "service"@, "port"@)->0.get("number"@) == Some(
                JsonV::Int(9080),
            )
            &&& tls is Some <==> is_named(tls_secret)
            &&& is_named(tls_secret) ==> tls->0 is Arr && tls->0->Arr_0.len() == 1
                && tls->0->Arr_0[0].get("secretName"@) == Some(JsonV::Str(trim(tls_secret)))
                && tls->0->Arr_0[0].get("hosts"@) == Some(JsonV::Arr(seq![JsonV::Str(trim(host))]))
        }),
{
    broadcast use {crate::json::lemma_get_with, crate::json::lemma_get_empty};

    reveal_strlit("apiVersion");
    reveal_strlit("kind");
    reveal_strlit("metadata");
    reveal_strlit("spec");
    reveal_strlit("name");
    reveal_strlit("namespace");
    reveal_strlit("annotations");
    reveal_strlit("labels");
    reveal_strlit("ingressClassName");
    reveal_strlit("rules");
    reveal_strlit("host");
    reveal_strlit("http");
    reveal_strlit("paths");
    reveal_strlit("path");
    reveal_strlit("pathType");
    reveal_strlit("backend");
    reveal_strlit("service");
    reveal_strlit("port");
    reveal_strlit("number");
    reveal_strlit("tls");
    reveal_strlit("hosts");
    reveal_strlit("secretName");
    assert("apiVersion"@.len() == 10);
    assert("kind"@.len() == 4);
    assert("metadata"@.len() == 8);
    assert("spec"@.len() == 4);
    assert("name"@.len() == 4);
    assert("namespace"@.len() == 9);
    assert("annotations"@.len() == 11);
    assert("labels"@.len() == 6);
    assert("ingressClassName"@.len() == 16);
    assert("rules"@.len() == 5);
    assert("host"@.len() == 4);
    assert("http"@.len() == 4);
    assert("paths"@.len() == 5);
    assert("path"@.len() == 4);
    assert("pathType"@.len() == 8);
    assert("backend"@.len() == 7);
    assert("service"@.len() == 7);
    assert("port"@.len() == 4);
    assert("number"@.len() == 6);
    assert("tls"@.len() == 3);
    assert("hosts"@.len() == 5);
    assert("secretName"@.len() == 10);
    assert("apiVersion"@[0] == 'a' && "secretName"@[0] == 's');
    assert("kind"@[0] == 'k' && "spec"@[0] == 's');
    assert("kind"@[0] == 'k' && "name"@[0] == 'n');
    assert("kind"@[0] == 'k' && "host"@[0] == 'h');
    assert("kind"@[0] == 'k' && "http"@[0] == 'h');
    assert("kind"@[0] == 'k' && "path"@[0] == 'p');
    assert("kind"@[0] == 'k' && "port"@[0] == 'p');
    assert("spec"@[0] == 's' && "name"@[0] == 'n');
    assert("spec"@[0] == 's' && "host"@[0] == 'h');
    assert("spec"@[0] == 's' && "http"@[0] == 'h');
    assert("spec"@[0] == 's' && "path"@[0] == 'p');
    assert("spec"@[0] == 's' && "port"@[0] == 'p');
    assert("name"@[0] == 'n' && "host"@[0] == 'h');
    assert("name"@[0] == 'n' && "http"@[0] == 'h');
    assert("name"@[0] == 'n' && "path"@[0] == 'p');
    assert("name"@[0] == 'n' && "port"@[0] == 'p');
    assert("host"@[1] == 'o' && "http"@[1] == 't');
    assert("host"@[0] == 'h' && "path"@[0] == 'p');
    assert("host"@[0] == 'h' && "port"@[0] == 'p');
    assert("http"@[0] == 'h' && "path"@[0] == 'p');
    assert("http"@[0] == 'h' && "port"@[0] == 'p');
    assert("path"@[1] == 'a' && "port"@[1] == 'o');
    assert("metadata"@[0] == 'm' && "pathType"@[0] == 'p');
    assert("labels"@[0] == 'l' && "number"@[0] == 'n');
    assert("rules"@[0] == 'r' && "paths"@[0] == 'p');
    assert("rules"@[0] == 'r' && "hosts"@[0] == 'h');
    assert("paths"@[0] == 'p' && "hosts"@[0] == 'h');
    assert("backend"@[0] == 'b' && "service"@[0] == 's');
    lemma_named(tls_secret);
}

/// The certificate: of the issuer of the settings, for the names of the domain,
/// kept in the secret that is shown to the user, and handed to other namespaces.
#[verifier::rlimit(40)]
pub proof fn law_certificate_is_for_the_domain(cfg: CertManagerConfigV)
    ensures
        ({
            let v = wildcard_certificate(cfg);
            let notes = v.get3("spec"@, "secretTemplate"@, "annotations"@);
            &&& v.get("kind"@) == Some(JsonV::Str("Certificate"@))
            &&& v.get2("metadata"@, "name"@) == v.get2("spec"@, "secretName"@)
            &&& trim(cfg.domain).len() > 0 ==> v.get2("spec"@, "secretName"@) == public_cert(
                cfg,
            ).get("tls_secret"@)
            &&& v.get2("metadata"@, "namespace"@) == Some(JsonV::Str(CERT_NS@))
            &&& v.get2("spec"@, "dnsNames"@) == Some(str_arr(dns_names(cfg.domain)))
            &&& v.get3("spec"@, "issuerRef"@, "name"@) == Some(
                JsonV::Str(kept_or(cfg.issuer, "letsencrypt-cloudflare"@)),
            )
            &&& v.get3("spec"@, "issuerRef"@, "name"@) == public_cert(cfg).get("issuer"@)
            &&& v.get3("spec"@, "issuerRef"@, "kind"@) == Some(JsonV::Str("ClusterIssuer"@))
            &&& v.get2("spec"@, "isCA"@) == Some(JsonV::Bool(false))
            &&& v.get2("spec"@, "duration"@) == Some(JsonV::Str("2160h"@))
            &&& v.get2("spec"@, "renewBefore"@) == Some(JsonV::Str("360h"@))
            &&& notes is Some
            &&& notes->0.get("reflector.v1.k8s.emberstack.com/reflection-allowed"@) == Some(
                JsonV::Str("true"@),
            )
            &&& notes->0.get("reflector.v1.k8s.emberstack.com/reflection-auto-enabled"@) == Some(
                JsonV::Str("true"@),
            )
        }),
{
    broadcast use {crate::json::lemma_get_with, crate::json::lemma_get_empty};

    reveal_strlit("apiVersion");
    reveal_strlit("kind");
    reveal_strlit("metadata");
    reveal_strlit("spec");
    reveal_strlit("name");
    reveal_strlit("namespace");
    reveal_strlit("secretName");
    reveal_strlit("duration");
    reveal_strlit("renewBefore");
    reveal_strlit("isCA");
    reveal_strlit("privateKey");
    reveal_strlit("usages");
    reveal_strlit("dnsNames");
    reveal_strlit("issuerRef");
    reveal_strlit("group");
    reveal_strlit("secretTemplate");
    reveal_strlit("annotations");
    reveal_strlit("reflector.v1.k8s.emberstack.com/reflection-allowed");
    reveal_strlit("reflector.v1.k8s.emberstack.com/reflection-auto-enabled");
    reveal_strlit("provider");
    reveal_strlit("email");
    reveal_strlit("acme");
    reveal_strlit("issuer");
    reveal_strlit("domain");
    reveal_strlit("tls_secret");
    assert("apiVersion"@.len() == 10);
    assert("kind"@.len() == 4);
    assert("metadata"@.len() == 8);
    assert("spec"@.len() == 4);
    assert("name"@.len() == 4);
    assert("namespace"@.len() == 9);
    assert("secretName"@.len() == 10);
    assert("duration"@.len() == 8);
    assert("renewBefore"@.len() == 11);
    assert("isCA"@.len() == 4);
    assert("privateKey"@.len() == 10);
    assert("usages"@.len() == 6);
    assert("dnsNames"@.len() == 8);
    assert("issuerRef"@.len() == 9);
    assert("group"@.len() == 5);
    assert("secretTemplate"@.len() == 14);
    assert("annotations"@.len() == 11);
    assert("reflector.v1.k8s.emberstack.com/reflection-allowed"@.len() == 50);
    assert("reflector.v1.k8s.emberstack.com/reflection-auto-enabled"@.len() == 55);
    assert("provider"@.len() == 8);
    assert("email"@.len() == 5);
    assert("acme"@.len() == 4);
    assert("issuer"@.len() == 6);
    assert("domain"@.len() == 6);
    assert("tls_secret"@.len() == 10);
    assert("apiVersion"@[0] == 'a' && "secretName"@[0] == 's');
    assert("apiVersion"@[0] == 'a' && "privateKey"@[0] == 'p');
    assert("apiVersion"@[0] == 'a' && "tls_secret"@[0] == 't');
    assert("secretName"@[0] == 's' && "privateKey"@[0] == 'p');
    assert("secretName"@[0] == 's' && "tls_secret"@[0] == 't');
    assert("privateKey"@[0] == 'p' && "tls_secret"@[0] == 't');
    assert("kind"@[0] == 'k' && "spec"@[0] == 's');
    assert("kind"@[0] == 'k' && "name"@[0] == 'n');
    assert("kind"@[0] == 'k' && "isCA"@[0] == 'i');
    assert("kind"@[0] == 'k' && "acme"@[0] == 'a');
    assert("spec"@[0] == 's' && "name"@[0] == 'n');
    assert("spec"@[0] == 's' && "isCA"@[0] == 'i');
    assert("spec"@[0] == 's' && "acme"@[0] == 'a');
    assert("name"@[0] == 'n' && "isCA"@[0] == 'i');
    assert("name"@[0] == 'n' && "acme"@[0] == 'a');
    assert("isCA"@[0] == 'i' && "acme"@[0] == 'a');
    assert("metadata"@[0] == 'm' && "duration"@[0] == 'd');
    assert("metadata"@[0] == 'm' && "dnsNames"@[0] == 'd');
    assert("metadata"@[0] == 'm' && "provider"@[0] == 'p');
    assert("duration"@[1] == 'u' && "dnsNames"@[1] == 'n');
    assert("duration"@[0] == 'd' && "provider"@[0] == 'p');
    assert("dnsNames"@[0] == 'd' && "provider"@[0] == 'p');
    assert("namespace"@[0] == 'n' && "issuerRef"@[0] == 'i');
    assert("renewBefore"@[0] == 'r' && "annotations"@[0] == 'a');
    assert("usages"@[0] == 'u' && "issuer"@[0] == 'i');
    assert("usages"@[0] == 'u' && "domain"@[0] == 'd');
    assert("issuer"@[0] == 'i' && "domain"@[0] == 'd');
    assert("group"@[0] == 'g' && "email"@[0] == 'e');
}

/// The token is kept where the issuer looks for it, and nowhere is it changed.
pub proof fn law_token_is_where_the_issuer_looks(token: Seq<char>)
    ensures
        ({
            let v = token_secret(token);
            &&& v.get("kind"@) == Some(JsonV::Str("Secret"@))
            &&& v.get2("metadata"@, "name"@) == Some(JsonV::Str("cloudflare-api-token-secret"@))
            &&& v.get2("metadata"@, "namespace"@) == Some(JsonV::Str("cert-manager"@))
            &&& v.get2("stringData"@, "api-token"@) == Some(JsonV::Str(token))
        }),
{
    broadcast use {crate::json::lemma_get_with, crate::json::lemma_get_empty};

    reveal_strlit("apiVersion");
    reveal_strlit("kind");
    reveal_strlit("metadata");
    reveal_strlit("name");
    reveal_strlit("namespace");
    reveal_strlit("type");
    reveal_strlit("stringData");
    reveal_strlit("api-token");
    assert("apiVersion"@.len() == 10);
    assert("kind"@.len() == 4);
    assert("metadata"@.len() == 8);
    assert("name"@.len() == 4);
    assert("namespace"@.len() == 9);
    assert("type"@.len() == 4);
    assert("stringData"@.len() == 10);
    assert("api-token"@.len() == 9);
    assert("apiVersion"@[0] == 'a' && "stringData"@[0] == 's');
    assert("kind"@[0] == 'k' && "name"@[0] == 'n');
    assert("kind"@[0] == 'k' && "type"@[0] == 't');
    assert("name"@[0] == 'n' && "type"@[0] == 't');
    assert("namespace"@[0] == 'n' && "api-token"@[0] == 'a');
}

/// The pull secret is the one that the values name, of the kind that the cluster
/// takes for a registry.
pub proof fn law_pull_secret_is_the_named_one(user: Seq<char>, password: Seq<char>)
    ensures
        ({
            let v = pull_secret(user, password);
            let login = json_tree(
                seq![
                    (
                        "auths"@,
                        seq![
                            (
                                INGRESS_IMAGE_REGISTRY@,
                                seq![
                                    ("username"@, trim(user)),
                                    ("password"@, password),
                                    (
                                        "auth"@,
                                        b64_text(encode_utf8(trim(user) + ":"@ + password)),
                                    ),
                                ],
                            ),
                        ],
                    ),
                ],
            );
            &&& v.get("kind"@) == Some(JsonV::Str("Secret"@))
            &&& v.get("type"@) == Some(JsonV::Str("kubernetes.io/dockerconfigjson"@))
            &&& v.get2("metadata"@, "name"@) == Some(JsonV::Str(INGRESS_PULL_SECRET@))
            &&& v.get2("metadata"@, "namespace"@) == Some(JsonV::Str(INGRESS_NAMESPACE@))
            &&& v.get2("stringData"@, ".dockerconfigjson"@) == Some(JsonV::Str(login))
        }),
{
    broadcast use {crate::json::lemma_get_with, crate::json::lemma_get_empty};

    reveal_strlit("apiVersion");
    reveal_strlit("kind");
    reveal_strlit("metadata");
    reveal_strlit("name");
    reveal_strlit("namespace");
    reveal_strlit("type");
    reveal_strlit("stringData");
    reveal_strlit(".dockerconfigjson");
    assert("apiVersion"@.len() == 10);
    assert("kind"@.len() == 4);
    assert("metadata"@.len() == 8);
    assert("name"@.len() == 4);
    assert("namespace"@.len() == 9);
    assert("type"@.len() == 4);
    assert("stringData"@.len() == 10);
    assert(".dockerconfigjson"@.len() == 17);
    assert("apiVersion"@[0] == 'a' && "stringData"@[0] == 's');
    assert("kind"@[0] == 'k' && "name"@[0] == 'n');
    assert("kind"@[0] == 'k' && "type"@[0] == 't');
    assert("name"@[0] == 'n' && "type"@[0] == 't');
}

/// The pool of addresses has a block for each family that the settings give, in
/// the order of the families, and no other.
pub proof fn law_pool_has_the_given_blocks(cfg: CiliumLbConfigV, version: Seq<char>)
    ensures
        ({
            let four = lb_cidr(trim(cfg.ipv4), IpFamily::V4);
            let six = lb_cidr(trim(cfg.ipv6), IpFamily::V6);
            exists|head: Seq<char>, tail: Seq<char>|
                #![trigger head + tail]
                lb_pool(cfg, version) == head + (if four is Ok {
                    "    - cidr: "@ + four->Ok_0 + "\n"@
                } else {
                    ""@
                }) + (if six is Ok {
                    "    - cidr: "@ + six->Ok_0 + "\n"@
                } else {
                    ""@
                }) + tail && head == "apiVersion: "@ + version
                    + "\nkind: CiliumLoadBalancerIPPool\nmetadata:\n  name: "@ + CILIUM_LB_POOL@
                    + "\nspec:\n  blocks:\n"@ && tail == "  disabled: false\n"@
        }),
{
    let head = "apiVersion: "@ + version + "\nkind: CiliumLoadBalancerIPPool\nmetadata:\n  name: "@
        + CILIUM_LB_POOL@ + "\nspec:\n  blocks:\n"@;
    let tail = "  disabled: false\n"@;
    assert((head + tail).len() >= 0);
}

/// The announcement is of addresses of both kinds of service, under its name and
/// version.
pub proof fn law_announcement(version: Seq<char>)
    ensures
        l2_policy(version) == "apiVersion: "@ + version
            + "\nkind: CiliumL2AnnouncementPolicy\nmetadata:\n  name: "@
            + "default-l2-announcement-policy"@
            + "\nspec:\n  externalIPs: true\n  loadBalancerIPs: true\n"@,
{
}

} // verus!
