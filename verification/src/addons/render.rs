//! Documents that the installation of an add-on hands to `kubectl` and `helm`.
use crate::addons::{
    ACME_PROD, ACME_STAGING, CERT_NS, CILIUM_LB_L2, CILIUM_LB_POOL, INGRESS_ADMIN, INGRESS_DEPLOY,
    INGRESS_IMAGE_REGISTRY, INGRESS_IMAGE_REPO, INGRESS_IMAGE_TAG, INGRESS_NAMESPACE,
    INGRESS_PULL_SECRET, INGRESS_RELEASE, KOS_SCALER_IMAGE_TAG, KUBERNETES_DASHBOARD_IMAGE_REGISTRY,
    KUBERNETES_DASHBOARD_IMAGE_REPO,
};
use crate::addons::names::{
    cert_secret_name, choose_name, chosen_name, dns_names, secret_name, trim_or, trimmed_or,
    wildcard_dns_names,
};
use crate::addons::secrets::{json_tree, leaves_view, tree_view, twigs_view, write_json_tree};
use crate::addons::settings::{
    CertManagerConfig, CertManagerConfigV, CiliumLbConfig, CiliumLbConfigV, IngressConfig,
    IngressConfigV, IpFamily, KosScalerConfig, KosScalerConfigV, KubernetesDashboardConfig,
    KubernetesDashboardConfigV, lb_cidr, normalize_lb_cidr, outcome, pick_size, size_or,
};
use crate::crypto::{b64_encode, b64_text};
use crate::json::{
    Json, JsonV, arr_view, item_at, items_in, items_len, jobj, opt_view, str_arr, str_in, str_of,
    str_or, text_or,
};
use crate::text::{
    char_is_digit, chars_of, contains, ends_with, is_digit, is_ws, join, lemma_trim_ends,
    lemma_trimmed, lit, lower, match_at, no_texts, opt_str, opt_text, put, split, starts_with,
    str_contains, str_ends, str_eq, str_eq_nocase, str_has_char, str_join, str_lower, str_starts,
    str_strip_prefix, str_strip_suffix, str_trim, str_trim_end_char, str_until, strip_prefix,
    strip_suffix, texts, trim, trim_end_char,
};
use vstd::prelude::*;
use vstd::string::*;
use vstd::utf8::encode_utf8;

verus! {

/// The name of an architecture in Kubernetes; anything but ARM counts as amd64.
pub open spec fn node_arch(raw: Seq<char>) -> Seq<char> {
    let t = lower(trim(raw));
    if t == "arm64"@ || t == "aarch64"@ {
        "arm64"@
    } else {
        "amd64"@
    }
}

pub fn kube_arch(raw: &str) -> (r: String)
    ensures
        r@ == node_arch(raw@),
{
    let t = str_lower(&str_trim(raw));
    if str_eq(&t, "arm64") || str_eq(&t, "aarch64") {
        lit("arm64")
    } else {
        lit("amd64")
    }
}

/// The tag already names an architecture or a digest.
pub open spec fn is_pinned(tag: Seq<char>) -> bool {
    ends_with(tag, "-amd64"@) || ends_with(tag, "-arm64"@) || tag.contains('@')
}

/// The tag for the nodes of one architecture.
pub open spec fn pinned_tag(raw: Seq<char>, arch: Seq<char>) -> Seq<char> {
    let tag = trimmed_or(raw, INGRESS_IMAGE_TAG@);
    if is_pinned(tag) {
        tag
    } else {
        tag + "-"@ + node_arch(arch)
    }
}

fn tag_is_pinned(tag: &str) -> (r: bool)
    ensures
        r == is_pinned(tag@),
{
    str_ends(tag, "-amd64") || str_ends(tag, "-arm64") || str_has_char(tag, '@')
}

/// Pins a tag to the architecture of the cluster, where it is not pinned yet.
pub fn ingress_pin_tag(raw: &str, arch: &str) -> (r: String)
    ensures
        r@ == pinned_tag(raw@, arch@),
{
    let tag = trim_or(raw, INGRESS_IMAGE_TAG);
    if tag_is_pinned(&tag) {
        tag
    } else {
        tag.concat("-").concat(&kube_arch(arch))
    }
}

/// A tag that was pinned stays as it is, whatever it is pinned to next.
pub proof fn law_pinned_tag_stays(raw: Seq<char>, arch: Seq<char>, other: Seq<char>)
    ensures
        is_pinned(pinned_tag(raw, arch)),
        pinned_tag(pinned_tag(raw, arch), other) == pinned_tag(raw, arch),
{
    reveal_strlit("-");
    reveal_strlit("amd64");
    reveal_strlit("arm64");
    reveal_strlit("-amd64");
    reveal_strlit("-arm64");
    reveal_strlit("v0.1.83");
    let tag = trimmed_or(raw, INGRESS_IMAGE_TAG@);
    let t = pinned_tag(raw, arch);
    lemma_trim_ends(raw);
    assert(tag.len() > 0 && !is_ws(tag[0]) && !is_ws(tag.last()));
    if !is_pinned(tag) {
        let n = t.len() as int;
        assert(t.subrange(n - 6, n) =~= "-"@ + node_arch(arch));
        assert("-"@ + "amd64"@ =~= "-amd64"@);
        assert("-"@ + "arm64"@ =~= "-arm64"@);
        assert(t[0] == tag[0]);
        assert(t.last() == node_arch(arch)[4]);
    }
    lemma_trimmed(t);
}

/// The entry of an image index is an image for Linux on `arch`, with a digest.
pub open spec fn entry_digest(m: JsonV, arch: Seq<char>) -> Option<Seq<char>> {
    let a = text_or(str_in(m.get2("platform"@, "architecture"@)), ""@);
    let os = text_or(str_in(m.get2("platform"@, "os"@)), "linux"@);
    let digest = text_or(str_in(m.get("digest"@)), ""@);
    if contains(text_or(str_in(m.get("mediaType"@)), ""@), "attestation"@) {
        None
    } else if m.get("platform"@) is None || a.len() == 0 || a == "unknown"@ || os != "linux"@ {
        None
    } else if (a == arch || (arch == "arm64"@ && starts_with(a, "arm64"@))) && starts_with(
        digest,
        "sha256:"@,
    ) {
        Some(digest)
    } else {
        None
    }
}

/// The digest of the first such entry at or after `i`.
pub open spec fn index_digest(s: Seq<JsonV>, arch: Seq<char>, i: int) -> Option<Seq<char>>
    decreases s.len() - i,
{
    if 0 <= i < s.len() {
        match entry_digest(s[i], arch) {
            Some(d) => Some(d),
            None => index_digest(s, arch, i + 1),
        }
    } else {
        None
    }
}

fn digest_of_entry(m: &Json, arch: &str) -> (r: Option<String>)
    ensures
        opt_text(r) == entry_digest(m@, arch@),
{
    proof {
        reveal_strlit("");
        reveal_strlit("sha256:");
    }
    if str_contains(&str_or(m.get("mediaType"), ""), "attestation") {
        return None;
    }
    if m.get("platform").is_none() {
        return None;
    }
    let a = str_or(m.get2("platform", "architecture"), "");
    let os = str_or(m.get2("platform", "os"), "linux");
    if a.is_empty() || str_eq(&a, "unknown") || !str_eq(&os, "linux") {
        return None;
    }
    let digest = str_or(m.get("digest"), "");
    if (str_eq(&a, arch) || (str_eq(arch, "arm64") && str_starts(&a, "arm64"))) && str_starts(
        &digest,
        "sha256:",
    ) {
        Some(digest)
    } else {
        None
    }
}

/// The digest of the image for Linux on `arch` in an image index.
pub fn pick_platform_digest(index: &Json, arch: &str) -> (r: Option<String>)
    ensures
        opt_text(r) == index_digest(items_in(index@.get("manifests"@)), arch@, 0),
{
    let o = index.get("manifests");
    let ghost s = items_in(index@.get("manifests"@));
    let n: usize = items_len(o);
    let mut i: usize = 0;
    while i < n
        invariant
            i <= n,
            n == s.len(),
            s == items_in(opt_view(o)),
            s == items_in(index@.get("manifests"@)),
            index_digest(s, arch@, 0) == index_digest(s, arch@, i as int),
        decreases n - i,
    {
        match digest_of_entry(item_at(o, i), arch) {
            Some(d) => {
                return Some(d);
            },
            None => {},
        }
        i += 1;
    }
    None
}

/// The architectures that the first `n` entries of an image index name.
pub open spec fn platforms(s: Seq<JsonV>, n: int) -> Seq<Seq<char>>
    decreases n,
{
    if 0 < n <= s.len() {
        let r = platforms(s, n - 1);
        match str_in(s[n - 1].get2("platform"@, "architecture"@)) {
            Some(a) => if a == "unknown"@ {
                r
            } else {
                r.push(a)
            },
            None => r,
        }
    } else {
        Seq::empty()
    }
}

fn index_platforms(index: &Json) -> (r: Vec<String>)
    ensures
        texts(r@) == platforms(
            items_in(index@.get("manifests"@)),
            items_in(index@.get("manifests"@)).len() as int,
        ),
{
    let o = index.get("manifests");
    let ghost s = items_in(index@.get("manifests"@));
    let n: usize = items_len(o);
    let mut out = no_texts();
    let mut i: usize = 0;
    while i < n
        invariant
            i <= n,
            n == s.len(),
            s == items_in(opt_view(o)),
            texts(out@) == platforms(s, i as int),
        decreases n - i,
    {
        match str_of(item_at(o, i).get2("platform", "architecture")) {
            Some(a) => {
                if !str_eq(&a, "unknown") {
                    put(&mut out, &a);
                }
            },
            None => {},
        }
        i += 1;
    }
    out
}

/// Where the registry answers for the tag of the ingress image.
pub open spec fn manifest_url(tag: Seq<char>) -> Seq<char> {
    "https://"@ + INGRESS_IMAGE_REGISTRY@ + "/v2/"@ + INGRESS_IMAGE_REPO@ + "/manifests/"@ + tag
}

/// The address to ask for the image index, nothing where the tag is pinned.
pub fn ingress_manifest_url(tag: &str) -> (r: Option<String>)
    ensures
        opt_text(r) == (if is_pinned(trimmed_or(tag@, INGRESS_IMAGE_TAG@)) {
            None
        } else {
            Some(manifest_url(trimmed_or(tag@, INGRESS_IMAGE_TAG@)))
        }),
{
    let t = trim_or(tag, INGRESS_IMAGE_TAG);
    if tag_is_pinned(&t) {
        None
    } else {
        Some(
            lit("https://").concat(INGRESS_IMAGE_REGISTRY).concat("/v2/").concat(
                INGRESS_IMAGE_REPO,
            ).concat("/manifests/").concat(&t),
        )
    }
}

/// The tag to install, given the index that the registry answered with, if any.
pub open spec fn resolved_tag(raw: Seq<char>, raw_arch: Seq<char>, index: Option<JsonV>) -> Result<
    Seq<char>,
    Seq<char>,
> {
    let tag = trimmed_or(raw, INGRESS_IMAGE_TAG@);
    let arch = node_arch(raw_arch);
    match index {
        Some(j) => match j.get("manifests"@) {
            Some(JsonV::Arr(s)) => if is_pinned(tag) {
                Ok(tag)
            } else {
                match index_digest(s, arch, 0) {
                    Some(d) => Ok(tag + "@"@ + d),
                    None => Err(
                        "image "@ + INGRESS_IMAGE_REGISTRY@ + "/"@ + INGRESS_IMAGE_REPO@ + ":"@
                            + tag + " has no linux/"@ + arch + " (platforms: "@ + (if platforms(
                            s,
                            s.len() as int,
                        ).len() == 0 {
                            "none"@
                        } else {
                            join(platforms(s, s.len() as int), ", "@)
                        })
                            + "). Rebuild with docker buildx --platform linux/amd64,linux/arm64"@,
                    ),
                }
            },
            _ => Ok(pinned_tag(tag, arch)),
        },
        None => Ok(pinned_tag(tag, arch)),
    }
}

/// The tag to install: with the digest of the image for the nodes, where the
/// registry has an index; else with the name of the architecture.
pub fn resolve_ingress_image_tag(tag: &str, arch: &str, index: Option<&Json>) -> (r: Result<
    String,
    String,
>)
    ensures
        outcome(r) == resolved_tag(tag@, arch@, opt_view(index)),
{
    let t = trim_or(tag, INGRESS_IMAGE_TAG);
    let a = kube_arch(arch);
    match index {
        Some(j) => match j.get("manifests") {
            Some(Json::Arr(v)) => {
                if tag_is_pinned(&t) {
                    return Ok(t);
                }
                assert(items_in(j@.get("manifests"@)) == arr_view(v@));
                match pick_platform_digest(j, &a) {
                    Some(d) => Ok(t.concat("@").concat(&d)),
                    None => {
                        let have = index_platforms(j);
                        assert(texts(have@).len() == have.len());
                        let shown = if have.len() == 0 {
                            lit("none")
                        } else {
                            str_join(&have, ", ")
                        };
                        Err(
                            lit("image ").concat(INGRESS_IMAGE_REGISTRY).concat("/").concat(
                                INGRESS_IMAGE_REPO,
                            ).concat(":").concat(&t).concat(" has no linux/").concat(&a).concat(
                                " (platforms: ",
                            ).concat(&shown).concat(
                                "). Rebuild with docker buildx --platform linux/amd64,linux/arm64",
                            ),
                        )
                    },
                }
            },
            _ => Ok(ingress_pin_tag(&t, &a)),
        },
        None => Ok(ingress_pin_tag(&t, &a)),
    }
}

/// The stacks that a service of the cluster has.
pub open spec fn ip_policy(network_mode: Seq<char>) -> (Seq<char>, Seq<Seq<char>>) {
    let mode = lower(trim(network_mode));
    if mode == "ipv6"@ {
        ("SingleStack"@, seq!["IPv6"@])
    } else if mode == "dual-stack"@ || mode == "dualstack"@ {
        ("PreferDualStack"@, seq!["IPv4"@, "IPv6"@])
    } else {
        ("SingleStack"@, seq!["IPv4"@])
    }
}

fn ingress_service_ip_policy(network_mode: &str) -> (r: (String, Vec<String>))
    ensures
        (r.0@, texts(r.1@)) == ip_policy(network_mode@),
{
    let mode = str_lower(&str_trim(network_mode));
    let mut families = no_texts();
    if str_eq(&mode, "ipv6") {
        put(&mut families, "IPv6");
        assert(texts(families@) =~= seq!["IPv6"@]);
        (lit("SingleStack"), families)
    } else if str_eq(&mode, "dual-stack") || str_eq(&mode, "dualstack") {
        put(&mut families, "IPv4");
        put(&mut families, "IPv6");
        assert(texts(families@) =~= seq!["IPv4"@, "IPv6"@]);
        (lit("PreferDualStack"), families)
    } else {
        put(&mut families, "IPv4");
        assert(texts(families@) =~= seq!["IPv4"@]);
        (lit("SingleStack"), families)
    }
}

/// Digits and dots, with a dot.
pub open spec fn is_dotted(t: Seq<char>) -> bool {
    t.contains('.') && forall|i: int|
        0 <= i < t.len() ==> is_digit(#[trigger] t[i]) || t[i] == '.'
}

/// The bare version in a tag: no leading `v`, no digest, no architecture.
pub open spec fn tag_version(image_tag: Seq<char>) -> Seq<char> {
    let t0 = trimmed_or(image_tag, INGRESS_IMAGE_TAG@);
    let t1 = match strip_prefix(t0, "v"@) {
        Some(r) => r,
        None => t0,
    };
    let t2 = split(t1, '@')[0];
    match strip_suffix(t2, "-arm64"@) {
        Some(r) => r,
        None => match strip_suffix(t2, "-amd64"@) {
            Some(r) => r,
            None => t2,
        },
    }
}

/// The chart version that goes with a tag, where the tag is a version.
pub fn ingress_chart_version(image_tag: &str) -> (r: Option<String>)
    ensures
        opt_text(r) == (if is_dotted(tag_version(image_tag@)) {
            Some(tag_version(image_tag@))
        } else {
            None
        }),
{
    let t0 = trim_or(image_tag, INGRESS_IMAGE_TAG);
    let t1 = match str_strip_prefix(&t0, "v") {
        Some(r) => r,
        None => lit(&t0),
    };
    let t2 = str_until(&t1, '@');
    let t = match str_strip_suffix(&t2, "-arm64") {
        Some(r) => r,
        None => match str_strip_suffix(&t2, "-amd64") {
            Some(r) => r,
            None => lit(&t2),
        },
    };
    if !str_has_char(&t, '.') {
        return None;
    }
    let v = chars_of(&t);
    let mut i: usize = 0;
    while i < v.len()
        invariant
            i <= v.len(),
            v@ == t@,
            t@ == tag_version(image_tag@),
            t@.contains('.'),
            forall|k: int| 0 <= k < i ==> is_digit(#[trigger] t@[k]) || t@[k] == '.',
        decreases v.len() - i,
    {
        let c: char = v[i];
        if !char_is_digit(c) && c != '.' {
            assert(t@[i as int] == c);
            return None;
        }
        i += 1;
    }
    Some(t)
}

/// The values of the ingress chart.
pub open spec fn ingress_values(
    cfg: IngressConfigV,
    network_mode: Seq<char>,
    gateway_api: bool,
    password: Option<Seq<char>>,
    pull_secret: bool,
    tag_found: Seq<char>,
    cluster_arch: Seq<char>,
) -> JsonV {
    let host = trim(cfg.admin_host);
    let tag = trimmed_or(tag_found, trimmed_or(cfg.image_tag, INGRESS_IMAGE_TAG@));
    let base = jobj()
        .with(
            "image"@,
            jobj()
                .with("registry"@, JsonV::Str(INGRESS_IMAGE_REGISTRY@))
                .with("repository"@, JsonV::Str(INGRESS_IMAGE_REPO@))
                .with("tag"@, JsonV::Str(tag))
                .with("pullPolicy"@, JsonV::Str("Always"@)),
        )
        .with(
            "nodeSelector"@,
            jobj()
                .with("kubernetes.io/arch"@, JsonV::Str(node_arch(cluster_arch))),
        )
        .with(
            "service"@,
            jobj()
                .with("type"@, JsonV::Str("LoadBalancer"@))
                .with("ipFamilyPolicy"@, JsonV::Str(ip_policy(network_mode).0))
                .with("ipFamilies"@, str_arr(ip_policy(network_mode).1)),
        )
        .with(
            "gatewayApi"@,
            jobj()
                .with("enabled"@, JsonV::Bool(gateway_api)),
        )
        .with(
            "gatewayClassResource"@,
            jobj()
                .with("enabled"@, JsonV::Bool(gateway_api)),
        )
        .with(
            "adminIngress"@,
            jobj()
                .with("enabled"@, JsonV::Bool(host.len() != 0))
                .with("host"@, JsonV::Str(host))
                .with("tlsSecretName"@, JsonV::Str(chosen_name(cfg.tls_secret))),
        )
        .with("ingressClassName"@, JsonV::Str("pertisk-proxy"@));
    let pulled = if pull_secret {
        base.with("imagePullSecrets"@, JsonV::Arr(seq![
            jobj()
                .with("name"@, JsonV::Str(INGRESS_PULL_SECRET@)),
        ]))
    } else {
        base
    };
    match password {
        Some(p) => if trim(p).len() == 0 {
            pulled
        } else {
            pulled.with("auth"@, jobj()
                .with("createSecret"@, JsonV::Bool(true))
                .with("password"@, JsonV::Str(trim(p))))
        },
        None => pulled,
    }
}

pub fn ingress_helm_values(
    cfg: &IngressConfig,
    network_mode: &str,
    gateway_api: bool,
    password: Option<&str>,
    pull_secret: bool,
    resolved_tag: &str,
    cluster_arch: &str,
) -> (r: Json)
    ensures
        r@ == ingress_values(
            cfg@,
            network_mode@,
            gateway_api,
            opt_str(password),
            pull_secret,
            resolved_tag@,
            cluster_arch@,
        ),
{
    let (policy, families) = ingress_service_ip_policy(network_mode);
    let host = str_trim(&cfg.admin_host);
    let tag = trim_or(resolved_tag, &trim_or(&cfg.image_tag, INGRESS_IMAGE_TAG));
    let base = Json::object()
        .with(
            "image",
            Json::object()
                .with("registry", Json::text(INGRESS_IMAGE_REGISTRY))
                .with("repository", Json::text(INGRESS_IMAGE_REPO))
                .with("tag", Json::text(&tag))
                .with("pullPolicy", Json::text("Always")),
        )
        .with(
            "nodeSelector",
            Json::object()
                .with("kubernetes.io/arch", Json::Str(kube_arch(cluster_arch))),
        )
        .with(
            "service",
            Json::object()
                .with("type", Json::text("LoadBalancer"))
                .with("ipFamilyPolicy", Json::text(&policy))
                .with("ipFamilies", Json::text_array(&families)),
        )
        .with(
            "gatewayApi",
            Json::object()
                .with("enabled", Json::Bool(gateway_api)),
        )
        .with(
            "gatewayClassResource",
            Json::object()
                .with("enabled", Json::Bool(gateway_api)),
        )
        .with(
            "adminIngress",
            Json::object()
                .with("enabled", Json::Bool(!host.is_empty()))
                .with("host", Json::text(&host))
                .with("tlsSecretName", Json::Str(choose_name(&cfg.tls_secret))),
        )
        .with("ingressClassName", Json::text("pertisk-proxy"));
    let pulled = if pull_secret {
        base.with("imagePullSecrets", Json::singleton(
            Json::object()
                .with("name", Json::text(INGRESS_PULL_SECRET)),
        ))
    } else {
        base
    };
    match password {
        Some(p) => {
            let t = str_trim(p);
            if t.is_empty() {
                pulled
            } else {
                pulled.with("auth", Json::object()
                    .with("createSecret", Json::Bool(true))
                    .with("password", Json::Str(t)))
            }
        },
        None => pulled,
    }
}

/// The ingress of the admin page. Without a TLS secret it speaks plain HTTP.
pub open spec fn admin_ingress(host: Seq<char>, tls_secret: Seq<char>) -> JsonV {
    let h = trim(host);
    let tls = chosen_name(tls_secret);
    let meta = jobj()
        .with("name"@, JsonV::Str(INGRESS_ADMIN@))
        .with("namespace"@, JsonV::Str(INGRESS_NAMESPACE@))
        .with(
            "annotations"@,
            jobj()
                .with("meta.helm.sh/release-name"@, JsonV::Str(INGRESS_RELEASE@))
                .with("meta.helm.sh/release-namespace"@, JsonV::Str(INGRESS_NAMESPACE@))
                .with("proxy.pertisk.tech/security-exempt"@, JsonV::Str("true"@)),
        )
        .with(
            "labels"@,
            jobj()
                .with("app.kubernetes.io/instance"@, JsonV::Str(INGRESS_RELEASE@))
                .with("app.kubernetes.io/managed-by"@, JsonV::Str("Helm"@))
                .with("app.kubernetes.io/name"@, JsonV::Str("pertisk-ingress"@)),
        );
    let plain = jobj()
        .with("ingressClassName"@, JsonV::Str("pertisk-proxy"@))
        .with(
            "rules"@,
            JsonV::Arr(seq![
                jobj()
                    .with("host"@, JsonV::Str(h))
                    .with(
                        "http"@,
                        jobj()
                            .with(
                                "paths"@,
                                JsonV::Arr(seq![
                                    jobj()
                                        .with("path"@, JsonV::Str("/"@))
                                        .with("pathType"@, JsonV::Str("Prefix"@))
                                        .with(
                                            "backend"@,
                                            jobj()
                                                .with(
                                                    "service"@,
                                                    jobj()
                                                        .with("name"@, JsonV::Str(INGRESS_DEPLOY@))
                                                        .with(
                                                            "port"@,
                                                            jobj()
                                                                .with("number"@, JsonV::Int(9080)),
                                                        ),
                                                ),
                                        ),
                                ]),
                            ),
                    ),
            ]),
        );
    let body = if tls.len() == 0 {
        plain
    } else {
        plain.with("tls"@, JsonV::Arr(seq![
            jobj()
                .with("hosts"@, JsonV::Arr(seq![JsonV::Str(h)]))
                .with("secretName"@, JsonV::Str(tls)),
        ]))
    };
    jobj().with("apiVersion"@, JsonV::Str("networking.k8s.io/v1"@)).with(
        "kind"@,
        JsonV::Str("Ingress"@),
    ).with("metadata"@, meta).with("spec"@, body)
}

pub fn admin_ingress_doc(host: &str, tls_secret: &str) -> (r: Json)
    ensures
        r@ == admin_ingress(host@, tls_secret@),
{
    let h = str_trim(host);
    let tls = choose_name(tls_secret);
    let meta = Json::object()
        .with("name", Json::text(INGRESS_ADMIN))
        .with("namespace", Json::text(INGRESS_NAMESPACE))
        .with(
            "annotations",
            Json::object()
                .with("meta.helm.sh/release-name", Json::text(INGRESS_RELEASE))
                .with("meta.helm.sh/release-namespace", Json::text(INGRESS_NAMESPACE))
                .with("proxy.pertisk.tech/security-exempt", Json::text("true")),
        )
        .with(
            "labels",
            Json::object()
                .with("app.kubernetes.io/instance", Json::text(INGRESS_RELEASE))
                .with("app.kubernetes.io/managed-by", Json::text("Helm"))
                .with("app.kubernetes.io/name", Json::text("pertisk-ingress")),
        );
    let plain = Json::object()
        .with("ingressClassName", Json::text("pertisk-proxy"))
        .with(
            "rules",
            Json::singleton(
                Json::object()
                    .with("host", Json::text(&h))
                    .with(
                        "http",
                        Json::object()
                            .with(
                                "paths",
                                Json::singleton(
                                    Json::object()
                                        .with("path", Json::text("/"))
                                        .with("pathType", Json::text("Prefix"))
                                        .with(
                                            "backend",
                                            Json::object()
                                                .with(
                                                    "service",
                                                    Json::object()
                                                        .with("name", Json::text(INGRESS_DEPLOY))
                                                        .with(
                                                            "port",
                                                            Json::object()
                                                                .with("number", Json::Int(9080)),
                                                        ),
                                                ),
                                        ),
                                ),
                            ),
                    ),
            ),
        );
    let body = if tls.is_empty() {
        plain
    } else {
        plain.with("tls", Json::singleton(
            Json::object()
                .with("hosts", Json::singleton(Json::text(&h)))
                .with("secretName", Json::text(&tls)),
        ))
    };
    Json::object().with("apiVersion", Json::text("networking.k8s.io/v1")).with(
        "kind",
        Json::text("Ingress"),
    ).with("metadata", meta).with("spec", body)
}

/// A registry login as container runtimes read it: under `auths` and the
/// registry, the user, the password and the two joined in base64.
pub open spec fn registry_login(
    registry: Seq<char>,
    user: Seq<char>,
    password: Seq<char>,
    auth: Seq<char>,
) -> Seq<(Seq<char>, Seq<(Seq<char>, Seq<(Seq<char>, Seq<char>)>)>)> {
    seq![
        (
            "auths"@,
            seq![
                (
                    registry,
                    seq![("username"@, user), ("password"@, password), ("auth"@, auth)],
                ),
            ],
        ),
    ]
}

pub fn registry_login_doc(registry: &str, user: &str, password: &str, auth: &str) -> (r: Vec<
    (String, Vec<(String, Vec<(String, String)>)>),
>)
    ensures
        tree_view(r@) == registry_login(registry@, user@, password@, auth@),
{
    let mut leaves: Vec<(String, String)> = Vec::new();
    leaves.push((lit("username"), lit(user)));
    leaves.push((lit("password"), lit(password)));
    leaves.push((lit("auth"), lit(auth)));
    assert(leaves_view(leaves@) =~= seq![
        ("username"@, user@),
        ("password"@, password@),
        ("auth"@, auth@),
    ]);
    let mut twigs: Vec<(String, Vec<(String, String)>)> = Vec::new();
    twigs.push((lit(registry), leaves));
    assert(twigs_view(twigs@) =~= seq![(registry@, leaves_view(leaves@))]);
    let mut doc: Vec<(String, Vec<(String, Vec<(String, String)>)>)> = Vec::new();
    doc.push((lit("auths"), twigs));
    assert(tree_view(doc@) =~= seq![("auths"@, twigs_view(twigs@))]);
    doc
}

/// The secret with which nodes pull from the registry.
pub open spec fn pull_secret(user: Seq<char>, password: Seq<char>) -> JsonV {
    jobj()
        .with("apiVersion"@, JsonV::Str("v1"@))
        .with("kind"@, JsonV::Str("Secret"@))
        .with(
            "metadata"@,
            jobj()
                .with("name"@, JsonV::Str(INGRESS_PULL_SECRET@))
                .with("namespace"@, JsonV::Str(INGRESS_NAMESPACE@)),
        )
        .with("type"@, JsonV::Str("kubernetes.io/dockerconfigjson"@))
        .with(
            "stringData"@,
            jobj()
                .with(
                    ".dockerconfigjson"@,
                    JsonV::Str(json_tree(registry_login(
                INGRESS_IMAGE_REGISTRY@,
                trim(user),
                password,
                b64_text(encode_utf8(trim(user) + ":"@ + password)),
            ))),
                ),
        )
}

pub fn harbor_pull_secret_doc(user: &str, password: &str) -> (r: Json)
    ensures
        r@ == pull_secret(user@, password@),
{
    let u = str_trim(user);
    let login = lit(&u).concat(":").concat(password);
    let auth = b64_encode(login.as_str().as_bytes());
    Json::object()
        .with("apiVersion", Json::text("v1"))
        .with("kind", Json::text("Secret"))
        .with(
            "metadata",
            Json::object()
                .with("name", Json::text(INGRESS_PULL_SECRET))
                .with("namespace", Json::text(INGRESS_NAMESPACE)),
        )
        .with("type", Json::text("kubernetes.io/dockerconfigjson"))
        .with(
            "stringData",
            Json::object()
                .with(
                    ".dockerconfigjson",
                    Json::Str(write_json_tree(&registry_login_doc(
                INGRESS_IMAGE_REGISTRY,
                &u,
                password,
                &auth,
            ))),
                ),
        )
}

/// The secret with which cert-manager edits DNS.
pub open spec fn token_secret(token: Seq<char>) -> JsonV {
    jobj()
        .with("apiVersion"@, JsonV::Str("v1"@))
        .with("kind"@, JsonV::Str("Secret"@))
        .with(
            "metadata"@,
            jobj()
                .with("name"@, JsonV::Str("cloudflare-api-token-secret"@))
                .with("namespace"@, JsonV::Str("cert-manager"@)),
        )
        .with("type"@, JsonV::Str("Opaque"@))
        .with(
            "stringData"@,
            jobj()
                .with("api-token"@, JsonV::Str(token)),
        )
}

pub fn cloudflare_token_secret_json(token: &str) -> (r: Json)
    ensures
        r@ == token_secret(token@),
{
    Json::object()
        .with("apiVersion", Json::text("v1"))
        .with("kind", Json::text("Secret"))
        .with(
            "metadata",
            Json::object()
                .with("name", Json::text("cloudflare-api-token-secret"))
                .with("namespace", Json::text("cert-manager")),
        )
        .with("type", Json::text("Opaque"))
        .with(
            "stringData",
            Json::object()
                .with("api-token", Json::text(token)),
        )
}

/// The certificate for apex and wildcard, whose secret is copied to all
/// namespaces.
pub open spec fn wildcard_certificate(cfg: CertManagerConfigV) -> JsonV {
    let name = secret_name(cfg.domain);
    jobj()
        .with("apiVersion"@, JsonV::Str("cert-manager.io/v1"@))
        .with("kind"@, JsonV::Str("Certificate"@))
        .with(
            "metadata"@,
            jobj()
                .with("name"@, JsonV::Str(name))
                .with("namespace"@, JsonV::Str(CERT_NS@)),
        )
        .with(
            "spec"@,
            jobj()
                .with("secretName"@, JsonV::Str(name))
                .with("duration"@, JsonV::Str("2160h"@))
                .with("renewBefore"@, JsonV::Str("360h"@))
                .with("isCA"@, JsonV::Bool(false))
                .with(
                    "privateKey"@,
                    jobj()
                        .with("algorithm"@, JsonV::Str("RSA"@))
                        .with("encoding"@, JsonV::Str("PKCS1"@))
                        .with("size"@, JsonV::Int(2048)),
                )
                .with(
                    "usages"@,
                    JsonV::Arr(seq![JsonV::Str("server auth"@), JsonV::Str("client auth"@)]),
                )
                .with("dnsNames"@, str_arr(dns_names(cfg.domain)))
                .with(
                    "issuerRef"@,
                    jobj()
                        .with(
                            "name"@,
                            JsonV::Str(trimmed_or(cfg.issuer, "letsencrypt-cloudflare"@)),
                        )
                        .with("kind"@, JsonV::Str("ClusterIssuer"@))
                        .with("group"@, JsonV::Str("cert-manager.io"@)),
                )
                .with(
                    "secretTemplate"@,
                    jobj()
                        .with(
                            "annotations"@,
                            jobj()
                                .with(
                                    "reflector.v1.k8s.emberstack.com/reflection-allowed"@,
                                    JsonV::Str("true"@),
                                )
                                .with(
                                    "reflector.v1.k8s.emberstack.com/reflection-auto-enabled"@,
                                    JsonV::Str("true"@),
                                ),
                        ),
                ),
        )
}

pub fn wildcard_certificate_doc(cfg: &CertManagerConfig) -> (r: Option<Json>)
    ensures
        match r {
            Some(j) => dns_names(cfg.domain@).len() > 0 && j@ == wildcard_certificate(cfg@),
            None => dns_names(cfg.domain@).len() == 0,
        },
{
    let names = wildcard_dns_names(&cfg.domain);
    assert(texts(names@).len() == names.len());
    if names.len() == 0 {
        return None;
    }
    let name = cert_secret_name(&cfg.domain);
    let doc = Json::object()
        .with("apiVersion", Json::text("cert-manager.io/v1"))
        .with("kind", Json::text("Certificate"))
        .with(
            "metadata",
            Json::object()
                .with("name", Json::text(&name))
                .with("namespace", Json::text(CERT_NS)),
        )
        .with(
            "spec",
            Json::object()
                .with("secretName", Json::text(&name))
                .with("duration", Json::text("2160h"))
                .with("renewBefore", Json::text("360h"))
                .with("isCA", Json::Bool(false))
                .with(
                    "privateKey",
                    Json::object()
                        .with("algorithm", Json::text("RSA"))
                        .with("encoding", Json::text("PKCS1"))
                        .with("size", Json::Int(2048)),
                )
                .with("usages", Json::pair(Json::text("server auth"), Json::text("client auth")))
                .with("dnsNames", Json::text_array(&names))
                .with(
                    "issuerRef",
                    Json::object()
                        .with("name", Json::Str(trim_or(&cfg.issuer, "letsencrypt-cloudflare")))
                        .with("kind", Json::text("ClusterIssuer"))
                        .with("group", Json::text("cert-manager.io")),
                )
                .with(
                    "secretTemplate",
                    Json::object()
                        .with(
                            "annotations",
                            Json::object()
                                .with(
                                    "reflector.v1.k8s.emberstack.com/reflection-allowed",
                                    Json::text("true"),
                                )
                                .with(
                                    "reflector.v1.k8s.emberstack.com/reflection-auto-enabled",
                                    Json::text("true"),
                                ),
                        ),
                ),
        );
    Some(doc)
}

/// Where the scaler reaches the management API.
pub open spec fn scaler_endpoint(cfg: KosScalerConfigV, public_url: Seq<char>) -> Seq<char> {
    let own = trim_end_char(trim(cfg.mgmt_url), '/');
    if own.len() != 0 {
        own
    } else {
        trim_end_char(trim(public_url), '/')
    }
}

pub fn kos_scaler_endpoint(cfg: &KosScalerConfig, public_url: &str) -> (r: String)
    ensures
        r@ == scaler_endpoint(cfg@, public_url@),
{
    let own = str_trim_end_char(&str_trim(&cfg.mgmt_url), '/');
    if !own.is_empty() {
        own
    } else {
        str_trim_end_char(&str_trim(public_url), '/')
    }
}

/// The values of the scaler chart. State is kept on a volume where a storage
/// class is chosen.
pub open spec fn scaler_values(
    cfg: KosScalerConfigV,
    cluster_id: Seq<char>,
    endpoint: Seq<char>,
    password: Seq<char>,
) -> JsonV {
    let sc = chosen_name(cfg.storage_class);
    let state = if sc.len() == 0 {
        jobj().with("enabled"@, JsonV::Bool(false))
    } else {
        jobj().with("enabled"@, JsonV::Bool(true)).with("storageClassName"@, JsonV::Str(sc))
    };
    jobj()
        .with(
            "image"@,
            jobj()
                .with("tag"@, JsonV::Str(trimmed_or(cfg.image_tag, KOS_SCALER_IMAGE_TAG@))),
        )
        .with(
            "mgmt"@,
            jobj()
                .with("endpoint"@, JsonV::Str(endpoint))
                .with("clusterId"@, JsonV::Str(cluster_id))
                .with("username"@, JsonV::Str(trim(cfg.username)))
                .with("password"@, JsonV::Str(password)),
        )
        .with(
            "config"@,
            jobj()
                .with(
                    "workerPool"@,
                    jobj()
                        .with("minSize"@, JsonV::Int(size_or(cfg.min_size, 2)))
                        .with("maxSize"@, JsonV::Int(size_or(cfg.max_size, 10))),
                ),
        )
        .with("statePersistence"@, state)
}

pub fn kos_scaler_helm_values(
    cfg: &KosScalerConfig,
    cluster_id: &str,
    endpoint: &str,
    password: &str,
) -> (r: Json)
    ensures
        r@ == scaler_values(cfg@, cluster_id@, endpoint@, password@),
{
    let sc = choose_name(&cfg.storage_class);
    let state = if sc.is_empty() {
        Json::object().with("enabled", Json::Bool(false))
    } else {
        Json::object().with("enabled", Json::Bool(true)).with("storageClassName", Json::Str(sc))
    };
    Json::object()
        .with(
            "image",
            Json::object()
                .with("tag", Json::Str(trim_or(&cfg.image_tag, KOS_SCALER_IMAGE_TAG))),
        )
        .with(
            "mgmt",
            Json::object()
                .with("endpoint", Json::text(endpoint))
                .with("clusterId", Json::text(cluster_id))
                .with("username", Json::Str(str_trim(&cfg.username)))
                .with("password", Json::text(password)),
        )
        .with(
            "config",
            Json::object()
                .with(
                    "workerPool",
                    Json::object()
                        .with("minSize", Json::Int(pick_size(cfg.min_size, 2)))
                        .with("maxSize", Json::Int(pick_size(cfg.max_size, 10))),
                ),
        )
        .with("statePersistence", state)
}

/// The values of the dashboard chart. An ingress comes with a host.
pub open spec fn dashboard_values(cfg: KubernetesDashboardConfigV, jwt_secret: Seq<char>) -> JsonV {
    let host = trim(cfg.host);
    let tls = chosen_name(cfg.tls_secret);
    let app = jobj()
        .with(
            "image"@,
            jobj()
                .with("registry"@, JsonV::Str(KUBERNETES_DASHBOARD_IMAGE_REGISTRY@))
                .with("repository"@, JsonV::Str(KUBERNETES_DASHBOARD_IMAGE_REPO@))
                .with("tag"@, JsonV::Str(trim(cfg.image_tag))),
        )
        .with(
            "auth"@,
            jobj()
                .with("username"@, JsonV::Str(trim(cfg.username)))
                .with("password"@, JsonV::Str(trim(cfg.password)))
                .with("jwtSecret"@, JsonV::Str(jwt_secret)),
        );
    let off = jobj()
        .with("enabled"@, JsonV::Bool(host.len() != 0))
        .with("className"@, JsonV::Str("pertisk-proxy"@));
    let ingress = if host.len() == 0 {
        off
    } else {
        off.with("hosts"@, JsonV::Arr(seq![
            jobj()
                .with("host"@, JsonV::Str(host))
                .with(
                    "paths"@,
                    JsonV::Arr(seq![
                        jobj()
                            .with("path"@, JsonV::Str("/"@))
                            .with("pathType"@, JsonV::Str("Prefix"@)),
                    ]),
                ),
        ])).with(
            "tls"@,
            if tls.len() == 0 {
                JsonV::Arr(Seq::empty())
            } else {
                JsonV::Arr(seq![
                    jobj()
                        .with("secretName"@, JsonV::Str(tls))
                        .with("hosts"@, JsonV::Arr(seq![JsonV::Str(host)])),
                ])
            },
        )
    };
    jobj().with("app"@, app).with("ingress"@, ingress)
}

pub fn kubernetes_dashboard_helm_values(cfg: &KubernetesDashboardConfig, jwt_secret: &str) -> (r:
    Json)
    ensures
        r@ == dashboard_values(cfg@, jwt_secret@),
{
    let host = str_trim(&cfg.host);
    let tls = choose_name(&cfg.tls_secret);
    let app = Json::object()
        .with(
            "image",
            Json::object()
                .with("registry", Json::text(KUBERNETES_DASHBOARD_IMAGE_REGISTRY))
                .with("repository", Json::text(KUBERNETES_DASHBOARD_IMAGE_REPO))
                .with("tag", Json::Str(str_trim(&cfg.image_tag))),
        )
        .with(
            "auth",
            Json::object()
                .with("username", Json::Str(str_trim(&cfg.username)))
                .with("password", Json::Str(str_trim(&cfg.password)))
                .with("jwtSecret", Json::text(jwt_secret)),
        );
    let off = Json::object()
        .with("enabled", Json::Bool(!host.is_empty()))
        .with("className", Json::text("pertisk-proxy"));
    let ingress = if host.is_empty() {
        off
    } else {
        let certs = if tls.is_empty() {
            Json::no_items()
        } else {
            Json::singleton(
                Json::object()
                    .with("secretName", Json::text(&tls))
                    .with("hosts", Json::singleton(Json::text(&host))),
            )
        };
        off.with("hosts", Json::singleton(
            Json::object()
                .with("host", Json::text(&host))
                .with(
                    "paths",
                    Json::singleton(
                        Json::object()
                            .with("path", Json::text("/"))
                            .with("pathType", Json::text("Prefix")),
                    ),
                ),
        )).with("tls", certs)
    };
    Json::object().with("app", app).with("ingress", ingress)
}

/// The block of an address pool, where the text denotes an address.
pub open spec fn pool_block(raw: Seq<char>, family: IpFamily) -> Seq<char> {
    match lb_cidr(trim(raw), family) {
        Ok(c) => "    - cidr: "@ + c + "\n"@,
        Err(_) => ""@,
    }
}

fn render_block(raw: &str, family: IpFamily) -> (r: String)
    ensures
        r@ == pool_block(raw@, family),
{
    match normalize_lb_cidr(&str_trim(raw), family) {
        Ok(c) => lit("    - cidr: ").concat(&c).concat("\n"),
        Err(_) => lit(""),
    }
}

/// The address pool of the load balancer.
pub open spec fn lb_pool(cfg: CiliumLbConfigV, api_version: Seq<char>) -> Seq<char> {
    "apiVersion: "@ + api_version + "\nkind: CiliumLoadBalancerIPPool\nmetadata:\n  name: "@
        + CILIUM_LB_POOL@ + "\nspec:\n  blocks:\n"@ + pool_block(cfg.ipv4, IpFamily::V4) + pool_block(
        cfg.ipv6,
        IpFamily::V6,
    ) + "  disabled: false\n"@
}

pub fn render_cilium_lb_pool_yaml(cfg: &CiliumLbConfig, api_version: &str) -> (r: String)
    ensures
        r@ == lb_pool(cfg@, api_version@),
{
    lit("apiVersion: ").concat(api_version).concat(
        "\nkind: CiliumLoadBalancerIPPool\nmetadata:\n  name: ",
    ).concat(CILIUM_LB_POOL).concat("\nspec:\n  blocks:\n").concat(
        &render_block(&cfg.ipv4, IpFamily::V4),
    ).concat(&render_block(&cfg.ipv6, IpFamily::V6)).concat("  disabled: false\n")
}

/// The announcement policy of the load balancer.
pub open spec fn l2_policy(api_version: Seq<char>) -> Seq<char> {
    "apiVersion: "@ + api_version + "\nkind: CiliumL2AnnouncementPolicy\nmetadata:\n  name: "@
        + CILIUM_LB_L2@ + "\nspec:\n  externalIPs: true\n  loadBalancerIPs: true\n"@
}

pub fn render_cilium_l2_yaml(api_version: &str) -> (r: String)
    ensures
        r@ == l2_policy(api_version@),
{
    lit("apiVersion: ").concat(api_version).concat(
        "\nkind: CiliumL2AnnouncementPolicy\nmetadata:\n  name: ",
    ).concat(CILIUM_LB_L2).concat("\nspec:\n  externalIPs: true\n  loadBalancerIPs: true\n")
}

/// The directory of the certificate authority.
pub open spec fn acme_server(acme: Seq<char>) -> Seq<char> {
    if lower(trim(acme)) == lower("staging"@) {
        ACME_STAGING@
    } else {
        ACME_PROD@
    }
}

/// The issuer of certificates.
pub open spec fn issuer_yaml(cfg: CertManagerConfigV) -> Seq<char> {
    let issuer = trimmed_or(cfg.issuer, "letsencrypt-cloudflare"@);
    "apiVersion: cert-manager.io/v1\nkind: ClusterIssuer\nmetadata:\n  name: "@ + issuer
        + "\nspec:\n  acme:\n    email: "@ + trim(cfg.email) + "\n    server: "@ + acme_server(
        cfg.acme,
    ) + "\n    privateKeySecretRef:\n      name: "@ + issuer
        + "\n    solvers:\n      - dns01:\n          cloudflare:\n            apiTokenSecretRef:\n              name: cloudflare-api-token-secret\n              key: api-token\n"@
}

pub fn cert_manager_issuer_yaml(cfg: &CertManagerConfig) -> (r: String)
    ensures
        r@ == issuer_yaml(cfg@),
{
    let issuer = trim_or(&cfg.issuer, "letsencrypt-cloudflare");
    let server = if str_eq_nocase(&str_trim(&cfg.acme), "staging") {
        lit(ACME_STAGING)
    } else {
        lit(ACME_PROD)
    };
    lit("apiVersion: cert-manager.io/v1\nkind: ClusterIssuer\nmetadata:\n  name: ").concat(
        &issuer,
    ).concat("\nspec:\n  acme:\n    email: ").concat(&str_trim(&cfg.email)).concat(
        "\n    server: ",
    ).concat(&server).concat("\n    privateKeySecretRef:\n      name: ").concat(&issuer).concat(
        "\n    solvers:\n      - dns01:\n          cloudflare:\n            apiTokenSecretRef:\n              name: cloudflare-api-token-secret\n              key: api-token\n",
    )
}

// ---------------------------------------------------------------------------
// What the issuer is told
// ---------------------------------------------------------------------------

proof fn lemma_stands_in(a: Seq<char>, p: Seq<char>, b: Seq<char>)
    ensures
        contains(a + p + b, p),
{
    let s = a + p + b;
    assert(s.subrange(a.len() as int, a.len() as int + p.len()) =~= p);
    assert(match_at(s, p, a.len() as int));
}

/// The issuer of certificates asks the staging directory exactly where the
/// settings say `staging`, in any case and with white space around, and the
/// production directory where they say anything else. Nothing else of the
/// document depends on that choice.
pub proof fn law_issuer_asks_the_chosen_directory(
    a: CertManagerConfigV,
    b: CertManagerConfigV,
)
    requires
        a.issuer == b.issuer,
        a.email == b.email,
        lower(trim(a.acme)) == "staging"@,
        lower(trim(b.acme)) != "staging"@,
    ensures
        exists|head: Seq<char>, tail: Seq<char>|
            #![trigger head + "\n    server: "@ + tail]
            issuer_yaml(a) == head + "\n    server: "@
                + "https://acme-staging-v02.api.letsencrypt.org/directory"@ + "\n"@ + tail
                && issuer_yaml(b) == head + "\n    server: "@
                + "https://acme-v02.api.letsencrypt.org/directory"@ + "\n"@ + tail,
        issuer_yaml(a) != issuer_yaml(b),
{
    let s1 = "https://acme-staging-v02.api.letsencrypt.org/directory"@;
    let s2 = "https://acme-v02.api.letsencrypt.org/directory"@;
    reveal_strlit("staging");
    reveal_strlit("https://acme-staging-v02.api.letsencrypt.org/directory");
    reveal_strlit("https://acme-v02.api.letsencrypt.org/directory");
    reveal_strlit("\n");
    reveal_strlit("\n    privateKeySecretRef:\n      name: ");
    assert(s1.len() == 54 && s2.len() == 46);
    assert(lower("staging"@) =~= "staging"@);
    let issuer = trimmed_or(a.issuer, "letsencrypt-cloudflare"@);
    let head = "apiVersion: cert-manager.io/v1\nkind: ClusterIssuer\nmetadata:\n  name: "@ + issuer
        + "\nspec:\n  acme:\n    email: "@ + trim(a.email);
    let full = "\n    privateKeySecretRef:\n      name: "@ + issuer
        + "\n    solvers:\n      - dns01:\n          cloudflare:\n            apiTokenSecretRef:\n              name: cloudflare-api-token-secret\n              key: api-token\n"@;
    let tail = full.skip(1);
    assert(full =~= "\n"@ + tail);
    assert(issuer_yaml(a) =~= head + "\n    server: "@ + s1 + "\n"@ + tail);
    assert(issuer_yaml(b) =~= head + "\n    server: "@ + s2 + "\n"@ + tail);
    assert((head + "\n    server: "@ + tail).len() >= 0);
    assert(issuer_yaml(a).len() == issuer_yaml(b).len() + 8);
}

/// The words of a setting that stand for production.
pub proof fn law_production_is_not_staging(acme: Seq<char>)
    requires
        lower(trim(acme)) == "production"@,
    ensures
        lower(trim(acme)) != "staging"@,
{
    reveal_strlit("production");
    reveal_strlit("staging");
    assert("production"@.len() == 10 && "staging"@.len() == 7);
}

/// The issuer has the name and the address of the settings, the default name
/// where they give none, and finds the token in the secret that holds it.
pub proof fn law_issuer_has_its_settings(cfg: CertManagerConfigV)
    ensures
        ({
            let y = issuer_yaml(cfg);
            let name = if trim(cfg.issuer).len() > 0 {
                trim(cfg.issuer)
            } else {
                "letsencrypt-cloudflare"@
            };
            &&& contains(y, "kind: ClusterIssuer\nmetadata:\n  name: "@ + name + "\n"@)
            &&& contains(y, "    email: "@ + trim(cfg.email) + "\n"@)
            &&& contains(y, "name: cloudflare-api-token-secret\n              key: api-token\n"@)
        }),
{
    let y = issuer_yaml(cfg);
    let name = trimmed_or(cfg.issuer, "letsencrypt-cloudflare"@);
    let l0 = "apiVersion: cert-manager.io/v1\nkind: ClusterIssuer\nmetadata:\n  name: "@;
    let l1 = "\nspec:\n  acme:\n    email: "@;
    let l2 = "\n    server: "@;
    let l3 = "\n    privateKeySecretRef:\n      name: "@;
    let l4 = "\n    solvers:\n      - dns01:\n          cloudflare:\n            apiTokenSecretRef:\n              name: cloudflare-api-token-secret\n              key: api-token\n"@;
    reveal_strlit("apiVersion: cert-manager.io/v1\nkind: ClusterIssuer\nmetadata:\n  name: ");
    reveal_strlit("\nspec:\n  acme:\n    email: ");
    reveal_strlit("\n    server: ");
    reveal_strlit("kind: ClusterIssuer\nmetadata:\n  name: ");
    reveal_strlit("    email: ");
    reveal_strlit("\n");
    reveal_strlit("\n    solvers:\n      - dns01:\n          cloudflare:\n            apiTokenSecretRef:\n              name: cloudflare-api-token-secret\n              key: api-token\n");
    reveal_strlit("name: cloudflare-api-token-secret\n              key: api-token\n");
    let srv = acme_server(cfg.acme);
    let k = "kind: ClusterIssuer\nmetadata:\n  name: "@;
    let e = "    email: "@;
    let t = "name: cloudflare-api-token-secret\n              key: api-token\n"@;
    let a0 = l0.take(l0.len() - k.len());
    assert(l0 =~= a0 + k);
    let r1 = l1.skip(1);
    assert(l1 =~= "\n"@ + r1);
    let a1 = l1.take(l1.len() - e.len());
    assert(l1 =~= a1 + e);
    let r2 = l2.skip(1);
    assert(l2 =~= "\n"@ + r2);
    let a4 = l4.take(l4.len() - t.len());
    assert(l4 =~= a4 + t);
    let em = trim(cfg.email);
    assert(y =~= a0 + (k + name + "\n"@) + (r1 + em + l2 + srv + l3 + name + l4));
    lemma_stands_in(a0, k + name + "\n"@, r1 + em + l2 + srv + l3 + name + l4);
    assert(y =~= (l0 + name + a1) + (e + em + "\n"@) + (r2 + srv + l3 + name + l4));
    lemma_stands_in(l0 + name + a1, e + em + "\n"@, r2 + srv + l3 + name + l4);
    assert(y =~= (l0 + name + l1 + em + l2 + srv + l3 + name + a4) + t + Seq::empty());
    lemma_stands_in(l0 + name + l1 + em + l2 + srv + l3 + name + a4, t, Seq::empty());
}

} // verus!
