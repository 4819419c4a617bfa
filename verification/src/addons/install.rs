//! What the installation of an add-on stores and hands to the cluster.
use crate::addons::{
    CERT_MANAGER_ID, CILIUM_LB_ID, INGRESS_HELM_CHART, INGRESS_HELM_REPO, INGRESS_ID,
    INGRESS_NAMESPACE, INGRESS_RELEASE, KOS_SCALER_HELM_CHART, KOS_SCALER_ID, KOS_SCALER_NAMESPACE,
    KOS_SCALER_RELEASE, KUBERNETES_DASHBOARD_HELM_CHART, KUBERNETES_DASHBOARD_ID,
    KUBERNETES_DASHBOARD_RELEASE, NFS_ID,
};
use crate::addons::live::{crd_storage_api, own_view, storage_api};
use crate::addons::names::{choose_name, chosen_name, dns_names};
use crate::addons::nfs::{render_nfs_provisioner, with_export};
use crate::addons::render::{
    admin_ingress, admin_ingress_doc, cert_manager_issuer_yaml, cloudflare_token_secret_json,
    dashboard_values, harbor_pull_secret_doc, ingress_chart_version, ingress_helm_values,
    ingress_values, is_dotted, issuer_yaml, kos_scaler_endpoint, kos_scaler_helm_values,
    kubernetes_dashboard_helm_values, l2_policy, lb_pool, pull_secret, render_cilium_l2_yaml,
    render_cilium_lb_pool_yaml, scaler_endpoint, scaler_values, tag_version, token_secret,
    wildcard_certificate, wildcard_certificate_doc,
};
use crate::addons::secrets::{
    IngressSecrets, KubernetesDashboardSecrets, dashboard_secret_texts, decrypt_ingress_secrets,
    encode_ingress_secrets, encode_kubernetes_dashboard_secrets, generate_dashboard_jwt_secret,
    ingress_secret_texts, json_pair, parse_ingress_secrets, parse_kubernetes_dashboard_secrets,
    unsealed,
};
use crate::addons::settings::{
    CertManagerConfigV, CiliumLbConfigV, IngressConfig, IngressConfigV, KosScalerConfigV,
    KubernetesDashboardConfigV, cert_faults, cert_stored, dashboard_faults, dashboard_stored,
    ingress_faults, ingress_stored, lb_faults, lb_stored, nfs_faults, nfs_stored, outcome,
    parse_cert_stored, parse_cilium_lb_stored, parse_ingress_stored, parse_kos_scaler_stored,
    parse_kubernetes_dashboard_stored, parse_nfs_stored, public_cert, public_cert_config,
    public_cilium_lb_config, public_dashboard, public_ingress, public_ingress_config,
    public_kos_scaler_config, public_kubernetes_dashboard_config, public_lb, public_nfs,
    public_nfs_config, public_scaler, scaler_faults, scaler_stored, validate_cert_manager,
    validate_cilium_lb, validate_ingress, validate_kos_scaler, validate_kubernetes_dashboard,
    validate_nfs,
};
use crate::addons::status::{
    append_all, cert_submitted, check_endpoint, dashboard_submitted, endpoint_fault,
    needs_registry_password, parse_cert_submitted, parse_dashboard_submitted,
    registry_password_needed, require_cilium_cni,
};
use crate::crypto::{CryptoError, decrypt, decrypted, encrypt, hex_text, is_sealing, seal_fault};
use crate::error::{ApiResult, AppError, ErrorV};
use crate::json::{Json, JsonV, opt_view};
use crate::text::{cat, join, lit, no_texts, opt_text, put, str_eq, str_join, str_trim, texts, trim};
use vstd::prelude::*;
use vstd::string::*;

verus! {

/// A secret that goes with an installation.
#[derive(Debug, PartialEq, Eq)]
pub enum AddonSecret {
    /// None is needed; one that is stored stays.
    Keep,
    /// None is left.
    Clear,
    /// A token or a password.
    Token(String),
    Ingress(IngressSecrets),
    Dashboard(KubernetesDashboardSecrets),
}

#[verifier::ext_equal]
pub ghost enum SecretV {
    Keep,
    Clear,
    Token(Seq<char>),
    /// Admin and registry password.
    Ingress(Seq<char>, Seq<char>),
    /// Password and signing secret.
    Dashboard(Seq<char>, Seq<char>),
}

impl View for AddonSecret {
    type V = SecretV;

    open spec fn view(&self) -> SecretV {
        match self {
            AddonSecret::Keep => SecretV::Keep,
            AddonSecret::Clear => SecretV::Clear,
            AddonSecret::Token(t) => SecretV::Token(t@),
            AddonSecret::Ingress(s) => SecretV::Ingress(s.admin_password@, s.registry_password@),
            AddonSecret::Dashboard(s) => SecretV::Dashboard(s.password@, s.jwt_secret@),
        }
    }
}

// ---------------------------------------------------------------------------
// A request to install
// ---------------------------------------------------------------------------

/// All messages of a check in one.
pub open spec fn joined(v: Seq<Seq<char>>) -> Seq<char> {
    join(v, "; "@)
}

/// A stored secret is there.
pub open spec fn is_stored(enc: Option<Seq<char>>) -> bool {
    enc is Some && enc->0.len() != 0
}

/// The token to install with: the one given, or else the stored one.
pub open spec fn token_plan(
    given: Seq<char>,
    enc: Option<Seq<char>>,
    key: Seq<u8>,
    label: Seq<char>,
) -> Result<Seq<char>, Seq<char>> {
    if trim(given).len() == 0 && is_stored(enc) {
        match decrypted(key, enc->0) {
            Ok(t) => Ok(t),
            Err(e) => Err(label + e.text()),
        }
    } else {
        Ok(given)
    }
}

pub open spec fn cert_plan(body: JsonV, enc: Option<Seq<char>>, key: Seq<u8>) -> Result<
    (JsonV, SecretV),
    Seq<char>,
> {
    let cfg = cert_submitted(body);
    let wrong = cert_faults(cfg, trim(cfg.api_token).len() != 0 || !is_stored(enc));
    if wrong.len() != 0 {
        Err(joined(wrong))
    } else {
        match token_plan(cfg.api_token, enc, key, "stored token: "@) {
            Err(e) => Err(e),
            Ok(t) => if trim(t).len() == 0 {
                Err("Cloudflare API token is required"@)
            } else {
                Ok((public_cert(cfg), SecretV::Token(trim(t))))
            },
        }
    }
}

pub open spec fn scaler_plan(body: JsonV, enc: Option<Seq<char>>, key: Seq<u8>) -> Result<
    (JsonV, SecretV),
    Seq<char>,
> {
    let cfg = scaler_stored(body);
    let wrong = scaler_faults(cfg, trim(cfg.password).len() == 0 && !is_stored(enc));
    if wrong.len() != 0 {
        Err(joined(wrong))
    } else {
        match token_plan(trim(cfg.password), enc, key, "stored password: "@) {
            Err(e) => Err(e),
            Ok(t) => if t.len() == 0 {
                Err("mgmt password is required"@)
            } else {
                Ok((public_scaler(cfg), SecretV::Token(t)))
            },
        }
    }
}

/// The given secret, or the known one where none is given.
pub open spec fn given_or(given: Seq<char>, known: Seq<char>) -> Seq<char> {
    if trim(given).len() == 0 {
        known
    } else {
        trim(given)
    }
}

pub open spec fn ingress_plan(body: JsonV, enc: Option<Seq<char>>, key: Seq<u8>) -> Result<
    (JsonV, SecretV),
    Seq<char>,
> {
    let cfg = ingress_stored(body);
    let (known_admin, known_registry) = match unsealed(key, enc) {
        Some(t) => ingress_secret_texts(t),
        None => (Seq::<char>::empty(), Seq::<char>::empty()),
    };
    let wrong = ingress_faults(
        cfg,
        needs_registry_password(cfg, trim(known_registry).len() != 0),
    );
    let admin = given_or(cfg.admin_password, known_admin);
    let registry = given_or(cfg.registry_password, known_registry);
    if wrong.len() != 0 {
        Err(joined(wrong))
    } else if trim(admin).len() == 0 && trim(registry).len() == 0 {
        Ok((public_ingress(cfg), SecretV::Clear))
    } else {
        Ok((public_ingress(cfg), SecretV::Ingress(admin, registry)))
    }
}

pub open spec fn dashboard_plan(
    body: JsonV,
    enc: Option<Seq<char>>,
    key: Seq<u8>,
    fresh: Seq<char>,
) -> Result<(JsonV, SecretV), Seq<char>> {
    let opened = match enc {
        Some(e) => match decrypted(key, e) {
            Ok(t) => Ok(dashboard_secret_texts(t)),
            Err(c) => Err("stored dashboard secrets: "@ + c.text()),
        },
        None => Ok((Seq::<char>::empty(), Seq::<char>::empty())),
    };
    match opened {
        Err(e) => Err(e),
        Ok((password, jwt)) => {
            let cfg = dashboard_submitted(body);
            let wrong = dashboard_faults(
                cfg,
                trim(cfg.password).len() == 0 && trim(password).len() == 0,
            );
            if wrong.len() != 0 {
                Err(joined(wrong))
            } else {
                Ok(
                    (
                        public_dashboard(cfg),
                        SecretV::Dashboard(
                            given_or(cfg.password, password),
                            if trim(jwt).len() == 0 {
                                fresh
                            } else {
                                jwt
                            },
                        ),
                    ),
                )
            }
        },
    }
}

/// What a request to install comes to: the settings to store and the secret, or
/// the reason why it is refused. `fresh` is a new signing secret.
pub open spec fn install_plan(
    addon: Seq<char>,
    body: JsonV,
    enc: Option<Seq<char>>,
    key: Seq<u8>,
    cni: Seq<char>,
    mode: Seq<char>,
    fresh: Seq<char>,
) -> Result<(JsonV, SecretV), Seq<char>> {
    if addon == NFS_ID@ {
        let cfg = nfs_stored(body);
        if nfs_faults(cfg).len() != 0 {
            Err(joined(nfs_faults(cfg)))
        } else {
            Ok((public_nfs(cfg), SecretV::Keep))
        }
    } else if addon == CERT_MANAGER_ID@ {
        cert_plan(body, enc, key)
    } else if addon == CILIUM_LB_ID@ {
        let cfg = lb_stored(body);
        if cni != "cilium"@ {
            Err("Cilium LoadBalancer add-on requires cluster CNI cilium"@)
        } else if lb_faults(cfg, mode).len() != 0 {
            Err(joined(lb_faults(cfg, mode)))
        } else {
            Ok((public_lb(cfg), SecretV::Keep))
        }
    } else if addon == INGRESS_ID@ {
        ingress_plan(body, enc, key)
    } else if addon == KOS_SCALER_ID@ {
        scaler_plan(body, enc, key)
    } else if addon == KUBERNETES_DASHBOARD_ID@ {
        dashboard_plan(body, enc, key, fresh)
    } else {
        Err("unknown addon "@ + addon)
    }
}

/// The settings to store and the secret of an installation.
#[derive(Debug, PartialEq, Eq)]
pub struct InstallPlan {
    pub config: Json,
    pub secret: AddonSecret,
}

/// The form of a plan, or the message of its refusal.
pub open spec fn plan_view(r: Result<InstallPlan, String>) -> Result<(JsonV, SecretV), Seq<char>> {
    match r {
        Ok(p) => Ok((p.config@, p.secret@)),
        Err(e) => Err(e@),
    }
}

fn join_errors(v: &Vec<String>) -> (r: String)
    ensures
        r@ == joined(texts(v@)),
{
    str_join(v, "; ")
}

fn has_stored(enc: &Option<String>) -> (r: bool)
    ensures
        r == is_stored(opt_text(*enc)),
{
    match enc {
        Some(e) => !e.is_empty(),
        None => false,
    }
}

fn find_token(given: &str, enc: &Option<String>, key: &[u8], label: &str) -> (r: Result<
    String,
    String,
>)
    ensures
        outcome(r) == token_plan(given@, opt_text(*enc), key@, label@),
{
    match enc {
        Some(e) => {
            if str_trim(given).is_empty() && !e.is_empty() {
                match decrypt(key, e) {
                    Ok(t) => Ok(t),
                    Err(c) => Err(cat(label, &c.message())),
                }
            } else {
                Ok(lit(given))
            }
        },
        None => Ok(lit(given)),
    }
}

fn plan_cert(body: &Json, enc: &Option<String>, key: &[u8]) -> (r: Result<InstallPlan, String>)
    ensures
        plan_view(r) == cert_plan(body@, opt_text(*enc), key@),
{
    let cfg = parse_cert_submitted(body);
    let need = !str_trim(&cfg.api_token).is_empty() || !has_stored(enc);
    match validate_cert_manager(&cfg, need) {
        Err(e) => Err(join_errors(&e)),
        Ok(_) => match find_token(&cfg.api_token, enc, key, "stored token: ") {
            Err(e) => Err(e),
            Ok(t) => {
                let token = str_trim(&t);
                if token.is_empty() {
                    Err(lit("Cloudflare API token is required"))
                } else {
                    Ok(
                        InstallPlan {
                            config: public_cert_config(&cfg),
                            secret: AddonSecret::Token(token),
                        },
                    )
                }
            },
        },
    }
}

fn plan_scaler(body: &Json, enc: &Option<String>, key: &[u8]) -> (r: Result<InstallPlan, String>)
    ensures
        plan_view(r) == scaler_plan(body@, opt_text(*enc), key@),
{
    let cfg = parse_kos_scaler_stored(body);
    let given = str_trim(&cfg.password);
    let need = given.is_empty() && !has_stored(enc);
    match validate_kos_scaler(&cfg, need) {
        Err(e) => Err(join_errors(&e)),
        Ok(_) => match find_token(&given, enc, key, "stored password: ") {
            Err(e) => Err(e),
            Ok(t) => if t.is_empty() {
                Err(lit("mgmt password is required"))
            } else {
                Ok(
                    InstallPlan {
                        config: public_kos_scaler_config(&cfg),
                        secret: AddonSecret::Token(t),
                    },
                )
            },
        },
    }
}

fn pick_given(given: &str, known: &str) -> (r: String)
    ensures
        r@ == given_or(given@, known@),
{
    let t = str_trim(given);
    if t.is_empty() {
        lit(known)
    } else {
        t
    }
}

fn plan_ingress(body: &Json, enc: &Option<String>, key: &[u8]) -> (r: Result<InstallPlan, String>)
    ensures
        plan_view(r) == ingress_plan(body@, opt_text(*enc), key@),
{
    let cfg = parse_ingress_stored(body);
    let known = decrypt_ingress_secrets(key, enc);
    let need = registry_password_needed(&cfg, !str_trim(&known.registry_password).is_empty());
    match validate_ingress(&cfg, need) {
        Err(e) => Err(join_errors(&e)),
        Ok(_) => {
            let admin = pick_given(&cfg.admin_password, &known.admin_password);
            let registry = pick_given(&cfg.registry_password, &known.registry_password);
            let secret = if str_trim(&admin).is_empty() && str_trim(&registry).is_empty() {
                AddonSecret::Clear
            } else {
                AddonSecret::Ingress(
                    IngressSecrets { admin_password: admin, registry_password: registry },
                )
            };
            Ok(InstallPlan { config: public_ingress_config(&cfg), secret })
        },
    }
}

fn plan_dashboard(body: &Json, enc: &Option<String>, key: &[u8], fresh: &str) -> (r: Result<
    InstallPlan,
    String,
>)
    ensures
        plan_view(r) == dashboard_plan(body@, opt_text(*enc), key@, fresh@),
{
    let known = match enc {
        Some(e) => match decrypt(key, e) {
            Ok(t) => parse_kubernetes_dashboard_secrets(&t),
            Err(c) => {
                return Err(cat("stored dashboard secrets: ", &c.message()));
            },
        },
        None => KubernetesDashboardSecrets {
            password: String::new(),
            jwt_secret: String::new(),
        },
    };
    let cfg = parse_dashboard_submitted(body);
    let need = str_trim(&cfg.password).is_empty() && str_trim(&known.password).is_empty();
    match validate_kubernetes_dashboard(&cfg, need) {
        Err(e) => Err(join_errors(&e)),
        Ok(_) => {
            let password = pick_given(&cfg.password, &known.password);
            let jwt_secret = if str_trim(&known.jwt_secret).is_empty() {
                lit(fresh)
            } else {
                known.jwt_secret
            };
            Ok(
                InstallPlan {
                    config: public_kubernetes_dashboard_config(&cfg),
                    secret: AddonSecret::Dashboard(
                        KubernetesDashboardSecrets { password, jwt_secret },
                    ),
                },
            )
        },
    }
}

/// Decides on a request to install, given a new signing secret.
pub fn plan_install(
    addon: &str,
    body: &Json,
    enc: &Option<String>,
    key: &[u8],
    cni: &str,
    mode: &str,
    fresh: &str,
) -> (r: Result<InstallPlan, String>)
    ensures
        plan_view(r) == install_plan(addon@, body@, opt_text(*enc), key@, cni@, mode@, fresh@),
{
    if str_eq(addon, NFS_ID) {
        let cfg = parse_nfs_stored(body);
        match validate_nfs(&cfg) {
            Err(e) => Err(join_errors(&e)),
            Ok(_) => Ok(
                InstallPlan { config: public_nfs_config(&cfg), secret: AddonSecret::Keep },
            ),
        }
    } else if str_eq(addon, CERT_MANAGER_ID) {
        plan_cert(body, enc, key)
    } else if str_eq(addon, CILIUM_LB_ID) {
        if !str_eq(cni, "cilium") {
            return Err(lit("Cilium LoadBalancer add-on requires cluster CNI cilium"));
        }
        let cfg = parse_cilium_lb_stored(body);
        match validate_cilium_lb(&cfg, mode) {
            Err(e) => Err(join_errors(&e)),
            Ok(_) => Ok(
                InstallPlan {
                    config: public_cilium_lb_config(&cfg),
                    secret: AddonSecret::Keep,
                },
            ),
        }
    } else if str_eq(addon, INGRESS_ID) {
        plan_ingress(body, enc, key)
    } else if str_eq(addon, KOS_SCALER_ID) {
        plan_scaler(body, enc, key)
    } else if str_eq(addon, KUBERNETES_DASHBOARD_ID) {
        plan_dashboard(body, enc, key, fresh)
    } else {
        Err(cat("unknown addon ", addon))
    }
}

/// The secret column of the row: left alone, or set.
#[derive(Debug, PartialEq, Eq)]
pub enum SecretColumn {
    Keep,
    Store(Option<String>),
}

/// The text that is sealed for a secret.
pub open spec fn sealed_text(s: SecretV) -> Seq<char> {
    match s {
        SecretV::Keep | SecretV::Clear => Seq::empty(),
        SecretV::Token(t) => t,
        SecretV::Ingress(a, b) => json_pair("admin_password"@, a, "registry_password"@, b),
        SecretV::Dashboard(a, b) => json_pair("password"@, a, "jwt_secret"@, b),
    }
}

/// The column holds the secret: sealed under the key, it opens to a text that
/// reads as the secret.
pub open spec fn column_holds(c: SecretColumn, s: SecretV, key: Seq<u8>) -> bool {
    match s {
        SecretV::Keep => c is Keep,
        SecretV::Clear => c matches SecretColumn::Store(o) && o is None,
        SecretV::Token(t) => c matches SecretColumn::Store(Some(e)) && holds_sealed(e@, s, key)
            && decrypted(key, e@)->Ok_0 == t,
        SecretV::Ingress(a, b) => c matches SecretColumn::Store(Some(e)) && holds_sealed(
            e@,
            s,
            key,
        ) && ingress_secret_texts(decrypted(key, e@)->Ok_0) == (a, b),
        SecretV::Dashboard(a, b) => c matches SecretColumn::Store(Some(e)) && holds_sealed(
            e@,
            s,
            key,
        ) && dashboard_secret_texts(decrypted(key, e@)->Ok_0) == (a, b),
    }
}

/// The text of the secret is sealed in `e`, which is longer and opens.
pub open spec fn holds_sealed(e: Seq<char>, s: SecretV, key: Seq<u8>) -> bool {
    &&& is_sealing(key, sealed_text(s), e)
    &&& e.len() > sealed_text(s).len()
    &&& decrypted(key, e) is Ok
}

/// Why a secret cannot be sealed for its row; one that is kept or cleared needs
/// no seal.
pub open spec fn secret_fault(s: SecretV, key: Seq<u8>) -> Option<CryptoError> {
    match s {
        SecretV::Keep | SecretV::Clear => None,
        _ => seal_fault(key, sealed_text(s)),
    }
}

/// Seals the secret of a plan for its row.
pub fn seal_secret(secret: &AddonSecret, key: &[u8]) -> (r: Result<SecretColumn, CryptoError>)
    ensures
        match r {
            Ok(c) => secret_fault(secret@, key@) is None && column_holds(c, secret@, key@),
            Err(c) => secret_fault(secret@, key@) == Some(c),
        },
{
    let sealed = match secret {
        AddonSecret::Keep => {
            return Ok(SecretColumn::Keep);
        },
        AddonSecret::Clear => {
            return Ok(SecretColumn::Store(None));
        },
        AddonSecret::Token(t) => encrypt(key, t),
        AddonSecret::Ingress(s) => encrypt(key, &encode_ingress_secrets(s)),
        AddonSecret::Dashboard(s) => encrypt(key, &encode_kubernetes_dashboard_secrets(s)),
    };
    match sealed {
        Ok(e) => Ok(SecretColumn::Store(Some(e))),
        Err(c) => Err(c),
    }
}

/// The row of an installation that begins.
#[derive(Debug, PartialEq, Eq)]
pub struct StoredInstall {
    pub config: Json,
    pub secrets: SecretColumn,
}

/// What comes of a request with the given plan: the settings and the sealed
/// secret where there is a plan and its secret can be sealed; a refusal of the
/// request where there is no plan; an internal error where the secret cannot be
/// sealed.
pub open spec fn follows_plan(
    r: ApiResult<StoredInstall>,
    plan: Result<(JsonV, SecretV), Seq<char>>,
    key: Seq<u8>,
) -> bool {
    match plan {
        Err(m) => r matches Err(e) && e@ == ErrorV::BadRequest(m),
        Ok((cfg, p)) => match secret_fault(p, key) {
            Some(c) => r matches Err(e) && e@ == ErrorV::Anyhow(c.text()),
            None => r matches Ok(s) && s.config@ == cfg && column_holds(s.secrets, p, key),
        },
    }
}

/// The text is a signing secret as it is drawn: the hexadecimal digits of 32
/// bytes.
pub open spec fn is_signing_secret(t: Seq<char>) -> bool {
    exists|b: Seq<u8>| b.len() == 32 && t == #[trigger] hex_text(b)
}

/// Takes a request to install: checks the settings, and gives what the row of
/// the add-on is to hold. The stored secret opens to the one that was planned.
/// A fresh signing secret is at hand for an add-on that needs one.
pub fn upsert_install(
    addon: &str,
    body: &Json,
    enc: &Option<String>,
    key: &[u8],
    cni: &str,
    mode: &str,
) -> (r: ApiResult<StoredInstall>)
    ensures
        exists|fresh: Seq<char>|
            is_signing_secret(fresh) && follows_plan(
                r,
                #[trigger] install_plan(
                    addon@,
                    body@,
                    opt_text(*enc),
                    key@,
                    cni@,
                    mode@,
                    fresh,
                ),
                key@,
            ),
{
    let fresh = generate_dashboard_jwt_secret();
    let planned = plan_install(addon, body, enc, key, cni, mode, &fresh);
    let ghost plan = install_plan(addon@, body@, opt_text(*enc), key@, cni@, mode@, fresh@);
    assert(plan_view(planned) == plan);
    match planned {
        Err(m) => Err(AppError::BadRequest(m)),
        Ok(p) => match seal_secret(&p.secret, key) {
            Ok(c) => Ok(StoredInstall { config: p.config, secrets: c }),
            Err(c) => Err(AppError::Anyhow(c.message())),
        },
    }
}

/// Chance decides on the signing secret of the dashboard alone: whether a
/// request is refused, with which message, and the settings that are stored are
/// the same whatever fresh secret is at hand.
pub proof fn law_refusal_is_not_by_chance(
    addon: Seq<char>,
    body: JsonV,
    enc: Option<Seq<char>>,
    key: Seq<u8>,
    cni: Seq<char>,
    mode: Seq<char>,
    a: Seq<char>,
    b: Seq<char>,
)
    ensures
        match (
            install_plan(addon, body, enc, key, cni, mode, a),
            install_plan(addon, body, enc, key, cni, mode, b),
        ) {
            (Err(m), Err(n)) => m == n,
            (Ok((c, p)), Ok((d, q))) => c == d && (addon != KUBERNETES_DASHBOARD_ID@ ==> p == q),
            _ => false,
        },
{
}

// ---------------------------------------------------------------------------
// The installation itself
// ---------------------------------------------------------------------------

/// The secret that the installation of an add-on runs with, or why it cannot.
pub open spec fn job_secret(addon: Seq<char>, enc: Option<Seq<char>>, key: Seq<u8>) -> Result<
    SecretV,
    Seq<char>,
> {
    let opened = if is_stored(enc) {
        match decrypted(key, enc->0) {
            Ok(t) => Ok(Some(t)),
            Err(c) => Err(c.text()),
        }
    } else {
        Ok(None)
    };
    if addon == NFS_ID@ || addon == CILIUM_LB_ID@ {
        Ok(SecretV::Keep)
    } else if addon == CERT_MANAGER_ID@ {
        match opened {
            Ok(Some(t)) => Ok(SecretV::Token(t)),
            Ok(None) => Err("Cloudflare API token is not stored"@),
            Err(e) => Err(e),
        }
    } else if addon == INGRESS_ID@ {
        match opened {
            Ok(Some(t)) => {
                let (a, b) = ingress_secret_texts(t);
                Ok(SecretV::Ingress(a, b))
            },
            Ok(None) => Ok(SecretV::Ingress(Seq::<char>::empty(), Seq::<char>::empty())),
            Err(e) => Err(e),
        }
    } else if addon == KOS_SCALER_ID@ {
        match opened {
            Ok(Some(t)) => Ok(SecretV::Token(t)),
            Ok(None) => Err("mgmt password is not stored"@),
            Err(e) => Err(e),
        }
    } else if addon == KUBERNETES_DASHBOARD_ID@ {
        match opened {
            Ok(Some(t)) => {
                let (a, b) = dashboard_secret_texts(t);
                if trim(a).len() == 0 || trim(b).len() == 0 {
                    Err(
                        "dashboard credentials or JWT secret are not stored; update the add-on"@,
                    )
                } else {
                    Ok(SecretV::Dashboard(a, b))
                }
            },
            Ok(None) => Err("dashboard password is not stored"@),
            Err(e) => Err(e),
        }
    } else {
        Err("unknown addon "@ + addon)
    }
}

/// The secret of a result, or its message.
pub open spec fn secret_view(r: Result<AddonSecret, String>) -> Result<SecretV, Seq<char>> {
    match r {
        Ok(s) => Ok(s@),
        Err(e) => Err(e@),
    }
}

fn open_stored(enc: &Option<String>, key: &[u8]) -> (r: Result<Option<String>, String>)
    ensures
        match r {
            Ok(Some(t)) => is_stored(opt_text(*enc)) && decrypted(key@, opt_text(*enc)->0) == Ok::<
                Seq<char>,
                CryptoError,
            >(t@),
            Ok(None) => !is_stored(opt_text(*enc)),
            Err(e) => is_stored(opt_text(*enc)) && decrypted(key@, opt_text(*enc)->0) is Err && e@
                == decrypted(key@, opt_text(*enc)->0)->Err_0.text(),
        },
{
    match enc {
        Some(e) => {
            if e.is_empty() {
                return Ok(None);
            }
            match decrypt(key, e) {
                Ok(t) => Ok(Some(t)),
                Err(c) => Err(c.message()),
            }
        },
        None => Ok(None),
    }
}

/// Opens the secret that the installation of an add-on runs with.
pub fn install_secret(addon: &str, enc: &Option<String>, key: &[u8]) -> (r: Result<
    AddonSecret,
    String,
>)
    ensures
        secret_view(r) == job_secret(addon@, opt_text(*enc), key@),
{
    if str_eq(addon, NFS_ID) || str_eq(addon, CILIUM_LB_ID) {
        return Ok(AddonSecret::Keep);
    }
    let is_cert = str_eq(addon, CERT_MANAGER_ID);
    let is_ingress = str_eq(addon, INGRESS_ID);
    let is_scaler = str_eq(addon, KOS_SCALER_ID);
    if !is_cert && !is_ingress && !is_scaler && !str_eq(addon, KUBERNETES_DASHBOARD_ID) {
        return Err(cat("unknown addon ", addon));
    }
    match open_stored(enc, key) {
        Err(e) => Err(e),
        Ok(Some(t)) => {
            if is_cert {
                Ok(AddonSecret::Token(t))
            } else if is_ingress {
                Ok(AddonSecret::Ingress(parse_ingress_secrets(&t)))
            } else if is_scaler {
                Ok(AddonSecret::Token(t))
            } else {
                let s = parse_kubernetes_dashboard_secrets(&t);
                if str_trim(&s.password).is_empty() || str_trim(&s.jwt_secret).is_empty() {
                    Err(
                        lit(
                            "dashboard credentials or JWT secret are not stored; update the add-on",
                        ),
                    )
                } else {
                    Ok(AddonSecret::Dashboard(s))
                }
            }
        },
        Ok(None) => {
            if is_cert {
                Err(lit("Cloudflare API token is not stored"))
            } else if is_ingress {
                Ok(
                    AddonSecret::Ingress(
                        IngressSecrets {
                            admin_password: String::new(),
                            registry_password: String::new(),
                        },
                    ),
                )
            } else if is_scaler {
                Err(lit("mgmt password is not stored"))
            } else {
                Err(lit("dashboard password is not stored"))
            }
        },
    }
}

/// The secret that a request to install stored is the one that the installation
/// runs with: a token, ingress passwords, or dashboard credentials that are not
/// blank.
pub proof fn law_stored_secret_reaches_installation(
    addon: Seq<char>,
    s: SecretV,
    column: String,
    key: Seq<u8>,
)
    requires
        column_holds(SecretColumn::Store(Some(column)), s, key),
        s is Token ==> addon == CERT_MANAGER_ID@ || addon == KOS_SCALER_ID@,
        s is Ingress ==> addon == INGRESS_ID@,
        s is Dashboard ==> addon == KUBERNETES_DASHBOARD_ID@,
        s matches SecretV::Dashboard(a, b) ==> trim(a).len() != 0 && trim(b).len() != 0,
    ensures
        job_secret(addon, Some(column@), key) == Ok::<SecretV, Seq<char>>(s),
{
    reveal_strlit("nfs");
    reveal_strlit("cert-manager");
    reveal_strlit("cilium-lb");
    reveal_strlit("ingress");
    reveal_strlit("kos-scaler");
    reveal_strlit("kubernetes-dashboard");
    assert(NFS_ID@.len() == 3 && CERT_MANAGER_ID@.len() == 12 && CILIUM_LB_ID@.len() == 9
        && INGRESS_ID@.len() == 7 && KOS_SCALER_ID@.len() == 10 && KUBERNETES_DASHBOARD_ID@.len()
        == 20);
}

/// The arguments with which a chart is installed or upgraded.
pub open spec fn helm_install(
    release: Seq<char>,
    chart: Seq<char>,
    namespace: Seq<char>,
    values: Seq<char>,
) -> Seq<Seq<char>> {
    Seq::<Seq<char>>::empty().push("upgrade"@).push("--install"@).push(release).push(chart).push(
        "--repo"@,
    ).push(INGRESS_HELM_REPO@).push("--namespace"@).push(namespace).push(
        "--create-namespace"@,
    ).push("--timeout"@).push("5m"@).push("-f"@).push(values)
}

fn helm_args(release: &str, chart: &str, namespace: &str, values: &str) -> (r: Vec<String>)
    ensures
        texts(r@) == helm_install(release@, chart@, namespace@, values@),
{
    let mut v = no_texts();
    put(&mut v, "upgrade");
    put(&mut v, "--install");
    put(&mut v, release);
    put(&mut v, chart);
    put(&mut v, "--repo");
    put(&mut v, INGRESS_HELM_REPO);
    put(&mut v, "--namespace");
    put(&mut v, namespace);
    put(&mut v, "--create-namespace");
    put(&mut v, "--timeout");
    put(&mut v, "5m");
    put(&mut v, "-f");
    put(&mut v, values);
    v
}

/// The installation of a chart: its values, what of them goes to the log, and
/// the arguments of `helm`.
#[derive(Debug, PartialEq, Eq)]
pub struct HelmInstall {
    pub values: Json,
    pub logged: Json,
    pub args: Vec<String>,
    pub namespace: String,
}

/// The dashboard settings to install.
pub open spec fn dashboard_to_install(
    stored: JsonV,
    password: Seq<char>,
) -> KubernetesDashboardConfigV {
    KubernetesDashboardConfigV { password: password, ..dashboard_stored(stored) }
}

/// The installation of the dashboard. The log shows the values with the secrets
/// starred out.
pub fn install_kubernetes_dashboard(
    stored: &Json,
    secrets: &KubernetesDashboardSecrets,
    values_path: &str,
) -> (r: Result<HelmInstall, String>)
    ensures
        ({
            let cfg = dashboard_to_install(stored@, secrets.password@);
            match r {
                Ok(h) => {
                    &&& dashboard_faults(cfg, true).len() == 0
                    &&& h.values@ == dashboard_values(cfg, secrets.jwt_secret@)
                    &&& h.logged@ == dashboard_values(
                        dashboard_to_install(stored@, "***"@),
                        "***"@,
                    )
                    &&& texts(h.args@) == helm_install(
                        KUBERNETES_DASHBOARD_RELEASE@,
                        KUBERNETES_DASHBOARD_HELM_CHART@,
                        trim(cfg.namespace),
                        values_path@,
                    )
                    &&& h.namespace@ == trim(cfg.namespace)
                },
                Err(e) => dashboard_faults(cfg, true).len() != 0 && e@ == joined(
                    dashboard_faults(cfg, true),
                ),
            }
        }),
{
    let mut cfg = parse_kubernetes_dashboard_stored(stored);
    cfg.password = lit(&secrets.password);
    match validate_kubernetes_dashboard(&cfg, true) {
        Err(e) => Err(join_errors(&e)),
        Ok(_) => {
            let values = kubernetes_dashboard_helm_values(&cfg, &secrets.jwt_secret);
            let mut masked = parse_kubernetes_dashboard_stored(stored);
            masked.password = lit("***");
            let logged = kubernetes_dashboard_helm_values(&masked, "***");
            let namespace = str_trim(&cfg.namespace);
            let args = helm_args(
                KUBERNETES_DASHBOARD_RELEASE,
                KUBERNETES_DASHBOARD_HELM_CHART,
                &namespace,
                values_path,
            );
            Ok(HelmInstall { values, logged, args, namespace })
        },
    }
}

/// Why the scaler cannot be installed.
pub open spec fn scaler_refusal(cfg: KosScalerConfigV, public_url: Seq<char>) -> Option<
    Seq<char>,
> {
    if scaler_faults(cfg, false).len() != 0 {
        Some(joined(scaler_faults(cfg, false)))
    } else {
        endpoint_fault(cfg, public_url)
    }
}

/// The installation of the scaler, which must be able to reach the management
/// API.
pub fn install_kos_scaler(
    stored: &Json,
    public_url: &str,
    cluster_id: &str,
    password: &str,
    values_path: &str,
) -> (r: Result<HelmInstall, String>)
    ensures
        ({
            let cfg = scaler_stored(stored@);
            let endpoint = scaler_endpoint(cfg, public_url@);
            match r {
                Ok(h) => {
                    &&& scaler_refusal(cfg, public_url@) is None
                    &&& h.values@ == scaler_values(cfg, cluster_id@, endpoint, password@)
                    &&& h.logged@ == scaler_values(cfg, cluster_id@, endpoint, "***"@)
                    &&& texts(h.args@) == helm_install(
                        KOS_SCALER_RELEASE@,
                        KOS_SCALER_HELM_CHART@,
                        KOS_SCALER_NAMESPACE@,
                        values_path@,
                    )
                    &&& h.namespace@ == KOS_SCALER_NAMESPACE@
                },
                Err(e) => scaler_refusal(cfg, public_url@) == Some(e@),
            }
        }),
{
    let cfg = parse_kos_scaler_stored(stored);
    match validate_kos_scaler(&cfg, false) {
        Err(e) => {
            return Err(join_errors(&e));
        },
        Ok(_) => {},
    }
    match check_endpoint(&cfg, public_url) {
        Some(e) => {
            return Err(e);
        },
        None => {},
    }
    let endpoint = kos_scaler_endpoint(&cfg, public_url);
    Ok(
        HelmInstall {
            values: kos_scaler_helm_values(&cfg, cluster_id, &endpoint, password),
            logged: kos_scaler_helm_values(&cfg, cluster_id, &endpoint, "***"),
            args: helm_args(
                KOS_SCALER_RELEASE,
                KOS_SCALER_HELM_CHART,
                KOS_SCALER_NAMESPACE,
                values_path,
            ),
            namespace: lit(KOS_SCALER_NAMESPACE),
        },
    )
}

/// The installation of the ingress.
#[derive(Debug, PartialEq, Eq)]
pub struct IngressInstall {
    pub helm: HelmInstall,
    /// The secret to pull with, where the registry needs one.
    pub pull_secret: Option<Json>,
    /// The ingress of the admin page, where there is a host.
    pub admin: Option<Json>,
    /// The admin page must lose the TLS of an earlier installation.
    pub drop_tls: bool,
}

/// The options that the ingress chart gets besides its values.
pub open spec fn ingress_options(cfg: IngressConfigV) -> Seq<Seq<char>> {
    let none = Seq::<Seq<char>>::empty();
    let version = if is_dotted(tag_version(cfg.image_tag)) {
        none.push("--version"@).push(tag_version(cfg.image_tag))
    } else {
        none
    };
    let host = trim(cfg.admin_host);
    if host.len() != 0 {
        version.push("--set"@).push("adminIngress.enabled=true"@).push("--set-string"@).push(
            "adminIngress.host="@ + host,
        ).push("--set-string"@).push(
            "adminIngress.tlsSecretName="@ + chosen_name(cfg.tls_secret),
        )
    } else {
        version.push("--set"@).push("adminIngress.enabled=false"@)
    }
}

/// The registry is asked with a login: a user is set and a password stored.
pub open spec fn pulls_with_login(cfg: IngressConfigV, registry_password: Seq<char>) -> bool {
    trim(cfg.registry_user).len() != 0 && trim(registry_password).len() != 0
}

/// The password, where it is not blank.
pub open spec fn nonblank(p: Seq<char>) -> Option<Seq<char>> {
    if trim(p).len() == 0 {
        None
    } else {
        Some(trim(p))
    }
}

/// The stored ingress settings, checked for an installation.
pub fn ingress_to_install(stored: &Json) -> (r: Result<IngressConfig, String>)
    ensures
        match r {
            Ok(cfg) => cfg@ == ingress_stored(stored@) && ingress_faults(cfg@, false).len() == 0,
            Err(e) => ingress_faults(ingress_stored(stored@), false).len() != 0 && e@ == joined(
                ingress_faults(ingress_stored(stored@), false),
            ),
        },
{
    let cfg = parse_ingress_stored(stored);
    match validate_ingress(&cfg, false) {
        Err(e) => Err(join_errors(&e)),
        Ok(_) => Ok(cfg),
    }
}

fn add_ingress_options(args: &mut Vec<String>, cfg: &IngressConfig)
    ensures
        texts(final(args)@) == texts(old(args)@) + ingress_options(cfg@),
{
    let mut more = no_texts();
    match ingress_chart_version(&cfg.image_tag) {
        Some(v) => {
            put(&mut more, "--version");
            put(&mut more, &v);
        },
        None => {},
    }
    let host = str_trim(&cfg.admin_host);
    if !host.is_empty() {
        put(&mut more, "--set");
        put(&mut more, "adminIngress.enabled=true");
        put(&mut more, "--set-string");
        put(&mut more, &cat("adminIngress.host=", &host));
        put(&mut more, "--set-string");
        put(&mut more, &cat("adminIngress.tlsSecretName=", &choose_name(&cfg.tls_secret)));
    } else {
        put(&mut more, "--set");
        put(&mut more, "adminIngress.enabled=false");
    }
    append_all(args, more);
}

/// The installation of the ingress, given its checked settings, the image tag
/// that was found and whether the cluster has the Gateway API.
pub fn install_ingress(
    cfg: &IngressConfig,
    secrets: &IngressSecrets,
    network_mode: &str,
    arch: &str,
    gateway_api: bool,
    tag: &str,
    values_path: &str,
) -> (r: IngressInstall)
    ensures
        ({
            let login = pulls_with_login(cfg@, secrets.registry_password@);
            let host = trim(cfg@.admin_host);
            let tls = chosen_name(cfg@.tls_secret);
            &&& r.helm.values@ == ingress_values(
                cfg@,
                network_mode@,
                gateway_api,
                nonblank(secrets.admin_password@),
                login,
                tag@,
                arch@,
            )
            &&& r.helm.logged@ == ingress_values(
                cfg@,
                network_mode@,
                gateway_api,
                if nonblank(secrets.admin_password@) is None {
                    None
                } else {
                    Some("***"@)
                },
                login,
                tag@,
                arch@,
            )
            &&& texts(r.helm.args@) == helm_install(
                INGRESS_RELEASE@,
                INGRESS_HELM_CHART@,
                INGRESS_NAMESPACE@,
                values_path@,
            ) + ingress_options(cfg@)
            &&& r.helm.namespace@ == INGRESS_NAMESPACE@
            &&& own_view(r.pull_secret) == (if login {
                Some(pull_secret(cfg@.registry_user, trim(secrets.registry_password@)))
            } else {
                None
            })
            &&& own_view(r.admin) == (if host.len() != 0 {
                Some(admin_ingress(host, tls))
            } else {
                None
            })
            &&& r.drop_tls == (host.len() != 0 && tls.len() == 0)
        }),
{
    let registry_password = str_trim(&secrets.registry_password);
    let login = !str_trim(&cfg.registry_user).is_empty() && !registry_password.is_empty();
    let admin_password = str_trim(&secrets.admin_password);
    let (shown, masked): (Option<&str>, Option<&str>) = if admin_password.is_empty() {
        (None, None)
    } else {
        (Some(admin_password.as_str()), Some("***"))
    };
    let values = ingress_helm_values(cfg, network_mode, gateway_api, shown, login, tag, arch);
    let logged = ingress_helm_values(cfg, network_mode, gateway_api, masked, login, tag, arch);
    let mut args = helm_args(INGRESS_RELEASE, INGRESS_HELM_CHART, INGRESS_NAMESPACE, values_path);
    add_ingress_options(&mut args, cfg);
    let host = str_trim(&cfg.admin_host);
    let tls = choose_name(&cfg.tls_secret);
    let drop_tls = !host.is_empty() && tls.is_empty();
    let admin = if host.is_empty() {
        None
    } else {
        Some(admin_ingress_doc(&host, &tls))
    };
    let pull = if login {
        Some(harbor_pull_secret_doc(&cfg.registry_user, &registry_password))
    } else {
        None
    };
    IngressInstall {
        helm: HelmInstall { values, logged, args, namespace: lit(INGRESS_NAMESPACE) },
        pull_secret: pull,
        admin,
        drop_tls,
    }
}

/// What the log shows of an ingress installation does not depend on which
/// password is set.
pub proof fn law_log_hides_ingress_password(
    cfg: IngressConfigV,
    p: Seq<char>,
    q: Seq<char>,
    mode: Seq<char>,
    gateway_api: bool,
    login: bool,
    tag: Seq<char>,
    arch: Seq<char>,
)
    requires
        nonblank(p) is Some,
        nonblank(q) is Some,
    ensures
        ingress_values(
            cfg,
            mode,
            gateway_api,
            if nonblank(p) is None {
                None
            } else {
                Some("***"@)
            },
            login,
            tag,
            arch,
        ) == ingress_values(
            cfg,
            mode,
            gateway_api,
            if nonblank(q) is None {
                None
            } else {
                Some("***"@)
            },
            login,
            tag,
            arch,
        ),
{
}

/// Why the load balancer cannot be installed.
pub open spec fn lb_refusal(cfg: CiliumLbConfigV, cni: Seq<char>, mode: Seq<char>) -> Option<
    Seq<char>,
> {
    if cni != "cilium"@ {
        Some("Cilium LoadBalancer add-on requires cluster CNI cilium"@)
    } else if lb_faults(cfg, mode).len() != 0 {
        Some(joined(lb_faults(cfg, mode)))
    } else {
        None
    }
}

/// The API version of a Cilium resource, given its definition in the cluster.
pub open spec fn cilium_api(crd: Option<JsonV>) -> Seq<char> {
    match crd {
        Some(j) => storage_api(j, "cilium.io/v2alpha1"@),
        None => "cilium.io/v2alpha1"@,
    }
}

fn cilium_crd_api_version(crd: Option<&Json>) -> (r: String)
    ensures
        r@ == cilium_api(opt_view(crd)),
{
    match crd {
        Some(j) => crd_storage_api(j, "cilium.io/v2alpha1"),
        None => lit("cilium.io/v2alpha1"),
    }
}

/// The manifests of the load balancer: address pool and announcement policy.
pub fn install_cilium_lb(
    stored: &Json,
    cni: &str,
    mode: &str,
    pool_crd: Option<&Json>,
    l2_crd: Option<&Json>,
) -> (r: Result<(String, String), String>)
    ensures
        match r {
            Ok((pool, l2)) => {
                &&& lb_refusal(lb_stored(stored@), cni@, mode@) is None
                &&& pool@ == lb_pool(lb_stored(stored@), cilium_api(opt_view(pool_crd)))
                &&& l2@ == l2_policy(cilium_api(opt_view(l2_crd)))
            },
            Err(e) => lb_refusal(lb_stored(stored@), cni@, mode@) == Some(e@),
        },
{
    match require_cilium_cni(cni) {
        Err(e) => {
            return Err(e.message());
        },
        Ok(_) => {},
    }
    let cfg = parse_cilium_lb_stored(stored);
    match validate_cilium_lb(&cfg, mode) {
        Err(e) => Err(join_errors(&e)),
        Ok(_) => Ok(
            (
                render_cilium_lb_pool_yaml(&cfg, &cilium_crd_api_version(pool_crd)),
                render_cilium_l2_yaml(&cilium_crd_api_version(l2_crd)),
            ),
        ),
    }
}

/// The manifests of NFS storage, in the order in which they are applied: that of
/// the kernel modules as it is, then that of the provisioner for the export.
pub fn install_nfs(stored: &Json, modules: &str, provisioner: &str) -> (r: Result<
    (String, String),
    String,
>)
    ensures
        ({
            let cfg = nfs_stored(stored@);
            match r {
                Ok((first, second)) => {
                    &&& nfs_faults(cfg).len() == 0
                    &&& first@ == modules@
                    &&& second@ == with_export(provisioner@, trim(cfg.server), trim(cfg.path))
                },
                Err(e) => nfs_faults(cfg).len() != 0 && e@ == joined(nfs_faults(cfg)),
            }
        }),
{
    let cfg = parse_nfs_stored(stored);
    match validate_nfs(&cfg) {
        Err(e) => Err(join_errors(&e)),
        Ok(_) => Ok((lit(modules), render_nfs_provisioner(provisioner, &cfg))),
    }
}

/// What the installation of cert-manager applies after the controller runs.
#[derive(Debug, PartialEq, Eq)]
pub struct CertManagerInstall {
    pub token_secret: Json,
    pub issuer: String,
    pub certificate: Option<Json>,
}

/// The cert-manager settings to install, with the token.
pub open spec fn cert_to_install(stored: JsonV, token: Seq<char>) -> CertManagerConfigV {
    CertManagerConfigV { api_token: token, ..cert_stored(stored) }
}

/// The documents of a cert-manager installation.
pub fn install_cert_manager(stored: &Json, token: &str) -> (r: Result<CertManagerInstall, String>)
    ensures
        ({
            let cfg = cert_to_install(stored@, token@);
            match r {
                Ok(c) => {
                    &&& cert_faults(cfg, true).len() == 0
                    &&& c.token_secret@ == token_secret(token@)
                    &&& c.issuer@ == issuer_yaml(cfg)
                    &&& own_view(c.certificate) == (if dns_names(cfg.domain).len() > 0 {
                        Some(wildcard_certificate(cfg))
                    } else {
                        None
                    })
                },
                Err(e) => cert_faults(cfg, true).len() != 0 && e@ == joined(
                    cert_faults(cfg, true),
                ),
            }
        }),
{
    let mut cfg = parse_cert_stored(stored);
    cfg.api_token = lit(token);
    match validate_cert_manager(&cfg, true) {
        Err(e) => Err(join_errors(&e)),
        Ok(_) => Ok(
            CertManagerInstall {
                token_secret: cloudflare_token_secret_json(token),
                issuer: cert_manager_issuer_yaml(&cfg),
                certificate: wildcard_certificate_doc(&cfg),
            },
        ),
    }
}

/// The status and the message to record when an installation has ended.
pub fn install_outcome(result: &Result<(), String>) -> (r: (String, Option<String>))
    ensures
        match *result {
            Ok(_) => r.0@ == "installed"@ && r.1 is None,
            Err(e) => r.0@ == "error"@ && opt_text(r.1) == Some(e@),
        },
{
    match result {
        Ok(_) => (lit("installed"), None),
        Err(e) => (lit("error"), Some(lit(e))),
    }
}

/// The options of the ingress: the admin page is switched on exactly where a host
/// is given, with that host and its secret; a version that the tag names is pinned.
pub proof fn law_options_of_the_ingress(cfg: IngressConfigV)
    ensures
        ({
            let v = ingress_options(cfg);
            let n = v.len() as int;
            let host = trim(cfg.admin_host);
            &&& host.len() > 0 ==> n >= 6 && v[n - 5] == "adminIngress.enabled=true"@ && v[n - 3]
                == "adminIngress.host="@ + host && v[n - 1] == "adminIngress.tlsSecretName="@
                + chosen_name(cfg.tls_secret)
            &&& host.len() == 0 ==> n >= 2 && v[n - 1] == "adminIngress.enabled=false"@
            &&& is_dotted(tag_version(cfg.image_tag)) ==> v[0] == "--version"@ && v[1]
                == tag_version(cfg.image_tag)
            &&& !is_dotted(tag_version(cfg.image_tag)) ==> v[0] == "--set"@
        }),
{
}

/// Images are pulled with a login exactly where both its parts are there; the
/// balancer is refused exactly on another network or with faults.
pub proof fn law_what_an_installation_needs(
    cfg: IngressConfigV,
    password: Seq<char>,
    lb: CiliumLbConfigV,
    cni: Seq<char>,
    mode: Seq<char>,
    stored: JsonV,
    token: Seq<char>,
)
    ensures
        pulls_with_login(cfg, password) <==> trim(cfg.registry_user).len() > 0 && trim(
            password,
        ).len() > 0,
        lb_refusal(lb, cni, mode) is None <==> cni == "cilium"@ && lb_faults(lb, mode).len() == 0,
        cert_to_install(stored, token).api_token == token,
        cert_to_install(stored, token).acme == cert_stored(stored).acme,
        dashboard_to_install(stored, password).password == password,
        dashboard_to_install(stored, password).host == dashboard_stored(stored).host,
{
}

} // verus!
