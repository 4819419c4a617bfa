//! The state of an add-on as a caller sees it.
use crate::addons::{
    CERT_MANAGER_ID, CERT_MANAGER_VERSION, CILIUM_LB_ID, INGRESS_ID, INGRESS_IMAGE_REGISTRY,
    INGRESS_IMAGE_REPO, INGRESS_IMAGE_TAG, KOS_SCALER_ID, KUBERNETES_DASHBOARD_ID, NFS_ID,
};
use crate::addons::catalog::{
    EntryV, catalog, catalog_entries, catalog_entry, catalog_fields_json, entries_view, entry_of,
    form_doc, known_id, law_known_ids_have_entries,
};
use crate::addons::live::own_view;
use crate::addons::names::{choose_name, chosen_name};
use crate::addons::render::{kos_scaler_endpoint, scaler_endpoint};
use crate::addons::secrets::{decrypt_ingress_secrets, ingress_secret_texts, unsealed};
use crate::addons::settings::{
    CertManagerConfig, CertManagerConfigV, IngressConfig, IngressConfigV, KosScalerConfig,
    KosScalerConfigV, KubernetesDashboardConfig, KubernetesDashboardConfigV, cert_faults,
    cert_stored, dashboard_faults, dashboard_stored, faults, ingress_faults, ingress_stored,
    json_str, lb_faults, lb_stored, loose_text, member_text, nfs_faults, nfs_stored, noted,
    noted_if, parse_cert_stored, parse_cilium_lb_stored, parse_ingress_stored,
    parse_kos_scaler_stored, parse_kubernetes_dashboard_stored, parse_nfs_stored, public_cert,
    public_cert_config, public_cilium_lb_config, public_dashboard, public_ingress,
    public_ingress_config, public_kos_scaler_config, public_kubernetes_dashboard_config, public_lb,
    public_nfs, public_nfs_config, public_scaler, scaler_faults, scaler_stored,
    validate_cert_manager, validate_cilium_lb, validate_ingress, validate_kos_scaler,
    validate_kubernetes_dashboard, validate_nfs,
};
use crate::config::{public_url_host_unusable, unusable_host};
use crate::error::{ApiResult, AppError, ErrorV};
use crate::json::{
    Json, JsonV, bool_in, is_true, jobj, opt_str_json, opt_view, str_arr, str_in, str_or, text_or,
};
use crate::text::{
    lit, no_texts, opt_str, opt_text, put, quote, quoted, str_eq, str_trim, texts, trim,
};
use vstd::prelude::*;
use vstd::string::*;

verus! {

/// What the database holds of an add-on on a cluster.
#[derive(Debug, PartialEq, Eq)]
pub struct AddonRow {
    pub status: String,
    pub config_json: String,
    pub secrets_enc: Option<String>,
    pub error: Option<String>,
    pub installed_at: Option<String>,
    pub updated_at: String,
}

/// The status in view of the stored one, of what the cluster shows and of a
/// running installation.
pub open spec fn merged_status(
    stored: Option<Seq<char>>,
    live_installed: bool,
    live_partial: bool,
    installing: bool,
) -> Seq<char> {
    if installing {
        "installing"@
    } else if stored == Some("error"@) && !live_installed {
        "error"@
    } else if stored == Some("installing"@) {
        "installing"@
    } else if live_installed {
        "installed"@
    } else if live_partial {
        "partial"@
    } else if stored == Some("installed"@) {
        "missing"@
    } else if stored is Some && stored->0.len() > 0 {
        stored->0
    } else {
        "not_installed"@
    }
}

pub fn merge_status(
    stored: Option<&str>,
    live_installed: bool,
    live_partial: bool,
    installing: bool,
) -> (r: String)
    ensures
        r@ == merged_status(opt_str(stored), live_installed, live_partial, installing),
{
    if installing {
        return lit("installing");
    }
    match stored {
        Some(s) => {
            if str_eq(s, "error") && !live_installed {
                lit("error")
            } else if str_eq(s, "installing") {
                lit("installing")
            } else if live_installed {
                lit("installed")
            } else if live_partial {
                lit("partial")
            } else if str_eq(s, "installed") {
                lit("missing")
            } else if !s.is_empty() {
                lit(s)
            } else {
                lit("not_installed")
            }
        },
        None => {
            if live_installed {
                lit("installed")
            } else if live_partial {
                lit("partial")
            } else {
                lit("not_installed")
            }
        },
    }
}

/// An installation that runs is shown as such, whatever else is known.
pub proof fn law_running_installation_shows(
    stored: Option<Seq<char>>,
    live_installed: bool,
    live_partial: bool,
)
    ensures
        merged_status(stored, live_installed, live_partial, true) == "installing"@,
{
}

/// What was recorded as installed and is gone from the cluster is missing.
pub proof fn law_vanished_addon_is_missing()
    ensures
        merged_status(Some("installed"@), false, false, false) == "missing"@,
{
    reveal_strlit("installed");
    reveal_strlit("installing");
    reveal_strlit("error");
    assert("installed"@.len() == 9 && "installing"@.len() == 10 && "error"@.len() == 5);
}

/// Only clusters with Cilium as network can have the Cilium load balancer.
pub fn require_cilium_cni(cni: &str) -> (r: ApiResult<()>)
    ensures
        match r {
            Ok(_) => cni@ == "cilium"@,
            Err(e) => cni@ != "cilium"@ && e@ == ErrorV::BadRequest(
                "Cilium LoadBalancer add-on requires cluster CNI cilium"@,
            ),
        },
{
    if str_eq(cni, "cilium") {
        Ok(())
    } else {
        Err(AppError::bad("Cilium LoadBalancer add-on requires cluster CNI cilium"))
    }
}

// ---------------------------------------------------------------------------
// Review of settings
// ---------------------------------------------------------------------------

/// What the settings of an add-on come to.
#[derive(Debug, PartialEq, Eq)]
pub struct Review {
    pub errors: Vec<String>,
    pub warnings: Vec<String>,
    /// The settings as a caller sees them.
    pub config: Json,
    /// A host whose NFS port is to be tried.
    pub probe: Option<String>,
}

#[verifier::ext_equal]
pub ghost struct ReviewV {
    pub errors: Seq<Seq<char>>,
    pub warnings: Seq<Seq<char>>,
    pub config: JsonV,
    pub probe: Option<Seq<char>>,
}

impl View for Review {
    type V = ReviewV;

    open spec fn view(&self) -> ReviewV {
        ReviewV {
            errors: texts(self.errors@),
            warnings: texts(self.warnings@),
            config: self.config@,
            probe: opt_text(self.probe),
        }
    }
}

/// What a review looks at besides the settings.
#[derive(Debug, PartialEq, Eq)]
pub struct ReviewContext {
    /// A secret is stored.
    pub token_set: bool,
    /// A registry password is stored.
    pub registry_set: bool,
    pub cni: String,
    pub network_mode: String,
    pub public_url: String,
}

#[verifier::ext_equal]
pub ghost struct ReviewContextV {
    pub token_set: bool,
    pub registry_set: bool,
    pub cni: Seq<char>,
    pub network_mode: Seq<char>,
    pub public_url: Seq<char>,
}

impl View for ReviewContext {
    type V = ReviewContextV;

    open spec fn view(&self) -> ReviewContextV {
        ReviewContextV {
            token_set: self.token_set,
            registry_set: self.registry_set,
            cni: self.cni@,
            network_mode: self.network_mode@,
            public_url: self.public_url@,
        }
    }
}

/// Nodes cannot reach the address.
pub open spec fn unreachable_url(endpoint: Seq<char>) -> bool {
    endpoint.len() == 0 || unusable_host(endpoint)
}

pub open spec fn unreachable_note(endpoint: Seq<char>) -> Seq<char> {
    "mgmt URL "@ + quoted(endpoint)
        + " is not reachable from cluster nodes; set Mgmt URL override or MGMT_PUBLIC_URL"@
}

/// Why nodes cannot reach the management API, where they cannot.
pub open spec fn endpoint_fault(cfg: KosScalerConfigV, public_url: Seq<char>) -> Option<Seq<char>> {
    let e = scaler_endpoint(cfg, public_url);
    if unreachable_url(e) {
        Some(unreachable_note(e))
    } else {
        None
    }
}

/// The note on an address, given how it is quoted.
pub fn unreachable_message(shown: &str) -> (r: String)
    ensures
        r@ == "mgmt URL "@ + shown@
            + " is not reachable from cluster nodes; set Mgmt URL override or MGMT_PUBLIC_URL"@,
{
    lit("mgmt URL ").concat(shown).concat(
        " is not reachable from cluster nodes; set Mgmt URL override or MGMT_PUBLIC_URL",
    )
}

pub fn check_endpoint(cfg: &KosScalerConfig, public_url: &str) -> (r: Option<String>)
    ensures
        opt_text(r) == endpoint_fault(cfg@, public_url@),
{
    let e = kos_scaler_endpoint(cfg, public_url);
    if e.is_empty() || public_url_host_unusable(&e) {
        Some(unreachable_message(&quote(&e)))
    } else {
        None
    }
}

/// The cert-manager settings of a request, with the token.
pub open spec fn cert_submitted(body: JsonV) -> CertManagerConfigV {
    CertManagerConfigV { api_token: member_text(body, "api_token"@), ..cert_stored(body) }
}

/// The dashboard settings of a request.
pub open spec fn dashboard_submitted(body: JsonV) -> KubernetesDashboardConfigV {
    KubernetesDashboardConfigV {
        password: loose_text(body, "password"@),
        ..dashboard_stored(body)
    }
}

/// A registry password is needed: there is a user, and no password is given or
/// known.
pub open spec fn needs_registry_password(cfg: IngressConfigV, known: bool) -> bool {
    trim(cfg.registry_user).len() != 0 && trim(cfg.registry_password).len() == 0 && !known
}

pub fn parse_cert_submitted(body: &Json) -> (r: CertManagerConfig)
    ensures
        r@ == cert_submitted(body@),
{
    let mut cfg = parse_cert_stored(body);
    cfg.api_token = str_or(body.get("api_token"), "");
    cfg
}

pub fn parse_dashboard_submitted(body: &Json) -> (r: KubernetesDashboardConfig)
    ensures
        r@ == dashboard_submitted(body@),
{
    let mut cfg = parse_kubernetes_dashboard_stored(body);
    cfg.password = json_str(body, "password");
    cfg
}

pub fn registry_password_needed(cfg: &IngressConfig, known: bool) -> (r: bool)
    ensures
        r == needs_registry_password(cfg@, known),
{
    !str_trim(&cfg.registry_user).is_empty() && str_trim(&cfg.registry_password).is_empty()
        && !known
}

/// The review of settings that a request brings.
pub open spec fn submitted_review(addon: Seq<char>, body: JsonV, c: ReviewContextV) -> ReviewV {
    let none = Seq::<Seq<char>>::empty();
    if addon == NFS_ID@ {
        let cfg = nfs_stored(body);
        ReviewV {
            errors: nfs_faults(cfg),
            warnings: none,
            config: public_nfs(cfg),
            probe: if nfs_faults(cfg).len() == 0 {
                Some(trim(cfg.server))
            } else {
                None
            },
        }
    } else if addon == CERT_MANAGER_ID@ {
        let cfg = cert_submitted(body);
        ReviewV {
            errors: cert_faults(cfg, trim(cfg.api_token).len() != 0 || !c.token_set),
            warnings: none,
            config: public_cert(cfg),
            probe: None,
        }
    } else if addon == CILIUM_LB_ID@ {
        let cfg = lb_stored(body);
        ReviewV {
            errors: noted_if(
                c.cni != "cilium"@,
                "Cilium LoadBalancer add-on requires cluster CNI cilium"@,
            ) + lb_faults(cfg, c.network_mode),
            warnings: none,
            config: public_lb(cfg),
            probe: None,
        }
    } else if addon == INGRESS_ID@ {
        let cfg = ingress_stored(body);
        ReviewV {
            errors: ingress_faults(cfg, needs_registry_password(cfg, c.registry_set)),
            warnings: none,
            config: public_ingress(cfg),
            probe: None,
        }
    } else if addon == KOS_SCALER_ID@ {
        let cfg = scaler_stored(body);
        ReviewV {
            errors: scaler_faults(cfg, trim(cfg.password).len() == 0 && !c.token_set),
            warnings: noted(endpoint_fault(cfg, c.public_url)),
            config: public_scaler(cfg),
            probe: None,
        }
    } else {
        let cfg = dashboard_submitted(body);
        ReviewV {
            errors: dashboard_faults(cfg, !c.token_set),
            warnings: none,
            config: public_dashboard(cfg),
            probe: None,
        }
    }
}

/// The review of the settings that are stored.
pub open spec fn stored_review(addon: Seq<char>, stored: JsonV) -> ReviewV {
    ReviewV {
        errors: if addon == NFS_ID@ && member_text(stored, "server"@).len() != 0 {
            nfs_faults(nfs_stored(stored))
        } else {
            Seq::empty()
        },
        warnings: Seq::empty(),
        config: stored,
        probe: None,
    }
}

/// The review of the settings of an add-on, completed with defaults.
pub open spec fn review(
    addon: Seq<char>,
    stored: JsonV,
    submitted: Option<JsonV>,
    c: ReviewContextV,
) -> ReviewV {
    let r = match submitted {
        Some(body) => submitted_review(addon, body, c),
        None => stored_review(addon, stored),
    };
    if addon == INGRESS_ID@ {
        if trim(member_text(r.config, "image_tag"@)).len() == 0 {
            ReviewV { config: public_ingress(ingress_stored(r.config)), ..r }
        } else {
            r
        }
    } else if addon == KOS_SCALER_ID@ {
        let config = public_scaler(scaler_stored(r.config));
        ReviewV {
            config: config,
            warnings: if submitted is None {
                r.warnings + noted(endpoint_fault(scaler_stored(config), c.public_url))
            } else {
                r.warnings
            },
            ..r
        }
    } else if addon == KUBERNETES_DASHBOARD_ID@ {
        ReviewV { config: public_dashboard(dashboard_stored(r.config)), ..r }
    } else {
        r
    }
}

fn errors_of(r: Result<(), Vec<String>>) -> (v: Vec<String>)
    ensures
        texts(v@) == faults(r),
{
    match r {
        Ok(_) => no_texts(),
        Err(e) => e,
    }
}

fn prepend(first: Option<String>, rest: Vec<String>) -> (r: Vec<String>)
    ensures
        texts(r@) == noted(opt_text(first)) + texts(rest@),
{
    match first {
        Some(m) => {
            let mut out: Vec<String> = rest;
            out.insert(0, lit(&m));
            assert(texts(out@) =~= seq![m@] + texts(rest@));
            out
        },
        None => {
            assert(Seq::<Seq<char>>::empty() + texts(rest@) =~= texts(rest@));
            rest
        },
    }
}

fn as_notes(o: Option<String>) -> (r: Vec<String>)
    ensures
        texts(r@) == noted(opt_text(o)),
{
    let mut out = no_texts();
    match o {
        Some(m) => {
            put(&mut out, &m);
            assert(texts(out@) =~= seq![m@]);
        },
        None => {},
    }
    out
}

fn review_submitted(addon: &str, body: &Json, c: &ReviewContext) -> (r: Review)
    ensures
        r@ == submitted_review(addon@, body@, c@),
{
    if str_eq(addon, NFS_ID) {
        let cfg = parse_nfs_stored(body);
        let errors = errors_of(validate_nfs(&cfg));
        assert(texts(errors@).len() == errors.len());
        let probe = if errors.len() == 0 {
            Some(str_trim(&cfg.server))
        } else {
            None
        };
        Review { errors, warnings: no_texts(), config: public_nfs_config(&cfg), probe }
    } else if str_eq(addon, CERT_MANAGER_ID) {
        let cfg = parse_cert_submitted(body);
        let need = !str_trim(&cfg.api_token).is_empty() || !c.token_set;
        Review {
            errors: errors_of(validate_cert_manager(&cfg, need)),
            warnings: no_texts(),
            config: public_cert_config(&cfg),
            probe: None,
        }
    } else if str_eq(addon, CILIUM_LB_ID) {
        let cfg = parse_cilium_lb_stored(body);
        let cni = match require_cilium_cni(&c.cni) {
            Ok(_) => None,
            Err(e) => Some(e.message()),
        };
        Review {
            errors: prepend(cni, errors_of(validate_cilium_lb(&cfg, &c.network_mode))),
            warnings: no_texts(),
            config: public_cilium_lb_config(&cfg),
            probe: None,
        }
    } else if str_eq(addon, INGRESS_ID) {
        let cfg = parse_ingress_stored(body);
        let need = registry_password_needed(&cfg, c.registry_set);
        Review {
            errors: errors_of(validate_ingress(&cfg, need)),
            warnings: no_texts(),
            config: public_ingress_config(&cfg),
            probe: None,
        }
    } else if str_eq(addon, KOS_SCALER_ID) {
        let cfg = parse_kos_scaler_stored(body);
        let need = str_trim(&cfg.password).is_empty() && !c.token_set;
        Review {
            errors: errors_of(validate_kos_scaler(&cfg, need)),
            warnings: as_notes(check_endpoint(&cfg, &c.public_url)),
            config: public_kos_scaler_config(&cfg),
            probe: None,
        }
    } else {
        let cfg = parse_dashboard_submitted(body);
        Review {
            errors: errors_of(validate_kubernetes_dashboard(&cfg, !c.token_set)),
            warnings: no_texts(),
            config: public_kubernetes_dashboard_config(&cfg),
            probe: None,
        }
    }
}

fn review_stored(addon: &str, stored: &Json) -> (r: Review)
    ensures
        r@ == stored_review(addon@, stored@),
{
    let errors = if str_eq(addon, NFS_ID) && !str_or(stored.get("server"), "").is_empty() {
        errors_of(validate_nfs(&parse_nfs_stored(stored)))
    } else {
        no_texts()
    };
    Review { errors, warnings: no_texts(), config: stored.dup(), probe: None }
}

/// Reviews the settings of an add-on: those of a request, or else the stored
/// ones, completed with defaults.
pub fn review_addon(addon: &str, stored: &Json, submitted: Option<&Json>, c: &ReviewContext) -> (r:
    Review)
    ensures
        r@ == review(addon@, stored@, opt_view(submitted), c@),
{
    let rv = match submitted {
        Some(body) => review_submitted(addon, body, c),
        None => review_stored(addon, stored),
    };
    if str_eq(addon, INGRESS_ID) {
        if str_trim(&str_or(rv.config.get("image_tag"), "")).is_empty() {
            let config = public_ingress_config(&parse_ingress_stored(&rv.config));
            Review { errors: rv.errors, warnings: rv.warnings, config, probe: rv.probe }
        } else {
            rv
        }
    } else if str_eq(addon, KOS_SCALER_ID) {
        let config = public_kos_scaler_config(&parse_kos_scaler_stored(&rv.config));
        let mut warnings = rv.warnings;
        if submitted.is_none() {
            let note = check_endpoint(&parse_kos_scaler_stored(&config), &c.public_url);
            append_note(&mut warnings, note);
        }
        Review { errors: rv.errors, warnings, config, probe: rv.probe }
    } else if str_eq(addon, KUBERNETES_DASHBOARD_ID) {
        let config = public_kubernetes_dashboard_config(
            &parse_kubernetes_dashboard_stored(&rv.config),
        );
        Review { errors: rv.errors, warnings: rv.warnings, config, probe: rv.probe }
    } else {
        rv
    }
}

fn append_note(v: &mut Vec<String>, o: Option<String>)
    ensures
        texts(final(v)@) == texts(old(v)@) + noted(opt_text(o)),
{
    let ghost was = texts(v@);
    match o {
        Some(m) => {
            put(v, &m);
            assert(was.push(m@) =~= was + seq![m@]);
        },
        None => {
            assert(was =~= was + Seq::<Seq<char>>::empty());
        },
    }
}

fn append_if(v: &mut Vec<String>, b: bool, msg: &str)
    ensures
        texts(final(v)@) == texts(old(v)@) + noted_if(b, msg@),
{
    let o = if b {
        Some(lit(msg))
    } else {
        None
    };
    append_note(v, o);
}

// ---------------------------------------------------------------------------
// What the cluster shows against the settings
// ---------------------------------------------------------------------------

/// What to look for in the cluster.
#[derive(Debug, PartialEq, Eq)]
pub enum LiveRequest {
    Nfs,
    CertManager { issuer: String, domain: String },
    CiliumLb,
    Ingress,
    KosScaler,
    KubernetesDashboard { namespace: String },
    Nothing,
}

/// What to look for in the cluster for an add-on with the given settings.
pub fn live_request(addon: &str, config: &Json) -> (r: LiveRequest)
    ensures
        match r {
            LiveRequest::Nfs => addon@ == NFS_ID@,
            LiveRequest::CertManager { issuer, domain } => {
                &&& addon@ == CERT_MANAGER_ID@
                &&& issuer@ == text_or(str_in(config@.get("issuer"@)), "letsencrypt-cloudflare"@)
                &&& domain@ == member_text(config@, "domain"@)
            },
            LiveRequest::CiliumLb => addon@ == CILIUM_LB_ID@,
            LiveRequest::Ingress => addon@ == INGRESS_ID@,
            LiveRequest::KosScaler => addon@ == KOS_SCALER_ID@,
            LiveRequest::KubernetesDashboard { namespace } => {
                &&& addon@ == KUBERNETES_DASHBOARD_ID@
                &&& namespace@ == trim(dashboard_stored(config@).namespace)
            },
            LiveRequest::Nothing => !known_id(addon@),
        },
{
    if str_eq(addon, NFS_ID) {
        LiveRequest::Nfs
    } else if str_eq(addon, CERT_MANAGER_ID) {
        LiveRequest::CertManager {
            issuer: str_or(config.get("issuer"), "letsencrypt-cloudflare"),
            domain: str_or(config.get("domain"), ""),
        }
    } else if str_eq(addon, CILIUM_LB_ID) {
        LiveRequest::CiliumLb
    } else if str_eq(addon, INGRESS_ID) {
        LiveRequest::Ingress
    } else if str_eq(addon, KOS_SCALER_ID) {
        LiveRequest::KosScaler
    } else if str_eq(addon, KUBERNETES_DASHBOARD_ID) {
        let cfg = parse_kubernetes_dashboard_stored(config);
        LiveRequest::KubernetesDashboard { namespace: str_trim(&cfg.namespace) }
    } else {
        LiveRequest::Nothing
    }
}

/// What a look at the cluster came to.
#[derive(Debug, PartialEq, Eq)]
pub enum LiveState {
    NotProbed,
    /// The report on the add-on.
    Found(Json),
    /// The cluster could not be asked.
    Failed(String),
}

/// The document on a look at the cluster.
pub open spec fn live_doc(s: LiveState) -> JsonV {
    match s {
        LiveState::NotProbed => jobj().with("available"@, JsonV::Bool(false)),
        LiveState::Found(j) => j@.put("available"@, JsonV::Bool(true)),
        LiveState::Failed(e) => jobj().with("available"@, JsonV::Bool(false)).with(
            "error"@,
            JsonV::Str(e@),
        ),
    }
}

fn live_json(s: &LiveState) -> (r: Json)
    ensures
        r@ == live_doc(*s),
{
    match s {
        LiveState::NotProbed => Json::object().with("available", Json::Bool(false)),
        LiveState::Found(j) => j.dup().put("available", Json::Bool(true)),
        LiveState::Failed(e) => Json::object().with("available", Json::Bool(false)).with(
            "error",
            Json::text(e),
        ),
    }
}

/// The member is `true`.
pub open spec fn flag(j: JsonV, k: Seq<char>) -> bool {
    bool_in(j.get(k)) == Some(true)
}

fn is_set(j: &Json, k: &str) -> (r: bool)
    ensures
        r == flag(j@, k@),
{
    is_true(j.get(k))
}

/// The cluster uses another value than the settings name.
pub open spec fn differs(live: JsonV, config: JsonV, k: Seq<char>, what: Seq<char>) -> Option<
    Seq<char>,
> {
    let have = member_text(live, k);
    let want = member_text(config, k);
    if have.len() != 0 && want.len() != 0 && have != want {
        Some("cluster provisioner uses "@ + what + have + ", form has "@ + want)
    } else {
        None
    }
}

fn check_differs(live: &Json, config: &Json, k: &str, what: &str) -> (r: Option<String>)
    ensures
        opt_text(r) == differs(live@, config@, k@, what@),
{
    let have = str_or(live.get(k), "");
    let want = str_or(config.get(k), "");
    if !have.is_empty() && !want.is_empty() && !str_eq(&have, &want) {
        Some(
            lit("cluster provisioner uses ").concat(what).concat(&have).concat(
                ", form has ",
            ).concat(&want),
        )
    } else {
        None
    }
}

pub open spec fn issuer_note(live: JsonV) -> Option<Seq<char>> {
    if !flag(live, "issuer"@) {
        Some("ClusterIssuer is not present yet"@)
    } else if !flag(live, "issuer_ready"@) {
        Some("ClusterIssuer is not Ready (check Cloudflare token / ACME)"@)
    } else {
        None
    }
}

pub open spec fn certificate_note(live: JsonV, config: JsonV) -> Option<Seq<char>> {
    if member_text(config, "domain"@).len() == 0 {
        None
    } else if !flag(live, "certificate"@) {
        Some("wildcard Certificate is not present yet"@)
    } else if !flag(live, "certificate_ready"@) {
        Some("wildcard Certificate is not Ready (check DNS-01 / Cloudflare token)"@)
    } else {
        None
    }
}

pub open spec fn pull_note(live: JsonV) -> Option<Seq<char>> {
    let e = member_text(live, "pull_error"@);
    if e.len() == 0 {
        None
    } else {
        Some("image pull failed ("@ + e + ")"@)
    }
}

/// What in the cluster is not as the settings ask.
pub open spec fn live_warnings(
    addon: Seq<char>,
    live: JsonV,
    config: JsonV,
    cni: Seq<char>,
) -> Seq<Seq<char>> {
    let available = flag(live, "available"@);
    let installed = flag(live, "installed"@);
    let partial = flag(live, "partial"@);
    let none = Seq::<Seq<char>>::empty();
    if addon == NFS_ID@ {
        none + noted(differs(live, config, "server"@, "NFS server "@)) + noted(
            differs(live, config, "path"@, "export "@),
        ) + noted_if(
            available && installed && !flag(live, "provisioner_ready"@),
            "NFS provisioner is installed but not ready"@,
        ) + noted_if(
            available && installed && !flag(live, "nfs_modules"@),
            "NFS kernel-module DaemonSet is not present (guest image may already load nfs)"@,
        )
    } else if addon == CERT_MANAGER_ID@ {
        if available && installed {
            none + noted_if(
                !flag(live, "webhook_ready"@),
                "cert-manager webhook is not ready"@,
            ) + noted(issuer_note(live)) + noted_if(
                !flag(live, "reflector"@),
                "kubernetes-reflector is not present; wildcard TLS secrets will not copy to other namespaces"@,
            ) + noted(certificate_note(live, config))
        } else {
            none
        }
    } else if addon == CILIUM_LB_ID@ {
        none + noted_if(
            cni != "cilium"@,
            "this add-on is only for clusters with CNI cilium"@,
        ) + noted_if(
            available && partial && !flag(live, "pool"@),
            "CiliumLoadBalancerIPPool default-pool is not present"@,
        ) + noted_if(
            available && partial && !flag(live, "l2"@),
            "CiliumL2AnnouncementPolicy is not present (enable l2announcements on Cilium)"@,
        )
    } else if addon == INGRESS_ID@ {
        if available {
            none + noted_if(
                installed && !flag(live, "controller_ready"@),
                "Pertisk Ingress controller is installed but not ready"@,
            ) + noted_if(
                installed && member_text(live, "lb_ipv4"@).len() == 0 && member_text(
                    live,
                    "lb_ipv6"@,
                ).len() == 0,
                "LoadBalancer has no address yet (install Cilium LoadBalancer or wait for an IP)"@,
            ) + noted(pull_note(live)) + noted_if(
                flag(live, "admin_tls"@) && chosen_name(
                    ingress_stored(config).tls_secret,
                ).len() == 0,
                "admin Ingress still has TLS; choose none or Update after clearing TLS secret"@,
            ) + noted_if(
                !flag(live, "gateway_api"@) && !installed,
                "Gateway API CRDs are not present; install will disable Gateway API reconciliation"@,
            )
        } else {
            none
        }
    } else if addon == KOS_SCALER_ID@ {
        none + noted_if(
            available && installed && !flag(live, "ready"@),
            "kos-scaler is installed but the deployment is not ready"@,
        )
    } else {
        none + noted_if(
            available && partial && (!flag(live, "ready"@) || !flag(live, "service"@)),
            "Kubernetes Dashboard is installed but not ready"@,
        )
    }
}

/// What in the cluster is not as the settings ask.
pub fn check_live(addon: &str, live: &Json, config: &Json, cni: &str) -> (r: Vec<String>)
    ensures
        texts(r@) == live_warnings(addon@, live@, config@, cni@),
{
    let available = is_set(live, "available");
    let installed = is_set(live, "installed");
    let partial = is_set(live, "partial");
    let mut out = no_texts();
    if str_eq(addon, NFS_ID) {
        append_note(&mut out, check_differs(live, config, "server", "NFS server "));
        append_note(&mut out, check_differs(live, config, "path", "export "));
        append_if(
            &mut out,
            available && installed && !is_set(live, "provisioner_ready"),
            "NFS provisioner is installed but not ready",
        );
        append_if(
            &mut out,
            available && installed && !is_set(live, "nfs_modules"),
            "NFS kernel-module DaemonSet is not present (guest image may already load nfs)",
        );
    } else if str_eq(addon, CERT_MANAGER_ID) {
        if available && installed {
            append_if(
                &mut out,
                !is_set(live, "webhook_ready"),
                "cert-manager webhook is not ready",
            );
            let issuer = if !is_set(live, "issuer") {
                Some(lit("ClusterIssuer is not present yet"))
            } else if !is_set(live, "issuer_ready") {
                Some(lit("ClusterIssuer is not Ready (check Cloudflare token / ACME)"))
            } else {
                None
            };
            append_note(&mut out, issuer);
            append_if(
                &mut out,
                !is_set(live, "reflector"),
                "kubernetes-reflector is not present; wildcard TLS secrets will not copy to other namespaces",
            );
            let certificate = if str_or(config.get("domain"), "").is_empty() {
                None
            } else if !is_set(live, "certificate") {
                Some(lit("wildcard Certificate is not present yet"))
            } else if !is_set(live, "certificate_ready") {
                Some(lit("wildcard Certificate is not Ready (check DNS-01 / Cloudflare token)"))
            } else {
                None
            };
            append_note(&mut out, certificate);
        }
    } else if str_eq(addon, CILIUM_LB_ID) {
        append_if(
            &mut out,
            !str_eq(cni, "cilium"),
            "this add-on is only for clusters with CNI cilium",
        );
        append_if(
            &mut out,
            available && partial && !is_set(live, "pool"),
            "CiliumLoadBalancerIPPool default-pool is not present",
        );
        append_if(
            &mut out,
            available && partial && !is_set(live, "l2"),
            "CiliumL2AnnouncementPolicy is not present (enable l2announcements on Cilium)",
        );
    } else if str_eq(addon, INGRESS_ID) {
        if available {
            append_if(
                &mut out,
                installed && !is_set(live, "controller_ready"),
                "Pertisk Ingress controller is installed but not ready",
            );
            let bare = str_or(live.get("lb_ipv4"), "").is_empty() && str_or(
                live.get("lb_ipv6"),
                "",
            ).is_empty();
            append_if(
                &mut out,
                installed && bare,
                "LoadBalancer has no address yet (install Cilium LoadBalancer or wait for an IP)",
            );
            let e = str_or(live.get("pull_error"), "");
            let pull = if e.is_empty() {
                None
            } else {
                Some(lit("image pull failed (").concat(&e).concat(")"))
            };
            append_note(&mut out, pull);
            let tls = choose_name(&parse_ingress_stored(config).tls_secret);
            append_if(
                &mut out,
                is_set(live, "admin_tls") && tls.is_empty(),
                "admin Ingress still has TLS; choose none or Update after clearing TLS secret",
            );
            append_if(
                &mut out,
                !is_set(live, "gateway_api") && !installed,
                "Gateway API CRDs are not present; install will disable Gateway API reconciliation",
            );
        }
    } else if str_eq(addon, KOS_SCALER_ID) {
        append_if(
            &mut out,
            available && installed && !is_set(live, "ready"),
            "kos-scaler is installed but the deployment is not ready",
        );
    } else {
        append_if(
            &mut out,
            available && partial && (!is_set(live, "ready") || !is_set(live, "service")),
            "Kubernetes Dashboard is installed but not ready",
        );
    }
    out
}

// ---------------------------------------------------------------------------
// The summary
// ---------------------------------------------------------------------------

/// What the summary of an add-on is made from.
#[derive(Debug, PartialEq, Eq)]
pub struct SummaryInput {
    pub row: Option<AddonRow>,
    /// The document in the row, the empty object where there is none.
    pub stored: Json,
    pub submitted: Option<Json>,
    pub cni: String,
    pub network_mode: String,
    pub arch: String,
    pub secret_key: Vec<u8>,
    pub public_url: String,
}

pub open spec fn row_status(row: Option<AddonRow>) -> Option<Seq<char>> {
    match row {
        Some(r) => Some(r.status@),
        None => None,
    }
}

pub open spec fn row_secrets(row: Option<AddonRow>) -> Option<Seq<char>> {
    match row {
        Some(r) => opt_text(r.secrets_enc),
        None => None,
    }
}

pub open spec fn row_error(row: Option<AddonRow>) -> Option<Seq<char>> {
    match row {
        Some(r) => opt_text(r.error),
        None => None,
    }
}

pub open spec fn row_installed_at(row: Option<AddonRow>) -> Option<Seq<char>> {
    match row {
        Some(r) => opt_text(r.installed_at),
        None => None,
    }
}

pub open spec fn row_updated_at(row: Option<AddonRow>) -> Option<Seq<char>> {
    match row {
        Some(r) => Some(r.updated_at@),
        None => None,
    }
}

/// A secret is stored.
pub open spec fn has_secret(row: Option<AddonRow>) -> bool {
    match row_secrets(row) {
        Some(s) => s.len() != 0,
        None => false,
    }
}

/// The ingress secrets in the row.
pub open spec fn stored_ingress_secrets(key: Seq<u8>, row: Option<AddonRow>) -> (
    Seq<char>,
    Seq<char>,
) {
    match unsealed(key, row_secrets(row)) {
        Some(t) => ingress_secret_texts(t),
        None => (Seq::<char>::empty(), Seq::<char>::empty()),
    }
}

/// A registry password is known.
pub open spec fn registry_known(addon: Seq<char>, input: SummaryInput) -> bool {
    addon == INGRESS_ID@ && trim(
        stored_ingress_secrets(input.secret_key@, input.row).1,
    ).len() != 0
}

/// An admin password is known.
pub open spec fn admin_set(addon: Seq<char>, input: SummaryInput) -> bool {
    addon == INGRESS_ID@ && trim(
        stored_ingress_secrets(input.secret_key@, input.row).0,
    ).len() != 0
}

/// The review that a summary rests on.
pub open spec fn summary_review(addon: Seq<char>, input: SummaryInput) -> ReviewV {
    review(
        addon,
        input.stored@,
        own_view(input.submitted),
        ReviewContextV {
            token_set: has_secret(input.row),
            registry_set: registry_known(addon, input),
            cni: input.cni@,
            network_mode: input.network_mode@,
            public_url: input.public_url@,
        },
    )
}

/// The note on an NFS server whose port does not answer.
pub open spec fn probe_note(probe: Option<Seq<char>>, error: Option<Seq<char>>) -> Option<
    Seq<char>,
> {
    match (probe, error) {
        (Some(host), Some(e)) => Some(
            "NFS port 2049 on "@ + host + " is not reachable from the management host ("@ + e
                + ")"@,
        ),
        _ => None,
    }
}

/// All warnings of a summary.
pub open spec fn summary_warnings(
    addon: Seq<char>,
    input: SummaryInput,
    probe_error: Option<Seq<char>>,
    live: JsonV,
) -> Seq<Seq<char>> {
    let rv = summary_review(addon, input);
    rv.warnings + noted(probe_note(rv.probe, probe_error)) + live_warnings(
        addon,
        live,
        rv.config,
        input.cni@,
    )
}

/// The summary of an add-on.
pub open spec fn summary_doc(
    entry: EntryV,
    input: SummaryInput,
    probe_error: Option<Seq<char>>,
    live: JsonV,
    job: Option<Seq<char>>,
) -> JsonV {
    let addon = entry.id;
    let rv = summary_review(addon, input);
    jobj()
        .with("id"@, JsonV::Str(entry.id))
        .with("name"@, JsonV::Str(entry.name))
        .with("summary"@, JsonV::Str(entry.summary))
        .with("section"@, JsonV::Str(entry.section))
        .with("fields"@, form_doc(entry, live, rv.config))
        .with(
            "status"@,
            JsonV::Str(merged_status(
                row_status(input.row),
                flag(live, "installed"@),
                flag(live, "partial"@),
                job is Some,
            )),
        )
        .with("ok"@, JsonV::Bool(rv.errors.len() == 0))
        .with("errors"@, str_arr(rv.errors))
        .with("warnings"@, str_arr(summary_warnings(addon, input, probe_error, live)))
        .with("config"@, rv.config)
        .with(
            "token_set"@,
            JsonV::Bool(if addon == INGRESS_ID@ {
                    admin_set(addon, input)
                } else {
                    has_secret(input.row)
                }),
        )
        .with("registry_set"@, JsonV::Bool(registry_known(addon, input)))
        .with("job_id"@, opt_str_json(job))
        .with("error"@, opt_str_json(row_error(input.row)))
        .with("installed_at"@, opt_str_json(row_installed_at(input.row)))
        .with("updated_at"@, opt_str_json(row_updated_at(input.row)))
        .with("live"@, live)
        .with("cluster_cni"@, JsonV::Str(input.cni@))
        .with("network_mode"@, JsonV::Str(input.network_mode@))
        .with("cluster_arch"@, JsonV::Str(input.arch@))
        .with(
            "cert_manager_version"@,
            opt_str_json(if addon == CERT_MANAGER_ID@ {
                    Some(CERT_MANAGER_VERSION@)
                } else {
                    None
                }),
        )
        .with(
            "ingress_image"@,
            opt_str_json(if addon == INGRESS_ID@ {
                    Some(
                        text_or(
                            str_in(rv.config.get("image"@)),
                            INGRESS_IMAGE_REGISTRY@ + "/"@ + INGRESS_IMAGE_REPO@ + ":"@
                                + INGRESS_IMAGE_TAG@,
                        ),
                    )
                } else {
                    None
                }),
        )
}

fn text_copy(o: &Option<String>) -> (r: Option<String>)
    ensures
        opt_text(r) == opt_text(*o),
{
    match o {
        Some(s) => Some(lit(s)),
        None => None,
    }
}

fn secrets_of(row: &Option<AddonRow>) -> (r: Option<String>)
    ensures
        opt_text(r) == row_secrets(*row),
{
    match row {
        Some(r) => text_copy(&r.secrets_enc),
        None => None,
    }
}

/// Reviews the settings of an add-on in view of its row: the first part of a
/// summary, which says whether a host is to be tried and what to look for in
/// the cluster.
pub fn review_input(addon: &str, input: &SummaryInput) -> (r: Review)
    ensures
        r@ == summary_review(addon@, *input),
{
    let enc = secrets_of(&input.row);
    let token_set = match &enc {
        Some(s) => !s.is_empty(),
        None => false,
    };
    let registry_set = if str_eq(addon, INGRESS_ID) {
        !str_trim(
            &decrypt_ingress_secrets(input.secret_key.as_slice(), &enc).registry_password,
        ).is_empty()
    } else {
        false
    };
    let c = ReviewContext {
        token_set,
        registry_set,
        cni: lit(&input.cni),
        network_mode: lit(&input.network_mode),
        public_url: lit(&input.public_url),
    };
    let submitted = match &input.submitted {
        Some(j) => Some(j),
        None => None,
    };
    review_addon(addon, &input.stored, submitted, &c)
}

/// The summary of an add-on on a cluster: its form, its settings and what is
/// wrong with them, and what the cluster shows of it.
pub fn summarize_one(
    addon: &str,
    input: &SummaryInput,
    probe_error: &Option<String>,
    state: &LiveState,
    job: &Option<String>,
) -> (r: ApiResult<Json>)
    ensures
        match r {
            Ok(j) => entry_of(addon@) is Some && j@ == summary_doc(
                entry_of(addon@)->0,
                *input,
                opt_text(*probe_error),
                live_doc(*state),
                opt_text(*job),
            ),
            Err(e) => entry_of(addon@) is None && e@ == ErrorV::BadRequest(
                "unknown addon "@ + addon@,
            ),
        },
{
    let entry = match catalog_entry(addon) {
        Ok(e) => e,
        Err(e) => {
            return Err(e);
        },
    };
    proof {
        law_known_ids_have_entries(addon@);
    }
    let rv = review_input(addon, input);
    let live = live_json(state);
    let mut warnings = rv.warnings;
    let probe = match (&rv.probe, probe_error) {
        (Some(host), Some(e)) => Some(
            lit("NFS port 2049 on ").concat(host).concat(
                " is not reachable from the management host (",
            ).concat(e).concat(")"),
        ),
        _ => None,
    };
    append_note(&mut warnings, probe);
    append_all(&mut warnings, check_live(addon, &live, &rv.config, &input.cni));
    let enc = secrets_of(&input.row);
    let token_set = match &enc {
        Some(s) => !s.is_empty(),
        None => false,
    };
    let is_ingress = str_eq(addon, INGRESS_ID);
    let secrets = decrypt_ingress_secrets(input.secret_key.as_slice(), &enc);
    let registry_set = is_ingress && !str_trim(&secrets.registry_password).is_empty();
    let token_shown = if is_ingress {
        !str_trim(&secrets.admin_password).is_empty()
    } else {
        token_set
    };
    let (error, installed_at, updated_at) = match &input.row {
        Some(row) => (
            text_copy(&row.error),
            text_copy(&row.installed_at),
            Some(lit(&row.updated_at)),
        ),
        None => (None, None, None),
    };
    let stored_status = match &input.row {
        Some(row) => Some(row.status.as_str()),
        None => None,
    };
    let status = merge_status(
        stored_status,
        is_set(&live, "installed"),
        is_set(&live, "partial"),
        job.is_some(),
    );
    let version = if str_eq(addon, CERT_MANAGER_ID) {
        Some(lit(CERT_MANAGER_VERSION))
    } else {
        None
    };
    let image = if is_ingress {
        let fallback = lit(INGRESS_IMAGE_REGISTRY).concat("/").concat(INGRESS_IMAGE_REPO).concat(
            ":",
        ).concat(INGRESS_IMAGE_TAG);
        Some(str_or(rv.config.get("image"), &fallback))
    } else {
        None
    };
    let doc = Json::object()
        .with("id", Json::text(entry.id))
        .with("name", Json::text(entry.name))
        .with("summary", Json::text(entry.summary))
        .with("section", Json::text(entry.section))
        .with("fields", catalog_fields_json(&entry, &live, &rv.config))
        .with("status", Json::Str(status))
        .with("ok", Json::Bool(rv.errors.len() == 0))
        .with("errors", Json::text_array(&rv.errors))
        .with("warnings", Json::text_array(&warnings))
        .with("config", rv.config.dup())
        .with("token_set", Json::Bool(token_shown))
        .with("registry_set", Json::Bool(registry_set))
        .with("job_id", Json::opt_text(job))
        .with("error", Json::opt_text(&error))
        .with("installed_at", Json::opt_text(&installed_at))
        .with("updated_at", Json::opt_text(&updated_at))
        .with("live", live.dup())
        .with("cluster_cni", Json::text(&input.cni))
        .with("network_mode", Json::text(&input.network_mode))
        .with("cluster_arch", Json::text(&input.arch))
        .with("cert_manager_version", Json::opt_text(&version))
        .with("ingress_image", Json::opt_text(&image));
    Ok(doc)
}

pub fn append_all(v: &mut Vec<String>, more: Vec<String>)
    ensures
        texts(final(v)@) == texts(old(v)@) + texts(more@),
{
    let ghost was = texts(v@);
    let mut i: usize = 0;
    assert(was + texts(more@).take(0) =~= was);
    while i < more.len()
        invariant
            i <= more.len(),
            texts(v@) == was + texts(more@).take(i as int),
        decreases more.len() - i,
    {
        put(v, &more[i]);
        assert(texts(more@).take(i + 1) =~= texts(more@).take(i as int).push(more@[i as int]@));
        assert((was + texts(more@).take(i as int)).push(more@[i as int]@) =~= was + texts(
            more@,
        ).take(i as int).push(more@[i as int]@));
        i += 1;
    }
    assert(texts(more@).take(more.len() as int) =~= texts(more@));
}

/// The ids of the add-ons that a cluster with the given network can have, in
/// the order of the catalog, among the first `n` entries.
pub open spec fn offered(s: Seq<EntryV>, cni: Seq<char>, n: int) -> Seq<Seq<char>>
    decreases n,
{
    if 0 < n <= s.len() {
        let r = offered(s, cni, n - 1);
        if s[n - 1].requires_cni is Some && s[n - 1].requires_cni->0 != cni {
            r
        } else {
            r.push(s[n - 1].id)
        }
    } else {
        Seq::empty()
    }
}

/// The add-ons that a cluster with the given network can have.
pub fn list_addons(cni: &str) -> (r: Vec<String>)
    ensures
        texts(r@) == offered(catalog_entries(), cni@, catalog_entries().len() as int),
{
    let all = catalog();
    let ghost s = catalog_entries();
    let mut out = no_texts();
    let mut i: usize = 0;
    while i < all.len()
        invariant
            i <= all.len(),
            s == entries_view(all@),
            texts(out@) == offered(s, cni@, i as int),
        decreases all.len() - i,
    {
        assert(s[i as int] == all@[i as int]@);
        let fits = match all[i].requires_cni {
            Some(need) => str_eq(need, cni),
            None => true,
        };
        if fits {
            put(&mut out, all[i].id);
        }
        i += 1;
    }
    out
}

} // verus!
