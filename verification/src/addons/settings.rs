//! The settings of each add-on, and what is wrong with them.
use crate::addons::{
    INGRESS_IMAGE_REGISTRY, INGRESS_IMAGE_REPO, INGRESS_IMAGE_TAG, KOS_SCALER_IMAGE_TAG,
    KUBERNETES_DASHBOARD_IMAGE_REGISTRY, KUBERNETES_DASHBOARD_IMAGE_REPO,
    KUBERNETES_DASHBOARD_IMAGE_TAG, KUBERNETES_DASHBOARD_NAMESPACE,
};
use crate::addons::names::{
    breaks_line, cert_secret_name, choose_name, chosen_name, domain_ok, email_ok, has_break,
    hostname_ok, is_domain, is_email, is_hostname, is_registry_user, is_tag, k8s_name_ok, name_ok,
    registry_user_ok, secret_name, tag_ok, trim_or, trimmed_or,
};
use crate::ip::{ipv4, ipv4_str, ipv6, ipv6_str, parse_ip, show_v4, show_v6};
use crate::json::{Json, JsonV, jobj, member_from, nat_or, str_in, str_of, str_or, text_or};
use crate::num::{dec, i64_str, parse_i64, parse_int, parse_nat, parse_u64_max, sdec, u64_str};
use crate::text::{
    byte_len, cat, char_is_hex, chars_of, has_any, is_hex, lit, lower, no_texts, only, opt_text,
    put, split_once, str_bytes, str_eq, str_has_any, str_lower, str_only, str_split_once, str_trim,
    texts, trim,
};
use vstd::prelude::*;
use vstd::string::*;

verus! {

#[derive(Debug, Clone, PartialEq, Eq)]
pub struct NfsConfig {
    pub server: String,
    pub path: String,
}

/// The mathematical form of the settings.
#[verifier::ext_equal]
pub ghost struct NfsConfigV {
    pub server: Seq<char>,
    pub path: Seq<char>,
}

impl View for NfsConfig {
    type V = NfsConfigV;

    open spec fn view(&self) -> NfsConfigV {
        NfsConfigV {
            server: self.server@,
            path: self.path@,
        }
    }
}

#[derive(Debug, Clone, PartialEq, Eq)]
pub struct CertManagerConfig {
    pub provider: String,
    pub email: String,
    pub api_token: String,
    /// `production` or `staging`.
    pub acme: String,
    pub issuer: String,
    /// Apex or wildcard DNS name.
    pub domain: String,
}

/// The mathematical form of the settings.
#[verifier::ext_equal]
pub ghost struct CertManagerConfigV {
    pub provider: Seq<char>,
    pub email: Seq<char>,
    pub api_token: Seq<char>,
    pub acme: Seq<char>,
    pub issuer: Seq<char>,
    pub domain: Seq<char>,
}

impl View for CertManagerConfig {
    type V = CertManagerConfigV;

    open spec fn view(&self) -> CertManagerConfigV {
        CertManagerConfigV {
            provider: self.provider@,
            email: self.email@,
            api_token: self.api_token@,
            acme: self.acme@,
            issuer: self.issuer@,
            domain: self.domain@,
        }
    }
}

#[derive(Debug, Clone, PartialEq, Eq)]
pub struct CiliumLbConfig {
    pub ipv4: String,
    pub ipv6: String,
}

/// The mathematical form of the settings.
#[verifier::ext_equal]
pub ghost struct CiliumLbConfigV {
    pub ipv4: Seq<char>,
    pub ipv6: Seq<char>,
}

impl View for CiliumLbConfig {
    type V = CiliumLbConfigV;

    open spec fn view(&self) -> CiliumLbConfigV {
        CiliumLbConfigV {
            ipv4: self.ipv4@,
            ipv6: self.ipv6@,
        }
    }
}

#[derive(Debug, Clone, PartialEq, Eq)]
pub struct IngressConfig {
    pub image_tag: String,
    pub admin_host: String,
    /// TLS secret of the admin ingress; `none` or empty for plain HTTP.
    pub tls_secret: String,
    pub admin_password: String,
    pub registry_user: String,
    pub registry_password: String,
}

/// The mathematical form of the settings.
#[verifier::ext_equal]
pub ghost struct IngressConfigV {
    pub image_tag: Seq<char>,
    pub admin_host: Seq<char>,
    pub tls_secret: Seq<char>,
    pub admin_password: Seq<char>,
    pub registry_user: Seq<char>,
    pub registry_password: Seq<char>,
}

impl View for IngressConfig {
    type V = IngressConfigV;

    open spec fn view(&self) -> IngressConfigV {
        IngressConfigV {
            image_tag: self.image_tag@,
            admin_host: self.admin_host@,
            tls_secret: self.tls_secret@,
            admin_password: self.admin_password@,
            registry_user: self.registry_user@,
            registry_password: self.registry_password@,
        }
    }
}

#[derive(Debug, Clone, PartialEq, Eq)]
pub struct KubernetesDashboardConfig {
    pub namespace: String,
    pub image_tag: String,
    pub username: String,
    pub password: String,
    pub host: String,
    pub tls_secret: String,
}

/// The mathematical form of the settings.
#[verifier::ext_equal]
pub ghost struct KubernetesDashboardConfigV {
    pub namespace: Seq<char>,
    pub image_tag: Seq<char>,
    pub username: Seq<char>,
    pub password: Seq<char>,
    pub host: Seq<char>,
    pub tls_secret: Seq<char>,
}

impl View for KubernetesDashboardConfig {
    type V = KubernetesDashboardConfigV;

    open spec fn view(&self) -> KubernetesDashboardConfigV {
        KubernetesDashboardConfigV {
            namespace: self.namespace@,
            image_tag: self.image_tag@,
            username: self.username@,
            password: self.password@,
            host: self.host@,
            tls_secret: self.tls_secret@,
        }
    }
}

#[derive(Debug, Clone, PartialEq, Eq)]
pub struct KosScalerConfig {
    pub username: String,
    pub password: String,
    pub min_size: i64,
    pub max_size: i64,
    pub image_tag: String,
    pub storage_class: String,
    pub mgmt_url: String,
}

/// The mathematical form of the settings.
#[verifier::ext_equal]
pub ghost struct KosScalerConfigV {
    pub username: Seq<char>,
    pub password: Seq<char>,
    pub min_size: i64,
    pub max_size: i64,
    pub image_tag: Seq<char>,
    pub storage_class: Seq<char>,
    pub mgmt_url: Seq<char>,
}

impl View for KosScalerConfig {
    type V = KosScalerConfigV;

    open spec fn view(&self) -> KosScalerConfigV {
        KosScalerConfigV {
            username: self.username@,
            password: self.password@,
            min_size: self.min_size,
            max_size: self.max_size,
            image_tag: self.image_tag@,
            storage_class: self.storage_class@,
            mgmt_url: self.mgmt_url@,
        }
    }
}

impl Default for NfsConfig {
    fn default() -> (r: NfsConfig)
        ensures
            r.server@ == Seq::<char>::empty(),
            r.path@ == Seq::<char>::empty(),
    {
        NfsConfig { server: String::new(), path: String::new() }
    }
}

impl Default for CertManagerConfig {
    fn default() -> (r: CertManagerConfig)
        ensures
            r.provider@ == Seq::<char>::empty(),
            r.email@ == Seq::<char>::empty(),
            r.api_token@ == Seq::<char>::empty(),
            r.acme@ == Seq::<char>::empty(),
            r.issuer@ == Seq::<char>::empty(),
            r.domain@ == Seq::<char>::empty(),
    {
        CertManagerConfig {
            provider: String::new(),
            email: String::new(),
            api_token: String::new(),
            acme: String::new(),
            issuer: String::new(),
            domain: String::new(),
        }
    }
}

impl Default for CiliumLbConfig {
    fn default() -> (r: CiliumLbConfig)
        ensures
            r.ipv4@ == Seq::<char>::empty(),
            r.ipv6@ == Seq::<char>::empty(),
    {
        CiliumLbConfig { ipv4: String::new(), ipv6: String::new() }
    }
}

impl Default for IngressConfig {
    fn default() -> (r: IngressConfig)
        ensures
            r.image_tag@ == Seq::<char>::empty(),
            r.admin_host@ == Seq::<char>::empty(),
            r.tls_secret@ == Seq::<char>::empty(),
            r.admin_password@ == Seq::<char>::empty(),
            r.registry_user@ == Seq::<char>::empty(),
            r.registry_password@ == Seq::<char>::empty(),
    {
        IngressConfig {
            image_tag: String::new(),
            admin_host: String::new(),
            tls_secret: String::new(),
            admin_password: String::new(),
            registry_user: String::new(),
            registry_password: String::new(),
        }
    }
}

impl Default for KubernetesDashboardConfig {
    fn default() -> (r: KubernetesDashboardConfig)
        ensures
            r.namespace@ == Seq::<char>::empty(),
            r.image_tag@ == Seq::<char>::empty(),
            r.username@ == Seq::<char>::empty(),
            r.password@ == Seq::<char>::empty(),
            r.host@ == Seq::<char>::empty(),
            r.tls_secret@ == Seq::<char>::empty(),
    {
        KubernetesDashboardConfig {
            namespace: String::new(),
            image_tag: String::new(),
            username: String::new(),
            password: String::new(),
            host: String::new(),
            tls_secret: String::new(),
        }
    }
}

impl Default for KosScalerConfig {
    fn default() -> (r: KosScalerConfig)
        ensures
            r.username@ == Seq::<char>::empty(),
            r.password@ == Seq::<char>::empty(),
            r.min_size == 0,
            r.max_size == 0,
            r.image_tag@ == Seq::<char>::empty(),
            r.storage_class@ == Seq::<char>::empty(),
            r.mgmt_url@ == Seq::<char>::empty(),
    {
        KosScalerConfig {
            username: String::new(),
            password: String::new(),
            min_size: 0,
            max_size: 0,
            image_tag: String::new(),
            storage_class: String::new(),
            mgmt_url: String::new(),
        }
    }
}

// ---------------------------------------------------------------------------
// Faults
// ---------------------------------------------------------------------------

/// The message, where the condition holds.
pub open spec fn noted_if(b: bool, msg: Seq<char>) -> Seq<Seq<char>> {
    if b {
        seq![msg]
    } else {
        Seq::empty()
    }
}

/// The message, where there is one.
pub open spec fn noted(o: Option<Seq<char>>) -> Seq<Seq<char>> {
    match o {
        Some(m) => seq![m],
        None => Seq::empty(),
    }
}

/// The messages that a check came back with.
pub open spec fn faults(r: Result<(), Vec<String>>) -> Seq<Seq<char>> {
    match r {
        Ok(_) => Seq::empty(),
        Err(e) => texts(e@),
    }
}

fn note_if(v: &mut Vec<String>, b: bool, msg: &str)
    ensures
        texts(final(v)@) == texts(old(v)@) + noted_if(b, msg@),
{
    let ghost was = texts(v@);
    if b {
        put(v, msg);
        assert(was.push(msg@) =~= was + seq![msg@]);
    } else {
        assert(was =~= was + Seq::<Seq<char>>::empty());
    }
}

fn note(v: &mut Vec<String>, o: Option<String>)
    ensures
        texts(final(v)@) == texts(old(v)@) + noted(opt_text(o)),
{
    let ghost was = texts(v@);
    match o {
        Some(m) => {
            put(v, &m);
            assert(was.push(m@) =~= was + seq![m@]);
        },
        None => {
            assert(was =~= was + Seq::<Seq<char>>::empty());
        },
    }
}

fn verdict(v: Vec<String>) -> (r: Result<(), Vec<String>>)
    ensures
        faults(r) == texts(v@),
        r is Ok <==> texts(v@).len() == 0,
{
    if v.len() == 0 {
        assert(texts(v@) =~= Seq::<Seq<char>>::empty());
        Ok(())
    } else {
        Err(v)
    }
}

// ---------------------------------------------------------------------------
// NFS
// ---------------------------------------------------------------------------

pub open spec fn nfs_server_fault(server: Seq<char>) -> Option<Seq<char>> {
    if server.len() == 0 {
        Some("NFS server is required"@)
    } else if has_any(server, " \n\t/\"'${}\\"@) {
        Some("NFS server must be an IP or hostname"@)
    } else if byte_len(server) > 253 {
        Some("NFS server is too long"@)
    } else {
        None
    }
}

pub open spec fn nfs_path_fault(path: Seq<char>) -> Option<Seq<char>> {
    if path.len() == 0 {
        Some("export path is required"@)
    } else if path[0] != '/' {
        Some("export path must start with /"@)
    } else if !only(path, "/._-"@) {
        Some("export path contains invalid characters"@)
    } else if byte_len(path) > 512 {
        Some("export path is too long"@)
    } else {
        None
    }
}

pub open spec fn nfs_faults(cfg: NfsConfigV) -> Seq<Seq<char>> {
    Seq::<Seq<char>>::empty() + noted(nfs_server_fault(trim(cfg.server))) + noted(
        nfs_path_fault(trim(cfg.path)),
    )
}

fn check_nfs_server(server: &str) -> (r: Option<String>)
    ensures
        opt_text(r) == nfs_server_fault(server@),
{
    if server.is_empty() {
        Some(lit("NFS server is required"))
    } else if str_has_any(server, " \n\t/\"'${}\\") {
        Some(lit("NFS server must be an IP or hostname"))
    } else if str_bytes(server) > 253 {
        Some(lit("NFS server is too long"))
    } else {
        None
    }
}

fn check_nfs_path(path: &str) -> (r: Option<String>)
    ensures
        opt_text(r) == nfs_path_fault(path@),
{
    let v = chars_of(path);
    if v.len() == 0 {
        Some(lit("export path is required"))
    } else if v[0] != '/' {
        Some(lit("export path must start with /"))
    } else if !str_only(path, "/._-") {
        Some(lit("export path contains invalid characters"))
    } else if str_bytes(path) > 512 {
        Some(lit("export path is too long"))
    } else {
        None
    }
}

pub fn validate_nfs(cfg: &NfsConfig) -> (r: Result<(), Vec<String>>)
    ensures
        faults(r) == nfs_faults(cfg@),
        r is Ok <==> nfs_faults(cfg@).len() == 0,
{
    let mut errors = no_texts();
    note(&mut errors, check_nfs_server(&str_trim(&cfg.server)));
    note(&mut errors, check_nfs_path(&str_trim(&cfg.path)));
    verdict(errors)
}

// ---------------------------------------------------------------------------
// cert-manager
// ---------------------------------------------------------------------------

pub open spec fn email_fault(email: Seq<char>) -> Option<Seq<char>> {
    if email.len() == 0 {
        Some("ACME email is required"@)
    } else if !is_email(email) {
        Some("ACME email is invalid"@)
    } else {
        None
    }
}

pub open spec fn token_fault(token: Seq<char>) -> Option<Seq<char>> {
    if token.len() == 0 {
        Some("Cloudflare API token is required"@)
    } else if byte_len(token) < 8 {
        Some("Cloudflare API token looks too short"@)
    } else if has_break(token) {
        Some("Cloudflare API token contains invalid characters"@)
    } else {
        None
    }
}

pub open spec fn cert_faults(cfg: CertManagerConfigV, require_token: bool) -> Seq<Seq<char>> {
    let acme = lower(trim(cfg.acme));
    let domain = trim(cfg.domain);
    Seq::<Seq<char>>::empty() + noted_if(
        lower(trim(cfg.provider)) != "cloudflare"@,
        "provider must be cloudflare"@,
    ) + noted(email_fault(trim(cfg.email))) + noted_if(
        acme.len() != 0 && acme != "production"@ && acme != "staging"@,
        "acme must be production or staging"@,
    ) + noted(
        if require_token {
            token_fault(trim(cfg.api_token))
        } else {
            None
        },
    ) + noted_if(
        domain.len() != 0 && !is_domain(domain),
        "wildcard domain must be a DNS name (e.g. vsphere.example.com or *.vsphere.example.com)"@,
    )
}

fn check_email(email: &str) -> (r: Option<String>)
    ensures
        opt_text(r) == email_fault(email@),
{
    if email.is_empty() {
        Some(lit("ACME email is required"))
    } else if !email_ok(email) {
        Some(lit("ACME email is invalid"))
    } else {
        None
    }
}

fn check_token(token: &str) -> (r: Option<String>)
    ensures
        opt_text(r) == token_fault(token@),
{
    if token.is_empty() {
        Some(lit("Cloudflare API token is required"))
    } else if str_bytes(token) < 8 {
        Some(lit("Cloudflare API token looks too short"))
    } else if breaks_line(token) {
        Some(lit("Cloudflare API token contains invalid characters"))
    } else {
        None
    }
}

pub fn validate_cert_manager(cfg: &CertManagerConfig, require_token: bool) -> (r: Result<
    (),
    Vec<String>,
>)
    ensures
        faults(r) == cert_faults(cfg@, require_token),
        r is Ok <==> cert_faults(cfg@, require_token).len() == 0,
{
    let mut errors = no_texts();
    let provider = str_lower(&str_trim(&cfg.provider));
    note_if(&mut errors, !str_eq(&provider, "cloudflare"), "provider must be cloudflare");
    note(&mut errors, check_email(&str_trim(&cfg.email)));
    let acme = str_lower(&str_trim(&cfg.acme));
    let bad_acme = !acme.is_empty() && !str_eq(&acme, "production") && !str_eq(&acme, "staging");
    note_if(&mut errors, bad_acme, "acme must be production or staging");
    let token = if require_token {
        check_token(&str_trim(&cfg.api_token))
    } else {
        None
    };
    note(&mut errors, token);
    let domain = str_trim(&cfg.domain);
    let bad_domain = !domain.is_empty() && !domain_ok(&domain);
    note_if(
        &mut errors,
        bad_domain,
        "wildcard domain must be a DNS name (e.g. vsphere.example.com or *.vsphere.example.com)",
    );
    verdict(errors)
}

// ---------------------------------------------------------------------------
// Cilium load balancer
// ---------------------------------------------------------------------------

#[derive(Debug, Clone, Copy, PartialEq, Eq, Structural)]
pub enum IpFamily {
    V4,
    V6,
}

/// Address and prefix length of a text, as a CIDR; the reason where it is none.
pub open spec fn lb_cidr(raw: Seq<char>, family: IpFamily) -> Result<Seq<char>, Seq<char>> {
    let t = trim(raw);
    if t.len() == 0 {
        Err("empty"@)
    } else if byte_len(t) > 80 || !cidr_chars(t) {
        Err("invalid characters"@)
    } else {
        let (addr, prefix) = match split_once(t, "/"@) {
            Some((a, p)) => (
                a,
                match parse_nat(p, u32::MAX as nat) {
                    Some(n) => Ok(Some(n)),
                    None => Err("invalid prefix length"@),
                },
            ),
            None => (t, Ok(None)),
        };
        match prefix {
            Err(e) => Err(e),
            Ok(p) => match parse_ip(addr) {
                None => Err("invalid IP address"@),
                Some(Ok((a, b, c, d))) => match family {
                    IpFamily::V4 => if nat_or(p, 32) > 32 {
                        Err("IPv4 prefix must be 0–32"@)
                    } else {
                        Ok(show_v4(a, b, c, d) + "/"@ + dec(nat_or(p, 32)))
                    },
                    IpFamily::V6 => Err("expected IPv6"@),
                },
                Some(Err(g)) => match family {
                    IpFamily::V6 => if nat_or(p, 128) > 128 {
                        Err("IPv6 prefix must be 0–128"@)
                    } else {
                        Ok(show_v6(g) + "/"@ + dec(nat_or(p, 128)))
                    },
                    IpFamily::V4 => Err("expected IPv4"@),
                },
            },
        }
    }
}

/// Hexadecimal digits, dots, colons and slashes.
pub open spec fn cidr_chars(t: Seq<char>) -> bool {
    forall|i: int|
        0 <= i < t.len() ==> is_hex(#[trigger] t[i]) || t[i] == '.' || t[i] == ':' || t[i] == '/'
}

fn only_cidr_chars(t: &str) -> (r: bool)
    ensures
        r == cidr_chars(t@),
{
    let v = chars_of(t);
    let mut i: usize = 0;
    while i < v.len()
        invariant
            i <= v.len(),
            v@ == t@,
            forall|k: int|
                0 <= k < i ==> is_hex(#[trigger] t@[k]) || t@[k] == '.' || t@[k] == ':' || t@[k]
                    == '/',
        decreases v.len() - i,
    {
        let c: char = v[i];
        if !char_is_hex(c) && c != '.' && c != ':' && c != '/' {
            assert(t@[i as int] == c);
            return false;
        }
        i += 1;
    }
    true
}

/// The two outcomes by their texts.
pub open spec fn outcome(r: Result<String, String>) -> Result<Seq<char>, Seq<char>> {
    match r {
        Ok(s) => Ok(s@),
        Err(e) => Err(e@),
    }
}

/// Takes a bare address or a CIDR and gives the CIDR.
pub fn normalize_lb_cidr(raw: &str, family: IpFamily) -> (r: Result<String, String>)
    ensures
        outcome(r) == lb_cidr(raw@, family),
{
    let t = str_trim(raw);
    if t.is_empty() {
        return Err(lit("empty"));
    }
    if str_bytes(&t) > 80 || !only_cidr_chars(&t) {
        return Err(lit("invalid characters"));
    }
    let (addr, prefix): (String, Option<u64>) = match str_split_once(&t, "/") {
        Some((a, p)) => match parse_u64_max(&p, 0xffff_ffff) {
            Some(n) => (a, Some(n)),
            None => {
                return Err(lit("invalid prefix length"));
            },
        },
        None => (lit(&t), None),
    };
    match ipv4(&addr) {
        Some((a, b, c, d)) => match family {
            IpFamily::V4 => {
                let p: u64 = match prefix {
                    Some(n) => n,
                    None => 32,
                };
                if p > 32 {
                    Err(lit("IPv4 prefix must be 0–32"))
                } else {
                    Ok(ipv4_str(a, b, c, d).concat("/").concat(&u64_str(p)))
                }
            },
            IpFamily::V6 => Err(lit("expected IPv6")),
        },
        None => match ipv6(&addr) {
            Some(g) => match family {
                IpFamily::V6 => {
                    let p: u64 = match prefix {
                        Some(n) => n,
                        None => 128,
                    };
                    if p > 128 {
                        Err(lit("IPv6 prefix must be 0–128"))
                    } else {
                        Ok(ipv6_str(&g).concat("/").concat(&u64_str(p)))
                    }
                },
                IpFamily::V4 => Err(lit("expected IPv4")),
            },
            None => Err(lit("invalid IP address")),
        },
    }
}

pub open spec fn lb_fault(
    ip: Seq<char>,
    family: IpFamily,
    need: bool,
    missing: Seq<char>,
    label: Seq<char>,
) -> Option<Seq<char>> {
    if ip.len() == 0 {
        if need {
            Some(missing)
        } else {
            None
        }
    } else {
        match lb_cidr(ip, family) {
            Ok(_) => None,
            Err(e) => Some(label + e),
        }
    }
}

pub open spec fn lb_faults(cfg: CiliumLbConfigV, network_mode: Seq<char>) -> Seq<Seq<char>> {
    let mode = lower(trim(network_mode));
    let ipv4 = trim(cfg.ipv4);
    let ipv6 = trim(cfg.ipv6);
    Seq::<Seq<char>>::empty() + noted(
        lb_fault(
            ipv4,
            IpFamily::V4,
            mode != "ipv6"@,
            "ELB IPv4 is required"@,
            "ELB IPv4: "@,
        ),
    ) + noted(
        lb_fault(
            ipv6,
            IpFamily::V6,
            mode == "dual-stack"@ || mode == "ipv6"@,
            "ELB IPv6 is required on dual-stack / IPv6 clusters"@,
            "ELB IPv6: "@,
        ),
    )
}

fn check_lb(ip: &str, family: IpFamily, need: bool, missing: &str, label: &str) -> (r: Option<
    String,
>)
    ensures
        opt_text(r) == lb_fault(ip@, family, need, missing@, label@),
{
    if ip.is_empty() {
        if need {
            Some(lit(missing))
        } else {
            None
        }
    } else {
        match normalize_lb_cidr(ip, family) {
            Ok(_) => None,
            Err(e) => Some(cat(label, &e)),
        }
    }
}

/// An IPv4 cluster needs an IPv4 address, a dual-stack cluster both, an IPv6
/// cluster an IPv6 address; each address that is given must be one.
pub fn validate_cilium_lb(cfg: &CiliumLbConfig, network_mode: &str) -> (r: Result<
    (),
    Vec<String>,
>)
    ensures
        faults(r) == lb_faults(cfg@, network_mode@),
        r is Ok <==> lb_faults(cfg@, network_mode@).len() == 0,
{
    let mode = str_lower(&str_trim(network_mode));
    let only_v6 = str_eq(&mode, "ipv6");
    let need_v6 = str_eq(&mode, "dual-stack") || only_v6;
    let mut errors = no_texts();
    note(
        &mut errors,
        check_lb(
            &str_trim(&cfg.ipv4),
            IpFamily::V4,
            !only_v6,
            "ELB IPv4 is required",
            "ELB IPv4: ",
        ),
    );
    note(
        &mut errors,
        check_lb(
            &str_trim(&cfg.ipv6),
            IpFamily::V6,
            need_v6,
            "ELB IPv6 is required on dual-stack / IPv6 clusters",
            "ELB IPv6: ",
        ),
    );
    verdict(errors)
}

/// The CIDR where the text denotes one, else the trimmed text.
pub open spec fn lb_shown(raw: Seq<char>, family: IpFamily) -> Seq<char> {
    match lb_cidr(trim(raw), family) {
        Ok(c) => c,
        Err(_) => trim(raw),
    }
}

fn show_lb(raw: &str, family: IpFamily) -> (r: String)
    ensures
        r@ == lb_shown(raw@, family),
{
    let t = str_trim(raw);
    match normalize_lb_cidr(&t, family) {
        Ok(c) => c,
        Err(_) => t,
    }
}

pub open spec fn public_lb(cfg: CiliumLbConfigV) -> JsonV {
    jobj().with("ipv4"@, JsonV::Str(lb_shown(cfg.ipv4, IpFamily::V4))).with(
        "ipv6"@,
        JsonV::Str(lb_shown(cfg.ipv6, IpFamily::V6)),
    )
}

pub fn public_cilium_lb_config(cfg: &CiliumLbConfig) -> (r: Json)
    ensures
        r@ == public_lb(cfg@),
{
    Json::object().with("ipv4", Json::Str(show_lb(&cfg.ipv4, IpFamily::V4))).with(
        "ipv6",
        Json::Str(show_lb(&cfg.ipv6, IpFamily::V6)),
    )
}

/// The text under a name, empty where there is none.
pub open spec fn member_text(v: JsonV, k: Seq<char>) -> Seq<char> {
    text_or(str_in(v.get(k)), ""@)
}

fn text_member(v: &Json, k: &str) -> (r: String)
    ensures
        r@ == member_text(v@, k@),
{
    str_or(v.get(k), "")
}

/// The settings that a stored document holds.
pub open spec fn lb_stored(v: JsonV) -> CiliumLbConfigV {
    CiliumLbConfigV {
        ipv4: member_text(v, "ipv4"@),
        ipv6: member_text(v, "ipv6"@),
    }
}

pub fn parse_cilium_lb_stored(v: &Json) -> (r: CiliumLbConfig)
    ensures
        r@ == lb_stored(v@),
{
    CiliumLbConfig { ipv4: text_member(v, "ipv4"), ipv6: text_member(v, "ipv6") }
}

// ---------------------------------------------------------------------------
// Ingress
// ---------------------------------------------------------------------------

pub open spec fn tag_fault(tag: Seq<char>) -> Option<Seq<char>> {
    if tag.len() == 0 {
        Some("image tag is required"@)
    } else if !is_tag(tag) {
        Some("image tag must be a Docker tag (letters, digits, . _ - +)"@)
    } else {
        None
    }
}

/// A chosen TLS secret needs a host, and must be a name.
pub open spec fn tls_fault(tls: Seq<char>, host: Seq<char>, hostless: Seq<char>) -> Option<
    Seq<char>,
> {
    if tls.len() == 0 {
        None
    } else if host.len() == 0 {
        Some(hostless)
    } else if !name_ok(trim(tls)) {
        Some("TLS secret must be a Kubernetes resource name"@)
    } else {
        None
    }
}

/// A secret that is given has at least four bytes and no line break.
pub open spec fn secret_fault(s: Seq<char>, short: Seq<char>, invalid: Seq<char>) -> Option<
    Seq<char>,
> {
    if s.len() == 0 {
        None
    } else if byte_len(s) < 4 {
        Some(short)
    } else if has_break(s) {
        Some(invalid)
    } else {
        None
    }
}

pub open spec fn ingress_faults(cfg: IngressConfigV, require_registry: bool) -> Seq<Seq<char>> {
    let host = trim(cfg.admin_host);
    let user = trim(cfg.registry_user);
    let token = trim(cfg.registry_password);
    Seq::<Seq<char>>::empty() + noted(tag_fault(trim(cfg.image_tag))) + noted_if(
        host.len() != 0 && !is_hostname(host),
        "admin host must be a DNS hostname"@,
    ) + noted(
        tls_fault(
            chosen_name(cfg.tls_secret),
            host,
            "TLS secret requires an admin host"@,
        ),
    ) + noted(
        secret_fault(
            trim(cfg.admin_password),
            "admin password is too short"@,
            "admin password contains invalid characters"@,
        ),
    ) + noted_if(
        user.len() != 0 && !is_registry_user(user),
        "Harbor user contains invalid characters"@,
    ) + noted(
        secret_fault(
            token,
            "Harbor password looks too short"@,
            "Harbor password contains invalid characters"@,
        ),
    ) + noted_if(
        require_registry && token.len() == 0,
        "Harbor password is required when a Harbor user is set"@,
    ) + noted_if(
        user.len() == 0 && token.len() != 0,
        "Harbor user is required when a Harbor password is set"@,
    )
}

fn check_tag(tag: &str) -> (r: Option<String>)
    ensures
        opt_text(r) == tag_fault(tag@),
{
    if tag.is_empty() {
        Some(lit("image tag is required"))
    } else if !tag_ok(tag) {
        Some(lit("image tag must be a Docker tag (letters, digits, . _ - +)"))
    } else {
        None
    }
}

fn check_tls(tls: &str, host: &str, hostless: &str) -> (r: Option<String>)
    ensures
        opt_text(r) == tls_fault(tls@, host@, hostless@),
{
    if tls.is_empty() {
        None
    } else if host.is_empty() {
        Some(lit(hostless))
    } else if !k8s_name_ok(tls) {
        Some(lit("TLS secret must be a Kubernetes resource name"))
    } else {
        None
    }
}

fn check_secret(s: &str, short: &str, invalid: &str) -> (r: Option<String>)
    ensures
        opt_text(r) == secret_fault(s@, short@, invalid@),
{
    if s.is_empty() {
        None
    } else if str_bytes(s) < 4 {
        Some(lit(short))
    } else if breaks_line(s) {
        Some(lit(invalid))
    } else {
        None
    }
}

pub fn validate_ingress(cfg: &IngressConfig, require_registry: bool) -> (r: Result<
    (),
    Vec<String>,
>)
    ensures
        faults(r) == ingress_faults(cfg@, require_registry),
        r is Ok <==> ingress_faults(cfg@, require_registry).len() == 0,
{
    let host = str_trim(&cfg.admin_host);
    let user = str_trim(&cfg.registry_user);
    let token = str_trim(&cfg.registry_password);
    let mut errors = no_texts();
    note(&mut errors, check_tag(&str_trim(&cfg.image_tag)));
    note_if(
        &mut errors,
        !host.is_empty() && !hostname_ok(&host),
        "admin host must be a DNS hostname",
    );
    note(
        &mut errors,
        check_tls(&choose_name(&cfg.tls_secret), &host, "TLS secret requires an admin host"),
    );
    note(
        &mut errors,
        check_secret(
            &str_trim(&cfg.admin_password),
            "admin password is too short",
            "admin password contains invalid characters",
        ),
    );
    note_if(
        &mut errors,
        !user.is_empty() && !registry_user_ok(&user),
        "Harbor user contains invalid characters",
    );
    note(
        &mut errors,
        check_secret(
            &token,
            "Harbor password looks too short",
            "Harbor password contains invalid characters",
        ),
    );
    note_if(
        &mut errors,
        require_registry && token.is_empty(),
        "Harbor password is required when a Harbor user is set",
    );
    note_if(
        &mut errors,
        user.is_empty() && !token.is_empty(),
        "Harbor user is required when a Harbor password is set",
    );
    verdict(errors)
}

/// The settings that a stored document holds.
pub open spec fn ingress_stored(v: JsonV) -> IngressConfigV {
    IngressConfigV {
        image_tag: trimmed_or(member_text(v, "image_tag"@), INGRESS_IMAGE_TAG@),
        admin_host: member_text(v, "admin_host"@),
        tls_secret: member_text(v, "tls_secret"@),
        admin_password: member_text(v, "admin_password"@),
        registry_user: member_text(v, "registry_user"@),
        registry_password: member_text(v, "registry_password"@),
    }
}

pub fn parse_ingress_stored(v: &Json) -> (r: IngressConfig)
    ensures
        r@ == ingress_stored(v@),
{
    IngressConfig {
        image_tag: trim_or(&text_member(v, "image_tag"), INGRESS_IMAGE_TAG),
        admin_host: text_member(v, "admin_host"),
        tls_secret: text_member(v, "tls_secret"),
        admin_password: text_member(v, "admin_password"),
        registry_user: text_member(v, "registry_user"),
        registry_password: text_member(v, "registry_password"),
    }
}

/// What a caller sees of the ingress settings: no password.
pub open spec fn public_ingress(cfg: IngressConfigV) -> JsonV {
    let tag = trimmed_or(cfg.image_tag, INGRESS_IMAGE_TAG@);
    jobj().with("image_tag"@, JsonV::Str(tag)).with(
        "admin_host"@,
        JsonV::Str(trim(cfg.admin_host)),
    ).with("tls_secret"@, JsonV::Str(chosen_name(cfg.tls_secret))).with(
        "registry_user"@,
        JsonV::Str(trim(cfg.registry_user)),
    ).with(
        "image"@,
        JsonV::Str(INGRESS_IMAGE_REGISTRY@ + "/"@ + INGRESS_IMAGE_REPO@ + ":"@ + tag),
    )
}

pub fn public_ingress_config(cfg: &IngressConfig) -> (r: Json)
    ensures
        r@ == public_ingress(cfg@),
{
    let tag = trim_or(&cfg.image_tag, INGRESS_IMAGE_TAG);
    let image = lit(INGRESS_IMAGE_REGISTRY).concat("/").concat(INGRESS_IMAGE_REPO).concat(
        ":",
    ).concat(&tag);
    Json::object().with("image_tag", Json::Str(tag)).with(
        "admin_host",
        Json::Str(str_trim(&cfg.admin_host)),
    ).with("tls_secret", Json::Str(choose_name(&cfg.tls_secret))).with(
        "registry_user",
        Json::Str(str_trim(&cfg.registry_user)),
    ).with("image", Json::Str(image))
}

// ---------------------------------------------------------------------------
// Dashboard
// ---------------------------------------------------------------------------

pub open spec fn dashboard_password_fault(password: Seq<char>, required: bool) -> Option<
    Seq<char>,
> {
    if required && password.len() == 0 {
        Some("dashboard password is required"@)
    } else if password.len() != 0 && (byte_len(password) < 8 || has_break(password)) {
        Some("dashboard password must be at least 8 characters without line breaks"@)
    } else {
        None
    }
}

pub open spec fn dashboard_faults(
    cfg: KubernetesDashboardConfigV,
    require_password: bool,
) -> Seq<Seq<char>> {
    let username = trim(cfg.username);
    let host = trim(cfg.host);
    Seq::<Seq<char>>::empty() + noted_if(
        !name_ok(trim(trim(cfg.namespace))),
        "dashboard namespace must be a Kubernetes resource name"@,
    ) + noted_if(
        !is_tag(trim(cfg.image_tag)),
        "image tag must be a Docker tag (letters, digits, . _ - +)"@,
    ) + noted_if(
        username.len() == 0 || byte_len(username) > 128 || has_break(username),
        "dashboard user must be 1-128 characters without line breaks"@,
    ) + noted(dashboard_password_fault(trim(cfg.password), require_password)) + noted_if(
        host.len() != 0 && !is_hostname(host),
        "dashboard host must be a DNS hostname"@,
    ) + noted(
        tls_fault(
            chosen_name(cfg.tls_secret),
            host,
            "TLS secret requires a dashboard host"@,
        ),
    )
}

fn check_dashboard_password(password: &str, required: bool) -> (r: Option<String>)
    ensures
        opt_text(r) == dashboard_password_fault(password@, required),
{
    if required && password.is_empty() {
        Some(lit("dashboard password is required"))
    } else if !password.is_empty() && (str_bytes(password) < 8 || breaks_line(password)) {
        Some(lit("dashboard password must be at least 8 characters without line breaks"))
    } else {
        None
    }
}

pub fn validate_kubernetes_dashboard(
    cfg: &KubernetesDashboardConfig,
    require_password: bool,
) -> (r: Result<(), Vec<String>>)
    ensures
        faults(r) == dashboard_faults(cfg@, require_password),
        r is Ok <==> dashboard_faults(cfg@, require_password).len() == 0,
{
    let username = str_trim(&cfg.username);
    let host = str_trim(&cfg.host);
    let mut errors = no_texts();
    note_if(
        &mut errors,
        !k8s_name_ok(&str_trim(&cfg.namespace)),
        "dashboard namespace must be a Kubernetes resource name",
    );
    note_if(
        &mut errors,
        !tag_ok(&str_trim(&cfg.image_tag)),
        "image tag must be a Docker tag (letters, digits, . _ - +)",
    );
    note_if(
        &mut errors,
        username.is_empty() || str_bytes(&username) > 128 || breaks_line(&username),
        "dashboard user must be 1-128 characters without line breaks",
    );
    note(&mut errors, check_dashboard_password(&str_trim(&cfg.password), require_password));
    note_if(
        &mut errors,
        !host.is_empty() && !hostname_ok(&host),
        "dashboard host must be a DNS hostname",
    );
    note(
        &mut errors,
        check_tls(&choose_name(&cfg.tls_secret), &host, "TLS secret requires a dashboard host"),
    );
    verdict(errors)
}

/// The text under a name, or `d` where it is missing or blank.
pub open spec fn member_or(v: JsonV, k: Seq<char>, d: Seq<char>) -> Seq<char> {
    match str_in(v.get(k)) {
        Some(s) => if trim(s).len() == 0 {
            d
        } else {
            s
        },
        None => d,
    }
}

fn nonblank_member(v: &Json, k: &str, d: &str) -> (r: String)
    ensures
        r@ == member_or(v@, k@, d@),
{
    match str_of(v.get(k)) {
        Some(s) => if str_trim(&s).is_empty() {
            lit(d)
        } else {
            s
        },
        None => lit(d),
    }
}

/// The settings that a stored document holds.
pub open spec fn dashboard_stored(v: JsonV) -> KubernetesDashboardConfigV {
    KubernetesDashboardConfigV {
        namespace: member_or(v, "namespace"@, KUBERNETES_DASHBOARD_NAMESPACE@),
        image_tag: trimmed_or(
            member_text(v, "image_tag"@),
            KUBERNETES_DASHBOARD_IMAGE_TAG@,
        ),
        username: member_or(v, "username"@, "admin"@),
        password: member_text(v, "password"@),
        host: member_text(v, "host"@),
        tls_secret: member_text(v, "tls_secret"@),
    }
}

pub fn parse_kubernetes_dashboard_stored(v: &Json) -> (r: KubernetesDashboardConfig)
    ensures
        r@ == dashboard_stored(v@),
{
    KubernetesDashboardConfig {
        namespace: nonblank_member(v, "namespace", KUBERNETES_DASHBOARD_NAMESPACE),
        image_tag: trim_or(&text_member(v, "image_tag"), KUBERNETES_DASHBOARD_IMAGE_TAG),
        username: nonblank_member(v, "username", "admin"),
        password: text_member(v, "password"),
        host: text_member(v, "host"),
        tls_secret: text_member(v, "tls_secret"),
    }
}

/// What a caller sees of the dashboard settings: no password.
pub open spec fn public_dashboard(cfg: KubernetesDashboardConfigV) -> JsonV {
    let tag = trimmed_or(cfg.image_tag, KUBERNETES_DASHBOARD_IMAGE_TAG@);
    jobj().with(
        "namespace"@,
        JsonV::Str(trimmed_or(cfg.namespace, KUBERNETES_DASHBOARD_NAMESPACE@)),
    ).with("image_tag"@, JsonV::Str(tag)).with(
        "username"@,
        JsonV::Str(trimmed_or(cfg.username, "admin"@)),
    ).with("host"@, JsonV::Str(trim(cfg.host))).with(
        "tls_secret"@,
        JsonV::Str(chosen_name(cfg.tls_secret)),
    ).with(
        "image"@,
        JsonV::Str(
            KUBERNETES_DASHBOARD_IMAGE_REGISTRY@ + "/"@ + KUBERNETES_DASHBOARD_IMAGE_REPO@ + ":"@
                + tag,
        ),
    )
}

pub fn public_kubernetes_dashboard_config(cfg: &KubernetesDashboardConfig) -> (r: Json)
    ensures
        r@ == public_dashboard(cfg@),
{
    let tag = trim_or(&cfg.image_tag, KUBERNETES_DASHBOARD_IMAGE_TAG);
    let image = lit(KUBERNETES_DASHBOARD_IMAGE_REGISTRY).concat("/").concat(
        KUBERNETES_DASHBOARD_IMAGE_REPO,
    ).concat(":").concat(&tag);
    Json::object().with(
        "namespace",
        Json::Str(trim_or(&cfg.namespace, KUBERNETES_DASHBOARD_NAMESPACE)),
    ).with("image_tag", Json::Str(tag)).with(
        "username",
        Json::Str(trim_or(&cfg.username, "admin")),
    ).with("host", Json::Str(str_trim(&cfg.host))).with(
        "tls_secret",
        Json::Str(choose_name(&cfg.tls_secret)),
    ).with("image", Json::Str(image))
}

// ---------------------------------------------------------------------------
// Scaler
// ---------------------------------------------------------------------------

/// A string as it is, a number by its decimal text, else empty.
pub open spec fn loose_text(v: JsonV, k: Seq<char>) -> Seq<char> {
    match v.get(k) {
        Some(JsonV::Str(s)) => s,
        Some(JsonV::Int(n)) => sdec(n),
        Some(JsonV::Big(_, t)) => t,
        Some(JsonV::Real(t)) => t,
        _ => ""@,
    }
}

/// An integer, or the integer that the text denotes, else `d`.
pub open spec fn loose_int(v: JsonV, k: Seq<char>, d: int) -> int {
    match v.get(k) {
        Some(JsonV::Int(n)) => n,
        _ => match parse_int(trim(loose_text(v, k))) {
            Some(n) => n,
            None => d,
        },
    }
}

pub fn json_str(v: &Json, key: &str) -> (r: String)
    ensures
        r@ == loose_text(v@, key@),
{
    match v.get(key) {
        Some(Json::Str(s)) => lit(s),
        Some(Json::Int(n)) => i64_str(*n),
        Some(Json::Big(_, t)) => lit(t),
        Some(Json::Real(t)) => lit(t),
        _ => lit(""),
    }
}

pub fn json_i64(v: &Json, key: &str, default: i64) -> (r: i64)
    ensures
        r as int == loose_int(v@, key@, default as int),
{
    match v.get(key) {
        Some(Json::Int(n)) => *n,
        _ => match parse_i64(&str_trim(&json_str(v, key))) {
            Some(n) => n,
            None => default,
        },
    }
}

/// The settings that a stored document holds.
pub open spec fn scaler_stored(v: JsonV) -> KosScalerConfigV {
    KosScalerConfigV {
        username: loose_text(v, "username"@),
        password: loose_text(v, "password"@),
        min_size: loose_int(v, "min_size"@, 2) as i64,
        max_size: loose_int(v, "max_size"@, 10) as i64,
        image_tag: loose_text(v, "image_tag"@),
        storage_class: loose_text(v, "storage_class"@),
        mgmt_url: loose_text(v, "mgmt_url"@),
    }
}

pub fn parse_kos_scaler_stored(v: &Json) -> (r: KosScalerConfig)
    ensures
        r@ == scaler_stored(v@),
{
    KosScalerConfig {
        username: json_str(v, "username"),
        password: json_str(v, "password"),
        min_size: json_i64(v, "min_size", 2),
        max_size: json_i64(v, "max_size", 10),
        image_tag: json_str(v, "image_tag"),
        storage_class: json_str(v, "storage_class"),
        mgmt_url: json_str(v, "mgmt_url"),
    }
}

/// The size where it is positive, else `d`.
pub open spec fn size_or(n: i64, d: int) -> int {
    if n > 0 {
        n as int
    } else {
        d
    }
}

pub fn pick_size(n: i64, d: i64) -> (r: i64)
    ensures
        r as int == size_or(n, d as int),
{
    if n > 0 {
        n
    } else {
        d
    }
}

/// What a caller sees of the scaler settings: no password.
pub open spec fn public_scaler(cfg: KosScalerConfigV) -> JsonV {
    jobj().with("username"@, JsonV::Str(trim(cfg.username))).with(
        "min_size"@,
        JsonV::Int(size_or(cfg.min_size, 2)),
    ).with("max_size"@, JsonV::Int(size_or(cfg.max_size, 10))).with(
        "image_tag"@,
        JsonV::Str(trimmed_or(cfg.image_tag, KOS_SCALER_IMAGE_TAG@)),
    ).with("storage_class"@, JsonV::Str(trimmed_or(cfg.storage_class, "nfs-client"@))).with(
        "mgmt_url"@,
        JsonV::Str(trim(cfg.mgmt_url)),
    )
}

pub fn public_kos_scaler_config(cfg: &KosScalerConfig) -> (r: Json)
    ensures
        r@ == public_scaler(cfg@),
{
    Json::object().with("username", Json::Str(str_trim(&cfg.username))).with(
        "min_size",
        Json::Int(pick_size(cfg.min_size, 2)),
    ).with("max_size", Json::Int(pick_size(cfg.max_size, 10))).with(
        "image_tag",
        Json::Str(trim_or(&cfg.image_tag, KOS_SCALER_IMAGE_TAG)),
    ).with("storage_class", Json::Str(trim_or(&cfg.storage_class, "nfs-client"))).with(
        "mgmt_url",
        Json::Str(str_trim(&cfg.mgmt_url)),
    )
}

pub open spec fn scaler_faults(cfg: KosScalerConfigV, require_password: bool) -> Seq<Seq<char>> {
    let tag = trim(cfg.image_tag);
    Seq::<Seq<char>>::empty() + noted_if(
        trim(cfg.username).len() == 0,
        "mgmt username is required"@,
    ) + noted_if(
        require_password && trim(cfg.password).len() == 0,
        "mgmt password is required"@,
    ) + noted_if(
        trim(cfg.password).len() != 0 && has_break(cfg.password),
        "mgmt password contains invalid characters"@,
    ) + noted_if(cfg.min_size < 0, "worker min must be >= 0"@) + noted_if(
        cfg.max_size < 1,
        "worker max must be >= 1"@,
    ) + noted_if(cfg.max_size < cfg.min_size, "worker max must be >= worker min"@) + noted_if(
        tag.len() != 0 && !is_tag(tag),
        "image tag must be a Docker tag (letters, digits, . _ - +)"@,
    )
}

pub fn validate_kos_scaler(cfg: &KosScalerConfig, require_password: bool) -> (r: Result<
    (),
    Vec<String>,
>)
    ensures
        faults(r) == scaler_faults(cfg@, require_password),
        r is Ok <==> scaler_faults(cfg@, require_password).len() == 0,
{
    let password = str_trim(&cfg.password);
    let tag = str_trim(&cfg.image_tag);
    let mut errors = no_texts();
    note_if(&mut errors, str_trim(&cfg.username).is_empty(), "mgmt username is required");
    note_if(&mut errors, require_password && password.is_empty(), "mgmt password is required");
    note_if(
        &mut errors,
        !password.is_empty() && breaks_line(&cfg.password),
        "mgmt password contains invalid characters",
    );
    note_if(&mut errors, cfg.min_size < 0, "worker min must be >= 0");
    note_if(&mut errors, cfg.max_size < 1, "worker max must be >= 1");
    note_if(&mut errors, cfg.max_size < cfg.min_size, "worker max must be >= worker min");
    note_if(
        &mut errors,
        !tag.is_empty() && !tag_ok(&tag),
        "image tag must be a Docker tag (letters, digits, . _ - +)",
    );
    verdict(errors)
}

// ---------------------------------------------------------------------------
// What is stored and shown
// ---------------------------------------------------------------------------

/// What a caller sees of the NFS settings.
pub open spec fn public_nfs(cfg: NfsConfigV) -> JsonV {
    jobj().with("server"@, JsonV::Str(trim(cfg.server))).with(
        "path"@,
        JsonV::Str(trim(cfg.path)),
    )
}

pub fn public_nfs_config(cfg: &NfsConfig) -> (r: Json)
    ensures
        r@ == public_nfs(cfg@),
{
    Json::object().with("server", Json::Str(str_trim(&cfg.server))).with(
        "path",
        Json::Str(str_trim(&cfg.path)),
    )
}

/// What a caller sees of the cert-manager settings: no token.
pub open spec fn public_cert(cfg: CertManagerConfigV) -> JsonV {
    jobj().with("provider"@, JsonV::Str(lower(trim(cfg.provider)))).with(
        "email"@,
        JsonV::Str(trim(cfg.email)),
    ).with("acme"@, JsonV::Str(trimmed_or(cfg.acme, "production"@))).with(
        "issuer"@,
        JsonV::Str(trimmed_or(cfg.issuer, "letsencrypt-cloudflare"@)),
    ).with("domain"@, JsonV::Str(trim(cfg.domain))).with(
        "tls_secret"@,
        JsonV::Str(
            if trim(cfg.domain).len() == 0 {
                ""@
            } else {
                secret_name(cfg.domain)
            },
        ),
    )
}

pub fn public_cert_config(cfg: &CertManagerConfig) -> (r: Json)
    ensures
        r@ == public_cert(cfg@),
{
    let domain = str_trim(&cfg.domain);
    let secret = if domain.is_empty() {
        lit("")
    } else {
        cert_secret_name(&cfg.domain)
    };
    Json::object().with("provider", Json::Str(str_lower(&str_trim(&cfg.provider)))).with(
        "email",
        Json::Str(str_trim(&cfg.email)),
    ).with("acme", Json::Str(trim_or(&cfg.acme, "production"))).with(
        "issuer",
        Json::Str(trim_or(&cfg.issuer, "letsencrypt-cloudflare")),
    ).with("domain", Json::Str(domain)).with("tls_secret", Json::Str(secret))
}

/// The settings that a stored document holds.
pub open spec fn nfs_stored(v: JsonV) -> NfsConfigV {
    NfsConfigV {
        server: member_text(v, "server"@),
        path: member_text(v, "path"@),
    }
}

pub fn parse_nfs_stored(v: &Json) -> (r: NfsConfig)
    ensures
        r@ == nfs_stored(v@),
{
    NfsConfig { server: text_member(v, "server"), path: text_member(v, "path") }
}

/// The settings that a stored document holds.
pub open spec fn cert_stored(v: JsonV) -> CertManagerConfigV {
    CertManagerConfigV {
        provider: text_or(str_in(v.get("provider"@)), "cloudflare"@),
        email: member_text(v, "email"@),
        api_token: Seq::<char>::empty(),
        acme: text_or(str_in(v.get("acme"@)), "production"@),
        issuer: text_or(str_in(v.get("issuer"@)), "letsencrypt-cloudflare"@),
        domain: member_text(v, "domain"@),
    }
}

/// The settings without the token, which is stored apart.
pub fn parse_cert_stored(v: &Json) -> (r: CertManagerConfig)
    ensures
        r@ == cert_stored(v@),
{
    CertManagerConfig {
        provider: str_or(v.get("provider"), "cloudflare"),
        email: text_member(v, "email"),
        api_token: String::new(),
        acme: str_or(v.get("acme"), "production"),
        issuer: str_or(v.get("issuer"), "letsencrypt-cloudflare"),
        domain: text_member(v, "domain"),
    }
}

/// What a caller sees of the cert-manager settings does not depend on the
/// token, and there is no member under its name.
pub proof fn law_public_cert_hides_token(a: CertManagerConfigV, b: CertManagerConfigV)
    requires
        a.provider == b.provider,
        a.email == b.email,
        a.acme == b.acme,
        a.issuer == b.issuer,
        a.domain == b.domain,
    ensures
        public_cert(a) == public_cert(b),
        public_cert(a).get("api_token"@) is None,
{
    reveal_with_fuel(member_from, 7);
    reveal_strlit("api_token");
    reveal_strlit("provider");
    reveal_strlit("email");
    reveal_strlit("acme");
    reveal_strlit("issuer");
    reveal_strlit("domain");
    reveal_strlit("tls_secret");
    assert("api_token"@.len() == 9);
    assert("provider"@.len() == 8 && "email"@.len() == 5 && "acme"@.len() == 4 && "issuer"@.len()
        == 6 && "domain"@.len() == 6 && "tls_secret"@.len() == 10);
}

/// What a caller sees of the ingress settings does not depend on the
/// passwords, and there is no member under their names.
pub proof fn law_public_ingress_hides_passwords(a: IngressConfigV, b: IngressConfigV)
    requires
        a.image_tag == b.image_tag,
        a.admin_host == b.admin_host,
        a.tls_secret == b.tls_secret,
        a.registry_user == b.registry_user,
    ensures
        public_ingress(a) == public_ingress(b),
        public_ingress(a).get("admin_password"@) is None,
        public_ingress(a).get("registry_password"@) is None,
{
    reveal_with_fuel(member_from, 6);
    reveal_strlit("admin_password");
    reveal_strlit("registry_password");
    reveal_strlit("image_tag");
    reveal_strlit("admin_host");
    reveal_strlit("tls_secret");
    reveal_strlit("registry_user");
    reveal_strlit("image");
    assert("admin_password"@.len() == 14 && "registry_password"@.len() == 17);
    assert("image_tag"@.len() == 9 && "admin_host"@.len() == 10 && "tls_secret"@.len() == 10
        && "registry_user"@.len() == 13 && "image"@.len() == 5);
}

/// What a caller sees of the dashboard settings does not depend on the
/// password, and there is no member under its name.
pub proof fn law_public_dashboard_hides_password(
    a: KubernetesDashboardConfigV,
    b: KubernetesDashboardConfigV,
)
    requires
        a.namespace == b.namespace,
        a.image_tag == b.image_tag,
        a.username == b.username,
        a.host == b.host,
        a.tls_secret == b.tls_secret,
    ensures
        public_dashboard(a) == public_dashboard(b),
        public_dashboard(a).get("password"@) is None,
{
    reveal_with_fuel(member_from, 7);
    reveal_strlit("password");
    reveal_strlit("namespace");
    reveal_strlit("image_tag");
    reveal_strlit("username");
    reveal_strlit("host");
    reveal_strlit("tls_secret");
    reveal_strlit("image");
    assert("password"@.len() == 8 && "password"@[0] == 'p');
    assert("username"@.len() == 8 && "username"@[0] == 'u');
    assert("namespace"@.len() == 9 && "image_tag"@.len() == 9 && "host"@.len() == 4
        && "tls_secret"@.len() == 10 && "image"@.len() == 5);
}

/// What a caller sees of the scaler settings does not depend on the password,
/// and there is no member under its name.
pub proof fn law_public_scaler_hides_password(a: KosScalerConfigV, b: KosScalerConfigV)
    requires
        a.username == b.username,
        a.min_size == b.min_size,
        a.max_size == b.max_size,
        a.image_tag == b.image_tag,
        a.storage_class == b.storage_class,
        a.mgmt_url == b.mgmt_url,
    ensures
        public_scaler(a) == public_scaler(b),
        public_scaler(a).get("password"@) is None,
{
    reveal_with_fuel(member_from, 7);
    reveal_strlit("password");
    reveal_strlit("username");
    reveal_strlit("min_size");
    reveal_strlit("max_size");
    reveal_strlit("image_tag");
    reveal_strlit("storage_class");
    reveal_strlit("mgmt_url");
    assert("password"@.len() == 8 && "password"@[0] == 'p');
    assert("username"@[0] == 'u' && "min_size"@[0] == 'm' && "max_size"@[0] == 'm'
        && "image_tag"@[0] == 'i' && "storage_class"@[0] == 's' && "mgmt_url"@[0] == 'm');
}

} // verus!
