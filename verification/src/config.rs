//! Settings of the service.
use crate::crypto::{hex_bytes, hex_decode, sha256, sha256_of};
use crate::ip::{
    Ip, addr_char, addr_text, ip_of, ipv4_str, ipv6_str, law_quad_roundtrip, lemma_v6_text, nats,
    show_v4, show_v6,
};
use crate::jobs::rows::{env_get, host_env};
use crate::json::text_or;
use crate::num::{dec, lemma_dec_digits, parse_i64, parse_int, parse_nat, parse_u64_max, u64_str};
use crate::text::{
    all_hex, byte_len, cat, chars_of, is_digit, is_hex, lemma_pos_is, lit, lower, no_texts,
    opt_text, put, split, starts_with, str_all_hex, str_bytes, str_eq, str_lower, str_split,
    str_strip_prefix, str_trim, str_trim_end_char, str_until, strip_prefix, texts, trim,
    trim_end_char,
};
use vstd::prelude::*;
use vstd::string::*;
use vstd::utf8::encode_utf8;

verus! {

/// The host of a URL, with or without a scheme; nothing where the URL has no
/// host and port part.
pub open spec fn host_of(url: Seq<char>) -> Option<Seq<char>> {
    let rest = match strip_prefix(url, "https://"@) {
        Some(r) => r,
        None => match strip_prefix(url, "http://"@) {
            Some(r) => r,
            None => url,
        },
    };
    let hostport = split(rest, '/')[0];
    if hostport.len() == 0 {
        None
    } else {
        match strip_prefix(hostport, "["@) {
            Some(h) => Some(split(h, ']')[0]),
            None => Some(split(hostport, ':')[0]),
        }
    }
}

/// The host cannot be reached by a client: it is empty or a wildcard.
pub open spec fn unusable_host(url: Seq<char>) -> bool {
    match host_of(url) {
        Some(h) => h.len() == 0 || h == "0.0.0.0"@ || h == "::"@ || h == "[::]"@,
        None => true,
    }
}

/// The host of a URL.
pub fn url_host(url: &str) -> (r: Option<String>)
    ensures
        opt_text(r) == host_of(url@),
{
    let rest = match str_strip_prefix(url, "https://") {
        Some(r) => r,
        None => match str_strip_prefix(url, "http://") {
            Some(r) => r,
            None => lit(url),
        },
    };
    let hostport = str_until(&rest, '/');
    if hostport.is_empty() {
        return None;
    }
    match str_strip_prefix(&hostport, "[") {
        Some(h) => Some(str_until(&h, ']')),
        None => Some(str_until(&hostport, ':')),
    }
}

/// True when the URL host cannot be used by guests (wildcard / empty).
pub fn public_url_host_unusable(url: &str) -> (r: bool)
    ensures
        r == unusable_host(url@),
{
    match url_host(url) {
        Some(h) => h.is_empty() || str_eq(&h, "0.0.0.0") || str_eq(&h, "::") || str_eq(&h, "[::]"),
        None => true,
    }
}

// ---------------------------------------------------------------------------
// Modes
// ---------------------------------------------------------------------------

#[derive(Debug, Clone, Copy, PartialEq, Eq, Structural)]
pub enum SmtpTlsMode {
    /// Plain SMTP, for labs and internal relays.
    Plain,
    /// STARTTLS after connecting.
    Starttls,
    /// TLS from the start.
    Tls,
}

impl SmtpTlsMode {
    /// The mode that a text names, in any case.
    pub open spec fn named(s: Seq<char>) -> Option<SmtpTlsMode> {
        let t = lower(s);
        if t == "none"@ || t == "off"@ || t == "plain"@ {
            Some(SmtpTlsMode::Plain)
        } else if t == "starttls"@ || t == "opportunistic"@ {
            Some(SmtpTlsMode::Starttls)
        } else if t == "tls"@ || t == "ssl"@ || t == "wrapper"@ {
            Some(SmtpTlsMode::Tls)
        } else {
            None
        }
    }

    pub open spec fn name(self) -> Seq<char> {
        match self {
            SmtpTlsMode::Plain => "none"@,
            SmtpTlsMode::Starttls => "starttls"@,
            SmtpTlsMode::Tls => "tls"@,
        }
    }

    pub fn parse(s: &str) -> (r: Result<SmtpTlsMode, String>)
        ensures
            match r {
                Ok(m) => SmtpTlsMode::named(s@) == Some(m),
                Err(e) => SmtpTlsMode::named(s@) is None && e@ == "invalid MGMT_SMTP_TLS="@ + lower(
                    s@,
                ) + "; use none|starttls|tls"@,
            },
    {
        let t = str_lower(s);
        if str_eq(&t, "none") || str_eq(&t, "off") || str_eq(&t, "plain") {
            Ok(SmtpTlsMode::Plain)
        } else if str_eq(&t, "starttls") || str_eq(&t, "opportunistic") {
            Ok(SmtpTlsMode::Starttls)
        } else if str_eq(&t, "tls") || str_eq(&t, "ssl") || str_eq(&t, "wrapper") {
            Ok(SmtpTlsMode::Tls)
        } else {
            Err(lit("invalid MGMT_SMTP_TLS=").concat(&t).concat("; use none|starttls|tls"))
        }
    }

    pub fn as_str(self) -> (r: &'static str)
        ensures
            r@ == self.name(),
    {
        match self {
            SmtpTlsMode::Plain => "none",
            SmtpTlsMode::Starttls => "starttls",
            SmtpTlsMode::Tls => "tls",
        }
    }
}

/// A mode is read back from its name.
pub proof fn law_smtp_mode_roundtrip(m: SmtpTlsMode)
    ensures
        SmtpTlsMode::named(m.name()) == Some(m),
{
    reveal_strlit("none");
    reveal_strlit("off");
    reveal_strlit("plain");
    reveal_strlit("starttls");
    reveal_strlit("opportunistic");
    reveal_strlit("tls");
    assert(lower("none"@) =~= "none"@);
    assert(lower("starttls"@) =~= "starttls"@);
    assert(lower("tls"@) =~= "tls"@);
    assert("starttls"@.len() == 8 && "none"@.len() == 4 && "off"@.len() == 3 && "plain"@.len() == 5
        && "opportunistic"@.len() == 13 && "tls"@.len() == 3);
    assert("tls"@[0] == 't' && "off"@[0] == 'o');
}

#[derive(Debug, Clone, Copy, PartialEq, Eq, Structural)]
pub enum AuthMode {
    Local,
    Auth0,
    Both,
}

impl AuthMode {
    /// The mode that a text names, in any case.
    pub open spec fn named(s: Seq<char>) -> Option<AuthMode> {
        let t = lower(s);
        if t == "local"@ {
            Some(AuthMode::Local)
        } else if t == "auth0"@ {
            Some(AuthMode::Auth0)
        } else if t == "both"@ {
            Some(AuthMode::Both)
        } else {
            None
        }
    }

    pub fn parse(s: &str) -> (r: Result<AuthMode, String>)
        ensures
            match r {
                Ok(m) => AuthMode::named(s@) == Some(m),
                Err(e) => AuthMode::named(s@) is None && e@ == bad_auth_mode(s@),
            },
    {
        let t = str_lower(s);
        if str_eq(&t, "local") {
            Ok(AuthMode::Local)
        } else if str_eq(&t, "auth0") {
            Ok(AuthMode::Auth0)
        } else if str_eq(&t, "both") {
            Ok(AuthMode::Both)
        } else {
            Err(lit("invalid AUTH_MODE=").concat(&t).concat("; use local|auth0|both"))
        }
    }

    pub fn allows_local(self) -> (r: bool)
        ensures
            r == (self != AuthMode::Auth0),
    {
        match self {
            AuthMode::Local => true,
            AuthMode::Auth0 => false,
            AuthMode::Both => true,
        }
    }

    pub fn allows_auth0(self) -> (r: bool)
        ensures
            r == (self != AuthMode::Local),
    {
        match self {
            AuthMode::Local => false,
            AuthMode::Auth0 => true,
            AuthMode::Both => true,
        }
    }
}

pub open spec fn bad_auth_mode(s: Seq<char>) -> Seq<char> {
    "invalid AUTH_MODE="@ + lower(s) + "; use local|auth0|both"@
}

// ---------------------------------------------------------------------------
// Settings
// ---------------------------------------------------------------------------

/// The address that the server listens on.
#[derive(Debug, Clone, Copy, PartialEq, Eq, Structural)]
pub struct Listen {
    pub ip: Ip,
    pub port: u16,
}

/// How to reach the mail relay.
#[derive(Debug, Clone, PartialEq, Eq)]
pub struct SmtpConfig {
    pub host: String,
    pub port: u16,
    pub from: String,
    pub username: Option<String>,
    pub password: Option<String>,
    pub tls: SmtpTlsMode,
}

/// Client files for reading guest metrics over mutual TLS.
#[derive(Debug, Clone, PartialEq, Eq)]
pub struct MetricsTls {
    pub ca_cert: String,
    pub client_cert: String,
    pub client_key: String,
}

/// Settings of the management server. Paths are kept as text.
#[derive(Debug, Clone, PartialEq, Eq)]
pub struct Config {
    pub listen: Listen,
    pub db: String,
    pub data_dir: String,
    pub lab_up: String,
    pub pertiskctl: String,
    pub auth_mode: AuthMode,
    pub admin_user: String,
    pub admin_password: Option<String>,
    /// 32 bytes.
    pub secret_key: Vec<u8>,
    pub jwt_ttl_secs: i64,
    pub auth0_domain: Option<String>,
    pub auth0_client_id: Option<String>,
    pub auth0_client_secret: Option<String>,
    pub auth0_audience: Option<String>,
    /// Where guests and browsers reach the server; empty where that is unknown.
    pub public_url: String,
    pub metrics_token: Option<String>,
    pub metrics_tls: Option<MetricsTls>,
    pub images_dir: String,
    pub smtp: Option<SmtpConfig>,
    pub admin_emails: Vec<String>,
}

/// The value of an option, where it is not empty.
pub fn require_nonempty(name: &str, v: Option<String>) -> (r: Result<String, String>)
    ensures
        match r {
            Ok(s) => opt_text(v) == Some(s@) && s@.len() > 0,
            Err(e) => (v is None || v->0@.len() == 0) && e@ == name@ + " required"@,
        },
{
    match v {
        Some(s) => if s.is_empty() {
            Err(cat(name, " required"))
        } else {
            Ok(s)
        },
        None => Err(cat(name, " required")),
    }
}

/// The key that a text stands for: 64 hexadecimal digits are the key itself,
/// any other text is hashed.
pub open spec fn key_of(raw: Seq<char>) -> Seq<u8> {
    if byte_len(raw) == 64 && all_hex(raw) {
        match hex_bytes(raw) {
            Some(b) => b,
            None => sha256_of(encode_utf8(raw)),
        }
    } else {
        sha256_of(encode_utf8(raw))
    }
}

pub fn hash_key(raw: &str) -> (r: Vec<u8>)
    ensures
        r@ == sha256_of(encode_utf8(raw@)),
        r@.len() == 32,
{
    sha256(raw.as_bytes())
}

/// The key that a text stands for. It always has 32 bytes.
pub fn derive_key(raw: &str) -> (r: Vec<u8>)
    ensures
        r@ == key_of(raw@),
        r@.len() == 32,
{
    let v = chars_of(raw);
    assert(raw@.len() == v.len());
    if str_bytes(raw) == 64 && str_all_hex(raw) {
        proof {
            assert forall|i: int| 0 <= i < raw@.len() implies '\0' <= #[trigger] raw@[i]
                <= '\u{7f}' by {
                assert(is_hex(raw@[i]));
            }
            vstd::utf8::is_ascii_chars_encode_utf8(raw@);
        }
        match hex_decode(raw) {
            Some(b) => b,
            None => hash_key(raw),
        }
    } else {
        hash_key(raw)
    }
}

/// The first of two variables that is set.
pub open spec fn env_either(env: Seq<(String, String)>, a: Seq<char>, b: Seq<char>) -> Option<
    Seq<char>,
> {
    match host_env(env, a) {
        Some(v) => Some(v),
        None => host_env(env, b),
    }
}

fn get_either(env: &Vec<(String, String)>, a: &str, b: &str) -> (r: Option<String>)
    ensures
        opt_text(r) == env_either(env@, a@, b@),
{
    match env_get(env, a) {
        Some(v) => Some(v),
        None => env_get(env, b),
    }
}

/// The text, where it is not empty.
pub open spec fn filled(o: Option<Seq<char>>) -> Option<Seq<char>> {
    match o {
        Some(s) => if s.len() == 0 {
            None
        } else {
            Some(s)
        },
        None => None,
    }
}

fn keep_filled(o: Option<String>) -> (r: Option<String>)
    ensures
        opt_text(r) == filled(opt_text(o)),
{
    match o {
        Some(s) => if s.is_empty() {
            None
        } else {
            Some(s)
        },
        None => None,
    }
}

#[verifier::ext_equal]
pub ghost struct SmtpV {
    pub host: Seq<char>,
    pub port: u16,
    pub from: Seq<char>,
    pub username: Option<Seq<char>>,
    pub password: Option<Seq<char>>,
    pub tls: SmtpTlsMode,
}

impl View for SmtpConfig {
    type V = SmtpV;

    open spec fn view(&self) -> SmtpV {
        SmtpV {
            host: self.host@,
            port: self.port,
            from: self.from@,
            username: opt_text(self.username),
            password: opt_text(self.password),
            tls: self.tls,
        }
    }
}

/// The mail relay that the environment names. Host and sender come together,
/// and so do user and password.
pub open spec fn smtp_env(env: Seq<(String, String)>) -> Result<Option<SmtpV>, Seq<char>> {
    let host = filled(host_env(env, "MGMT_SMTP_HOST"@));
    let from = filled(env_either(env, "MGMT_SMTP_FROM"@, "MGMT_SMTP_SENDER"@));
    let tls_text = text_or(host_env(env, "MGMT_SMTP_TLS"@), "starttls"@);
    let username = filled(env_either(env, "MGMT_SMTP_USER"@, "MGMT_SMTP_USERNAME"@));
    let password = filled(host_env(env, "MGMT_SMTP_PASSWORD"@));
    match (host, from) {
        (None, None) => Ok(None),
        (Some(h), Some(f)) => match SmtpTlsMode::named(tls_text) {
            None => Err(
                "invalid MGMT_SMTP_TLS="@ + lower(tls_text) + "; use none|starttls|tls"@,
            ),
            Some(tls) => if (username is Some) != (password is Some) {
                Err(
                    "incomplete SMTP auth; set both MGMT_SMTP_USER (or MGMT_SMTP_USERNAME) and MGMT_SMTP_PASSWORD"@,
                )
            } else {
                Ok(
                    Some(
                        SmtpV {
                            host: h,
                            port: port_or(host_env(env, "MGMT_SMTP_PORT"@), 587),
                            from: f,
                            username: username,
                            password: password,
                            tls: tls,
                        },
                    ),
                )
            },
        },
        _ => Err(
            "incomplete SMTP env; set both MGMT_SMTP_HOST and MGMT_SMTP_FROM (or MGMT_SMTP_SENDER)"@,
        ),
    }
}

/// The port that a text denotes, else `d`.
pub open spec fn port_or(o: Option<Seq<char>>, d: u16) -> u16 {
    match o {
        Some(s) => match parse_nat(s, u16::MAX as nat) {
            Some(n) => n as u16,
            None => d,
        },
        None => d,
    }
}

fn port_of(o: &Option<String>, d: u16) -> (r: u16)
    ensures
        r == port_or(opt_text(*o), d),
{
    match o {
        Some(s) => match parse_u64_max(s, 0xffff) {
            Some(n) => n as u16,
            None => d,
        },
        None => d,
    }
}

/// The form of the relay, or the message.
pub open spec fn smtp_view(r: Result<Option<SmtpConfig>, String>) -> Result<
    Option<SmtpV>,
    Seq<char>,
> {
    match r {
        Ok(Some(c)) => Ok(Some(c@)),
        Ok(None) => Ok(None),
        Err(e) => Err(e@),
    }
}

/// Reads the mail relay from the environment.
pub fn resolve_smtp(env: &Vec<(String, String)>) -> (r: Result<Option<SmtpConfig>, String>)
    ensures
        smtp_view(r) == smtp_env(env@),
{
    let host = keep_filled(env_get(env, "MGMT_SMTP_HOST"));
    let from = keep_filled(get_either(env, "MGMT_SMTP_FROM", "MGMT_SMTP_SENDER"));
    match (host, from) {
        (None, None) => Ok(None),
        (Some(host), Some(from)) => {
            let tls_text = match env_get(env, "MGMT_SMTP_TLS") {
                Some(t) => t,
                None => lit("starttls"),
            };
            let tls = match SmtpTlsMode::parse(&tls_text) {
                Ok(m) => m,
                Err(e) => {
                    return Err(e);
                },
            };
            let username = keep_filled(get_either(env, "MGMT_SMTP_USER", "MGMT_SMTP_USERNAME"));
            let password = keep_filled(env_get(env, "MGMT_SMTP_PASSWORD"));
            if username.is_some() != password.is_some() {
                return Err(
                    lit(
                        "incomplete SMTP auth; set both MGMT_SMTP_USER (or MGMT_SMTP_USERNAME) and MGMT_SMTP_PASSWORD",
                    ),
                );
            }
            let port: u16 = port_of(&env_get(env, "MGMT_SMTP_PORT"), 587);
            Ok(Some(SmtpConfig { host, port, from, username, password, tls }))
        },
        _ => Err(
            lit(
                "incomplete SMTP env; set both MGMT_SMTP_HOST and MGMT_SMTP_FROM (or MGMT_SMTP_SENDER)",
            ),
        ),
    }
}

/// Certificate of the authority, client certificate and client key.
pub open spec fn metrics_files(env: Seq<(String, String)>) -> (
    Option<Seq<char>>,
    Option<Seq<char>>,
    Option<Seq<char>>,
) {
    (
        filled(host_env(env, "MGMT_METRICS_TLS_CA"@)),
        filled(host_env(env, "MGMT_METRICS_TLS_CERT"@)),
        filled(host_env(env, "MGMT_METRICS_TLS_KEY"@)),
    )
}

/// The first of the three files that cannot be read.
pub open spec fn metrics_file_fault(
    ca: Seq<char>,
    cert: Seq<char>,
    key: Seq<char>,
    readable: (bool, bool, bool),
) -> Option<Seq<char>> {
    if !readable.0 {
        Some("MGMT_METRICS_TLS_CA="@ + ca + " is not a readable file"@)
    } else if !readable.1 {
        Some("MGMT_METRICS_TLS_CERT="@ + cert + " is not a readable file"@)
    } else if !readable.2 {
        Some("MGMT_METRICS_TLS_KEY="@ + key + " is not a readable file"@)
    } else {
        None
    }
}

/// Reads the client files for metrics from the environment: all three or none,
/// and then each must be readable.
pub fn resolve_metrics_tls(env: &Vec<(String, String)>, readable: (bool, bool, bool)) -> (r: Result<
    Option<MetricsTls>,
    String,
>)
    ensures
        match metrics_files(env@) {
            (None, None, None) => r matches Ok(o) && o is None,
            (Some(ca), Some(cert), Some(key)) => match r {
                Ok(o) => {
                    &&& metrics_file_fault(ca, cert, key, readable) is None
                    &&& o is Some
                    &&& o->0.ca_cert@ == ca
                    &&& o->0.client_cert@ == cert
                    &&& o->0.client_key@ == key
                },
                Err(e) => metrics_file_fault(ca, cert, key, readable) == Some(e@),
            },
            _ => r matches Err(e) && e@
                == "incomplete metrics TLS env; set all of MGMT_METRICS_TLS_CA, MGMT_METRICS_TLS_CERT, MGMT_METRICS_TLS_KEY"@,
        },
{
    let ca = keep_filled(env_get(env, "MGMT_METRICS_TLS_CA"));
    let cert = keep_filled(env_get(env, "MGMT_METRICS_TLS_CERT"));
    let key = keep_filled(env_get(env, "MGMT_METRICS_TLS_KEY"));
    match (ca, cert, key) {
        (Some(ca), Some(cert), Some(key)) => {
            if !readable.0 {
                return Err(
                    lit("MGMT_METRICS_TLS_CA=").concat(&ca).concat(" is not a readable file"),
                );
            }
            if !readable.1 {
                return Err(
                    lit("MGMT_METRICS_TLS_CERT=").concat(&cert).concat(
                        " is not a readable file",
                    ),
                );
            }
            if !readable.2 {
                return Err(
                    lit("MGMT_METRICS_TLS_KEY=").concat(&key).concat(" is not a readable file"),
                );
            }
            Ok(Some(MetricsTls { ca_cert: ca, client_cert: cert, client_key: key }))
        },
        (None, None, None) => Ok(None),
        _ => Err(
            lit(
                "incomplete metrics TLS env; set all of MGMT_METRICS_TLS_CA, MGMT_METRICS_TLS_CERT, MGMT_METRICS_TLS_KEY",
            ),
        ),
    }
}

/// The address is neither the wildcard nor a loopback address.
pub open spec fn is_routable(ip: Ip) -> bool {
    match ip {
        Ip::V4(a, b, c, d) => !(a == 0 && b == 0 && c == 0 && d == 0) && a != 127,
        Ip::V6(a, b, c, d, e, f, g, h) => !(a == 0 && b == 0 && c == 0 && d == 0 && e == 0 && f == 0
            && g == 0 && (h == 0 || h == 1)),
    }
}

fn routable(ip: &Ip) -> (r: bool)
    ensures
        r == is_routable(*ip),
{
    match ip {
        Ip::V4(a, b, c, d) => !(*a == 0 && *b == 0 && *c == 0 && *d == 0) && *a != 127,
        Ip::V6(a, b, c, d, e, f, g, h) => !(*a == 0 && *b == 0 && *c == 0 && *d == 0 && *e == 0
            && *f == 0 && *g == 0 && (*h == 0 || *h == 1)),
    }
}

/// The base URL of an address and a port.
pub open spec fn base_url(ip: Ip, port: u16) -> Seq<char> {
    match ip_of(ip) {
        Ok((a, b, c, d)) => "http://"@ + show_v4(a, b, c, d) + ":"@ + dec(port as nat),
        Err(g) => "http://["@ + show_v6(g) + "]:"@ + dec(port as nat),
    }
}

fn url_of(ip: &Ip, port: u16) -> (r: String)
    ensures
        r@ == base_url(*ip, port),
{
    match ip {
        Ip::V4(a, b, c, d) => lit("http://").concat(&ipv4_str(*a, *b, *c, *d)).concat(":").concat(
            &u64_str(port as u64),
        ),
        Ip::V6(a, b, c, d, e, f, g, h) => {
            let v: Vec<u16> = vec![*a, *b, *c, *d, *e, *f, *g, *h];
            assert(nats(v@) =~= ip_of(*ip)->Err_0);
            lit("http://[").concat(&ipv6_str(&v)).concat("]:").concat(&u64_str(port as u64))
        },
    }
}

/// Where guests reach the server: the configured URL where its host can be
/// reached, else the address that the server listens on, else the address of
/// the machine in its network, else nothing.
pub open spec fn public_url_of(raw: Option<Seq<char>>, listen: Listen, local: Option<Ip>) -> Seq<
    char,
> {
    let set = match raw {
        Some(s) => trim_end_char(trim(s), '/'),
        None => ""@,
    };
    if raw is Some && set.len() != 0 && !unusable_host(set) {
        set
    } else if is_routable(listen.ip) {
        base_url(listen.ip, listen.port)
    } else {
        match local {
            Some(ip) => if ip is V4 && is_routable(ip) {
                base_url(ip, listen.port)
            } else {
                ""@
            },
            None => ""@,
        }
    }
}

/// The host of the base URL of a routable address can be reached.
#[verifier::rlimit(40)]
proof fn lemma_base_url_usable(ip: Ip, port: u16)
    requires
        is_routable(ip),
    ensures
        !unusable_host(base_url(ip, port)),
{
    reveal_strlit("http://");
    reveal_strlit("https://");
    reveal_strlit("http://[");
    reveal_strlit("[");
    reveal_strlit("]:");
    reveal_strlit(":");
    reveal_strlit(".");
    reveal_strlit("::");
    reveal_strlit("[::]");
    reveal_strlit("0.0.0.0");
    let url = base_url(ip, port);
    let p = dec(port as nat);
    lemma_dec_digits(port as nat);
    assert(url.subrange(0, 7) =~= "http://"@);
    assert(!starts_with(url, "https://"@)) by {
        if starts_with(url, "https://"@) {
            assert(url.subrange(0, 8)[4] == "https://"@[4]);
        }
    }
    let rest = url.subrange(7, url.len() as int);
    assert(strip_prefix(url, "http://"@) == Some(rest));
    match ip_of(ip) {
        Ok((a, b, c, d)) => {
            let q = show_v4(a, b, c, d);
            lemma_dec_digits(a);
            lemma_dec_digits(b);
            lemma_dec_digits(c);
            lemma_dec_digits(d);
            assert(addr_text(q));
            assert(is_digit(q[0]));
            assert(rest =~= q + ":"@ + p);
            assert forall|k: int| 0 <= k < rest.len() implies rest[k] != '/' by {
                if k < q.len() {
                    assert(addr_char(q[k]));
                } else if k > q.len() {
                    assert(is_digit(p[k - q.len() - 1]));
                }
            }
            lemma_pos_is(rest, '/', 0, rest.len() as int);
            assert(rest.subrange(0, rest.len() as int) =~= rest);
            assert(split(rest, '/')[0] == rest);
            assert(!starts_with(rest, "["@)) by {
                if starts_with(rest, "["@) {
                    assert(rest.subrange(0, 1)[0] == "["@[0]);
                    assert(rest[0] == q[0]);
                }
            }
            assert forall|k: int| 0 <= k < q.len() implies rest[k] != ':' by {
                assert(rest[k] == q[k]);
                let (w, x, y) = (dec(a), dec(b), dec(c));
                let (i, j) = (w.len() as int, w.len() + x.len() + 1);
                let m = j + y.len() + 1;
                if k < i {
                    assert(is_digit(w[k]));
                } else if i < k < j {
                    assert(is_digit(x[k - i - 1]));
                } else if j < k < m {
                    assert(is_digit(y[k - j - 1]));
                } else if k > m {
                    assert(is_digit(dec(d)[k - m - 1]));
                }
            }
            assert(rest[q.len() as int] == ':');
            lemma_pos_is(rest, ':', 0, q.len() as int);
            assert(rest.subrange(0, q.len() as int) =~= q);
            assert(split(rest, ':')[0] == q);
            assert(q != "0.0.0.0"@) by {
                reveal_with_fuel(dec, 2);
                let zero = show_v4(0, 0, 0, 0);
                assert(zero =~= "0.0.0.0"@);
                law_quad_roundtrip(0, 0, 0, 0);
                law_quad_roundtrip(a as u8, b as u8, c as u8, d as u8);
            }
            assert(q != "::"@ && q != "[::]"@);
        },
        Err(g) => {
            let q = show_v6(g);
            lemma_v6_text(g);
            assert(rest =~= "["@ + q + "]:"@ + p);
            assert forall|k: int| 0 <= k < rest.len() implies rest[k] != '/' by {
                if 0 < k <= q.len() {
                    assert(addr_char(q[k - 1]));
                } else if k > q.len() + 2 {
                    assert(is_digit(p[k - q.len() - 3]));
                }
            }
            lemma_pos_is(rest, '/', 0, rest.len() as int);
            assert(rest.subrange(0, rest.len() as int) =~= rest);
            assert(split(rest, '/')[0] == rest);
            assert(rest.subrange(0, 1) =~= "["@);
            let inner = rest.subrange(1, rest.len() as int);
            assert(strip_prefix(rest, "["@) == Some(inner));
            assert(inner =~= q + "]:"@ + p);
            assert forall|k: int| 0 <= k < q.len() implies inner[k] != ']' by {
                assert(addr_char(q[k]));
            }
            assert(inner[q.len() as int] == ']');
            lemma_pos_is(inner, ']', 0, q.len() as int);
            assert(inner.subrange(0, q.len() as int) =~= q);
            assert(split(inner, ']')[0] == q);
            assert(!"0.0.0.0"@.contains(':'));
            assert(q != "[::]"@) by {
                assert(!addr_char("[::]"@[0]));
            }
            assert(q.len() > 2) by {
                let all = forall|i: int| 0 <= i < 8 ==> #[trigger] g[i] == 0;
                if all {
                    assert(g[0] == 0 && g[1] == 0 && g[2] == 0 && g[3] == 0 && g[4] == 0 && g[5]
                        == 0 && g[6] == 0 && g[7] == 0);
                }
            }
        },
    }
}

/// Guests are never told a host that they cannot reach: where none is known,
/// they are told nothing.
pub proof fn law_public_url_is_usable(raw: Option<Seq<char>>, listen: Listen, local: Option<Ip>)
    ensures
        public_url_of(raw, listen, local).len() == 0 || !unusable_host(
            public_url_of(raw, listen, local),
        ),
{
    reveal_strlit("");
    if is_routable(listen.ip) {
        lemma_base_url_usable(listen.ip, listen.port);
    }
    match local {
        Some(ip) => if is_routable(ip) {
            lemma_base_url_usable(ip, listen.port);
        },
        None => {},
    }
}

/// Where guests reach the server. `local` is the address of the machine in its
/// network, where one was found.
pub fn resolve_public_url(raw: Option<String>, listen: &Listen, local: &Option<Ip>) -> (r: String)
    ensures
        r@ == public_url_of(opt_text(raw), *listen, *local),
{
    match raw {
        Some(s) => {
            let set = str_trim_end_char(&str_trim(&s), '/');
            if !set.is_empty() && !public_url_host_unusable(&set) {
                return set;
            }
        },
        None => {},
    }
    if routable(&listen.ip) {
        return url_of(&listen.ip, listen.port);
    }
    match local {
        Some(ip) => {
            let four = match ip {
                Ip::V4(_, _, _, _) => true,
                _ => false,
            };
            if four && routable(ip) {
                url_of(ip, listen.port)
            } else {
                lit("")
            }
        },
        None => lit(""),
    }
}

/// The nonblank parts of a list with commas.
pub open spec fn comma_parts(parts: Seq<Seq<char>>, n: int) -> Seq<Seq<char>>
    decreases n,
{
    if 0 < n <= parts.len() {
        let r = comma_parts(parts, n - 1);
        if trim(parts[n - 1]).len() == 0 {
            r
        } else {
            r.push(trim(parts[n - 1]))
        }
    } else {
        Seq::empty()
    }
}

pub open spec fn emails_of(o: Option<Seq<char>>) -> Seq<Seq<char>> {
    match o {
        Some(s) => comma_parts(split(s, ','), split(s, ',').len() as int),
        None => Seq::empty(),
    }
}

fn split_emails(o: &Option<String>) -> (r: Vec<String>)
    ensures
        texts(r@) == emails_of(opt_text(*o)),
{
    let mut out = no_texts();
    match o {
        Some(s) => {
            let parts = str_split(s, ',');
            let ghost p = split(s@, ',');
            let mut i: usize = 0;
            while i < parts.len()
                invariant
                    i <= parts.len(),
                    p == texts(parts@),
                    texts(out@) == comma_parts(p, i as int),
                decreases parts.len() - i,
            {
                assert(p[i as int] == parts@[i as int]@);
                let t = str_trim(&parts[i]);
                if !t.is_empty() {
                    put(&mut out, &t);
                }
                i += 1;
            }
        },
        None => {},
    }
    out
}

/// The lifetime of a session in seconds that a text denotes, else a day.
pub open spec fn ttl_of(o: Option<Seq<char>>) -> int {
    match o {
        Some(s) => match parse_int(s) {
            Some(n) => n,
            None => 86400,
        },
        None => 86400,
    }
}

fn ttl(o: &Option<String>) -> (r: i64)
    ensures
        r as int == ttl_of(opt_text(*o)),
{
    match o {
        Some(s) => match parse_i64(s) {
            Some(n) => n,
            None => 86400,
        },
        None => 86400,
    }
}

/// Why the settings in the environment cannot be used: the first of an unknown
/// mode, incomplete metrics files, an incomplete login service, an incomplete
/// mail relay.
pub open spec fn env_fault(env: Seq<(String, String)>, readable: (bool, bool, bool)) -> Option<
    Seq<char>,
> {
    let mode_text = text_or(host_env(env, "AUTH_MODE"@), "local"@);
    let mode = AuthMode::named(mode_text);
    let files = metrics_files(env);
    let metrics = match files {
        (None, None, None) => None,
        (Some(ca), Some(cert), Some(key)) => metrics_file_fault(ca, cert, key, readable),
        _ => Some(
            "incomplete metrics TLS env; set all of MGMT_METRICS_TLS_CA, MGMT_METRICS_TLS_CERT, MGMT_METRICS_TLS_KEY"@,
        ),
    };
    if mode is None {
        Some(bad_auth_mode(mode_text))
    } else if metrics is Some {
        metrics
    } else if mode->0 != AuthMode::Local && (filled(host_env(env, "AUTH0_DOMAIN"@)) is None
        || filled(host_env(env, "AUTH0_CLIENT_ID"@)) is None || filled(
        host_env(env, "AUTH0_CLIENT_SECRET"@),
    ) is None) {
        Some("AUTH_MODE requires AUTH0_DOMAIN, AUTH0_CLIENT_ID, AUTH0_CLIENT_SECRET"@)
    } else {
        match smtp_env(env) {
            Ok(_) => None,
            Err(e) => Some(e),
        }
    }
}

/// The settings are those of the environment.
pub open spec fn config_from(
    c: Config,
    env: Seq<(String, String)>,
    data_dir: Seq<char>,
    listen: Listen,
    local: Option<Ip>,
) -> bool {
    &&& AuthMode::named(text_or(host_env(env, "AUTH_MODE"@), "local"@)) == Some(c.auth_mode)
    &&& c.admin_user@ == text_or(host_env(env, "MGMT_ADMIN_USER"@), "admin"@)
    &&& opt_text(c.admin_password) == host_env(env, "MGMT_ADMIN_PASSWORD"@)
    &&& c.secret_key@ == key_of(
        text_or(host_env(env, "MGMT_SECRET_KEY"@), "pertisk-mgmt-dev-secret-change-me"@),
    )
    &&& c.secret_key@.len() == 32
    &&& c.jwt_ttl_secs as int == ttl_of(host_env(env, "MGMT_JWT_TTL_SECS"@))
    &&& c.public_url@ == public_url_of(host_env(env, "MGMT_PUBLIC_URL"@), listen, local)
    &&& opt_text(c.metrics_token) == filled(host_env(env, "MGMT_METRICS_TOKEN"@))
    &&& c.images_dir@ == text_or(
        env_either(env, "PERTISK_IMAGES_DIR"@, "MGMT_IMAGES_DIR"@),
        under(data_dir, "images"@),
    )
    &&& opt_text(c.auth0_domain) == filled(host_env(env, "AUTH0_DOMAIN"@))
    &&& opt_text(c.auth0_client_id) == filled(host_env(env, "AUTH0_CLIENT_ID"@))
    &&& opt_text(c.auth0_client_secret) == filled(host_env(env, "AUTH0_CLIENT_SECRET"@))
    &&& opt_text(c.auth0_audience) == filled(host_env(env, "AUTH0_AUDIENCE"@))
    &&& smtp_view(Ok(c.smtp)) == smtp_env(env)
    &&& texts(c.admin_emails@) == emails_of(host_env(env, "MGMT_ADMIN_EMAILS"@))
    &&& match c.metrics_tls {
        Some(t) => metrics_files(env) == (
            Some(t.ca_cert@),
            Some(t.client_cert@),
            Some(t.client_key@),
        ),
        None => metrics_files(env) == (None::<Seq<char>>, None::<Seq<char>>, None::<Seq<char>>),
    }
}

/// A path below a directory.
pub open spec fn under(dir: Seq<char>, name: Seq<char>) -> Seq<char> {
    if dir.len() == 0 {
        name
    } else if dir.last() == '/' {
        dir + name
    } else {
        dir + "/"@ + name
    }
}

/// A path below a directory.
pub fn path_under(dir: &str, name: &str) -> (r: String)
    ensures
        r@ == under(dir@, name@),
{
    let v = chars_of(dir);
    if v.len() == 0 {
        lit(name)
    } else if v[v.len() - 1] == '/' {
        cat(dir, name)
    } else {
        lit(dir).concat("/").concat(name)
    }
}

fn or_text(o: Option<String>, d: &str) -> (r: String)
    ensures
        r@ == text_or(opt_text(o), d@),
{
    match o {
        Some(s) => s,
        None => lit(d),
    }
}

impl Config {
    /// Reads the settings from the environment. `local` is the address of the
    /// machine in its network; `readable` says of each metrics file whether it
    /// can be read.
    pub fn from_env(
        listen: Listen,
        db: &str,
        data_dir: &str,
        lab_up: &str,
        pertiskctl: &str,
        env: &Vec<(String, String)>,
        local: &Option<Ip>,
        readable: (bool, bool, bool),
    ) -> (r: Result<Config, String>)
        ensures
            match r {
                Ok(c) => {
                    &&& env_fault(env@, readable) is None
                    &&& config_from(c, env@, data_dir@, listen, *local)
                    &&& c.listen == listen
                    &&& c.db@ == db@
                    &&& c.data_dir@ == data_dir@
                    &&& c.lab_up@ == lab_up@
                    &&& c.pertiskctl@ == pertiskctl@
                },
                Err(e) => env_fault(env@, readable) == Some(e@),
            },
    {
        let auth_mode = match AuthMode::parse(&or_text(env_get(env, "AUTH_MODE"), "local")) {
            Ok(m) => m,
            Err(e) => {
                return Err(e);
            },
        };
        let metrics_tls = match resolve_metrics_tls(env, readable) {
            Ok(t) => t,
            Err(e) => {
                return Err(e);
            },
        };
        let auth0_domain = keep_filled(env_get(env, "AUTH0_DOMAIN"));
        let auth0_client_id = keep_filled(env_get(env, "AUTH0_CLIENT_ID"));
        let auth0_client_secret = keep_filled(env_get(env, "AUTH0_CLIENT_SECRET"));
        if auth_mode.allows_auth0() && (auth0_domain.is_none() || auth0_client_id.is_none()
            || auth0_client_secret.is_none()) {
            return Err(
                lit("AUTH_MODE requires AUTH0_DOMAIN, AUTH0_CLIENT_ID, AUTH0_CLIENT_SECRET"),
            );
        }
        let smtp = match resolve_smtp(env) {
            Ok(s) => s,
            Err(e) => {
                return Err(e);
            },
        };
        let secret = or_text(
            env_get(env, "MGMT_SECRET_KEY"),
            "pertisk-mgmt-dev-secret-change-me",
        );
        let images = path_under(data_dir, "images");
        Ok(
            Config {
                listen,
                db: lit(db),
                data_dir: lit(data_dir),
                lab_up: lit(lab_up),
                pertiskctl: lit(pertiskctl),
                auth_mode,
                admin_user: or_text(env_get(env, "MGMT_ADMIN_USER"), "admin"),
                admin_password: env_get(env, "MGMT_ADMIN_PASSWORD"),
                secret_key: derive_key(&secret),
                jwt_ttl_secs: ttl(&env_get(env, "MGMT_JWT_TTL_SECS")),
                auth0_domain,
                auth0_client_id,
                auth0_client_secret,
                auth0_audience: keep_filled(env_get(env, "AUTH0_AUDIENCE")),
                public_url: resolve_public_url(env_get(env, "MGMT_PUBLIC_URL"), &listen, local),
                metrics_token: keep_filled(env_get(env, "MGMT_METRICS_TOKEN")),
                metrics_tls,
                images_dir: or_text(
                    get_either(env, "PERTISK_IMAGES_DIR", "MGMT_IMAGES_DIR"),
                    &images,
                ),
                smtp,
                admin_emails: split_emails(&env_get(env, "MGMT_ADMIN_EMAILS")),
            },
        )
    }

    pub fn smtp_configured(&self) -> (r: bool)
        ensures
            r == (self.smtp is Some),
    {
        self.smtp.is_some()
    }

    pub fn jobs_dir(&self) -> (r: String)
        ensures
            r@ == under(self.data_dir@, "jobs"@),
    {
        path_under(&self.data_dir, "jobs")
    }

    pub fn kubeconfigs_dir(&self) -> (r: String)
        ensures
            r@ == under(self.data_dir@, "kubeconfigs"@),
    {
        path_under(&self.data_dir, "kubeconfigs")
    }

    pub fn os_bundles_dir(&self) -> (r: String)
        ensures
            r@ == under(self.data_dir@, "os-bundles"@),
    {
        path_under(&self.data_dir, "os-bundles")
    }

    pub fn os_packages_dir(&self) -> (r: String)
        ensures
            r@ == under(self.data_dir@, "os-packages"@),
    {
        path_under(&self.data_dir, "os-packages")
    }

    /// The public key that signs OS packages, set by `MGMT_OS_TRUST_PK`.
    pub fn os_trust_pk(&self, env: &Vec<(String, String)>) -> (r: String)
        ensures
            r@ == text_or(
                filled(host_env(env@, "MGMT_OS_TRUST_PK"@)),
                under(self.data_dir@, "secrets/os-trust.pk"@),
            ),
    {
        let d = path_under(&self.data_dir, "secrets/os-trust.pk");
        or_text(keep_filled(env_get(env, "MGMT_OS_TRUST_PK")), &d)
    }
}

/// Mail is set up exactly where a host and a sender are given, with a user and a
/// password or neither; half of either is refused.
pub proof fn law_mail_settings(env: Seq<(String, String)>)
    ensures
        ({
            let is_set = |k: Seq<char>| host_env(env, k) is Some && host_env(env, k)->0.len() > 0;
            let host = is_set("MGMT_SMTP_HOST"@);
            let from = filled(env_either(env, "MGMT_SMTP_FROM"@, "MGMT_SMTP_SENDER"@));
            let user = filled(env_either(env, "MGMT_SMTP_USER"@, "MGMT_SMTP_USERNAME"@));
            let password = is_set("MGMT_SMTP_PASSWORD"@);
            let r = smtp_env(env);
            &&& !host && from is None ==> r == Ok::<Option<SmtpV>, Seq<char>>(None)
            &&& host != (from is Some) ==> r is Err
            &&& host && from is Some && (user is Some) != password ==> r is Err
            &&& r matches Ok(Some(c)) ==> {
                &&& host && from is Some && (user is Some) == password
                &&& c.host == host_env(env, "MGMT_SMTP_HOST"@)->0
                &&& c.from == from->0
                &&& c.username == user
                &&& password ==> c.password == host_env(env, "MGMT_SMTP_PASSWORD"@)
                &&& !password ==> c.password is None
                &&& host_env(env, "MGMT_SMTP_PORT"@) is None ==> c.port == 587
                &&& host_env(env, "MGMT_SMTP_TLS"@) is None ==> c.tls is Starttls
            }
        }),
{
    reveal_strlit("none");
    reveal_strlit("off");
    reveal_strlit("plain");
    reveal_strlit("starttls");
    reveal_strlit("opportunistic");
    assert("none"@.len() == 4);
    assert("off"@.len() == 3);
    assert("plain"@.len() == 5);
    assert("starttls"@.len() == 8);
    assert("opportunistic"@.len() == 13);
    assert(lower("starttls"@) =~= "starttls"@);
}

/// The word for the security of mail, in any case.
pub proof fn law_words_for_mail_security(s: Seq<char>)
    ensures
        ({
            let t = lower(s);
            let m = SmtpTlsMode::named(s);
            &&& m == Some(SmtpTlsMode::Plain) <==> t == "none"@ || t == "off"@ || t == "plain"@
            &&& m == Some(SmtpTlsMode::Starttls) <==> t == "starttls"@ || t == "opportunistic"@
            &&& m == Some(SmtpTlsMode::Tls) <==> t == "tls"@ || t == "ssl"@ || t == "wrapper"@
        }),
{
    reveal_strlit("none");
    reveal_strlit("off");
    reveal_strlit("plain");
    reveal_strlit("starttls");
    reveal_strlit("opportunistic");
    reveal_strlit("tls");
    reveal_strlit("ssl");
    reveal_strlit("wrapper");
    assert("none"@.len() == 4);
    assert("off"@.len() == 3);
    assert("plain"@.len() == 5);
    assert("starttls"@.len() == 8);
    assert("opportunistic"@.len() == 13);
    assert("tls"@.len() == 3);
    assert("ssl"@.len() == 3);
    assert("wrapper"@.len() == 7);
    assert("off"@[0] == 'o' && "tls"@[0] == 't');
    assert("off"@[0] == 'o' && "ssl"@[0] == 's');
    assert("tls"@[0] == 't' && "ssl"@[0] == 's');
}

/// The word for the way of signing in, in any case.
pub proof fn law_words_for_signing_in(s: Seq<char>)
    ensures
        AuthMode::named(s) == Some(AuthMode::Local) <==> lower(s) == "local"@,
        AuthMode::named(s) == Some(AuthMode::Auth0) <==> lower(s) == "auth0"@,
        AuthMode::named(s) == Some(AuthMode::Both) <==> lower(s) == "both"@,
        AuthMode::named(s) is None <==> lower(s) != "local"@ && lower(s) != "auth0"@ && lower(s)
            != "both"@,
{
    reveal_strlit("local");
    reveal_strlit("auth0");
    reveal_strlit("both");
    assert("local"@.len() == 5);
    assert("auth0"@.len() == 5);
    assert("both"@.len() == 4);
    assert("local"@[0] == 'l' && "auth0"@[0] == 'a');
}

/// The environment is refused where signing in is of no known way, where it needs
/// what is not given, where the files of the metrics are given in part or cannot
/// be read, and where mail is refused; and nowhere else.
pub proof fn law_refused_environment(env: Seq<(String, String)>, readable: (bool, bool, bool))
    ensures
        ({
            let is_set = |k: Seq<char>| host_env(env, k) is Some && host_env(env, k)->0.len() > 0;
            let mode = AuthMode::named(text_or(host_env(env, "AUTH_MODE"@), "local"@));
            let ca = is_set("MGMT_METRICS_TLS_CA"@);
            let cert = is_set("MGMT_METRICS_TLS_CERT"@);
            let key = is_set("MGMT_METRICS_TLS_KEY"@);
            env_fault(env, readable) is None <==> {
                &&& mode is Some
                &&& mode->0 != AuthMode::Local ==> is_set("AUTH0_DOMAIN"@) && is_set(
                    "AUTH0_CLIENT_ID"@,
                ) && is_set("AUTH0_CLIENT_SECRET"@)
                &&& ca == cert && cert == key
                &&& ca ==> readable.0 && readable.1 && readable.2
                &&& smtp_env(env) is Ok
            }
        }),
{
}

/// The addresses of a list are its parts without white space around them, in
/// order; blank ones are left out.
pub proof fn law_parts_of_a_list(parts: Seq<Seq<char>>, n: int, k: int)
    requires
        0 <= n <= parts.len(),
    ensures
        0 <= k < n && trim(parts[k]).len() > 0 ==> comma_parts(parts, n).contains(trim(parts[k])),
        0 <= k < comma_parts(parts, n).len() ==> comma_parts(parts, n)[k].len() > 0,
        comma_parts(parts, n).len() <= n,
    decreases n,
{
    if n > 0 {
        law_parts_of_a_list(parts, n - 1, k);
        let b = comma_parts(parts, n - 1);
        let r = comma_parts(parts, n);
        if trim(parts[n - 1]).len() > 0 {
            assert(r[r.len() - 1] == trim(parts[n - 1]));
        }
        if 0 <= k < n - 1 && b.contains(trim(parts[k])) {
            let i = choose|i: int| 0 <= i < b.len() && b[i] == trim(parts[k]);
            assert(r[i] == trim(parts[k]));
        }
        if 0 <= k < r.len() && k < b.len() {
            assert(r[k] == b[k]);
        }
    }
}

/// A token lasts as long as the environment says, and a day where it says nothing
/// that can be read.
pub proof fn law_lifetime_of_a_token(s: Seq<char>, n: int)
    ensures
        ttl_of(None) == 86400,
        parse_int(s) == Some(n) ==> ttl_of(Some(s)) == n,
        parse_int(s) is None ==> ttl_of(Some(s)) == 86400,
{
}

/// The service is known outside by what it was told, where that names a host; else
/// by where it listens, where others can reach that; else by its own address.
pub proof fn law_address_of_the_service(
    raw: Option<Seq<char>>,
    listen: Listen,
    local: Option<Ip>,
)
    ensures
        ({
            let r = public_url_of(raw, listen, local);
            let told = raw is Some && trim_end_char(trim(raw->0), '/').len() > 0 && !unusable_host(
                trim_end_char(trim(raw->0), '/'),
            );
            &&& told ==> r == trim_end_char(trim(raw->0), '/')
            &&& !told && is_routable(listen.ip) ==> r == base_url(listen.ip, listen.port)
            &&& !told && !is_routable(listen.ip) && local is Some && local->0 is V4 && is_routable(
                local->0,
            ) ==> r == base_url(local->0, listen.port)
            &&& !told && !is_routable(listen.ip) && local is None ==> r == ""@
        }),
{
}

/// Others reach neither the address that stands for all nor that of the machine
/// itself.
pub proof fn law_addresses_that_others_reach(b: u8, c: u8, d: u8)
    ensures
        !is_routable(Ip::V4(0, 0, 0, 0)),
        !is_routable(Ip::V4(127, b, c, d)),
        is_routable(Ip::V4(10, b, c, d)) && is_routable(Ip::V4(192, b, c, d)),
        !is_routable(Ip::V6(0, 0, 0, 0, 0, 0, 0, 0)) && !is_routable(
            Ip::V6(0, 0, 0, 0, 0, 0, 0, 1),
        ),
{
}

/// A key of sixty-four hexadecimal digits is the bytes they stand for; any other is
/// hashed.
pub proof fn law_secret_key(raw: Seq<char>)
    ensures
        !(byte_len(raw) == 64 && all_hex(raw)) ==> key_of(raw) == sha256_of(encode_utf8(raw)),
        byte_len(raw) == 64 && all_hex(raw) && hex_bytes(raw) is Some ==> key_of(raw) == hex_bytes(
            raw,
        )->0,
{
}

} // verus!
