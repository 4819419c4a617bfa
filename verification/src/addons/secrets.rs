//! The secrets of add-ons as they are stored: small JSON texts under a seal.
use crate::crypto::{decrypt, decrypted, hex_encode, hex_text, system_random_bytes};
use crate::json::text_or;
use crate::text::{chars_of, lemma_trimmed, lit, opt_text, str_trim, trim};
use vstd::prelude::*;
use vstd::string::*;

verus! {

#[derive(Debug, PartialEq, Eq)]
pub struct IngressSecrets {
    pub admin_password: String,
    pub registry_password: String,
}

#[derive(Debug, PartialEq, Eq)]
pub struct KubernetesDashboardSecrets {
    pub password: String,
    pub jwt_secret: String,
}

// ---------------------------------------------------------------------------
// Outside functions
// ---------------------------------------------------------------------------

/// The texts of two members of a JSON text, nothing where the text is no JSON.
pub uninterp spec fn json_texts(text: Seq<char>, k1: Seq<char>, k2: Seq<char>) -> Option<
    (Option<Seq<char>>, Option<Seq<char>>),
>;

/// The JSON text of an object with two string members.
pub uninterp spec fn json_pair(
    k1: Seq<char>,
    v1: Seq<char>,
    k2: Seq<char>,
    v2: Seq<char>,
) -> Seq<char>;

/// The JSON text of objects three levels deep with strings at the bottom.
pub uninterp spec fn json_tree(
    doc: Seq<(Seq<char>, Seq<(Seq<char>, Seq<(Seq<char>, Seq<char>)>)>)>,
) -> Seq<char>;

/// The texts of named strings.
pub open spec fn leaves_view(v: Seq<(String, String)>) -> Seq<(Seq<char>, Seq<char>)> {
    Seq::new(v.len(), |i: int| (v[i].0@, v[i].1@))
}

/// The texts of named objects of strings.
pub open spec fn twigs_view(v: Seq<(String, Vec<(String, String)>)>) -> Seq<
    (Seq<char>, Seq<(Seq<char>, Seq<char>)>),
> {
    Seq::new(v.len(), |i: int| (v[i].0@, leaves_view(v[i].1@)))
}

/// The texts of named objects of such objects.
pub open spec fn tree_view(v: Seq<(String, Vec<(String, Vec<(String, String)>)>)>) -> Seq<
    (Seq<char>, Seq<(Seq<char>, Seq<(Seq<char>, Seq<char>)>)>),
> {
    Seq::new(v.len(), |i: int| (v[i].0@, twigs_view(v[i].1@)))
}

/// The texts of a pair of optional strings.
pub open spec fn pair_texts(o: Option<(Option<String>, Option<String>)>) -> Option<
    (Option<Seq<char>>, Option<Seq<char>>),
> {
    match o {
        Some((a, b)) => Some((opt_text(a), opt_text(b))),
        None => None,
    }
}

/// Calls `serde_json::from_str` and takes the strings under two names. Claimed:
/// what comes back depends on the text and the names alone.
#[verifier::external_body]
fn read_json_texts(text: &str, k1: &str, k2: &str) -> (r: Option<(Option<String>, Option<String>)>)
    ensures
        pair_texts(r) == json_texts(text@, k1@, k2@),
{
    let v = serde_json::from_str::<serde_json::Value>(text).ok()?;
    let a = v.get(k1).and_then(|x| x.as_str()).map(|x| x.to_string());
    let b = v.get(k2).and_then(|x| x.as_str()).map(|x| x.to_string());
    Some((a, b))
}

/// The name is an ordinary one: those that begin with a dollar sign may have a
/// meaning of their own to the reader of a JSON text.
pub open spec fn is_plain_name(k: Seq<char>) -> bool {
    k.len() > 0 && k[0] != '$'
}

/// Calls `to_string` of `serde_json::Value` on an object with two string members.
/// Claimed: the text depends on names and values alone, it stands in curly
/// brackets without space around them, and reading the two names gives the
/// values back. Names that begin with a dollar sign are left out, for
/// `serde_json::from_str` reads an object under its private name otherwise.
#[verifier::external_body]
fn write_json_pair(k1: &str, v1: &str, k2: &str, v2: &str) -> (r: String)
    requires
        k1@ != k2@,
        is_plain_name(k1@),
        is_plain_name(k2@),
    ensures
        r@ == json_pair(k1@, v1@, k2@, v2@),
        r@.len() >= 2 && r@[0] == '{' && r@.last() == '}',
        json_texts(r@, k1@, k2@) == Some((Some(v1@), Some(v2@))),
{
    let mut m = serde_json::Map::new();
    m.insert(k1.to_string(), serde_json::Value::String(v1.to_string()));
    m.insert(k2.to_string(), serde_json::Value::String(v2.to_string()));
    serde_json::Value::Object(m).to_string()
}

/// Calls `to_string` of `serde_json::Value` on objects three levels deep, which
/// `collect` makes of lists of names and members. Claimed: the text depends on
/// names and strings alone.
#[verifier::external_body]
pub(crate) fn write_json_tree(doc: &Vec<(String, Vec<(String, Vec<(String, String)>)>)>) -> (r:
    String)
    ensures
        r@ == json_tree(tree_view(doc@)),
{
    let object: serde_json::Value = doc.iter().map(|(k, twigs)| {
        let twigs: serde_json::Value = twigs.iter().map(|(k, leaves)| {
            let leaves: serde_json::Value = leaves.iter().cloned().collect();
            (k.clone(), leaves)
        }).collect();
        (k.clone(), twigs)
    }).collect();
    object.to_string()
}

// ---------------------------------------------------------------------------
// Reading and writing
// ---------------------------------------------------------------------------

/// The two texts of a stored secret, given what its JSON holds: the members of
/// an object, or the whole text as the first of the two.
pub open spec fn secret_pair(
    raw: Seq<char>,
    whole: Seq<char>,
    parsed: Option<(Option<Seq<char>>, Option<Seq<char>>)>,
) -> (Seq<char>, Seq<char>) {
    let t = trim(raw);
    match parsed {
        Some((a, b)) => if t.len() > 0 && t[0] == '{' {
            (text_or(a, ""@), text_or(b, ""@))
        } else {
            (whole, ""@)
        },
        None => (whole, ""@),
    }
}

fn or_empty(o: Option<String>) -> (r: String)
    ensures
        r@ == text_or(opt_text(o), ""@),
{
    match o {
        Some(s) => s,
        None => lit(""),
    }
}

/// The two texts of a stored secret, given what its JSON holds.
pub fn secret_from(
    raw: &str,
    whole: &str,
    parsed: Option<(Option<String>, Option<String>)>,
) -> (r: (String, String))
    ensures
        (r.0@, r.1@) == secret_pair(raw@, whole@, pair_texts(parsed)),
{
    let v = chars_of(&str_trim(raw));
    match parsed {
        Some((a, b)) => if v.len() > 0 && v[0] == '{' {
            (or_empty(a), or_empty(b))
        } else {
            (lit(whole), lit(""))
        },
        None => (lit(whole), lit("")),
    }
}

/// The ingress secrets that a stored text holds. A text that is no JSON object
/// is an admin password.
pub open spec fn ingress_secret_texts(raw: Seq<char>) -> (Seq<char>, Seq<char>) {
    secret_pair(
        raw,
        raw,
        json_texts(trim(raw), "admin_password"@, "registry_password"@),
    )
}

pub fn parse_ingress_secrets(raw: &str) -> (r: IngressSecrets)
    ensures
        (r.admin_password@, r.registry_password@) == ingress_secret_texts(raw@),
{
    let parsed = read_json_texts(&str_trim(raw), "admin_password", "registry_password");
    let (a, b) = secret_from(raw, raw, parsed);
    IngressSecrets { admin_password: a, registry_password: b }
}

/// The stored form of the ingress secrets. Reading it gives the secrets back.
pub fn encode_ingress_secrets(s: &IngressSecrets) -> (r: String)
    ensures
        r@ == json_pair(
            "admin_password"@,
            s.admin_password@,
            "registry_password"@,
            s.registry_password@,
        ),
        ingress_secret_texts(r@) == (s.admin_password@, s.registry_password@),
{
    proof {
        reveal_strlit("admin_password");
        reveal_strlit("registry_password");
        assert("admin_password"@.len() != "registry_password"@.len());
        assert(is_plain_name("admin_password"@) && is_plain_name("registry_password"@));
    }
    let r = write_json_pair(
        "admin_password",
        &s.admin_password,
        "registry_password",
        &s.registry_password,
    );
    proof {
        lemma_trimmed(r@);
    }
    r
}

/// The dashboard secrets that a stored text holds. A text that is no JSON
/// object is, trimmed, the password.
pub open spec fn dashboard_secret_texts(raw: Seq<char>) -> (Seq<char>, Seq<char>) {
    secret_pair(raw, trim(raw), json_texts(trim(raw), "password"@, "jwt_secret"@))
}

pub fn parse_kubernetes_dashboard_secrets(raw: &str) -> (r: KubernetesDashboardSecrets)
    ensures
        (r.password@, r.jwt_secret@) == dashboard_secret_texts(raw@),
{
    let t = str_trim(raw);
    let parsed = read_json_texts(&t, "password", "jwt_secret");
    let (a, b) = secret_from(raw, &t, parsed);
    KubernetesDashboardSecrets { password: a, jwt_secret: b }
}

/// The stored form of the dashboard secrets. Reading it gives the secrets back.
pub fn encode_kubernetes_dashboard_secrets(s: &KubernetesDashboardSecrets) -> (r: String)
    ensures
        r@ == json_pair("password"@, s.password@, "jwt_secret"@, s.jwt_secret@),
        dashboard_secret_texts(r@) == (s.password@, s.jwt_secret@),
{
    proof {
        reveal_strlit("password");
        reveal_strlit("jwt_secret");
        assert("password"@.len() != "jwt_secret"@.len());
        assert(is_plain_name("password"@) && is_plain_name("jwt_secret"@));
    }
    let r = write_json_pair("password", &s.password, "jwt_secret", &s.jwt_secret);
    proof {
        lemma_trimmed(r@);
    }
    r
}

/// What a sealed value holds; nothing where there is none or it does not open.
pub open spec fn unsealed(key: Seq<u8>, enc: Option<Seq<char>>) -> Option<Seq<char>> {
    match enc {
        Some(e) => if e.len() == 0 {
            None
        } else {
            match decrypted(key, e) {
                Ok(t) => Some(t),
                Err(_) => None,
            }
        },
        None => None,
    }
}

/// Opens a sealed value, where there is one.
pub fn unseal(key: &[u8], enc: &Option<String>) -> (r: Option<String>)
    ensures
        opt_text(r) == unsealed(key@, opt_text(*enc)),
{
    match enc {
        Some(e) => if e.is_empty() {
            None
        } else {
            match decrypt(key, e) {
                Ok(t) => Some(t),
                Err(_) => None,
            }
        },
        None => None,
    }
}

/// The ingress secrets under a seal, blank where they do not open.
pub fn decrypt_ingress_secrets(key: &[u8], enc: &Option<String>) -> (r: IngressSecrets)
    ensures
        (r.admin_password@, r.registry_password@) == (match unsealed(key@, opt_text(*enc)) {
            Some(t) => ingress_secret_texts(t),
            None => (Seq::<char>::empty(), Seq::<char>::empty()),
        }),
{
    match unseal(key, enc) {
        Some(t) => parse_ingress_secrets(&t),
        None => IngressSecrets {
            admin_password: String::new(),
            registry_password: String::new(),
        },
    }
}

/// A fresh signing secret: 64 hexadecimal digits.
pub fn generate_dashboard_jwt_secret() -> (r: String)
    ensures
        r@.len() == 64,
        exists|b: Seq<u8>| b.len() == 32 && r@ == #[trigger] hex_text(b),
{
    let bytes = system_random_bytes(32);
    let r = hex_encode(&bytes);
    assert(r@ == hex_text(bytes@));
    r
}

/// The two secrets of an add-on are read each under its own name; what is no such
/// document is the first of them.
pub proof fn law_pair_of_secrets(
    raw: Seq<char>,
    whole: Seq<char>,
    a: Seq<char>,
    b: Seq<char>,
)
    ensures
        trim(raw).len() > 0 && trim(raw)[0] == '{' ==> secret_pair(
            raw,
            whole,
            Some((Some(a), Some(b))),
        ) == (a, b),
        secret_pair(raw, whole, None) == (whole, ""@),
        trim(raw).len() > 0 && trim(raw)[0] != '{' ==> secret_pair(
            raw,
            whole,
            Some((Some(a), Some(b))),
        ) == (whole, ""@),
{
}

} // verus!
