//! Reading session tokens: the payload of a signed token, and the claims in it.
//!
//! The payload is a JSON object. Its members are taken one by one: each claim may
//! stand there once, and members that are no claims are passed over.
use crate::auth::{Claims, Role};
use crate::crypto::opt_bytes;
use crate::text::{chars_of, lit, opt_text, slice_str, str_eq};
use crate::time::opt_int;
use serde::de::IgnoredAny;
use vstd::prelude::*;
use vstd::slice::slice_subrange;
use vstd::string::*;

verus! {

// ---------------------------------------------------------------------------
// Outside functions
// ---------------------------------------------------------------------------

/// The token is well formed and signed under the key.
pub uninterp spec fn jwt_signed(token: Seq<char>, key: Seq<u8>) -> bool;

/// The bytes that a text in the URL-safe base64 alphabet without padding denotes.
pub uninterp spec fn b64url_bytes(text: Seq<char>) -> Option<Seq<u8>>;

/// The JSON string at the head of bytes, and how many bytes it takes.
pub uninterp spec fn json_text_head(bytes: Seq<u8>) -> Option<(Seq<char>, nat)>;

/// The JSON integer at the head of bytes, and how many bytes it takes.
pub uninterp spec fn json_int_head(bytes: Seq<u8>) -> Option<(int, nat)>;

/// How many bytes the JSON value at the head of bytes takes.
pub uninterp spec fn json_any_head(bytes: Seq<u8>) -> Option<nat>;

/// Calls `jsonwebtoken::decode` with the default checks, and keeps nothing of the
/// payload. Claimed: what is accepted is well formed and signed under the key.
/// Whether a token is accepted also depends on the time, against which its expiry
/// is checked; nothing is claimed of that.
#[verifier::external_body]
pub(crate) fn jwt_accepts(token: &str, key: &[u8]) -> (r: bool)
    ensures
        r ==> jwt_signed(token@, key@),
{
    let key = jsonwebtoken::DecodingKey::from_secret(key);
    let checks = jsonwebtoken::Validation::default();
    jsonwebtoken::decode::<IgnoredAny>(token, &key, &checks).is_ok()
}

/// Calls `decode` of `base64::engine::general_purpose::URL_SAFE_NO_PAD`. Claimed:
/// the result depends on the text alone.
#[verifier::external_body]
fn b64url_decode(text: &str) -> (r: Option<Vec<u8>>)
    ensures
        opt_bytes(r) == b64url_bytes(text@),
{
    base64::Engine::decode(&base64::engine::general_purpose::URL_SAFE_NO_PAD, text).ok()
}

/// A text and a number of bytes.
pub open spec fn text_head_view(o: Option<(String, usize)>) -> Option<(Seq<char>, nat)> {
    match o {
        Some((t, n)) => Some((t@, n as nat)),
        None => None,
    }
}

/// A number and a number of bytes.
pub open spec fn int_head_view(o: Option<(i64, usize)>) -> Option<(int, nat)> {
    match o {
        Some((v, n)) => Some((v as int, n as nat)),
        None => None,
    }
}

/// A number of bytes.
pub open spec fn head_view(o: Option<usize>) -> Option<nat> {
    match o {
        Some(n) => Some(n as nat),
        None => None,
    }
}

/// Calls `next` and `byte_offset` of the `serde_json::StreamDeserializer` that
/// `serde_json::Deserializer::into_iter` makes for strings. Claimed: string and
/// number of bytes depend on the bytes alone, and the bytes that it takes, white
/// space before it among them, are some of those at hand.
#[verifier::external_body]
fn read_text_head(bytes: &[u8]) -> (r: Option<(String, usize)>)
    ensures
        text_head_view(r) == json_text_head(bytes@),
        r matches Some((_, n)) ==> 0 < n <= bytes@.len(),
{
    let mut found = serde_json::Deserializer::from_slice(bytes).into_iter::<String>();
    let text = found.next()?.ok()?;
    Some((text, found.byte_offset()))
}

/// Calls `next` and `byte_offset` of the `serde_json::StreamDeserializer` that
/// `serde_json::Deserializer::into_iter` makes for integers that fit `i64`.
/// Claimed: integer and number of bytes depend on the bytes alone, and the bytes
/// that it takes, white space before it among them, are some of those at hand.
#[verifier::external_body]
fn read_int_head(bytes: &[u8]) -> (r: Option<(i64, usize)>)
    ensures
        int_head_view(r) == json_int_head(bytes@),
        r matches Some((_, n)) ==> 0 < n <= bytes@.len(),
{
    let mut found = serde_json::Deserializer::from_slice(bytes).into_iter::<i64>();
    let value = found.next()?.ok()?;
    Some((value, found.byte_offset()))
}

/// Calls `next` and `byte_offset` of the `serde_json::StreamDeserializer` that
/// `serde_json::Deserializer::into_iter` makes for `serde::de::IgnoredAny`, which
/// is any value, of which nothing is kept. Claimed: the number of bytes depends on
/// the bytes alone, and the bytes that the value takes, white space before it
/// among them, are some of those at hand.
#[verifier::external_body]
fn read_any_head(bytes: &[u8]) -> (r: Option<usize>)
    ensures
        head_view(r) == json_any_head(bytes@),
        r matches Some(n) ==> 0 < n <= bytes@.len(),
{
    let mut found = serde_json::Deserializer::from_slice(bytes).into_iter::<IgnoredAny>();
    found.next()?.ok()?;
    Some(found.byte_offset())
}

// ---------------------------------------------------------------------------
// The payload
// ---------------------------------------------------------------------------

/// The place of the last dot among the first `n` characters, below zero where
/// there is none.
pub open spec fn last_dot(t: Seq<char>, n: int) -> int
    decreases n,
{
    if 0 < n <= t.len() && t[n - 1] != '.' {
        last_dot(t, n - 1)
    } else {
        n - 1
    }
}

fn find_last_dot(v: &Vec<char>, n: usize) -> (r: Option<usize>)
    requires
        n <= v.len(),
    ensures
        match r {
            Some(i) => i < n && i == last_dot(v@, n as int),
            None => last_dot(v@, n as int) < 0,
        },
{
    let mut i: usize = n;
    while i > 0
        invariant
            i <= n <= v.len(),
            last_dot(v@, n as int) == last_dot(v@, i as int),
        decreases i,
    {
        if v[i - 1] == '.' {
            return Some(i - 1);
        }
        i -= 1;
    }
    None
}

/// The bytes of the payload of a token: what stands between its last two dots.
pub open spec fn token_payload(token: Seq<char>) -> Option<Seq<u8>> {
    let a = last_dot(token, token.len() as int);
    let b = last_dot(token, a);
    if a < 0 || b < 0 {
        None
    } else {
        b64url_bytes(token.subrange(b + 1, a))
    }
}

fn read_payload(token: &str) -> (r: Option<Vec<u8>>)
    ensures
        opt_bytes(r) == token_payload(token@),
{
    let v = chars_of(token);
    match find_last_dot(&v, v.len()) {
        Some(a) => match find_last_dot(&v, a) {
            Some(b) => b64url_decode(&slice_str(&v, b + 1, a)),
            None => None,
        },
        None => None,
    }
}

// ---------------------------------------------------------------------------
// The claims
// ---------------------------------------------------------------------------

/// The mathematical form of claims.
#[verifier::ext_equal]
pub ghost struct ClaimsV {
    pub sub: Seq<char>,
    pub username: Seq<char>,
    pub role: Role,
    pub provider: Seq<char>,
    pub exp: int,
    pub iat: int,
}

impl View for Claims {
    type V = ClaimsV;

    open spec fn view(&self) -> ClaimsV {
        ClaimsV {
            sub: self.sub@,
            username: self.username@,
            role: self.role,
            provider: self.provider@,
            exp: self.exp as int,
            iat: self.iat as int,
        }
    }
}

/// The claims that were found so far.
struct Found {
    sub: Option<String>,
    username: Option<String>,
    role: Option<Role>,
    provider: Option<String>,
    exp: Option<i64>,
    iat: Option<i64>,
}

/// The mathematical form of the claims that were found so far.
#[verifier::ext_equal]
pub ghost struct FoundV {
    pub sub: Option<Seq<char>>,
    pub username: Option<Seq<char>>,
    pub role: Option<Role>,
    pub provider: Option<Seq<char>>,
    pub exp: Option<int>,
    pub iat: Option<int>,
}

impl View for Found {
    type V = FoundV;

    closed spec fn view(&self) -> FoundV {
        FoundV {
            sub: opt_text(self.sub),
            username: opt_text(self.username),
            role: self.role,
            provider: opt_text(self.provider),
            exp: opt_int(self.exp),
            iat: opt_int(self.iat),
        }
    }
}

/// No claim was found.
pub open spec fn nothing_found() -> FoundV {
    FoundV { sub: None, username: None, role: None, provider: None, exp: None, iat: None }
}

/// The byte is white space of JSON.
pub open spec fn json_space(b: u8) -> bool {
    b == 0x20 || b == 0x0a || b == 0x09 || b == 0x0d
}

/// The first place from `i` on that is no white space.
pub open spec fn past_space(b: Seq<u8>, i: int) -> int
    decreases b.len() - i,
{
    if 0 <= i < b.len() && json_space(b[i]) {
        past_space(b, i + 1)
    } else {
        i
    }
}

/// The place behind the byte `c`, which stands at or, after white space, behind
/// `i`.
pub open spec fn past_byte(b: Seq<u8>, i: int, c: u8) -> Option<int> {
    let k = past_space(b, i);
    if 0 <= k < b.len() && b[k] == c {
        Some(k + 1)
    } else {
        None
    }
}

fn skip_space(b: &Vec<u8>, i: usize) -> (r: usize)
    requires
        i <= b.len(),
    ensures
        i <= r <= b.len(),
        r == past_space(b@, i as int),
{
    let mut k: usize = i;
    while k < b.len() && (b[k] == 0x20 || b[k] == 0x0a || b[k] == 0x09 || b[k] == 0x0d)
        invariant
            i <= k <= b.len(),
            past_space(b@, i as int) == past_space(b@, k as int),
        decreases b.len() - k,
    {
        k += 1;
    }
    k
}

fn skip_byte(b: &Vec<u8>, i: usize, c: u8) -> (r: Option<usize>)
    requires
        i <= b.len(),
    ensures
        match r {
            Some(n) => i < n <= b.len() && past_byte(b@, i as int, c) == Some(n as int),
            None => past_byte(b@, i as int, c) is None,
        },
{
    let k: usize = skip_space(b, i);
    if k < b.len() && b[k] == c {
        Some(k + 1)
    } else {
        None
    }
}

/// The string at `i`, and the place behind it.
pub open spec fn text_at(b: Seq<u8>, i: int) -> Option<(Seq<char>, int)> {
    match json_text_head(b.subrange(i, b.len() as int)) {
        Some((t, n)) => Some((t, i + n)),
        None => None,
    }
}

/// The integer at `i`, and the place behind it.
pub open spec fn int_at(b: Seq<u8>, i: int) -> Option<(int, int)> {
    match json_int_head(b.subrange(i, b.len() as int)) {
        Some((v, n)) => Some((v, i + n)),
        None => None,
    }
}

/// The place behind the value at `i`.
pub open spec fn past_any(b: Seq<u8>, i: int) -> Option<int> {
    match json_any_head(b.subrange(i, b.len() as int)) {
        Some(n) => Some(i + n),
        None => None,
    }
}

fn read_text(b: &Vec<u8>, i: usize) -> (r: Option<(String, usize)>)
    requires
        i <= b.len(),
    ensures
        match r {
            Some((t, e)) => i < e <= b.len() && text_at(b@, i as int) == Some((t@, e as int)),
            None => text_at(b@, i as int) is None,
        },
{
    match read_text_head(slice_subrange(b.as_slice(), i, b.len())) {
        Some((t, n)) => Some((t, i + n)),
        None => None,
    }
}

fn read_int(b: &Vec<u8>, i: usize) -> (r: Option<(i64, usize)>)
    requires
        i <= b.len(),
    ensures
        match r {
            Some((v, e)) => i < e <= b.len() && int_at(b@, i as int) == Some(
                (v as int, e as int),
            ),
            None => int_at(b@, i as int) is None,
        },
{
    match read_int_head(slice_subrange(b.as_slice(), i, b.len())) {
        Some((v, n)) => Some((v, i + n)),
        None => None,
    }
}

fn skip_any(b: &Vec<u8>, i: usize) -> (r: Option<usize>)
    requires
        i <= b.len(),
    ensures
        match r {
            Some(e) => i < e <= b.len() && past_any(b@, i as int) == Some(e as int),
            None => past_any(b@, i as int) is None,
        },
{
    match read_any_head(slice_subrange(b.as_slice(), i, b.len())) {
        Some(n) => Some(i + n),
        None => None,
    }
}

/// The word `null`.
pub open spec fn null_word() -> Seq<u8> {
    seq![0x6eu8, 0x75u8, 0x6cu8, 0x6cu8]
}

/// The place behind `null` at or, after white space, behind `i`.
pub open spec fn past_null(b: Seq<u8>, i: int) -> Option<int> {
    let k = past_space(b, i);
    if k + 4 <= b.len() && b.subrange(k, k + 4) == null_word() {
        Some(k + 4)
    } else {
        None
    }
}

fn skip_null(b: &Vec<u8>, i: usize) -> (r: Option<usize>)
    requires
        i <= b.len(),
    ensures
        match r {
            Some(n) => i < n <= b.len() && past_null(b@, i as int) == Some(n as int),
            None => past_null(b@, i as int) is None,
        },
{
    let k: usize = skip_space(b, i);
    let ghost w = b@.subrange(k as int, k + 4);
    if b.len() - k >= 4 && b[k] == 0x6e && b[k + 1] == 0x75 && b[k + 2] == 0x6c && b[k + 3]
        == 0x6c {
        assert(w =~= null_word());
        Some(k + 4)
    } else {
        proof {
            if k + 4 <= b.len() && w == null_word() {
                assert(w[0] == 0x6e && w[1] == 0x75 && w[2] == 0x6c && w[3] == 0x6c);
            }
        }
        None
    }
}

/// The role at `i`, and the place behind it: the name of a role, or an object
/// whose one member has that name and no value.
pub open spec fn role_at(b: Seq<u8>, i: int) -> Option<(Role, int)> {
    match past_byte(b, i, 0x7b) {
        Some(k) => match text_at(b, k) {
            Some((name, e)) => match past_byte(b, e, 0x3a) {
                Some(c) => match past_null(b, c) {
                    Some(v) => match (Role::named(name), past_byte(b, v, 0x7d)) {
                        (Some(role), Some(z)) => Some((role, z)),
                        _ => None,
                    },
                    None => None,
                },
                None => None,
            },
            None => None,
        },
        None => match text_at(b, i) {
            Some((name, e)) => match Role::named(name) {
                Some(role) => Some((role, e)),
                None => None,
            },
            None => None,
        },
    }
}

fn read_role(b: &Vec<u8>, i: usize) -> (r: Option<(Role, usize)>)
    requires
        i <= b.len(),
    ensures
        match r {
            Some((role, e)) => i < e <= b.len() && role_at(b@, i as int) == Some((role, e as int)),
            None => role_at(b@, i as int) is None,
        },
{
    match skip_byte(b, i, 0x7b) {
        Some(k) => {
            let (name, e) = read_text(b, k)?;
            let c: usize = skip_byte(b, e, 0x3a)?;
            let v: usize = skip_null(b, c)?;
            match (Role::parse(&name), skip_byte(b, v, 0x7d)) {
                (Some(role), Some(z)) => Some((role, z)),
                _ => None,
            }
        },
        None => {
            let (name, e) = read_text(b, i)?;
            match Role::parse(&name) {
                Some(role) => Some((role, e)),
                None => None,
            }
        },
    }
}

/// What was found once the value at `i` of the member of a name was taken, and
/// the place behind the value. A claim that was found before is refused.
pub open spec fn value_taken(b: Seq<u8>, i: int, name: Seq<char>, f: FoundV) -> Option<
    (FoundV, int),
> {
    if name == "sub"@ {
        match (f.sub, text_at(b, i)) {
            (None, Some((t, e))) => Some((FoundV { sub: Some(t), ..f }, e)),
            _ => None,
        }
    } else if name == "username"@ {
        match (f.username, text_at(b, i)) {
            (None, Some((t, e))) => Some((FoundV { username: Some(t), ..f }, e)),
            _ => None,
        }
    } else if name == "role"@ {
        match (f.role, role_at(b, i)) {
            (None, Some((r, e))) => Some((FoundV { role: Some(r), ..f }, e)),
            _ => None,
        }
    } else if name == "provider"@ {
        match (f.provider, text_at(b, i)) {
            (None, Some((t, e))) => Some((FoundV { provider: Some(t), ..f }, e)),
            _ => None,
        }
    } else if name == "exp"@ {
        match (f.exp, int_at(b, i)) {
            (None, Some((v, e))) => Some((FoundV { exp: Some(v), ..f }, e)),
            _ => None,
        }
    } else if name == "iat"@ {
        match (f.iat, int_at(b, i)) {
            (None, Some((v, e))) => Some((FoundV { iat: Some(v), ..f }, e)),
            _ => None,
        }
    } else {
        match past_any(b, i) {
            Some(e) => Some((f, e)),
            None => None,
        }
    }
}

fn take_value(b: &Vec<u8>, i: usize, name: &str, f: Found) -> (r: Option<(Found, usize)>)
    requires
        i <= b.len(),
    ensures
        match r {
            Some((g, e)) => i < e <= b.len() && value_taken(b@, i as int, name@, f@) == Some(
                (g@, e as int),
            ),
            None => value_taken(b@, i as int, name@, f@) is None,
        },
{
    if str_eq(name, "sub") {
        match (&f.sub, read_text(b, i)) {
            (None, Some((t, e))) => Some((Found { sub: Some(t), ..f }, e)),
            _ => None,
        }
    } else if str_eq(name, "username") {
        match (&f.username, read_text(b, i)) {
            (None, Some((t, e))) => Some((Found { username: Some(t), ..f }, e)),
            _ => None,
        }
    } else if str_eq(name, "role") {
        match (&f.role, read_role(b, i)) {
            (None, Some((r, e))) => Some((Found { role: Some(r), ..f }, e)),
            _ => None,
        }
    } else if str_eq(name, "provider") {
        match (&f.provider, read_text(b, i)) {
            (None, Some((t, e))) => Some((Found { provider: Some(t), ..f }, e)),
            _ => None,
        }
    } else if str_eq(name, "exp") {
        match (&f.exp, read_int(b, i)) {
            (None, Some((v, e))) => Some((Found { exp: Some(v), ..f }, e)),
            _ => None,
        }
    } else if str_eq(name, "iat") {
        match (&f.iat, read_int(b, i)) {
            (None, Some((v, e))) => Some((Found { iat: Some(v), ..f }, e)),
            _ => None,
        }
    } else {
        match skip_any(b, i) {
            Some(e) => Some((f, e)),
            None => None,
        }
    }
}

/// What was found once the member at `i` was taken, and the place behind it.
pub open spec fn member_taken(b: Seq<u8>, i: int, f: FoundV) -> Option<(FoundV, int)> {
    match text_at(b, i) {
        Some((name, e)) => match past_byte(b, e, 0x3a) {
            Some(c) => value_taken(b, c, name, f),
            None => None,
        },
        None => None,
    }
}

fn take_member(b: &Vec<u8>, i: usize, f: Found) -> (r: Option<(Found, usize)>)
    requires
        i <= b.len(),
    ensures
        match r {
            Some((g, e)) => i < e <= b.len() && member_taken(b@, i as int, f@) == Some(
                (g@, e as int),
            ),
            None => member_taken(b@, i as int, f@) is None,
        },
{
    let (name, e) = read_text(b, i)?;
    let c: usize = skip_byte(b, e, 0x3a)?;
    take_value(b, c, &name, f)
}

/// What was found once the members from `i` on were taken, and the place behind
/// the bracket that closes the object.
pub open spec fn members_taken(b: Seq<u8>, i: int, f: FoundV) -> Option<(FoundV, int)>
    decreases b.len() - i,
{
    match member_taken(b, i, f) {
        Some((g, e)) => match (past_byte(b, e, 0x7d), past_byte(b, e, 0x2c)) {
            (Some(z), _) => Some((g, z)),
            (None, Some(k)) => if i < k <= b.len() {
                members_taken(b, k, g)
            } else {
                None
            },
            _ => None,
        },
        None => None,
    }
}

fn take_members(b: &Vec<u8>, i: usize) -> (r: Option<(Found, usize)>)
    requires
        i <= b.len(),
    ensures
        match r {
            Some((g, e)) => e <= b.len() && members_taken(b@, i as int, nothing_found()) == Some(
                (g@, e as int),
            ),
            None => members_taken(b@, i as int, nothing_found()) is None,
        },
{
    let mut f = Found {
        sub: None,
        username: None,
        role: None,
        provider: None,
        exp: None,
        iat: None,
    };
    let mut at: usize = i;
    loop
        invariant
            at <= b.len(),
            members_taken(b@, i as int, nothing_found()) == members_taken(b@, at as int, f@),
        decreases b.len() - at,
    {
        let (g, e) = match take_member(b, at, f) {
            Some(p) => p,
            None => {
                return None;
            },
        };
        match skip_byte(b, e, 0x7d) {
            Some(z) => {
                return Some((g, z));
            },
            None => {},
        }
        match skip_byte(b, e, 0x2c) {
            Some(k) => {
                f = g;
                at = k;
            },
            None => {
                return None;
            },
        }
    }
}

/// The claims of an object in which they all were found. The provider may be
/// missing: then it is `local`.
pub open spec fn claims_found(f: FoundV) -> Option<ClaimsV> {
    match (f.sub, f.username, f.role, f.exp, f.iat) {
        (Some(sub), Some(username), Some(role), Some(exp), Some(iat)) => Some(
            ClaimsV {
                sub,
                username,
                role,
                provider: match f.provider {
                    Some(p) => p,
                    None => "local"@,
                },
                exp,
                iat,
            },
        ),
        _ => None,
    }
}

/// The claims in a payload: an object, each of whose claims stands there once and
/// has its type, and nothing but white space around it.
pub open spec fn payload_claims(b: Seq<u8>) -> Option<ClaimsV> {
    match past_byte(b, 0, 0x7b) {
        Some(k) => match past_byte(b, k, 0x7d) {
            Some(_) => None,
            None => match members_taken(b, k, nothing_found()) {
                Some((f, e)) => if past_space(b, e) == b.len() {
                    claims_found(f)
                } else {
                    None
                },
                None => None,
            },
        },
        None => None,
    }
}

/// The form of optional claims.
pub open spec fn claims_view(o: Option<Claims>) -> Option<ClaimsV> {
    match o {
        Some(c) => Some(c@),
        None => None,
    }
}

/// Reads the claims in a payload.
pub fn claims_in(b: &Vec<u8>) -> (r: Option<Claims>)
    ensures
        claims_view(r) == payload_claims(b@),
{
    let k: usize = skip_byte(b, 0, 0x7b)?;
    if skip_byte(b, k, 0x7d).is_some() {
        return None;
    }
    let (f, e) = take_members(b, k)?;
    if skip_space(b, e) != b.len() {
        return None;
    }
    match (f.sub, f.username, f.role, f.exp, f.iat) {
        (Some(sub), Some(username), Some(role), Some(exp), Some(iat)) => {
            let provider = match f.provider {
                Some(p) => p,
                None => lit("local"),
            };
            Some(Claims { sub, username, role, provider, exp, iat })
        },
        _ => None,
    }
}

/// The claims in a token.
pub open spec fn token_claims(token: Seq<char>) -> Option<ClaimsV> {
    match token_payload(token) {
        Some(b) => payload_claims(b),
        None => None,
    }
}

/// Reads the claims in a token, whoever signed it.
pub fn read_claims(token: &str) -> (r: Option<Claims>)
    ensures
        claims_view(r) == token_claims(token@),
{
    match read_payload(token) {
        Some(b) => claims_in(&b),
        None => None,
    }
}

/// The claim of the name was found.
pub open spec fn is_found(f: FoundV, name: Seq<char>) -> bool {
    ||| name == "sub"@ && f.sub is Some
    ||| name == "username"@ && f.username is Some
    ||| name == "role"@ && f.role is Some
    ||| name == "provider"@ && f.provider is Some
    ||| name == "exp"@ && f.exp is Some
    ||| name == "iat"@ && f.iat is Some
}

proof fn lemma_names_differ()
    ensures
        "sub"@ != "username"@ && "sub"@ != "role"@ && "sub"@ != "provider"@ && "sub"@ != "exp"@
            && "sub"@ != "iat"@,
        "username"@ != "role"@ && "username"@ != "provider"@ && "username"@ != "exp"@
            && "username"@ != "iat"@,
        "role"@ != "provider"@ && "role"@ != "exp"@ && "role"@ != "iat"@,
        "provider"@ != "exp"@ && "provider"@ != "iat"@,
        "exp"@ != "iat"@,
{
    reveal_strlit("sub");
    reveal_strlit("username");
    reveal_strlit("role");
    reveal_strlit("provider");
    reveal_strlit("exp");
    reveal_strlit("iat");
    assert("sub"@[0] != "exp"@[0] && "sub"@[0] != "iat"@[0] && "exp"@[0] != "iat"@[0]);
    assert("username"@[0] != "provider"@[0]);
    assert("sub"@.len() == 3 && "role"@.len() == 4 && "username"@.len() == 8 && "provider"@.len()
        == 8 && "exp"@.len() == 3 && "iat"@.len() == 3);
}

/// A claim stands once in a payload: what was found stays found while the members
/// are taken, and a member of its name is refused from then on.
pub proof fn law_claim_stands_once(
    b: Seq<u8>,
    i: int,
    name: Seq<char>,
    f: FoundV,
    other: Seq<char>,
)
    requires
        is_found(f, name),
    ensures
        value_taken(b, i, name, f) is None,
        value_taken(b, i, other, f) matches Some((g, _)) ==> is_found(g, name),
{
    lemma_names_differ();
}

/// The claims of a token are complete or none: only the provider may be missing,
/// and then the user is one of the service itself.
pub proof fn law_complete_claims(f: FoundV)
    ensures
        claims_found(f) is Some <==> f.sub is Some && f.username is Some && f.role is Some && f.exp
            is Some && f.iat is Some,
        claims_found(f) matches Some(c) ==> {
            &&& c.sub == f.sub->0 && c.username == f.username->0 && c.role == f.role->0
            &&& c.exp == f.exp->0 && c.iat == f.iat->0
            &&& f.provider is Some ==> c.provider == f.provider->0
            &&& f.provider is None ==> c.provider == "local"@
        },
{
}

/// A member of the payload fills the claim of its own name, and only once.
pub proof fn law_members_fill_their_claims(b: Seq<u8>, i: int, f: FoundV, g: FoundV, e: int)
    ensures
        value_taken(b, i, "sub"@, f) == Some((g, e)) ==> f.sub is None && text_at(b, i) == Some(
            (g.sub->0, e),
        ) && g.username == f.username && g.role == f.role && g.exp == f.exp && g.iat == f.iat,
        value_taken(b, i, "username"@, f) == Some((g, e)) ==> f.username is None && text_at(b, i)
            == Some((g.username->0, e)) && g.sub == f.sub && g.role == f.role,
        value_taken(b, i, "role"@, f) == Some((g, e)) ==> f.role is None && role_at(b, i) == Some(
            (g.role->0, e),
        ) && g.sub == f.sub && g.username == f.username,
        value_taken(b, i, "exp"@, f) == Some((g, e)) ==> f.exp is None && int_at(b, i) == Some(
            (g.exp->0, e),
        ) && g.iat == f.iat,
        value_taken(b, i, "iat"@, f) == Some((g, e)) ==> f.iat is None && int_at(b, i) == Some(
            (g.iat->0, e),
        ) && g.exp == f.exp,
        value_taken(b, i, "provider"@, f) == Some((g, e)) ==> f.provider is None && text_at(b, i)
            == Some((g.provider->0, e)) && g.sub == f.sub,
{
    reveal_strlit("sub");
    reveal_strlit("username");
    reveal_strlit("role");
    reveal_strlit("provider");
    reveal_strlit("exp");
    reveal_strlit("iat");
    assert("sub"@.len() == 3);
    assert("username"@.len() == 8);
    assert("role"@.len() == 4);
    assert("provider"@.len() == 8);
    assert("exp"@.len() == 3);
    assert("iat"@.len() == 3);
    assert("sub"@[0] == 's' && "exp"@[0] == 'e');
    assert("sub"@[0] == 's' && "iat"@[0] == 'i');
    assert("exp"@[0] == 'e' && "iat"@[0] == 'i');
    assert("username"@[0] == 'u' && "provider"@[0] == 'p');
}

} // verus!
