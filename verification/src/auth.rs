//! Users, roles, sessions and password resets.
use crate::config::AuthMode;
use crate::crypto::{hex_encode, hex_text, sha256_of, system_random_bytes};
use crate::error::{ApiResult, AppError, ErrorV};
use crate::json::text_or;
use crate::mail::{RESET_TOKEN_TTL_SECS, hash_token};
use crate::text::{lit, opt_text, str_eq};
use crate::time::{instant_view, is_writable, read_rfc3339, rfc3339_instant, write_rfc3339};
use crate::token::{ClaimsV, jwt_accepts, jwt_signed, read_claims, token_claims};
use argon2::password_hash::{PasswordHasher, PasswordVerifier};
use vstd::prelude::*;
use vstd::string::*;
use vstd::utf8::encode_utf8;

verus! {

#[derive(Debug, Clone, Copy, PartialEq, Eq, Structural)]
pub enum Role {
    Admin,
    Operator,
    Viewer,
}

impl Role {
    pub open spec fn name(self) -> Seq<char> {
        match self {
            Role::Admin => "admin"@,
            Role::Operator => "operator"@,
            Role::Viewer => "viewer"@,
        }
    }

    /// The role that a text names.
    pub open spec fn named(s: Seq<char>) -> Option<Role> {
        if s == "admin"@ {
            Some(Role::Admin)
        } else if s == "operator"@ {
            Some(Role::Operator)
        } else if s == "viewer"@ {
            Some(Role::Viewer)
        } else {
            None
        }
    }

    /// The role that a stored text names; an unknown one can only look.
    pub open spec fn stored(s: Seq<char>) -> Role {
        match Role::named(s) {
            Some(r) => r,
            None => Role::Viewer,
        }
    }

    pub fn as_str(self) -> (r: &'static str)
        ensures
            r@ == self.name(),
    {
        match self {
            Role::Admin => "admin",
            Role::Operator => "operator",
            Role::Viewer => "viewer",
        }
    }

    pub fn parse(s: &str) -> (r: Option<Role>)
        ensures
            r == Role::named(s@),
    {
        if str_eq(s, "admin") {
            Some(Role::Admin)
        } else if str_eq(s, "operator") {
            Some(Role::Operator)
        } else if str_eq(s, "viewer") {
            Some(Role::Viewer)
        } else {
            None
        }
    }

    /// The role that a stored text names; an unknown one can only look.
    pub fn from_stored(s: &str) -> (r: Role)
        ensures
            r == Role::stored(s@),
    {
        match Role::parse(s) {
            Some(r) => r,
            None => Role::Viewer,
        }
    }

    pub fn can_mutate(self) -> (r: bool)
        ensures
            r == (self == Role::Admin || self == Role::Operator),
    {
        match self {
            Role::Admin => true,
            Role::Operator => true,
            Role::Viewer => false,
        }
    }

    pub fn is_admin(self) -> (r: bool)
        ensures
            r == (self == Role::Admin),
    {
        match self {
            Role::Admin => true,
            _ => false,
        }
    }
}

/// A role is read back from its name.
pub proof fn law_role_roundtrip(r: Role)
    ensures
        Role::named(r.name()) == Some(r),
{
    reveal_strlit("admin");
    reveal_strlit("operator");
    reveal_strlit("viewer");
    assert("admin"@.len() == 5 && "operator"@.len() == 8 && "viewer"@.len() == 6);
}

/// What a session token says.
#[derive(Debug, PartialEq, Eq)]
pub struct Claims {
    pub sub: String,
    pub username: String,
    pub role: Role,
    /// `local` or `auth0`.
    pub provider: String,
    pub exp: i64,
    pub iat: i64,
}

#[derive(Debug, PartialEq, Eq)]
pub struct AuthUser {
    pub id: String,
    pub username: String,
    pub role: Role,
    pub provider: String,
}

#[derive(Debug, PartialEq, Eq)]
pub struct UserRecord {
    pub id: String,
    pub username: String,
    pub email: Option<String>,
    pub role: Role,
    pub password_hash: Option<String>,
    pub auth0_sub: Option<String>,
    pub disabled: bool,
    pub created_at: String,
    pub updated_at: Option<String>,
}

impl UserRecord {
    /// Where the user signs in.
    pub open spec fn origin(self) -> Seq<char> {
        if self.auth0_sub is Some && self.password_hash is None {
            "auth0"@
        } else if self.auth0_sub is Some {
            "both"@
        } else {
            "local"@
        }
    }

    pub fn source(&self) -> (r: &'static str)
        ensures
            r@ == self.origin(),
    {
        if self.auth0_sub.is_some() && self.password_hash.is_none() {
            "auth0"
        } else if self.auth0_sub.is_some() {
            "both"
        } else {
            "local"
        }
    }

    /// The user can sign in with a password here, or could get one.
    pub fn is_local(&self) -> (r: bool)
        ensures
            r == (self.auth0_sub is None || self.password_hash is Some),
    {
        self.auth0_sub.is_none() || self.password_hash.is_some()
    }

    pub fn is_auth0_only(&self) -> (r: bool)
        ensures
            r == (self.auth0_sub is Some && self.password_hash is None),
    {
        self.auth0_sub.is_some() && self.password_hash.is_none()
    }
}

/// A user is either local or known to the login service alone, and the source
/// says which.
pub proof fn law_user_source(u: UserRecord)
    ensures
        (u.auth0_sub is Some && u.password_hash is None) <==> u.origin() == "auth0"@,
        (u.auth0_sub is None || u.password_hash is Some) <==> u.origin() != "auth0"@,
{
    reveal_strlit("auth0");
    reveal_strlit("both");
    reveal_strlit("local");
    assert("auth0"@[0] == 'a' && "both"@[0] == 'b' && "local"@[0] == 'l');
}

/// A row of the users table.
#[derive(Debug, PartialEq, Eq)]
pub struct UserRow {
    pub id: String,
    pub username: String,
    pub email: Option<String>,
    pub role: String,
    pub password_hash: Option<String>,
    pub auth0_sub: Option<String>,
    pub disabled: i64,
    pub created_at: String,
    pub updated_at: Option<String>,
}

/// The user in a row.
pub fn get_user(row: UserRow) -> (r: UserRecord)
    ensures
        r.id@ == row.id@,
        r.username@ == row.username@,
        opt_text(r.email) == opt_text(row.email),
        r.role == Role::stored(row.role@),
        opt_text(r.password_hash) == opt_text(row.password_hash),
        opt_text(r.auth0_sub) == opt_text(row.auth0_sub),
        r.disabled == (row.disabled != 0),
        r.created_at@ == row.created_at@,
        opt_text(r.updated_at) == opt_text(row.updated_at),
{
    UserRecord {
        id: row.id,
        username: row.username,
        email: row.email,
        role: Role::from_stored(&row.role),
        password_hash: row.password_hash,
        auth0_sub: row.auth0_sub,
        disabled: row.disabled != 0,
        created_at: row.created_at,
        updated_at: row.updated_at,
    }
}

// ---------------------------------------------------------------------------
// Passwords
// ---------------------------------------------------------------------------

/// The password is the one that was hashed.
pub uninterp spec fn password_matches(password: Seq<char>, hash: Seq<char>) -> bool;

/// Calls `hash_password` of `argon2::Argon2` with a salt from the system.
/// Claimed: it succeeds exactly on passwords of less than four gibibytes, and
/// the hash is one that the password matches. An error is taken by its message,
/// that of `argon2::password_hash::Error::Password`.
#[verifier::external_body]
fn argon2_hash(password: &str) -> (r: Result<String, String>)
    ensures
        match r {
            Ok(h) => encode_utf8(password@).len() <= 0xffff_ffff && password_matches(
                password@,
                h@,
            ),
            Err(e) => encode_utf8(password@).len() > 0xffff_ffff && e@ == "invalid password"@,
        },
{
    let salt = argon2::password_hash::SaltString::generate(&mut rand::rngs::OsRng);
    match argon2::Argon2::default().hash_password(password.as_bytes(), &salt) {
        Ok(hash) => Ok(hash.to_string()),
        Err(e) => Err(e.to_string()),
    }
}

/// Calls `verify_password` of `argon2::Argon2` on a hash that
/// `argon2::PasswordHash::new` reads. Claimed: the answer depends on password
/// and hash alone.
#[verifier::external_body]
fn argon2_verify(password: &str, hash: &str) -> (r: bool)
    ensures
        r == password_matches(password@, hash@),
{
    match argon2::PasswordHash::new(hash) {
        Ok(parsed) => argon2::Argon2::default().verify_password(
            password.as_bytes(),
            &parsed,
        ).is_ok(),
        Err(_) => false,
    }
}

/// Hashes a password for storage. The password matches its hash.
pub fn hash_password(password: &str) -> (r: Result<String, String>)
    ensures
        match r {
            Ok(h) => encode_utf8(password@).len() <= 0xffff_ffff && password_matches(
                password@,
                h@,
            ),
            Err(e) => encode_utf8(password@).len() > 0xffff_ffff && e@ == "hash: "@
                + "invalid password"@,
        },
{
    match argon2_hash(password) {
        Ok(h) => Ok(h),
        Err(e) => Err(lit("hash: ").concat(&e)),
    }
}

/// Whether a password matches a stored hash.
pub fn verify_password(password: &str, hash: &str) -> (r: bool)
    ensures
        r == password_matches(password@, hash@),
{
    argon2_verify(password, hash)
}

// ---------------------------------------------------------------------------
// Session tokens
// ---------------------------------------------------------------------------

/// The signed token with the given claims: subject, user name, role, provider,
/// expiry and issue time.
pub uninterp spec fn jwt_text(
    sub: Seq<char>,
    username: Seq<char>,
    role: Seq<char>,
    provider: Seq<char>,
    exp: int,
    iat: int,
    key: Seq<u8>,
) -> Seq<char>;

/// Calls `jsonwebtoken::encode` with the default header, which signs with
/// HS256. Claimed: the token depends on claims and key alone, it is signed under
/// that key, and reading its payload gives the claims back.
#[verifier::external_body]
fn jwt_encode(
    sub: &str,
    username: &str,
    role: &str,
    provider: &str,
    exp: i64,
    iat: i64,
    key: &[u8],
) -> (r: Option<String>)
    requires
        Role::named(role@) is Some,
    ensures
        r is Some,
        r->0@ == jwt_text(sub@, username@, role@, provider@, exp as int, iat as int, key@),
        jwt_signed(r->0@, key@),
        token_claims(r->0@) == Some(
            (ClaimsV {
                sub: sub@,
                username: username@,
                role: Role::named(role@)->0,
                provider: provider@,
                exp: exp as int,
                iat: iat as int,
            }),
        ),
{
    let mut c = serde_json::Map::new();
    c.insert("sub".to_string(), sub.into());
    c.insert("username".to_string(), username.into());
    c.insert("role".to_string(), role.into());
    c.insert("provider".to_string(), provider.into());
    c.insert("exp".to_string(), exp.into());
    c.insert("iat".to_string(), iat.into());
    let key = jsonwebtoken::EncodingKey::from_secret(key);
    jsonwebtoken::encode(&jsonwebtoken::Header::default(), &c, &key).ok()
}

/// The provider that a session is issued for.
pub open spec fn session_provider(provider: Seq<char>) -> Seq<char> {
    if provider.len() == 0 {
        "local"@
    } else {
        provider
    }
}

/// The claims of a new session that begins at `now`.
pub fn session_claims(user: &AuthUser, now: i64, ttl_secs: i64) -> (r: Claims)
    requires
        i64::MIN <= now + ttl_secs <= i64::MAX,
    ensures
        r.sub@ == user.id@,
        r.username@ == user.username@,
        r.role == user.role,
        r.provider@ == session_provider(user.provider@),
        r.iat == now,
        r.exp == now + ttl_secs,
{
    Claims {
        sub: lit(&user.id),
        username: lit(&user.username),
        role: user.role,
        provider: if user.provider.is_empty() {
            lit("local")
        } else {
            lit(&user.provider)
        },
        exp: now + ttl_secs,
        iat: now,
    }
}

/// The token says what the user and the time of issue fix.
pub open spec fn is_session_of(
    token: Seq<char>,
    key: Seq<u8>,
    user: AuthUser,
    now: i64,
    ttl_secs: i64,
) -> bool {
    jwt_signed(token, key) && token_claims(token) == Some(
        (ClaimsV {
            sub: user.id@,
            username: user.username@,
            role: user.role,
            provider: session_provider(user.provider@),
            exp: now + ttl_secs,
            iat: now as int,
        }),
    )
}

/// Issues a session token at `now`. Decoding it under the same key, as long as
/// it has not expired, gives the user back.
pub fn issue_token(key: &[u8], ttl_secs: i64, user: &AuthUser, now: i64) -> (r: ApiResult<String>)
    requires
        i64::MIN <= now + ttl_secs <= i64::MAX,
    ensures
        r is Ok,
        is_session_of(r->Ok_0@, key@, *user, now, ttl_secs),
{
    let c = session_claims(user, now, ttl_secs);
    proof {
        law_role_roundtrip(user.role);
    }
    match jwt_encode(&c.sub, &c.username, c.role.as_str(), &c.provider, c.exp, c.iat, key) {
        Some(t) => Ok(t),
        None => Err(AppError::Anyhow(lit("jwt encode"))),
    }
}

/// The claims of a token, given whether it was accepted: refused where it was
/// not, and where it does not hold each claim once, in its type.
pub fn claims_of(accepted: bool, token: &str) -> (r: ApiResult<Claims>)
    ensures
        match r {
            Ok(c) => accepted && token_claims(token@) == Some(c@),
            Err(e) => e@ == ErrorV::Unauthorized && (!accepted || token_claims(token@) is None),
        },
{
    if !accepted {
        return Err(AppError::Unauthorized);
    }
    match read_claims(token) {
        Some(c) => Ok(c),
        None => Err(AppError::Unauthorized),
    }
}

/// The token is signed and the claims are those that it carries.
pub open spec fn carries(token: Seq<char>, key: Seq<u8>, c: Claims) -> bool {
    jwt_signed(token, key) && token_claims(token) == Some(c@)
}

/// Reads a session token. Whatever is accepted carries a valid signature.
pub fn decode_token(key: &[u8], token: &str) -> (r: ApiResult<Claims>)
    ensures
        match r {
            Ok(c) => carries(token@, key@, c),
            Err(e) => e@ == ErrorV::Unauthorized,
        },
{
    claims_of(jwt_accepts(token, key), token)
}

/// A token that was issued for a user carries exactly that user's claims.
pub proof fn law_token_carries_its_user(
    token: Seq<char>,
    key: Seq<u8>,
    user: AuthUser,
    now: i64,
    ttl_secs: i64,
    c: Claims,
)
    requires
        is_session_of(token, key, user, now, ttl_secs),
        carries(token, key, c),
    ensures
        c.sub@ == user.id@,
        c.username@ == user.username@,
        c.role == user.role,
        c.provider@ == session_provider(user.provider@),
        c.exp == now + ttl_secs,
        c.iat == now,
{
}

// ---------------------------------------------------------------------------
// Accounts
// ---------------------------------------------------------------------------

/// The password of the first admin; nothing where there are users already or
/// local sign-in is off.
pub fn seed_admin(user_count: i64, mode: AuthMode, admin_password: &Option<String>) -> (r: Option<
    String,
>)
    ensures
        opt_text(r) == (if user_count > 0 || mode == AuthMode::Auth0 {
            None
        } else {
            Some(text_or(opt_text(*admin_password), "admin"@))
        }),
{
    if user_count > 0 || !mode.allows_local() {
        return None;
    }
    match admin_password {
        Some(p) => Some(lit(p)),
        None => Some(lit("admin")),
    }
}

/// What is known of a user of the login service.
#[derive(Debug, PartialEq, Eq)]
pub struct KnownAuth0User {
    pub id: String,
    pub username: String,
    pub role: String,
    pub disabled: i64,
}

/// What a sign-in through the login service comes to: the known user, with the
/// stored role; a refusal where that is disabled; or, where the user is new,
/// one with the given id and role. The flag says whether the user is new.
pub fn find_or_create_auth0_user(
    known: Option<KnownAuth0User>,
    new_id: &str,
    username: &str,
    role: Role,
) -> (r: ApiResult<(AuthUser, bool)>)
    ensures
        match known {
            Some(k) => if k.disabled != 0 {
                r matches Err(e) && e@ == ErrorV::Unauthorized
            } else {
                &&& r matches Ok(p) && !p.1
                &&& r->Ok_0.0.id@ == k.id@
                &&& r->Ok_0.0.username@ == k.username@
                &&& r->Ok_0.0.role == Role::stored(k.role@)
                &&& r->Ok_0.0.provider@ == "auth0"@
            },
            None => {
                &&& r matches Ok(p) && p.1
                &&& r->Ok_0.0.id@ == new_id@
                &&& r->Ok_0.0.username@ == username@
                &&& r->Ok_0.0.role == role
                &&& r->Ok_0.0.provider@ == "auth0"@
            },
        },
{
    match known {
        Some(k) => {
            if k.disabled != 0 {
                return Err(AppError::Unauthorized);
            }
            let role = Role::from_stored(&k.role);
            Ok(
                (
                    AuthUser { id: k.id, username: k.username, role, provider: lit("auth0") },
                    false,
                ),
            )
        },
        None => Ok(
            (
                AuthUser {
                    id: lit(new_id),
                    username: lit(username),
                    role,
                    provider: lit("auth0"),
                },
                true,
            ),
        ),
    }
}

/// The user is an admin that can sign in.
pub open spec fn acts_as_admin(u: UserRecord) -> bool {
    u.role == Role::Admin && !u.disabled
}

/// Number of such admins.
pub open spec fn enabled_admins(users: Seq<UserRecord>) -> nat
    decreases users.len(),
{
    if users.len() == 0 {
        0
    } else {
        enabled_admins(users.drop_last()) + (if acts_as_admin(users.last()) {
            1nat
        } else {
            0nat
        })
    }
}

/// Counts the admins that can sign in.
pub fn count_enabled_admins(users: &Vec<UserRecord>) -> (r: usize)
    ensures
        r == enabled_admins(users@),
{
    let mut n: usize = 0;
    let mut i: usize = 0;
    while i < users.len()
        invariant
            i <= users.len(),
            n <= i,
            n == enabled_admins(users@.take(i as int)),
        decreases users.len() - i,
    {
        assert(users@.take(i + 1).drop_last() =~= users@.take(i as int));
        assert(users@.take(i + 1).last() == users@[i as int]);
        if users[i].role.is_admin() && !users[i].disabled {
            n += 1;
        }
        i += 1;
    }
    assert(users@.take(users.len() as int) =~= users@);
    n
}

/// Refuses to disable or demote the last admin that can sign in; `admins` is
/// the number of those.
pub fn ensure_not_last_enabled_admin(admins: i64, user: &UserRecord) -> (r: ApiResult<()>)
    ensures
        match r {
            Ok(_) => !(acts_as_admin(*user) && admins <= 1),
            Err(e) => acts_as_admin(*user) && admins <= 1 && e@ == ErrorV::BadRequest(
                "cannot disable or demote the last enabled admin"@,
            ),
        },
{
    if user.role.is_admin() && !user.disabled && admins <= 1 {
        Err(AppError::bad("cannot disable or demote the last enabled admin"))
    } else {
        Ok(())
    }
}

proof fn lemma_admins_update(users: Seq<UserRecord>, k: int, changed: UserRecord)
    requires
        0 <= k < users.len(),
    ensures
        enabled_admins(users.update(k, changed)) + (if acts_as_admin(users[k]) {
            1nat
        } else {
            0nat
        }) == enabled_admins(users) + (if acts_as_admin(changed) {
            1nat
        } else {
            0nat
        }),
    decreases users.len(),
{
    if k == users.len() - 1 {
        assert(users.update(k, changed).drop_last() =~= users.drop_last());
    } else {
        assert(users.update(k, changed).drop_last() =~= users.drop_last().update(k, changed));
        lemma_admins_update(users.drop_last(), k, changed);
    }
}

/// Where a change of a user is not refused, an admin that can sign in remains
/// if there was one.
pub proof fn law_an_admin_remains(users: Seq<UserRecord>, k: int, changed: UserRecord)
    requires
        0 <= k < users.len(),
        enabled_admins(users) > 0,
        !(acts_as_admin(users[k]) && enabled_admins(users) <= 1),
    ensures
        enabled_admins(users.update(k, changed)) > 0,
{
    lemma_admins_update(users, k, changed);
}

// ---------------------------------------------------------------------------
// Password resets
// ---------------------------------------------------------------------------

/// A fresh token: 64 hexadecimal digits.
pub fn generate_reset_token() -> (r: String)
    ensures
        r@.len() == 64,
        exists|b: Seq<u8>| b.len() == 32 && r@ == #[trigger] hex_text(b),
{
    let bytes = system_random_bytes(32);
    let r = hex_encode(&bytes);
    assert(r@ == hex_text(bytes@));
    r
}

/// The first time is before the second.
pub open spec fn earlier(a: (int, nat), b: (int, nat)) -> bool {
    a.0 < b.0 || (a.0 == b.0 && a.1 < b.1)
}

/// A stored reset token.
#[derive(Debug, PartialEq, Eq)]
pub struct ResetTokenRow {
    pub id: String,
    pub user_id: String,
    /// The digest of the token.
    pub token_hash: String,
    pub expires_at: String,
    pub used_at: Option<String>,
}

/// The mathematical form of a stored token.
#[verifier::ext_equal]
pub ghost struct TokenV {
    pub id: Seq<char>,
    pub user: Seq<char>,
    pub hash: Seq<char>,
    pub expires: Option<(int, nat)>,
    pub used: bool,
}

impl View for ResetTokenRow {
    type V = TokenV;

    open spec fn view(&self) -> TokenV {
        TokenV {
            id: self.id@,
            user: self.user_id@,
            hash: self.token_hash@,
            expires: rfc3339_instant(self.expires_at@),
            used: self.used_at is Some,
        }
    }
}

/// The digest under which a token is stored.
pub open spec fn token_digest(raw: Seq<char>) -> Seq<char> {
    hex_text(sha256_of(encode_utf8(raw)))
}

/// When a token that is made at `now` expires.
pub open spec fn token_expiry(now: (int, nat)) -> (int, nat) {
    (now.0 + RESET_TOKEN_TTL_SECS, now.1)
}

/// A token that was issued: the token itself, and what is to be stored. Tokens
/// of the user that were not used are marked as used at `retired_at`; then the
/// row is added.
#[derive(Debug, PartialEq, Eq)]
pub struct IssuedToken {
    pub raw: String,
    pub retired_at: String,
    pub row: ResetTokenRow,
}

/// Issues a reset token for a user. What is stored is its digest.
pub fn create_password_reset_token(user_id: &str, id: &str, now: (i64, u32)) -> (r: IssuedToken)
    requires
        is_writable((now.0 as int, now.1 as nat)),
        is_writable(token_expiry((now.0 as int, now.1 as nat))),
    ensures
        r.raw@.len() == 64,
        exists|b: Seq<u8>| b.len() == 32 && r.raw@ == #[trigger] hex_text(b),
        rfc3339_instant(r.retired_at@) == Some((now.0 as int, now.1 as nat)),
        r.row@ == (TokenV {
            id: id@,
            user: user_id@,
            hash: token_digest(r.raw@),
            expires: Some(token_expiry((now.0 as int, now.1 as nat))),
            used: false,
        }),
{
    let raw = generate_reset_token();
    let row = ResetTokenRow {
        id: lit(id),
        user_id: lit(user_id),
        token_hash: hash_token(&raw),
        expires_at: write_rfc3339((now.0 + RESET_TOKEN_TTL_SECS, now.1)),
        used_at: None,
    };
    IssuedToken { raw, retired_at: write_rfc3339(now), row }
}

/// The token can be used at the time.
pub open spec fn is_usable(t: TokenV, now: (int, nat)) -> bool {
    !t.used && t.expires is Some && !earlier(t.expires->0, now)
}

/// Decides on the use of a reset token, given its row and when that says that it
/// expires: the id of the token and of its user, where it exists, was not used
/// and has not expired.
pub fn reset_token_user(row: Option<ResetTokenRow>, expires: Option<(i64, u32)>, now: (i64, u32)) -> (r:
    ApiResult<(String, String)>)
    ensures
        ({
            let usable = row is Some && is_usable(
                TokenV { expires: instant_view(expires), ..row->0@ },
                (now.0 as int, now.1 as nat),
            );
            match r {
                Ok(p) => usable && p.0@ == row->0.id@ && p.1@ == row->0.user_id@,
                Err(e) => !usable && e@ == ErrorV::BadRequest("invalid or expired reset token"@),
            }
        }),
{
    match row {
        Some(t) => match expires {
            Some((s, n)) => {
                let past = s < now.0 || (s == now.0 && n < now.1);
                if t.used_at.is_some() || past {
                    Err(AppError::bad("invalid or expired reset token"))
                } else {
                    Ok((t.id, t.user_id))
                }
            },
            None => Err(AppError::bad("invalid or expired reset token")),
        },
        None => Err(AppError::bad("invalid or expired reset token")),
    }
}

/// Decides on the use of a reset token at `now`; the row is the one under the
/// digest of the token.
pub fn consume_password_reset_token(row: Option<ResetTokenRow>, now: (i64, u32)) -> (r: ApiResult<
    (String, String),
>)
    ensures
        ({
            let usable = row is Some && is_usable(row->0@, (now.0 as int, now.1 as nat));
            match r {
                Ok(p) => usable && p.0@ == row->0.id@ && p.1@ == row->0.user_id@,
                Err(e) => !usable && e@ == ErrorV::BadRequest("invalid or expired reset token"@),
            }
        }),
{
    let expires = match &row {
        Some(t) => read_rfc3339(&t.expires_at),
        None => None,
    };
    reset_token_user(row, expires, now)
}

/// Of two uses of one token at the same time only the one that marks the row
/// counts; `marked` is the number of rows that were marked.
pub fn reset_token_claimed(marked: u64, user_id: String) -> (r: ApiResult<String>)
    ensures
        match r {
            Ok(u) => marked != 0 && u@ == user_id@,
            Err(e) => marked == 0 && e@ == ErrorV::BadRequest("invalid or expired reset token"@),
        },
{
    if marked == 0 {
        Err(AppError::bad("invalid or expired reset token"))
    } else {
        Ok(user_id)
    }
}

/// The stored tokens after a token was issued: those of its user are used up,
/// and it is added.
pub open spec fn with_issued(rows: Seq<TokenV>, t: TokenV) -> Seq<TokenV> {
    Seq::new(
        rows.len(),
        |i: int|
            if rows[i].user == t.user {
                TokenV { used: true, ..rows[i] }
            } else {
                rows[i]
            },
    ).push(t)
}

/// The place of the token with the digest, the number of tokens where there is
/// none.
pub open spec fn token_place(rows: Seq<TokenV>, hash: Seq<char>, i: int) -> int
    decreases rows.len() - i,
{
    if 0 <= i < rows.len() && rows[i].hash != hash {
        token_place(rows, hash, i + 1)
    } else {
        i
    }
}

/// What comes of the use of the token with the digest: the stored tokens, and the
/// user where the token could be used.
pub open spec fn with_used(rows: Seq<TokenV>, hash: Seq<char>, now: (int, nat)) -> (
    Seq<TokenV>,
    Option<Seq<char>>,
) {
    let k = token_place(rows, hash, 0);
    if k < rows.len() && is_usable(rows[k], now) {
        (rows.update(k, TokenV { used: true, ..rows[k] }), Some(rows[k].user))
    } else {
        (rows, None)
    }
}

proof fn lemma_token_place(rows: Seq<TokenV>, hash: Seq<char>, i: int, k: int)
    requires
        0 <= i <= k < rows.len(),
        rows[k].hash == hash,
        forall|j: int| i <= j < k ==> (#[trigger] rows[j]).hash != hash,
    ensures
        token_place(rows, hash, i) == k,
    decreases k - i,
{
    if i < k {
        lemma_token_place(rows, hash, i + 1, k);
    }
}

proof fn lemma_place_found(rows: Seq<TokenV>, hash: Seq<char>, i: int)
    requires
        0 <= i <= rows.len(),
    ensures
        i <= token_place(rows, hash, i) <= rows.len(),
        token_place(rows, hash, i) < rows.len() ==> rows[token_place(rows, hash, i)].hash == hash,
        forall|j: int| i <= j < token_place(rows, hash, i) ==> (#[trigger] rows[j]).hash != hash,
    decreases rows.len() - i,
{
    if i < rows.len() && rows[i].hash != hash {
        lemma_place_found(rows, hash, i + 1);
    }
}

/// A token that was issued, with a digest that no stored token has, gives its
/// user when it is used before it expires, and is refused from then on, whatever
/// the time; the refusal changes nothing.
pub proof fn law_reset_token_single_use(
    rows: Seq<TokenV>,
    t: TokenV,
    issued: (int, nat),
    now: (int, nat),
    later: (int, nat),
)
    requires
        !t.used,
        t.expires == Some(token_expiry(issued)),
        !earlier(token_expiry(issued), now),
        forall|i: int| 0 <= i < rows.len() ==> (#[trigger] rows[i]).hash != t.hash,
    ensures
        with_used(with_issued(rows, t), t.hash, now).1 == Some(t.user),
        ({
            let used = with_used(with_issued(rows, t), t.hash, now).0;
            with_used(used, t.hash, later) == (used, None::<Seq<char>>)
        }),
{
    let a = with_issued(rows, t);
    let k = rows.len() as int;
    lemma_token_place(a, t.hash, 0, k);
    let b = with_used(a, t.hash, now).0;
    assert forall|j: int| 0 <= j < k implies (#[trigger] b[j]).hash != t.hash by {
        assert(b[j] == a[j]);
        assert(rows[j].hash != t.hash);
    }
    lemma_token_place(b, t.hash, 0, k);
}

/// A newer token of a user retires the older ones: none of them can be used any
/// more, whatever the time. Tokens of others are as good as before.
pub proof fn law_newer_token_retires_older(
    rows: Seq<TokenV>,
    t: TokenV,
    hash: Seq<char>,
    now: (int, nat),
)
    requires
        token_place(rows, hash, 0) < rows.len(),
    ensures
        rows[token_place(rows, hash, 0)].user == t.user ==> with_used(
            with_issued(rows, t),
            hash,
            now,
        ) == (with_issued(rows, t), None::<Seq<char>>),
        rows[token_place(rows, hash, 0)].user != t.user ==> with_used(
            with_issued(rows, t),
            hash,
            now,
        ).1 == with_used(rows, hash, now).1,
{
    let a = with_issued(rows, t);
    let k = token_place(rows, hash, 0);
    lemma_place_found(rows, hash, 0);
    assert forall|j: int| 0 <= j < k implies (#[trigger] a[j]).hash != hash by {
        assert(rows[j].hash != hash);
    }
    lemma_token_place(a, hash, 0, k);
}

/// A token that is unknown, was used, or has expired is refused, no other is, and
/// a refusal changes no stored token.
pub proof fn law_refused_token_changes_nothing(
    rows: Seq<TokenV>,
    hash: Seq<char>,
    now: (int, nat),
)
    ensures
        ({
            let k = token_place(rows, hash, 0);
            let (after, user) = with_used(rows, hash, now);
            &&& user is None <==> k >= rows.len() || rows[k].used || rows[k].expires is None
                || earlier(rows[k].expires->0, now)
            &&& user is None ==> after == rows
        }),
{
}

/// What happens to stored tokens.
pub ghost enum TokenEvent {
    Issue(TokenV),
    Use(Seq<char>, (int, nat)),
}

/// The stored tokens after a series of events.
pub open spec fn tokens_after(rows: Seq<TokenV>, es: Seq<TokenEvent>) -> Seq<TokenV>
    decreases es.len(),
{
    if es.len() == 0 {
        rows
    } else {
        let before = tokens_after(rows, es.drop_last());
        match es.last() {
            TokenEvent::Issue(t) => with_issued(before, t),
            TokenEvent::Use(hash, now) => with_used(before, hash, now).0,
        }
    }
}

proof fn lemma_tokens_after(rows: Seq<TokenV>, es: Seq<TokenEvent>)
    ensures
        tokens_after(rows, es).len() >= rows.len(),
        forall|i: int|
            0 <= i < rows.len() ==> {
                let t = #[trigger] tokens_after(rows, es)[i];
                t.hash == rows[i].hash && t.user == rows[i].user && t.expires == rows[i].expires && (
                rows[i].used ==> t.used)
            },
    decreases es.len(),
{
    if es.len() > 0 {
        lemma_tokens_after(rows, es.drop_last());
        let before = tokens_after(rows, es.drop_last());
        let after = tokens_after(rows, es);
        match es.last() {
            TokenEvent::Issue(_) => {},
            TokenEvent::Use(hash, _) => {
                lemma_place_found(before, hash, 0);
            },
        }
        assert forall|i: int| 0 <= i < rows.len() implies {
            let t = #[trigger] after[i];
            t.hash == rows[i].hash && t.user == rows[i].user && t.expires == rows[i].expires && (
            rows[i].used ==> t.used)
        } by {
            assert(before[i].hash == rows[i].hash);
        }
    }
}

/// A token that cannot be used at a time because it was used or has expired is
/// refused at every later time, whatever was issued or used in between.
pub proof fn law_refused_token_stays_refused(
    rows: Seq<TokenV>,
    hash: Seq<char>,
    es: Seq<TokenEvent>,
    now: (int, nat),
    later: (int, nat),
)
    requires
        token_place(rows, hash, 0) < rows.len(),
        with_used(rows, hash, now).1 is None,
        !earlier(later, now),
    ensures
        with_used(tokens_after(rows, es), hash, later) == (
            tokens_after(rows, es),
            None::<Seq<char>>,
        ),
{
    let k = token_place(rows, hash, 0);
    let after = tokens_after(rows, es);
    lemma_place_found(rows, hash, 0);
    lemma_tokens_after(rows, es);
    assert(after[k].hash == hash);
    assert forall|j: int| 0 <= j < k implies (#[trigger] after[j]).hash != hash by {
        assert(rows[j].hash != hash);
    }
    lemma_token_place(after, hash, 0, k);
}

/// A token for a reset can be used exactly once it is issued, while it was not
/// used, and for an hour.
pub proof fn law_reset_token_lasts_an_hour(t: TokenV, issued: (int, nat), now: (int, nat))
    requires
        t.expires == Some(token_expiry(issued)),
    ensures
        !t.used && now.0 < issued.0 + 3600 ==> is_usable(t, now),
        now.0 > issued.0 + 3600 ==> !is_usable(t, now),
        t.used ==> !is_usable(t, now),
        !t.used && now.0 == issued.0 + 3600 ==> (is_usable(t, now) <==> now.1 <= issued.1),
{
}

/// A role that is stored under no known name is the one with the fewest rights.
pub proof fn law_unknown_roles_only_look(s: Seq<char>)
    ensures
        s != "admin"@ && s != "operator"@ ==> Role::stored(s) == Role::Viewer,
        s == "admin"@ <==> Role::stored(s) == Role::Admin,
        s == "operator"@ <==> Role::stored(s) == Role::Operator,
{
    reveal_strlit("admin");
    reveal_strlit("operator");
    reveal_strlit("viewer");
    assert("admin"@.len() == 5);
    assert("operator"@.len() == 8);
    assert("viewer"@.len() == 6);
}

/// Only a user who is an admin and not shut out counts as one.
pub proof fn law_who_acts_as_admin(users: Seq<UserRecord>, u: UserRecord)
    ensures
        enabled_admins(users.push(u)) == enabled_admins(users) + (if u.role == Role::Admin
            && !u.disabled {
            1nat
        } else {
            0nat
        }),
        enabled_admins(Seq::empty()) == 0,
{
    assert(users.push(u).drop_last() =~= users);
}

} // verus!
