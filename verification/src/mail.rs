//! Messages on password resets and on new users of the login service.
use crate::config::Config;
use crate::crypto::{hex_encode, hex_text, sha256, sha256_of};
use crate::text::{ends_with, lit, str_trim_end_char, trim_end_char};
use vstd::prelude::*;
use vstd::string::*;
use vstd::utf8::encode_utf8;

verus! {

/// How long a password reset can wait, in seconds.
pub const RESET_TOKEN_TTL_SECS: i64 = 3600;

/// The form in which a reset token is stored: the hexadecimal digits of its
/// SHA-256 digest.
pub fn hash_token(raw: &str) -> (r: String)
    ensures
        r@ == hex_text(sha256_of(encode_utf8(raw@))),
        r@.len() == 64,
{
    let d = sha256(raw.as_bytes());
    hex_encode(&d)
}

pub fn mail_enabled(cfg: &Config) -> (r: bool)
    ensures
        r == (cfg.smtp is Some),
{
    cfg.smtp.is_some()
}

/// Whether a message is sent at all: a relay is configured and there is a
/// recipient.
pub fn should_send(cfg: &Config, to: &Vec<String>) -> (r: bool)
    ensures
        r == (cfg.smtp is Some && to@.len() > 0),
{
    cfg.smtp.is_some() && to.len() > 0
}

/// The link that resets a password.
pub open spec fn reset_link(public_url: Seq<char>, token: Seq<char>) -> Seq<char> {
    trim_end_char(public_url, '/') + "/#/reset-password?token="@ + token
}

/// Subject and text of the message on a password reset.
pub fn password_reset_email(cfg: &Config, username: &str, raw_token: &str) -> (r: (String, String))
    ensures
        r.0@ == "Pertisk KOS password reset"@,
        r.1@ == "Hello "@ + username@
            + ",\n\nA password reset was requested for your Pertisk KOS account.\n\nReset link (valid for one hour, single use):\n"@
            + reset_link(cfg.public_url@, raw_token@)
            + "\n\nIf you did not request this, you can ignore this email.\n"@,
{
    let link = str_trim_end_char(&cfg.public_url, '/').concat("/#/reset-password?token=").concat(
        raw_token,
    );
    let body = lit("Hello ").concat(username).concat(
        ",\n\nA password reset was requested for your Pertisk KOS account.\n\nReset link (valid for one hour, single use):\n",
    ).concat(&link).concat("\n\nIf you did not request this, you can ignore this email.\n");
    (lit("Pertisk KOS password reset"), body)
}

/// Subject and text of the message on a new user of the login service.
pub fn auth0_new_user_email(cfg: &Config, username: &str, role: &str, user_id: &str) -> (r: (
    String,
    String,
))
    ensures
        r.0@ == "Pertisk KOS: new Auth0 user signed in"@,
        r.1@
            == "A new Auth0 identity signed into Pertisk KOS for the first time.\n\nUsername: "@
            + username@ + "\nRole (from Auth0 claim): "@ + role@ + "\nUser id: "@ + user_id@
            + "\nPublic URL: "@ + cfg.public_url@
            + "\n\nAccess is controlled by Auth0 configuration and claims — Pertisk does not require local approval.\n"@,
{
    let body = lit(
        "A new Auth0 identity signed into Pertisk KOS for the first time.\n\nUsername: ",
    ).concat(username).concat("\nRole (from Auth0 claim): ").concat(role).concat(
        "\nUser id: ",
    ).concat(user_id).concat("\nPublic URL: ").concat(&cfg.public_url).concat(
        "\n\nAccess is controlled by Auth0 configuration and claims — Pertisk does not require local approval.\n",
    );
    (lit("Pertisk KOS: new Auth0 user signed in"), body)
}

/// The link of a reset leads to the page of the service, with the token at its
/// end; a slash at the end of the address makes no difference.
pub proof fn law_reset_link(url: Seq<char>, token: Seq<char>)
    ensures
        reset_link(url, token) == trim_end_char(url, '/') + "/#/reset-password?token="@ + token,
        ends_with(reset_link(url, token), token),
{
    let r = reset_link(url, token);
    assert(r.subrange(r.len() - token.len(), r.len() as int) =~= token);
    assert(r.skip(r.len() - token.len()) =~= token);
}

} // verus!
