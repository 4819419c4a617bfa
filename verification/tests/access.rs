//! Users, secrets, mail, settings and images.
use pertisk_mgmt::auth::{
    AuthUser, KnownAuth0User, ResetTokenRow, Role, UserRecord, UserRow, claims_of,
    consume_password_reset_token, count_enabled_admins, create_password_reset_token, decode_token,
    ensure_not_last_enabled_admin, find_or_create_auth0_user, generate_reset_token, get_user,
    hash_password, issue_token, reset_token_claimed, seed_admin, verify_password,
};
use pertisk_mgmt::cloud_images::{
    ImageFile, dest_name, find_for_arch, list, missing_message, sanitize_filename, verify_qcow2,
};
use pertisk_mgmt::config::{
    AuthMode, Config, Listen, SmtpTlsMode, public_url_host_unusable, require_nonempty,
    resolve_metrics_tls, resolve_public_url,
};
use pertisk_mgmt::crypto::{CryptoError, decrypt, encrypt, encrypt_with};
use pertisk_mgmt::error::AppError;
use pertisk_mgmt::events::MgmtEvent;
use pertisk_mgmt::ip::Ip;
use pertisk_mgmt::mail::{auth0_new_user_email, hash_token, mail_enabled, password_reset_email};
use pertisk_mgmt::token::claims_in;
use sha2::{Digest, Sha256};

fn env(pairs: &[(&str, &str)]) -> Vec<(String, String)> {
    pairs
        .iter()
        .map(|(k, v)| (k.to_string(), v.to_string()))
        .collect()
}

fn base_cfg() -> Config {
    Config {
        listen: Listen {
            ip: Ip::V4(127, 0, 0, 1),
            port: 8080,
        },
        db: "./data/mgmt.db".into(),
        data_dir: "./data".into(),
        lab_up: "./scripts/proxmox-lab-up.sh".into(),
        pertiskctl: "./out/bin/pertiskctl".into(),
        auth_mode: AuthMode::Local,
        admin_user: "admin".into(),
        admin_password: None,
        secret_key: vec![0u8; 32],
        jwt_ttl_secs: 3600,
        auth0_domain: None,
        auth0_client_id: None,
        auth0_client_secret: None,
        auth0_audience: None,
        public_url: "http://127.0.0.1:8080".into(),
        metrics_token: None,
        metrics_tls: None,
        images_dir: "./data/images".into(),
        smtp: None,
        admin_emails: vec![],
    }
}

fn user(id: &str, role: Role, hash: Option<String>, sub: Option<&str>, disabled: bool) -> UserRecord {
    UserRecord {
        id: id.into(),
        username: id.into(),
        email: None,
        role,
        password_hash: hash,
        auth0_sub: sub.map(|s| s.to_string()),
        disabled,
        created_at: String::new(),
        updated_at: None,
    }
}

// ---------------------------------------------------------------------------
// Secrets
// ---------------------------------------------------------------------------

#[test]
fn roundtrip() {
    let key = Sha256::digest(b"test-key").to_vec();
    let enc = encrypt(&key, "secret-token").unwrap();
    assert_ne!(enc, "secret-token");
    assert_eq!(decrypt(&key, &enc).unwrap(), "secret-token");
}

#[test]
fn sealed_text_is_bound_to_key_and_nonce() {
    let a = encrypt_with(&[1; 32], &[2; 12], "x").unwrap();
    assert_eq!(encrypt_with(&[1; 32], &[2; 12], "x").unwrap(), a);
    assert_ne!(encrypt_with(&[1; 32], &[3; 12], "x").unwrap(), a);
    assert_eq!(decrypt(&[9; 32], &a).unwrap_err(), CryptoError::Decrypt);
}

#[test]
fn each_way_to_fail_to_open() {
    let key = [1u8; 32];
    assert_eq!(decrypt(&key, "!!").unwrap_err(), CryptoError::Base64);
    assert_eq!(decrypt(&key, "AAAA").unwrap_err(), CryptoError::TooShort);
    assert_eq!(
        decrypt(&[1u8; 5], "AAAAAAAAAAAAAAAAAAAAAAAA").unwrap_err(),
        CryptoError::AesKey
    );
    assert_eq!(
        decrypt(&key, "AAAAAAAAAAAAAAAAAAAAAAAA").unwrap_err(),
        CryptoError::Decrypt
    );
    assert_eq!(encrypt(&[1u8; 5], "x").unwrap_err(), CryptoError::AesKey);
    assert_eq!(CryptoError::TooShort.message(), "ciphertext too short");
}

// ---------------------------------------------------------------------------
// Users
// ---------------------------------------------------------------------------

#[test]
fn role_parse_validates() {
    assert_eq!(Role::parse("admin"), Some(Role::Admin));
    assert_eq!(Role::parse("operator"), Some(Role::Operator));
    assert_eq!(Role::parse("viewer"), Some(Role::Viewer));
    assert_eq!(Role::parse("root"), None);
    assert_eq!(Role::parse(""), None);
}

#[test]
fn role_permissions() {
    assert!(Role::Admin.can_mutate());
    assert!(Role::Operator.can_mutate());
    assert!(!Role::Viewer.can_mutate());
    assert!(Role::Admin.is_admin());
    assert!(!Role::Operator.is_admin());
}

#[test]
fn disabled_user_flag_visible_on_lookup() {
    let hash = hash_password("password1").unwrap();
    let row = UserRow {
        id: "1".into(),
        username: "bob".into(),
        email: None,
        role: "viewer".into(),
        password_hash: Some(hash),
        auth0_sub: None,
        disabled: 1,
        created_at: String::new(),
        updated_at: None,
    };
    let bob = get_user(row);
    assert!(bob.disabled);
    assert!(verify_password("password1", bob.password_hash.as_ref().unwrap()));
    assert!(!verify_password("password2", bob.password_hash.as_ref().unwrap()));
}

#[test]
fn password_reset_token_single_use() {
    let raw = generate_reset_token();
    let hash = hash_token(&raw);
    assert_ne!(raw, hash);
    let row = |used: Option<&str>| ResetTokenRow {
        id: "t".into(),
        user_id: "alice".into(),
        token_hash: hash.clone(),
        expires_at: "2030-01-01T00:00:00+00:00".into(),
        used_at: used.map(|s| s.to_string()),
    };
    let now = (1_700_000_000, 0);
    let (tid, uid) = consume_password_reset_token(Some(row(None)), now).unwrap();
    assert_eq!((tid.as_str(), uid.as_str()), ("t", "alice"));
    assert_eq!(reset_token_claimed(1, uid).unwrap(), "alice");
    let err = consume_password_reset_token(Some(row(Some("x"))), now).unwrap_err();
    assert!(err.message().contains("invalid or expired"));
    let err = reset_token_claimed(0, "alice".into()).unwrap_err();
    assert!(err.message().contains("invalid or expired"));
}

#[test]
fn password_reset_token_rejects_expired() {
    let row = ResetTokenRow {
        id: "t".into(),
        user_id: "carol".into(),
        token_hash: hash_token("raw"),
        expires_at: "2023-11-14T20:13:20+00:00".into(),
        used_at: None,
    };
    // Two hours later.
    let err = consume_password_reset_token(Some(row), (1_700_000_000, 0)).unwrap_err();
    assert!(err.message().contains("invalid or expired"));
    let err = consume_password_reset_token(None, (1_700_000_000, 0)).unwrap_err();
    assert!(err.message().contains("invalid or expired"));
}

#[test]
fn final_enabled_admin_protected() {
    let admin = user("admin", Role::Admin, Some("h".into()), None, false);
    let err = ensure_not_last_enabled_admin(1, &admin).unwrap_err();
    assert!(err.message().contains("last enabled admin"));
    let second = user("admin2", Role::Admin, Some("h".into()), None, false);
    let off = user("admin3", Role::Admin, Some("h".into()), None, true);
    let users = vec![admin, second, off];
    assert_eq!(count_enabled_admins(&users), 2);
    ensure_not_last_enabled_admin(2, &users[0]).unwrap();
    ensure_not_last_enabled_admin(1, &users[2]).unwrap();
}

#[test]
fn auth0_only_source() {
    let (signed_in, created) =
        find_or_create_auth0_user(None, "id-1", "sso@ex.com", Role::Viewer).unwrap();
    assert!(created);
    assert_eq!(signed_in.provider, "auth0");
    let rec = user(&signed_in.id, signed_in.role, None, Some("auth0|1"), false);
    assert_eq!(rec.source(), "auth0");
    assert!(rec.is_auth0_only());
    assert!(!rec.is_local());

    let known = KnownAuth0User {
        id: "id-1".into(),
        username: "sso@ex.com".into(),
        role: "viewer".into(),
        disabled: 0,
    };
    let (again, created2) =
        find_or_create_auth0_user(Some(known), "id-2", "sso@ex.com", Role::Admin).unwrap();
    assert!(!created2);
    assert_eq!(again.id, "id-1");
    assert_eq!(again.role, Role::Viewer);

    let off = KnownAuth0User {
        id: "id-1".into(),
        username: "sso@ex.com".into(),
        role: "viewer".into(),
        disabled: 1,
    };
    assert!(find_or_create_auth0_user(Some(off), "id-2", "sso@ex.com", Role::Admin).is_err());
}

#[test]
fn token_carries_its_user() {
    let who = AuthUser {
        id: "u1".into(),
        username: "alice".into(),
        role: Role::Operator,
        provider: "local".into(),
    };
    let key = b"0123456789abcdef0123456789abcdef";
    let now = std::time::SystemTime::now()
        .duration_since(std::time::UNIX_EPOCH)
        .unwrap()
        .as_secs() as i64;
    let token = issue_token(key, 3600, &who, now).unwrap();
    let claims = decode_token(key, &token).unwrap();
    assert_eq!(claims.sub, "u1");
    assert_eq!(claims.username, "alice");
    assert_eq!(claims.role, Role::Operator);
    assert_eq!(claims.provider, "local");
    assert_eq!((claims.iat, claims.exp), (now, now + 3600));
    assert!(decode_token(b"another key", &token).is_err());
    assert!(decode_token(key, "not.a.token").is_err());
    assert_eq!(decode_token(key, "x").unwrap_err().status(), 401);
}

#[test]
fn admin_is_seeded_into_an_empty_table() {
    let pw = Some("long-password".to_string());
    assert_eq!(seed_admin(0, AuthMode::Local, &pw), pw);
    assert_eq!(seed_admin(1, AuthMode::Local, &pw), None);
    assert_eq!(seed_admin(0, AuthMode::Auth0, &pw), None);
}

// ---------------------------------------------------------------------------
// Mail
// ---------------------------------------------------------------------------

#[test]
fn mail_disabled_without_smtp() {
    let cfg = base_cfg();
    assert!(!mail_enabled(&cfg));
}

#[test]
fn hash_token_stable() {
    assert_eq!(hash_token("abc"), hash_token("abc"));
    assert_ne!(hash_token("abc"), hash_token("abd"));
    assert_eq!(
        hash_token("abc"),
        "ba7816bf8f01cfea414140de5dae2223b00361a396177a9cb410ff61f20015ad"
    );
}

#[test]
fn reset_email_contains_token_link() {
    let cfg = base_cfg();
    let (subj, body) = password_reset_email(&cfg, "alice", "tok123");
    assert!(subj.contains("password reset"));
    assert!(body.contains("/#/reset-password?token=tok123"));
    assert!(body.contains("alice"));
}

#[test]
fn new_user_email_names_the_user() {
    let (subj, body) = auth0_new_user_email(&base_cfg(), "sso@ex.com", "viewer", "id-9");
    assert_eq!(subj, "Pertisk KOS: new Auth0 user signed in");
    assert!(body.contains("Username: sso@ex.com\n"));
    assert!(body.contains("viewer"));
    assert!(body.contains("id-9"));
}

// ---------------------------------------------------------------------------
// Settings
// ---------------------------------------------------------------------------

#[test]
fn wildcard_hosts_are_unusable() {
    assert!(public_url_host_unusable("http://0.0.0.0:8080"));
    assert!(public_url_host_unusable("http://[::]:8080"));
    assert!(public_url_host_unusable(""));
    assert!(!public_url_host_unusable("http://10.1.1.5:8080"));
}

#[test]
fn public_url_falls_back() {
    let any = Listen {
        ip: Ip::V4(0, 0, 0, 0),
        port: 8080,
    };
    let lan = Some(Ip::V4(10, 1, 1, 7));
    let set = Some("https://mgmt.example/ ".to_string());
    assert_eq!(resolve_public_url(set, &any, &lan), "https://mgmt.example");
    assert_eq!(
        resolve_public_url(Some("http://0.0.0.0:8080".into()), &any, &lan),
        "http://10.1.1.7:8080"
    );
    let own = Listen {
        ip: Ip::V6(0xfd00, 1, 0, 0, 0, 0, 0, 5),
        port: 81,
    };
    assert_eq!(resolve_public_url(None, &own, &None), "http://[fd00:1::5]:81");
    assert_eq!(resolve_public_url(None, &any, &None), "");
    assert_eq!(
        resolve_public_url(None, &any, &Some(Ip::V4(127, 0, 0, 1))),
        ""
    );
}

#[test]
fn auth_modes() {
    assert_eq!(AuthMode::parse("local"), Ok(AuthMode::Local));
    assert_eq!(AuthMode::parse("both"), Ok(AuthMode::Both));
    assert!(AuthMode::parse("ldap").is_err());
    assert!(AuthMode::Both.allows_local() && AuthMode::Both.allows_auth0());
    assert!(!AuthMode::Auth0.allows_local());
}

#[test]
fn smtp_modes() {
    assert_eq!(SmtpTlsMode::parse("starttls"), Ok(SmtpTlsMode::Starttls));
    assert_eq!(SmtpTlsMode::parse("none"), Ok(SmtpTlsMode::Plain));
    assert!(SmtpTlsMode::parse("ssl2").is_err());
    assert_eq!(SmtpTlsMode::Plain.as_str(), "none");
}

#[test]
fn settings_from_the_environment() {
    let listen = Listen {
        ip: Ip::V4(10, 1, 1, 5),
        port: 8080,
    };
    let e = env(&[
        ("MGMT_SECRET_KEY", "a-secret"),
        ("MGMT_ADMIN_PASSWORD", "long-password"),
    ]);
    let cfg = Config::from_env(
        listen,
        "./data/mgmt.db",
        "./data",
        "./lab.sh",
        "./ctl",
        &e,
        &None,
        (true, true, true),
    )
    .unwrap();
    assert_eq!(cfg.public_url, "http://10.1.1.5:8080");
    assert_eq!(cfg.secret_key.len(), 32);
    assert_eq!(cfg.secret_key, Sha256::digest(b"a-secret").to_vec());
    assert_eq!(cfg.jobs_dir(), "./data/jobs");
    assert_eq!(cfg.kubeconfigs_dir(), "./data/kubeconfigs");
    assert!(!cfg.smtp_configured());
}

#[test]
fn metrics_tls_is_all_or_nothing() {
    let all = env(&[
        ("MGMT_METRICS_TLS_CA", "/ca"),
        ("MGMT_METRICS_TLS_CERT", "/crt"),
        ("MGMT_METRICS_TLS_KEY", "/key"),
    ]);
    let got = resolve_metrics_tls(&all, (true, true, true)).unwrap().unwrap();
    assert_eq!(got.client_key, "/key");
    assert_eq!(
        resolve_metrics_tls(&all, (true, false, true)).unwrap_err(),
        "MGMT_METRICS_TLS_CERT=/crt is not a readable file"
    );
    let part = env(&[("MGMT_METRICS_TLS_CA", "/ca")]);
    assert!(resolve_metrics_tls(&part, (true, true, true)).is_err());
    assert_eq!(resolve_metrics_tls(&env(&[]), (true, true, true)), Ok(None));
}

// ---------------------------------------------------------------------------
// Images
// ---------------------------------------------------------------------------

#[test]
fn dest_keeps_pertisk_names() {
    assert_eq!(
        dest_name("pertisk-cloud-arm64-75g.qcow2", "amd64"),
        "pertisk-cloud-arm64-75g.qcow2"
    );
    assert_eq!(
        dest_name("disk.qcow2", "arm64"),
        "pertisk-cloud-arm64.qcow2"
    );
}

#[test]
fn sanitize_rejects_paths() {
    assert!(sanitize_filename("../x.qcow2").is_err());
    assert!(sanitize_filename("foo.img").is_err());
    assert_eq!(
        sanitize_filename("pertisk-cloud-amd64.qcow2").unwrap(),
        "pertisk-cloud-amd64.qcow2"
    );
}

#[test]
fn find_prefers_default_then_role_sized() {
    let mut names: Vec<String> = Vec::new();
    assert!(find_for_arch(&names, "amd64").is_none());
    names.push("pertisk-cloud-amd64-50g.qcow2".into());
    assert_eq!(
        find_for_arch(&names, "amd64").unwrap(),
        "pertisk-cloud-amd64-50g.qcow2"
    );
    names.push("pertisk-cloud-amd64.qcow2".into());
    assert_eq!(
        find_for_arch(&names, "amd64").unwrap(),
        "pertisk-cloud-amd64.qcow2"
    );
    assert!(find_for_arch(&names, "arm64").is_none());
    let files: Vec<ImageFile> = names
        .iter()
        .map(|n| ImageFile {
            name: n.clone(),
            size_bytes: 1,
            created_at: Some("2026-01-01T00:00:00+00:00".into()),
        })
        .collect();
    let catalog = list("/images", &files);
    let img = catalog
        .images
        .iter()
        .find(|i| i.name == "pertisk-cloud-amd64.qcow2")
        .unwrap();
    assert!(img.created_at.as_deref().is_some_and(|s| s.contains('T')));
    assert!(img.is_default);
    assert!(catalog.ready.amd64 && !catalog.ready.arm64);
}

#[test]
fn verify_qcow2_magic() {
    assert!(verify_qcow2(b"not-qcow").is_err());
    let mut head = b"QFI\xfb".to_vec();
    head.extend_from_slice(&[0u8; 16]);
    verify_qcow2(&head).unwrap();
}

// ---------------------------------------------------------------------------
// Errors and events
// ---------------------------------------------------------------------------

#[test]
fn each_error_has_its_status() {
    assert_eq!(AppError::bad("x").status(), 400);
    assert_eq!(AppError::Unauthorized.status(), 401);
    assert_eq!(AppError::Forbidden.status(), 403);
    assert_eq!(AppError::NotFound.status(), 404);
    assert_eq!(AppError::Conflict("x".into()).status(), 409);
    assert_eq!(AppError::Anyhow("x".into()).status(), 500);
    assert_eq!(AppError::Sqlx("x".into()).status(), 500);
    assert_eq!(AppError::bad("why").message(), "why");
}

#[test]
fn events_name_their_subject() {
    let e = MgmtEvent::job(Some("c"), "j", Some("add_node"), "running", 5);
    assert_eq!(e.kind, "job");
    assert_eq!(e.job_kind.as_deref(), Some("add_node"));
    let e = MgmtEvent::cluster("c", "ready", 6);
    assert_eq!(e.kind, "cluster");
    assert_eq!((e.job_id, e.ts), (None, 6));
}

#[test]
fn a_missing_image_names_the_file_to_upload() {
    let m = missing_message("arm64");
    assert!(m.starts_with("missing cloud image for arch=arm64; upload pertisk-cloud-arm64.qcow2"));
}

#[test]
fn a_required_setting_must_be_filled() {
    assert_eq!(require_nonempty("MGMT_X", Some("v".into())), Ok("v".into()));
    assert_eq!(require_nonempty("MGMT_X", Some("".into())), Err("MGMT_X required".into()));
    assert_eq!(require_nonempty("MGMT_X", None), Err("MGMT_X required".into()));
}

// ---------------------------------------------------------------------------
// Reset tokens and seals
// ---------------------------------------------------------------------------

#[test]
fn issued_reset_token_lasts_an_hour() {
    let now = (1_700_000_000, 500_000_000);
    let t = create_password_reset_token("alice", "t1", now);
    assert_eq!(t.raw.len(), 64);
    assert_eq!(t.row.token_hash, hash_token(&t.raw));
    assert_eq!(t.row.expires_at, "2023-11-14T23:13:20.500+00:00");
    assert_eq!(t.retired_at, "2023-11-14T22:13:20.500+00:00");
    assert_eq!((t.row.id.as_str(), t.row.user_id.as_str()), ("t1", "alice"));
    let row = |used: bool| ResetTokenRow {
        id: t.row.id.clone(),
        user_id: t.row.user_id.clone(),
        token_hash: t.row.token_hash.clone(),
        expires_at: t.row.expires_at.clone(),
        used_at: if used { Some(t.retired_at.clone()) } else { None },
    };
    let last = (1_700_003_600, 500_000_000);
    assert_eq!(consume_password_reset_token(Some(row(false)), last).unwrap().1, "alice");
    let over = (1_700_003_600, 500_000_001);
    let err = consume_password_reset_token(Some(row(false)), over).unwrap_err();
    assert_eq!(err.message(), "invalid or expired reset token");
    assert!(consume_password_reset_token(Some(row(true)), now).is_err());
}

#[test]
fn newer_reset_token_retires_the_older_one() {
    let now = (1_700_000_000, 0);
    let first = create_password_reset_token("alice", "t1", now);
    let second = create_password_reset_token("alice", "t2", now);
    assert_ne!(first.raw, second.raw);
    let mut rows = vec![first.row];
    for r in rows.iter_mut() {
        if r.user_id == second.row.user_id && r.used_at.is_none() {
            r.used_at = Some(second.retired_at.clone());
        }
    }
    rows.push(second.row);
    let older = rows.remove(0);
    assert!(consume_password_reset_token(Some(older), now).is_err());
    assert_eq!(consume_password_reset_token(rows.pop(), now).unwrap().0, "t2");
}

#[test]
fn sealed_text_is_longer_than_the_text() {
    let key = [7u8; 32];
    for text in ["", "x", "a longer secret", "\u{e4}\u{20ac}"] {
        let e = encrypt(&key, text).unwrap();
        assert!(e.chars().count() > text.chars().count());
        assert_ne!(e, text);
        assert_eq!(decrypt(&key, &e).unwrap(), text);
    }
    assert_eq!(decrypt(&key, "not base64!").unwrap_err(), CryptoError::Base64);
    assert_eq!(decrypt(&key, "AAAAAAAAAAAAAAAA").unwrap_err(), CryptoError::TooShort);
}

// ---------------------------------------------------------------------------
// Session tokens
// ---------------------------------------------------------------------------

const TOKEN_KEY: &[u8] = b"0123456789abcdef0123456789abcdef";

fn signed(payload: &[u8]) -> String {
    let url = &base64::engine::general_purpose::URL_SAFE_NO_PAD;
    let head = base64::Engine::encode(url, br#"{"typ":"JWT","alg":"HS256"}"#);
    let message = format!("{head}.{}", base64::Engine::encode(url, payload));
    let key = jsonwebtoken::EncodingKey::from_secret(TOKEN_KEY);
    let alg = jsonwebtoken::Algorithm::HS256;
    let mark = jsonwebtoken::crypto::sign(message.as_bytes(), &key, alg).unwrap();
    format!("{message}.{mark}")
}

fn decoded(payload: &str) -> Option<pertisk_mgmt::auth::Claims> {
    decode_token(TOKEN_KEY, &signed(payload.as_bytes())).ok()
}

#[test]
fn claims_are_read_from_a_payload() {
    let c = decoded(
        " {\"iat\" : 7,\n\"exp\":9999999999 , \"role\":\"viewer\",\"\\u0073ub\":\"u\\n1\", \
         \"username\":\"\u{e4}\",\"provider\":\"auth0\"} ",
    )
    .unwrap();
    assert_eq!((c.sub.as_str(), c.username.as_str()), ("u\n1", "\u{e4}"));
    assert_eq!((c.role, c.provider.as_str()), (Role::Viewer, "auth0"));
    assert_eq!((c.exp, c.iat), (9_999_999_999, 7));
    let c = decoded(r#"{"sub":"u","username":"a","role":{"admin":null},"exp":9999999999,"iat":-1}"#)
        .unwrap();
    assert_eq!((c.role, c.provider.as_str(), c.iat), (Role::Admin, "local", -1));
}

#[test]
fn claim_that_stands_twice_is_refused() {
    let once = r#""sub":"u","username":"a","role":"admin","provider":"local","exp":9999999999,"iat":1"#;
    assert!(decoded(&format!("{{{once}}}")).is_some());
    for again in [
        r#""sub":"u""#,
        r#""username":"a""#,
        r#""role":"admin""#,
        r#""provider":"local""#,
        r#""exp":9999999999"#,
        r#""iat":1"#,
        r#""user\u006eame":"b""#,
    ] {
        assert!(decoded(&format!("{{{once},{again}}}")).is_none(), "{again}");
        assert!(decoded(&format!("{{{again},{once}}}")).is_none(), "{again}");
    }
    // What is no claim may stand there as often as it likes.
    let c = decoded(&format!(r#"{{"x":1,{once},"x":[{{"sub":2}},1e999],"x":"\ud800"}}"#)).unwrap();
    assert_eq!(c.username, "a");
    let mut odd = format!("{{{once},\"x\":\"").into_bytes();
    odd.push(0xff);
    odd.extend(b"\"}");
    assert!(decode_token(TOKEN_KEY, &signed(&odd)).is_ok());
}

#[test]
fn payload_that_is_no_claims_is_refused() {
    let ok = r#"{"sub":"u","username":"a","role":"admin","exp":9999999999,"iat":1}"#;
    assert!(decoded(ok).is_some());
    for bad in [
        "{}",
        r#"["u","a","admin","local",9999999999,1]"#,
        r#"{"sub":"u","username":"a","role":"admin","exp":9999999999}"#,
        r#"{"sub":"u","username":"a","role":"root","exp":9999999999,"iat":1}"#,
        r#"{"sub":"u","username":"a","role":{"root":null},"exp":9999999999,"iat":1}"#,
        r#"{"sub":"u","username":"a","role":{"admin":1},"exp":9999999999,"iat":1}"#,
        r#"{"sub":"u","username":"a","role":"admin","provider":null,"exp":9999999999,"iat":1}"#,
        r#"{"sub":"u","username":1,"role":"admin","exp":9999999999,"iat":1}"#,
        r#"{"sub":"u","username":"a","role":"admin","exp":9999999999,"iat":1.0}"#,
        r#"{"sub":"u","username":"a","role":"admin","exp":9999999999,"iat":1,}"#,
        r#"{"sub":"u","username":"a","role":"admin","exp":1,"iat":1}"#,
        r#"{"sub":"u","username":"a","role":"admin","exp":9999999999,"iat":1} x"#,
    ] {
        assert!(decoded(bad).is_none(), "{bad}");
    }
    assert_eq!(claims_in(&ok.as_bytes().to_vec()).unwrap().sub, "u");
    assert!(claims_in(&b"{".to_vec()).is_none());
    let token = signed(ok.as_bytes());
    assert_eq!(claims_of(true, &token).unwrap().username, "a");
    assert_eq!(claims_of(false, &token).unwrap_err(), AppError::Unauthorized);
    assert_eq!(claims_of(true, "a.b").unwrap_err(), AppError::Unauthorized);
}
