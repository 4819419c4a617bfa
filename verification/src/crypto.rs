//! Secrets at rest, digests and random material.
use crate::ip::{hex_char, hex_digit};
use crate::text::{all_hex, is_hex, lit, opt_text};
use aes_gcm::aead::{Aead, KeyInit};
use base64::Engine;
use rand::RngCore;
use sha2::Digest;
use vstd::prelude::*;
use vstd::slice::slice_subrange;
use vstd::string::*;
use vstd::utf8::{decode_utf8, encode_utf8, valid_utf8};

verus! {

/// Why a secret could not be sealed or opened.
#[derive(Debug, Clone, Copy, PartialEq, Eq, Structural)]
pub enum CryptoError {
    /// The key does not have 32 bytes.
    AesKey,
    /// The text is no base64.
    Base64,
    TooShort,
    Encrypt,
    Decrypt,
    /// The opened bytes are no text.
    Utf8,
}

/// The most bytes that one message may have.
pub const MESSAGE_LIMIT: u64 = 0x10_0000_0000;

// ---------------------------------------------------------------------------
// Outside functions
// ---------------------------------------------------------------------------

/// What AES-256-GCM makes of a message under a key and a nonce.
pub uninterp spec fn sealed(key: Seq<u8>, nonce: Seq<u8>, msg: Seq<u8>) -> Seq<u8>;

/// The message that AES-256-GCM finds in a sealed one, nothing where the tag
/// does not match.
pub uninterp spec fn opened(key: Seq<u8>, nonce: Seq<u8>, msg: Seq<u8>) -> Option<Seq<u8>>;

/// The base64 text of bytes, standard alphabet with padding.
pub uninterp spec fn b64_text(bytes: Seq<u8>) -> Seq<char>;

/// The bytes that a base64 text denotes, or why it denotes none.
pub uninterp spec fn b64_decoded(text: Seq<char>) -> Result<Seq<u8>, Seq<char>>;

/// The bytes that a base64 text denotes.
pub open spec fn b64_bytes(text: Seq<char>) -> Option<Seq<u8>> {
    match b64_decoded(text) {
        Ok(b) => Some(b),
        Err(_) => None,
    }
}

/// The mathematical form of what a base64 text was read as.
pub open spec fn bytes_view(r: Result<Vec<u8>, String>) -> Result<Seq<u8>, Seq<char>> {
    match r {
        Ok(v) => Ok(v@),
        Err(e) => Err(e@),
    }
}

/// The SHA-256 digest.
pub uninterp spec fn sha256_of(bytes: Seq<u8>) -> Seq<u8>;

/// The bytes of an optional list.
pub open spec fn opt_bytes(o: Option<Vec<u8>>) -> Option<Seq<u8>> {
    match o {
        Some(v) => Some(v@),
        None => None,
    }
}

/// Calls `aes_gcm::Aes256Gcm::encrypt` without associated data. Claimed: for a
/// key of 32 bytes and a nonce of 12 bytes the call fails exactly where the
/// message has more bytes than `MESSAGE_LIMIT`; otherwise the result depends on
/// the three alone, it is sixteen bytes longer than the message, and opening it
/// gives the message back.
#[verifier::external_body]
fn aes_seal(key: &[u8], nonce: &[u8], msg: &[u8]) -> (r: Option<Vec<u8>>)
    requires
        key@.len() == 32,
        nonce@.len() == 12,
    ensures
        r is None <==> msg@.len() > MESSAGE_LIMIT,
        r matches Some(c) ==> {
            &&& c@ == sealed(key@, nonce@, msg@)
            &&& c@.len() == msg@.len() + 16
            &&& opened(key@, nonce@, c@) == Some(msg@)
        },
{
    let cipher = aes_gcm::Aes256Gcm::new_from_slice(key).expect("key length");
    cipher.encrypt(aes_gcm::Nonce::from_slice(nonce), msg).ok()
}

/// Calls `aes_gcm::Aes256Gcm::decrypt` without associated data. Claimed: for a
/// key of 32 bytes and a nonce of 12 bytes the result depends on key, nonce and
/// message alone.
#[verifier::external_body]
fn aes_open(key: &[u8], nonce: &[u8], msg: &[u8]) -> (r: Option<Vec<u8>>)
    requires
        key@.len() == 32,
        nonce@.len() == 12,
    ensures
        opt_bytes(r) == opened(key@, nonce@, msg@),
{
    let cipher = aes_gcm::Aes256Gcm::new_from_slice(key).expect("key length");
    cipher.decrypt(aes_gcm::Nonce::from_slice(nonce), msg).ok()
}

/// Calls `encode` of `base64::engine::general_purpose::STANDARD`. Claimed: the
/// text depends on the bytes alone, it has four characters for each three bytes
/// begun, and decoding it gives the bytes back.
#[verifier::external_body]
pub(crate) fn b64_encode(bytes: &[u8]) -> (r: String)
    ensures
        r@ == b64_text(bytes@),
        r@.len() == 4 * ((bytes@.len() + 2) / 3),
        b64_bytes(r@) == Some(bytes@),
{
    base64::engine::general_purpose::STANDARD.encode(bytes)
}

/// Calls `decode` of `base64::engine::general_purpose::STANDARD`. Claimed: the
/// result depends on the text alone. An error is taken by its message.
#[verifier::external_body]
pub(crate) fn b64_decode(text: &str) -> (r: Result<Vec<u8>, String>)
    ensures
        bytes_view(r) == b64_decoded(text@),
{
    base64::engine::general_purpose::STANDARD.decode(text).map_err(|e| e.to_string())
}

/// Calls `sha2::Sha256::digest`. Claimed: the digest depends on the bytes alone
/// and has 32 bytes.
#[verifier::external_body]
pub(crate) fn sha256(bytes: &[u8]) -> (r: Vec<u8>)
    ensures
        r@ == sha256_of(bytes@),
        r@.len() == 32,
{
    sha2::Sha256::digest(bytes).to_vec()
}

/// Two lower-case hexadecimal digits for each byte.
pub open spec fn hex_text(bytes: Seq<u8>) -> Seq<char> {
    Seq::new(
        2 * bytes.len(),
        |i: int|
            if i % 2 == 0 {
                hex_char((bytes[i / 2] / 16) as nat)
            } else {
                hex_char((bytes[i / 2] % 16) as nat)
            },
    )
}

/// Calls `hex::encode`. Claimed: two lower-case hexadecimal digits for each
/// byte, the high half first.
#[verifier::external_body]
pub(crate) fn hex_encode(bytes: &[u8]) -> (r: String)
    ensures
        r@ == hex_text(bytes@),
{
    hex::encode(bytes)
}

/// The bytes that pairs of hexadecimal digits denote, nothing where a digit is
/// missing or is none.
pub open spec fn hex_bytes(text: Seq<char>) -> Option<Seq<u8>> {
    if text.len() % 2 == 0 && all_hex(text) {
        Some(
            Seq::new(
                text.len() / 2,
                |i: int| (16 * hex_digit(text[2 * i]) + hex_digit(text[2 * i + 1])) as u8,
            ),
        )
    } else {
        None
    }
}

/// Reading hexadecimal digits gives back the bytes that they were made of.
pub proof fn law_hex_roundtrip(bytes: Seq<u8>)
    ensures
        hex_bytes(hex_text(bytes)) == Some(bytes),
{
    let t = hex_text(bytes);
    assert forall|i: int| 0 <= i < t.len() implies is_hex(#[trigger] t[i]) by {
        assert(bytes[i / 2] / 16 < 16);
    }
    assert forall|i: int| 0 <= i < bytes.len() implies 16 * hex_digit(t[2 * i]) + hex_digit(
        t[2 * i + 1],
    ) == #[trigger] bytes[i] by {
        assert((2 * i) / 2 == i && (2 * i + 1) / 2 == i);
        assert(bytes[i] / 16 < 16);
    }
    assert(hex_bytes(t)->0 =~= bytes);
}

/// Calls `hex::decode`. Claimed: the bytes of the pairs of digits, in either
/// case; nothing where the number of characters is odd or one is no digit.
#[verifier::external_body]
pub(crate) fn hex_decode(text: &str) -> (r: Option<Vec<u8>>)
    ensures
        opt_bytes(r) == hex_bytes(text@),
{
    hex::decode(text).ok()
}

/// Calls `fill_bytes` of `rand::thread_rng`. Claimed: `n` bytes.
#[verifier::external_body]
pub(crate) fn random_bytes(n: usize) -> (r: Vec<u8>)
    ensures
        r@.len() == n,
{
    let mut bytes = vec![0u8; n];
    rand::thread_rng().fill_bytes(&mut bytes);
    bytes
}

/// Calls `fill_bytes` of `rand::rngs::OsRng`. Claimed: `n` bytes.
#[verifier::external_body]
pub(crate) fn system_random_bytes(n: usize) -> (r: Vec<u8>)
    ensures
        r@.len() == n,
{
    let mut bytes = vec![0u8; n];
    rand::rngs::OsRng.fill_bytes(&mut bytes);
    bytes
}

/// The text that bytes in UTF-8 denote.
pub open spec fn utf8_text(bytes: Seq<u8>) -> Option<Seq<char>> {
    if valid_utf8(bytes) {
        Some(decode_utf8(bytes))
    } else {
        None
    }
}

/// Calls `String::from_utf8`. Claimed: a text exactly where the bytes are valid
/// UTF-8, and then the text that they encode.
#[verifier::external_body]
pub(crate) fn text_of_bytes(bytes: Vec<u8>) -> (r: Option<String>)
    ensures
        opt_text(r) == utf8_text(bytes@),
{
    String::from_utf8(bytes).ok()
}

// ---------------------------------------------------------------------------
// Sealing and opening
// ---------------------------------------------------------------------------

/// The text behind a sealed value: base64 of twelve bytes of nonce and the
/// sealed message.
pub open spec fn decrypted(key: Seq<u8>, encoded: Seq<char>) -> Result<Seq<char>, CryptoError> {
    match b64_bytes(encoded) {
        None => Err(CryptoError::Base64),
        Some(raw) => opened_raw(key, raw),
    }
}

/// The text of a result.
pub open spec fn plain(r: Result<String, CryptoError>) -> Result<Seq<char>, CryptoError> {
    match r {
        Ok(s) => Ok(s@),
        Err(e) => Err(e),
    }
}

/// Why a text cannot be sealed under a key.
pub open spec fn seal_fault(key: Seq<u8>, plaintext: Seq<char>) -> Option<CryptoError> {
    if key.len() != 32 {
        Some(CryptoError::AesKey)
    } else if encode_utf8(plaintext).len() > MESSAGE_LIMIT {
        Some(CryptoError::Encrypt)
    } else {
        None
    }
}

fn nonce_and_message(nonce: &[u8], msg: &Vec<u8>) -> (r: Vec<u8>)
    ensures
        r@ == nonce@ + msg@,
{
    let mut out: Vec<u8> = Vec::new();
    let mut i: usize = 0;
    while i < nonce.len()
        invariant
            i <= nonce@.len(),
            out@ == nonce@.take(i as int),
        decreases nonce@.len() - i,
    {
        out.push(nonce[i]);
        assert(nonce@.take(i + 1) =~= nonce@.take(i as int).push(nonce@[i as int]));
        i += 1;
    }
    assert(nonce@.take(i as int) =~= nonce@);
    let mut j: usize = 0;
    assert(nonce@ + msg@.take(0) =~= nonce@);
    while j < msg.len()
        invariant
            j <= msg@.len(),
            out@ == nonce@ + msg@.take(j as int),
        decreases msg@.len() - j,
    {
        out.push(msg[j]);
        assert(nonce@ + msg@.take(j + 1) =~= (nonce@ + msg@.take(j as int)).push(msg@[j as int]));
        j += 1;
    }
    assert(msg@.take(j as int) =~= msg@);
    out
}

/// A text has no more characters than bytes.
proof fn lemma_utf8_len(t: Seq<char>)
    ensures
        t.len() <= encode_utf8(t).len(),
    decreases t.len(),
{
    if t.len() > 0 {
        lemma_utf8_len(t.drop_first());
    }
}

/// Seals a text under a key and a nonce: base64 of the nonce and the sealed
/// message.
pub fn encrypt_with(key: &[u8], nonce: &[u8], plaintext: &str) -> (r: Result<String, CryptoError>)
    requires
        nonce@.len() == 12,
    ensures
        match r {
            Ok(e) => {
                &&& seal_fault(key@, plaintext@) is None
                &&& e@.len() > plaintext@.len()
                &&& e@ == b64_text(nonce@ + sealed(key@, nonce@, encode_utf8(plaintext@)))
                &&& decrypted(key@, e@) == Ok::<Seq<char>, CryptoError>(plaintext@)
            },
            Err(c) => seal_fault(key@, plaintext@) == Some(c),
        },
{
    if key.len() != 32 {
        return Err(CryptoError::AesKey);
    }
    let msg = plaintext.as_bytes();
    let ct = match aes_seal(key, nonce, msg) {
        Some(c) => c,
        None => {
            return Err(CryptoError::Encrypt);
        },
    };
    let out = nonce_and_message(nonce, &ct);
    let e = b64_encode(&out);
    proof {
        let raw = nonce@ + ct@;
        assert(raw.subrange(0, 12) =~= nonce@);
        assert(raw.subrange(12, raw.len() as int) =~= ct@);
        vstd::utf8::encode_utf8_valid_utf8(plaintext@);
        vstd::utf8::encode_utf8_decode_utf8(plaintext@);
        lemma_utf8_len(plaintext@);
    }
    Ok(e)
}

/// The text stands for the message sealed under the key with some nonce.
pub open spec fn is_sealing(key: Seq<u8>, plaintext: Seq<char>, e: Seq<char>) -> bool {
    exists|n: Seq<u8>|
        n.len() == 12 && e == b64_text(n + #[trigger] sealed(key, n, encode_utf8(plaintext)))
}

/// Seals a text under a key and a fresh nonce. What comes out opens under the
/// same key to the same text, and is longer than the text.
pub fn encrypt(key: &[u8], plaintext: &str) -> (r: Result<String, CryptoError>)
    ensures
        match r {
            Ok(e) => {
                &&& seal_fault(key@, plaintext@) is None
                &&& is_sealing(key@, plaintext@, e@)
                &&& e@.len() > plaintext@.len()
                &&& decrypted(key@, e@) == Ok::<Seq<char>, CryptoError>(plaintext@)
            },
            Err(c) => seal_fault(key@, plaintext@) == Some(c),
        },
{
    let nonce = random_bytes(12);
    encrypt_with(key, &nonce, plaintext)
}

/// What opening yields, given the decoded bytes.
pub open spec fn opened_raw(key: Seq<u8>, raw: Seq<u8>) -> Result<Seq<char>, CryptoError> {
    if raw.len() < 13 {
        Err(CryptoError::TooShort)
    } else if key.len() != 32 {
        Err(CryptoError::AesKey)
    } else {
        match opened(key, raw.subrange(0, 12), raw.subrange(12, raw.len() as int)) {
            None => Err(CryptoError::Decrypt),
            Some(pt) => match utf8_text(pt) {
                None => Err(CryptoError::Utf8),
                Some(t) => Ok(t),
            },
        }
    }
}

/// Opens bytes: a nonce and a sealed message.
pub fn open_raw(key: &[u8], raw: &Vec<u8>) -> (r: Result<String, CryptoError>)
    ensures
        plain(r) == opened_raw(key@, raw@),
{
    if raw.len() < 13 {
        return Err(CryptoError::TooShort);
    }
    if key.len() != 32 {
        return Err(CryptoError::AesKey);
    }
    let n: usize = raw.len();
    let nonce = slice_subrange(raw.as_slice(), 0, 12);
    let ct = slice_subrange(raw.as_slice(), 12, n);
    match aes_open(key, nonce, ct) {
        None => Err(CryptoError::Decrypt),
        Some(pt) => match text_of_bytes(pt) {
            None => Err(CryptoError::Utf8),
            Some(t) => Ok(t),
        },
    }
}

/// Opens a value that `encrypt` made.
pub fn decrypt(key: &[u8], encoded: &str) -> (r: Result<String, CryptoError>)
    ensures
        plain(r) == decrypted(key@, encoded@),
{
    match b64_decode(encoded) {
        Err(_) => Err(CryptoError::Base64),
        Ok(raw) => open_raw(key, &raw),
    }
}

/// A sealed value opens under its key to the text that was sealed, and is another
/// text. The two conditions are what `encrypt` states of what it returns.
pub proof fn law_sealed_text_opens(key: Seq<u8>, plaintext: Seq<char>, e: Seq<char>)
    requires
        e.len() > plaintext.len(),
        decrypted(key, e) == Ok::<Seq<char>, CryptoError>(plaintext),
    ensures
        e != plaintext,
        key.len() == 32,
        b64_bytes(e) is Some && b64_bytes(e)->0.len() >= 13,
{
}

/// What is no base64, or stands for fewer bytes than a nonce and one more, does
/// not open under any key.
pub proof fn law_no_sealed_value(key: Seq<u8>, e: Seq<char>)
    requires
        b64_bytes(e) is None || b64_bytes(e)->0.len() < 13,
    ensures
        decrypted(key, e) is Err,
        decrypted(key, e) == (match b64_bytes(e) {
            None => Err::<Seq<char>, CryptoError>(CryptoError::Base64),
            Some(_) => Err::<Seq<char>, CryptoError>(CryptoError::TooShort),
        }),
{
}

impl CryptoError {
    pub open spec fn text(self) -> Seq<char> {
        match self {
            CryptoError::AesKey => "aes key"@,
            CryptoError::Base64 => "b64 decode"@,
            CryptoError::TooShort => "ciphertext too short"@,
            CryptoError::Encrypt => "encrypt: aead::Error"@,
            CryptoError::Decrypt => "decrypt: aead::Error"@,
            CryptoError::Utf8 => "utf8"@,
        }
    }

    /// The message of the error.
    pub fn message(&self) -> (r: String)
        ensures
            r@ == self.text(),
    {
        match self {
            CryptoError::AesKey => lit("aes key"),
            CryptoError::Base64 => lit("b64 decode"),
            CryptoError::TooShort => lit("ciphertext too short"),
            CryptoError::Encrypt => lit("encrypt: aead::Error"),
            CryptoError::Decrypt => lit("decrypt: aead::Error"),
            CryptoError::Utf8 => lit("utf8"),
        }
    }
}

} // verus!
