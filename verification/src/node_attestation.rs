//! Enrolment and verification of the TPM quotes of nodes.
//!
//! The attestation key of a node is trusted on first use and stored; the
//! fingerprint of the endorsement certificate is stored with it where the quote
//! gives one. A later quote is held against both.
use crate::crypto::{
    b64_bytes, b64_decode, b64_decoded, bytes_view, hex_encode, hex_text, sha256, sha256_of,
};
use crate::error::{ApiResult, AppError, ErrorV};
use crate::ip::hex_digit;
use crate::k8s::kubectl::CommandOutput;
use crate::num::{dec, parse_nat, parse_u64_max, usize_str};
use crate::text::{
    all_hex, byte_len, cat, chars_of, find, first_word, idx_find, is_hex, lemma_find_from, lines,
    lit, opt_eq, opt_text, slice_str, starts_with, str_all_hex, str_bytes, str_eq, str_first_word,
    str_lines, str_split_once, str_strip_prefix, str_trim, str_trim_start_char, str_words,
    strip_prefix, texts, trim, trim_start_char, words,
};
use vstd::prelude::*;
use vstd::string::*;

verus! {

#[derive(Debug, PartialEq, Eq)]
pub struct AttestationOut {
    pub enrolled: bool,
    pub ak_enrolled_at: Option<String>,
    /// The start of the digest of the stored attestation key.
    pub ak_fingerprint: Option<String>,
    /// The start of the fingerprint of the endorsement certificate.
    pub ek_fingerprint: Option<String>,
    pub ek_chain_status: Option<String>,
    pub ok: Option<bool>,
    pub message: String,
}

#[verifier::ext_equal]
pub ghost struct AttestationOutV {
    pub enrolled: bool,
    pub ak_enrolled_at: Option<Seq<char>>,
    pub ak_fingerprint: Option<Seq<char>>,
    pub ek_fingerprint: Option<Seq<char>>,
    pub ek_chain_status: Option<Seq<char>>,
    pub ok: Option<bool>,
    pub message: Seq<char>,
}

impl View for AttestationOut {
    type V = AttestationOutV;

    open spec fn view(&self) -> AttestationOutV {
        AttestationOutV {
            enrolled: self.enrolled,
            ak_enrolled_at: opt_text(self.ak_enrolled_at),
            ak_fingerprint: opt_text(self.ak_fingerprint),
            ek_fingerprint: opt_text(self.ek_fingerprint),
            ek_chain_status: opt_text(self.ek_chain_status),
            ok: self.ok,
            message: self.message@,
        }
    }
}

// ---------------------------------------------------------------------------
// Quotes
// ---------------------------------------------------------------------------

/// What `pertiskctl quote` prints.
#[derive(Debug, PartialEq, Eq)]
pub struct QuoteParse {
    pub available: bool,
    pub message: String,
    pub nonce_hex: String,
    pub quoted_b64: String,
    pub signature_b64: String,
    pub ak_public_b64: String,
    pub ek_fingerprint: String,
    pub ek_chain_status: String,
    pub ek_chain_message: String,
    pub pcrs: Vec<(u32, String)>,
}

#[verifier::ext_equal]
pub ghost struct QuoteParseV {
    pub available: bool,
    pub message: Seq<char>,
    pub nonce_hex: Seq<char>,
    pub quoted_b64: Seq<char>,
    pub signature_b64: Seq<char>,
    pub ak_public_b64: Seq<char>,
    pub ek_fingerprint: Seq<char>,
    pub ek_chain_status: Seq<char>,
    pub ek_chain_message: Seq<char>,
    pub pcrs: Seq<(nat, Seq<char>)>,
}

/// The registers and their digests.
pub open spec fn pcr_views(v: Seq<(u32, String)>) -> Seq<(nat, Seq<char>)> {
    Seq::new(v.len(), |i: int| (v[i].0 as nat, v[i].1@))
}

impl View for QuoteParse {
    type V = QuoteParseV;

    open spec fn view(&self) -> QuoteParseV {
        QuoteParseV {
            available: self.available,
            message: self.message@,
            nonce_hex: self.nonce_hex@,
            quoted_b64: self.quoted_b64@,
            signature_b64: self.signature_b64@,
            ak_public_b64: self.ak_public_b64@,
            ek_fingerprint: self.ek_fingerprint@,
            ek_chain_status: self.ek_chain_status@,
            ek_chain_message: self.ek_chain_message@,
            pcrs: pcr_views(self.pcrs@),
        }
    }
}

/// A quote of which nothing is known.
pub open spec fn no_quote() -> QuoteParseV {
    QuoteParseV {
        available: false,
        message: Seq::empty(),
        nonce_hex: Seq::empty(),
        quoted_b64: Seq::empty(),
        signature_b64: Seq::empty(),
        ak_public_b64: Seq::empty(),
        ek_fingerprint: Seq::empty(),
        ek_chain_status: Seq::empty(),
        ek_chain_message: Seq::empty(),
        pcrs: Seq::empty(),
    }
}

/// What follows a dash: all after a long one, else all after two short ones and
/// one more character of a single byte.
pub open spec fn after_dash(rest: Seq<char>) -> Option<Seq<char>> {
    match find(rest, "—"@) {
        Some(i) => Some(rest.subrange(i + 1, rest.len() as int)),
        None => match find(rest, "--"@) {
            Some(i) => if i + 2 < rest.len() && rest[i + 2] <= '\u{7f}' {
                Some(rest.subrange(i + 3, rest.len() as int))
            } else {
                None
            },
            None => None,
        },
    }
}

/// The message in the line that says whether a quote is available.
pub open spec fn quote_message(rest: Seq<char>, before: Seq<char>) -> Seq<char> {
    match after_dash(rest) {
        Some(m) => trim(trim_start_char(trim(m), '-')),
        None => before,
    }
}

/// Chain state and fingerprint after the first `n` parts of a line on the
/// endorsement certificate.
pub open spec fn ek_parts(parts: Seq<Seq<char>>, q: QuoteParseV, n: int) -> QuoteParseV
    decreases n,
{
    if 0 < n <= parts.len() {
        let b = ek_parts(parts, q, n - 1);
        let p = parts[n - 1];
        match strip_prefix(p, "chain="@) {
            Some(v) => QuoteParseV { ek_chain_status: v, ..b },
            None => match strip_prefix(p, "fingerprint="@) {
                Some(v) => if v != "—"@ {
                    QuoteParseV { ek_fingerprint: v, ..b }
                } else {
                    b
                },
                None => b,
            },
        }
    } else {
        q
    }
}

/// A register: its number, the digest's name, and at least 32 hexadecimal
/// digits.
pub open spec fn pcr_line(line: Seq<char>) -> Option<(nat, Seq<char>)> {
    let w = words(line);
    if w.len() >= 3 && parse_nat(w[0], u32::MAX as nat) is Some && w[2].len() >= 32 && all_hex(w[2]) {
        Some((parse_nat(w[0], u32::MAX as nat)->0, w[2]))
    } else {
        None
    }
}

/// What is known of a quote after one more line.
pub open spec fn quote_line(q: QuoteParseV, raw: Seq<char>) -> QuoteParseV {
    let line = trim(raw);
    if starts_with(line, "available="@) {
        let rest = strip_prefix(line, "available="@)->0;
        QuoteParseV {
            available: first_word(rest) == "true"@,
            message: quote_message(rest, q.message),
            ..q
        }
    } else if starts_with(line, "nonce="@) {
        QuoteParseV { nonce_hex: trim(strip_prefix(line, "nonce="@)->0), ..q }
    } else if starts_with(line, "quoted_b64="@) {
        QuoteParseV { quoted_b64: first_word(strip_prefix(line, "quoted_b64="@)->0), ..q }
    } else if starts_with(line, "signature_b64="@) {
        QuoteParseV { signature_b64: first_word(strip_prefix(line, "signature_b64="@)->0), ..q }
    } else if starts_with(line, "ak_public_b64="@) {
        QuoteParseV { ak_public_b64: first_word(strip_prefix(line, "ak_public_b64="@)->0), ..q }
    } else if starts_with(line, "ek_nv="@) {
        let parts = words(strip_prefix(line, "ek_nv="@)->0);
        ek_parts(parts, q, parts.len() as int)
    } else if starts_with(line, "ek_chain_message="@) {
        QuoteParseV { ek_chain_message: trim(strip_prefix(line, "ek_chain_message="@)->0), ..q }
    } else {
        match pcr_line(line) {
            Some(p) => QuoteParseV { pcrs: q.pcrs.push(p), ..q },
            None => q,
        }
    }
}

/// What is known of a quote after the first `n` lines.
pub open spec fn quote_lines(ls: Seq<Seq<char>>, n: int) -> QuoteParseV
    decreases n,
{
    if 0 < n <= ls.len() {
        quote_line(quote_lines(ls, n - 1), ls[n - 1])
    } else {
        no_quote()
    }
}

fn text_after_dash(rest: &str) -> (r: Option<String>)
    ensures
        opt_text(r) == after_dash(rest@),
{
    proof {
        reveal_strlit("—");
        reveal_strlit("--");
        lemma_find_from(rest@, "—"@, 0);
        lemma_find_from(rest@, "--"@, 0);
    }
    let v = chars_of(rest);
    match str_split_once(rest, "—") {
        Some((_, b)) => Some(b),
        None => {
            let d = chars_of("--");
            match idx_find(&v, &d) {
                Some(i) => {
                    if v.len() > 2 && i < v.len() - 2 && v[i + 2] <= '\u{7f}' {
                        Some(slice_str(&v, i + 3, v.len()))
                    } else {
                        None
                    }
                },
                None => None,
            }
        },
    }
}

fn read_ek_parts(rest: &str, q: &mut QuoteParse)
    ensures
        final(q)@ == ek_parts(words(rest@), old(q)@, words(rest@).len() as int),
{
    let parts = str_words(rest);
    let ghost want = texts(parts@);
    let mut i: usize = 0;
    while i < parts.len()
        invariant
            i <= parts.len(),
            want == texts(parts@),
            q@ == ek_parts(want, old(q)@, i as int),
        decreases parts.len() - i,
    {
        assert(want[i as int] == parts@[i as int]@);
        match str_strip_prefix(&parts[i], "chain=") {
            Some(v) => {
                q.ek_chain_status = v;
            },
            None => match str_strip_prefix(&parts[i], "fingerprint=") {
                Some(v) => {
                    if !str_eq(&v, "—") {
                        q.ek_fingerprint = v;
                    }
                },
                None => {},
            },
        }
        i += 1;
    }
    assert(want.len() == parts.len());
}

fn read_pcr(line: &str) -> (r: Option<(u32, String)>)
    ensures
        match r {
            Some(p) => pcr_line(line@) == Some((p.0 as nat, p.1@)),
            None => pcr_line(line@) is None,
        },
{
    let w = str_words(line);
    let ghost v = texts(w@);
    assert(v.len() == w.len());
    if w.len() < 3 {
        return None;
    }
    assert(v[0] == w@[0]@ && v[2] == w@[2]@);
    match parse_u64_max(&w[0], u32::MAX as u64) {
        Some(n) => {
            let d = chars_of(&w[2]);
            if d.len() >= 32 && str_all_hex(&w[2]) {
                Some((n as u32, lit(&w[2])))
            } else {
                None
            }
        },
        None => None,
    }
}

fn read_quote_line(q: &mut QuoteParse, raw: &str)
    ensures
        final(q)@ == quote_line(old(q)@, raw@),
{
    let line = str_trim(raw);
    if let Some(rest) = str_strip_prefix(&line, "available=") {
        q.available = str_eq(&str_first_word(&rest), "true");
        match text_after_dash(&rest) {
            Some(m) => {
                q.message = str_trim(&str_trim_start_char(&str_trim(&m), '-'));
            },
            None => {},
        }
    } else if let Some(rest) = str_strip_prefix(&line, "nonce=") {
        q.nonce_hex = str_trim(&rest);
    } else if let Some(rest) = str_strip_prefix(&line, "quoted_b64=") {
        q.quoted_b64 = str_first_word(&rest);
    } else if let Some(rest) = str_strip_prefix(&line, "signature_b64=") {
        q.signature_b64 = str_first_word(&rest);
    } else if let Some(rest) = str_strip_prefix(&line, "ak_public_b64=") {
        q.ak_public_b64 = str_first_word(&rest);
    } else if let Some(rest) = str_strip_prefix(&line, "ek_nv=") {
        read_ek_parts(&rest, q);
    } else if let Some(rest) = str_strip_prefix(&line, "ek_chain_message=") {
        q.ek_chain_message = str_trim(&rest);
    } else {
        match read_pcr(&line) {
            Some(p) => {
                let ghost before = q.pcrs@;
                let ghost pv = (p.0 as nat, p.1@);
                q.pcrs.push(p);
                assert(pcr_views(q.pcrs@) =~= pcr_views(before).push(pv));
            },
            None => {},
        }
    }
}

/// Reads what `pertiskctl quote` printed.
pub fn parse_quote_output(stdout: &str) -> (r: QuoteParse)
    ensures
        r@ == quote_lines(lines(stdout@), lines(stdout@).len() as int),
{
    let mut q = QuoteParse {
        available: false,
        message: String::new(),
        nonce_hex: String::new(),
        quoted_b64: String::new(),
        signature_b64: String::new(),
        ak_public_b64: String::new(),
        ek_fingerprint: String::new(),
        ek_chain_status: String::new(),
        ek_chain_message: String::new(),
        pcrs: Vec::new(),
    };
    assert(q@ =~= no_quote());
    let ls = str_lines(stdout);
    let ghost want = lines(stdout@);
    let mut i: usize = 0;
    while i < ls.len()
        invariant
            i <= ls.len(),
            want == texts(ls@),
            q@ == quote_lines(want, i as int),
        decreases ls.len() - i,
    {
        assert(want[i as int] == ls@[i as int]@);
        read_quote_line(&mut q, &ls[i]);
        i += 1;
    }
    assert(want.len() == ls.len());
    q
}

/// The quote of a node, or why there is none.
pub fn run_quote(out: &CommandOutput) -> (r: Result<QuoteParse, String>)
    ensures
        r is Ok == out.success,
        match r {
            Ok(q) => q@ == quote_lines(lines(out.stdout@), lines(out.stdout@).len() as int),
            Err(e) => e@ == "pertiskctl quote failed: "@ + trim(out.stdout@) + " "@ + trim(
                out.stderr@,
            ),
        },
{
    if !out.success {
        return Err(
            lit("pertiskctl quote failed: ").concat(&str_trim(&out.stdout)).concat(" ").concat(
                &str_trim(&out.stderr),
            ),
        );
    }
    Ok(parse_quote_output(&out.stdout))
}

// ---------------------------------------------------------------------------
// Fingerprints and bytes
// ---------------------------------------------------------------------------

/// The first eight bytes of the digest of a key, in hexadecimal.
pub open spec fn key_fingerprint(ak: Seq<char>) -> Option<Seq<char>> {
    match b64_bytes(trim(ak)) {
        Some(raw) => Some(hex_text(sha256_of(raw).subrange(0, 8))),
        None => None,
    }
}

/// The fingerprint of a key in base64.
pub fn fingerprint_b64(ak_b64: &str) -> (r: Option<String>)
    ensures
        opt_text(r) == key_fingerprint(ak_b64@),
{
    match b64_decode(&str_trim(ak_b64)) {
        Ok(raw) => {
            let d = sha256(&raw);
            Some(hex_encode(vstd::slice::slice_subrange(d.as_slice(), 0, 8)))
        },
        Err(_) => None,
    }
}

/// The first sixteen characters, or all if there are fewer.
pub open spec fn sixteen(s: Seq<char>) -> Seq<char> {
    if s.len() <= 16 {
        s
    } else {
        s.subrange(0, 16)
    }
}

fn take_sixteen(s: &str) -> (r: String)
    ensures
        r@ == sixteen(s@),
{
    let v = chars_of(s);
    if v.len() <= 16 {
        lit(s)
    } else {
        slice_str(&v, 0, 16)
    }
}

/// The start of a fingerprint, where there is one.
pub open spec fn short_fingerprint(full: Seq<char>) -> Option<Seq<char>> {
    let s = trim(full);
    if s.len() == 0 || s == "—"@ {
        None
    } else {
        Some(sixteen(s))
    }
}

pub fn ek_fp_short(full: &str) -> (r: Option<String>)
    ensures
        opt_text(r) == short_fingerprint(full@),
{
    let s = str_trim(full);
    if s.is_empty() || str_eq(&s, "—") {
        None
    } else {
        Some(take_sixteen(&s))
    }
}

/// The start of a stored fingerprint.
pub open spec fn stored_short(o: Option<String>) -> Option<Seq<char>> {
    match o {
        Some(s) => short_fingerprint(s@),
        None => None,
    }
}

fn short_of(o: &Option<String>) -> (r: Option<String>)
    ensures
        opt_text(r) == stored_short(*o),
{
    match o {
        Some(s) => ek_fp_short(s),
        None => None,
    }
}

/// The value of two characters: two hexadecimal digits, or one after a plus
/// sign.
pub open spec fn pair_value(a: char, b: char) -> Option<nat> {
    if is_hex(b) && is_hex(a) {
        Some(16 * hex_digit(a) + hex_digit(b))
    } else if is_hex(b) && a == '+' {
        Some(hex_digit(b))
    } else {
        None
    }
}

/// Every pair of characters has a value.
pub open spec fn pairs_ok(t: Seq<char>) -> bool {
    t.len() % 2 == 0 && forall|i: int|
        0 <= i < t.len() / 2 ==> (#[trigger] pair_value(t[2 * i], t[2 * i + 1])) is Some
}

/// The bytes that a text of pairs denotes, or why it denotes none.
pub open spec fn pair_bytes(s: Seq<char>) -> Result<Seq<u8>, Seq<char>> {
    let t = trim(s);
    if byte_len(t) % 2 != 0 {
        Err("odd hex length"@)
    } else if pairs_ok(t) {
        Ok(
            Seq::new(
                (t.len() / 2) as nat,
                |i: int| pair_value(t[2 * i], t[2 * i + 1])->0 as u8,
            ),
        )
    } else {
        Err("hex: invalid digit found in string"@)
    }
}

fn digit_of(c: char) -> (r: Option<u8>)
    ensures
        match r {
            Some(d) => is_hex(c) && d == hex_digit(c) && d < 16,
            None => !is_hex(c),
        },
{
    if c >= '0' && c <= '9' {
        Some((c as u32 - 48) as u8)
    } else if c >= 'a' && c <= 'f' {
        Some((c as u32 - 87) as u8)
    } else if c >= 'A' && c <= 'F' {
        Some((c as u32 - 55) as u8)
    } else {
        None
    }
}

/// The byte that two characters denote.
fn pair_byte(a: char, b: char) -> (r: Option<u8>)
    ensures
        match r {
            Some(x) => pair_value(a, b) == Some(x as nat),
            None => pair_value(a, b) is None,
        },
{
    match digit_of(b) {
        Some(y) => match digit_of(a) {
            Some(x) => Some(16 * x + y),
            None => {
                if a == '+' {
                    Some(y)
                } else {
                    None
                }
            },
        },
        None => None,
    }
}

/// Reads bytes in hexadecimal.
pub fn decode_hex(s: &str) -> (r: Result<Vec<u8>, String>)
    ensures
        bytes_view(r) == pair_bytes(s@),
{
    let t = str_trim(s);
    if str_bytes(&t) % 2 != 0 {
        return Err(lit("odd hex length"));
    }
    let v = chars_of(&t);
    if v.len() % 2 != 0 {
        return Err(lit("hex: invalid digit found in string"));
    }
    let mut out: Vec<u8> = Vec::new();
    let mut i: usize = 0;
    while i < v.len() / 2
        invariant
            i <= v.len() / 2,
            v@ == t@,
            t@ == trim(s@),
            byte_len(t@) % 2 == 0,
            v.len() % 2 == 0,
            out@.len() == i,
            forall|k: int|
                0 <= k < i ==> pair_value(t@[2 * k], t@[2 * k + 1]) == Some(
                    #[trigger] out@[k] as nat,
                ),
        decreases v.len() / 2 - i,
    {
        match pair_byte(v[2 * i], v[2 * i + 1]) {
            Some(b) => out.push(b),
            None => {
                assert(pair_value(t@[2 * (i as int)], t@[2 * (i as int) + 1]) is None);
                return Err(lit("hex: invalid digit found in string"));
            },
        }
        i += 1;
    }
    proof {
        assert forall|k: int| 0 <= k < t@.len() / 2 implies (#[trigger] pair_value(
            t@[2 * k],
            t@[2 * k + 1],
        )) is Some by {
            assert(pair_value(t@[2 * k], t@[2 * k + 1]) == Some(out@[k] as nat));
        }
        assert(out@ =~= pair_bytes(s@)->Ok_0);
    }
    Ok(out)
}

// ---------------------------------------------------------------------------
// Enrolment
// ---------------------------------------------------------------------------

/// A text, nothing where it is empty.
pub open spec fn unempty(s: Seq<char>) -> Option<Seq<char>> {
    if s.len() == 0 {
        None
    } else {
        Some(s)
    }
}

fn some_text(s: &str) -> (r: Option<String>)
    ensures
        opt_text(r) == unempty(s@),
{
    let v = chars_of(s);
    if v.len() == 0 {
        None
    } else {
        Some(lit(s))
    }
}

/// A text, a dash where it is empty.
pub open spec fn or_dash(s: Seq<char>) -> Seq<char> {
    if s.len() == 0 {
        "—"@
    } else {
        s
    }
}

fn dash_if_empty(s: &String) -> (r: String)
    ensures
        r@ == or_dash(s@),
{
    if s.is_empty() {
        lit("—")
    } else {
        lit(s)
    }
}

/// What is stored of the keys of a node.
#[derive(Debug, PartialEq, Eq)]
pub struct AkRow {
    pub ak_public_b64: Option<String>,
    pub ak_enrolled_at: Option<String>,
    pub ek_fingerprint: Option<String>,
}

#[verifier::ext_equal]
pub ghost struct AkRowV {
    pub ak_public_b64: Option<Seq<char>>,
    pub ak_enrolled_at: Option<Seq<char>>,
    pub ek_fingerprint: Option<Seq<char>>,
}

impl View for AkRow {
    type V = AkRowV;

    open spec fn view(&self) -> AkRowV {
        AkRowV {
            ak_public_b64: opt_text(self.ak_public_b64),
            ak_enrolled_at: opt_text(self.ak_enrolled_at),
            ek_fingerprint: opt_text(self.ek_fingerprint),
        }
    }
}

/// The mathematical form of a row.
pub open spec fn opt_row(o: Option<AkRow>) -> Option<AkRowV> {
    match o {
        Some(r) => Some(r@),
        None => None,
    }
}

/// What is stored of a quote at its enrolment, where it can be enrolled.
pub open spec fn enrolment(q: QuoteParseV, now: Seq<char>) -> Option<AkRowV> {
    if q.available && q.ak_public_b64.len() > 0 {
        Some(
            AkRowV {
                ak_public_b64: Some(q.ak_public_b64),
                ak_enrolled_at: Some(now),
                ek_fingerprint: unempty(q.ek_fingerprint),
            },
        )
    } else {
        None
    }
}

/// The message on an enrolment of a key of `len` bytes.
pub open spec fn enrolled_message(q: QuoteParseV, len: nat) -> Seq<char> {
    let m = "enrolled AK from Quote ("@ + dec(len) + " bytes)"@;
    if q.ek_fingerprint.len() == 0 {
        m
    } else {
        m + "; EK fingerprint "@ + sixteen(q.ek_fingerprint) + "… (chain="@ + or_dash(
            q.ek_chain_status,
        ) + ")"@
    }
}

/// What a caller sees of an enrolment, given fingerprint and length of the key.
pub open spec fn enrolled_out(
    q: QuoteParseV,
    now: Seq<char>,
    fingerprint: Option<Seq<char>>,
    len: nat,
) -> AttestationOutV {
    if enrolment(q, now) is Some {
        AttestationOutV {
            enrolled: true,
            ak_enrolled_at: Some(now),
            ak_fingerprint: fingerprint,
            ek_fingerprint: short_fingerprint(q.ek_fingerprint),
            ek_chain_status: unempty(q.ek_chain_status),
            ok: Some(true),
            message: enrolled_message(q, len),
        }
    } else {
        AttestationOutV {
            enrolled: false,
            ak_enrolled_at: None,
            ak_fingerprint: None,
            ek_fingerprint: None,
            ek_chain_status: None,
            ok: Some(false),
            message: if q.message.len() == 0 {
                "Quote unavailable (no TPM / persistent AK?)"@
            } else {
                q.message
            },
        }
    }
}

/// What to store of a quote at its enrolment and what to answer, given
/// fingerprint and length of the key.
pub fn enroll_with(q: &QuoteParse, now: &str, fingerprint: Option<String>, len: usize) -> (r: (
    Option<AkRow>,
    AttestationOut,
))
    ensures
        opt_row(r.0) == enrolment(q@, now@),
        r.1@ == enrolled_out(q@, now@, opt_text(fingerprint), len as nat),
{
    if !q.available || q.ak_public_b64.is_empty() {
        let message = if q.message.is_empty() {
            lit("Quote unavailable (no TPM / persistent AK?)")
        } else {
            lit(&q.message)
        };
        return (
            None,
            AttestationOut {
                enrolled: false,
                ak_enrolled_at: None,
                ak_fingerprint: None,
                ek_fingerprint: None,
                ek_chain_status: None,
                ok: Some(false),
                message,
            },
        );
    }
    let mut message = lit("enrolled AK from Quote (").concat(&usize_str(len)).concat(" bytes)");
    if !q.ek_fingerprint.is_empty() {
        message = message.concat("; EK fingerprint ").concat(
            &take_sixteen(&q.ek_fingerprint),
        ).concat("… (chain=").concat(&dash_if_empty(&q.ek_chain_status)).concat(")");
    }
    (
        Some(
            AkRow {
                ak_public_b64: Some(lit(&q.ak_public_b64)),
                ak_enrolled_at: Some(lit(now)),
                ek_fingerprint: some_text(&q.ek_fingerprint),
            },
        ),
        AttestationOut {
            enrolled: true,
            ak_enrolled_at: Some(lit(now)),
            ak_fingerprint: fingerprint,
            ek_fingerprint: ek_fp_short(&q.ek_fingerprint),
            ek_chain_status: some_text(&q.ek_chain_status),
            ok: Some(true),
            message,
        },
    )
}

/// The number of bytes that a base64 text denotes, none where it denotes none.
pub open spec fn b64_len(text: Seq<char>) -> nat {
    match b64_bytes(text) {
        Some(b) => b.len(),
        None => 0,
    }
}

/// The answer where a quote did not come in time or failed.
pub open spec fn quote_fault(quote: Option<Result<QuoteParse, String>>) -> Option<Seq<char>> {
    match quote {
        None => Some("pertiskctl quote timed out"@),
        Some(Err(e)) => Some(e@),
        Some(Ok(_)) => None,
    }
}

/// What to store of the quote of a node at its enrolment and what to answer;
/// nothing stands for a quote that did not come in time.
pub fn enroll(quote: &Option<Result<QuoteParse, String>>, now: &str) -> (r: ApiResult<
    (Option<AkRow>, AttestationOut),
>)
    ensures
        match r {
            Ok(p) => {
                &&& quote_fault(*quote) is None
                &&& opt_row(p.0) == enrolment(quote->0->Ok_0@, now@)
                &&& p.1@ == enrolled_out(
                    quote->0->Ok_0@,
                    now@,
                    key_fingerprint(quote->0->Ok_0.ak_public_b64@),
                    b64_len(quote->0->Ok_0.ak_public_b64@),
                )
            },
            Err(e) => quote_fault(*quote) is Some && e@ == ErrorV::BadRequest(
                quote_fault(*quote)->0,
            ),
        },
{
    match quote {
        None => Err(AppError::bad("pertiskctl quote timed out")),
        Some(Err(e)) => Err(AppError::bad(e)),
        Some(Ok(q)) => {
            let len: usize = match b64_decode(&q.ak_public_b64) {
                Ok(b) => b.len(),
                Err(_) => 0,
            };
            Ok(enroll_with(q, now, fingerprint_b64(&q.ak_public_b64), len))
        },
    }
}

// ---------------------------------------------------------------------------
// Verification
// ---------------------------------------------------------------------------

/// What the signature of a quote is checked over.
#[derive(Debug, PartialEq, Eq)]
pub struct QuoteCheck {
    pub quoted: Vec<u8>,
    pub signature: Vec<u8>,
    pub ak_public: Vec<u8>,
    pub nonce: Vec<u8>,
    pub pcrs: Vec<(u32, String)>,
}

#[verifier::ext_equal]
pub ghost struct QuoteCheckV {
    pub quoted: Seq<u8>,
    pub signature: Seq<u8>,
    pub ak_public: Seq<u8>,
    pub nonce: Seq<u8>,
    pub pcrs: Seq<(nat, Seq<char>)>,
}

impl View for QuoteCheck {
    type V = QuoteCheckV;

    open spec fn view(&self) -> QuoteCheckV {
        QuoteCheckV {
            quoted: self.quoted@,
            signature: self.signature@,
            ak_public: self.ak_public@,
            nonce: self.nonce@,
            pcrs: pcr_views(self.pcrs@),
        }
    }
}

/// What comes next in a verification.
#[derive(Debug, PartialEq, Eq)]
pub enum VerifyStep {
    /// Ask the node for a quote.
    Quote,
    /// Check the signature.
    Check(QuoteCheck),
    Done(AttestationOut),
}

#[verifier::ext_equal]
pub ghost enum VerifyStepV {
    Quote,
    Check(QuoteCheckV),
    Done(AttestationOutV),
}

impl View for VerifyStep {
    type V = VerifyStepV;

    open spec fn view(&self) -> VerifyStepV {
        match self {
            VerifyStep::Quote => VerifyStepV::Quote,
            VerifyStep::Check(c) => VerifyStepV::Check(c@),
            VerifyStep::Done(o) => VerifyStepV::Done(o@),
        }
    }
}

/// The mathematical form of a step or an error.
pub open spec fn step_view(r: ApiResult<VerifyStep>) -> Result<VerifyStepV, ErrorV> {
    match r {
        Ok(s) => Ok(s@),
        Err(e) => Err(e@),
    }
}

/// The answer where no key is enrolled.
pub open spec fn no_key() -> AttestationOutV {
    AttestationOutV {
        enrolled: false,
        ak_enrolled_at: None,
        ak_fingerprint: None,
        ek_fingerprint: None,
        ek_chain_status: None,
        ok: Some(false),
        message: "no AK enrolled — POST …/attestation/enroll first"@,
    }
}

/// The answer on a node with an enrolled key.
pub open spec fn key_out(
    row: AkRowV,
    fingerprint: Option<Seq<char>>,
    ek: Option<Seq<char>>,
    chain: Option<Seq<char>>,
    ok: bool,
    message: Seq<char>,
) -> AttestationOutV {
    AttestationOutV {
        enrolled: true,
        ak_enrolled_at: row.ak_enrolled_at,
        ak_fingerprint: fingerprint,
        ek_fingerprint: ek,
        ek_chain_status: chain,
        ok: Some(ok),
        message,
    }
}

/// The start of the stored fingerprint of a row.
pub open spec fn row_short(row: AkRowV) -> Option<Seq<char>> {
    match row.ek_fingerprint {
        Some(s) => short_fingerprint(s),
        None => None,
    }
}

/// Why a quote is not that of the enrolled keys, as an answer.
pub open spec fn mismatch(row: AkRowV, q: QuoteParseV, fingerprint: Option<Seq<char>>) -> Option<
    AttestationOutV,
> {
    let ek = row_short(row);
    if !q.available {
        Some(key_out(row, fingerprint, ek, None, false, q.message))
    } else if row.ak_public_b64 != Some(q.ak_public_b64) {
        Some(
            key_out(
                row,
                fingerprint,
                ek,
                unempty(q.ek_chain_status),
                false,
                "Quote AK does not match enrolled key (re-enroll after AK reset?)"@,
            ),
        )
    } else if row.ek_fingerprint is Some && row.ek_fingerprint->0.len() > 0
        && q.ek_fingerprint.len() == 0 {
        Some(
            key_out(
                row,
                fingerprint,
                ek,
                None,
                false,
                "enrolled EK fingerprint present but Quote has no EK cert"@,
            ),
        )
    } else if row.ek_fingerprint is Some && row.ek_fingerprint->0.len() > 0 && q.ek_fingerprint
        != row.ek_fingerprint->0 {
        Some(
            key_out(
                row,
                fingerprint,
                ek,
                Some(q.ek_chain_status),
                false,
                "Quote EK fingerprint does not match enrolled EK"@,
            ),
        )
    } else {
        None
    }
}

/// What is read of the parts of a quote: of each the bytes, or why it has none.
#[verifier::ext_equal]
pub ghost struct QuoteBytes {
    pub quoted: Result<Seq<u8>, Seq<char>>,
    pub signature: Result<Seq<u8>, Seq<char>>,
    pub ak_public: Result<Seq<u8>, Seq<char>>,
    pub nonce: Result<Seq<u8>, Seq<char>>,
}

/// What the signature of a quote is checked over, given what its parts are read
/// as.
pub open spec fn quote_check(q: QuoteParseV, b: QuoteBytes) -> Result<QuoteCheckV, ErrorV> {
    match b.quoted {
        Err(e) => Err(ErrorV::BadRequest("quoted_b64: "@ + e)),
        Ok(quoted) => match b.signature {
            Err(e) => Err(ErrorV::BadRequest("signature_b64: "@ + e)),
            Ok(signature) => match b.ak_public {
                Err(e) => Err(ErrorV::BadRequest("ak_public_b64: "@ + e)),
                Ok(ak_public) => match b.nonce {
                    Err(e) => Err(ErrorV::BadRequest(e)),
                    Ok(nonce) => Ok(
                        QuoteCheckV { quoted, signature, ak_public, nonce, pcrs: q.pcrs },
                    ),
                },
            },
        },
    }
}

/// The message on a quote whose signature is right.
pub open spec fn verified_message(q: QuoteParseV) -> Seq<char> {
    let m = "verify=ok (signature + nonce + PCR digest)"@;
    if q.ek_fingerprint.len() == 0 {
        m
    } else {
        m + "; EK ok chain="@ + or_dash(q.ek_chain_status)
    }
}

/// The answer on a quote of the enrolled keys, given whether its signature is
/// right.
pub open spec fn checked_out(
    row: AkRowV,
    q: QuoteParseV,
    fingerprint: Option<Seq<char>>,
    check: Result<(), String>,
) -> AttestationOutV {
    match check {
        Ok(_) => key_out(
            row,
            fingerprint,
            if short_fingerprint(q.ek_fingerprint) is Some {
                short_fingerprint(q.ek_fingerprint)
            } else {
                row_short(row)
            },
            unempty(q.ek_chain_status),
            true,
            verified_message(q),
        ),
        Err(e) => key_out(
            row,
            fingerprint,
            row_short(row),
            unempty(q.ek_chain_status),
            false,
            "verify failed: "@ + e@,
        ),
    }
}

/// The next step of a verification, given what is stored, the quote, what is
/// read of its parts, the fingerprint of the stored key and the check of the
/// signature as far as they are known.
pub open spec fn verify_step(
    row: Option<AkRowV>,
    quote: Option<QuoteParseV>,
    b: QuoteBytes,
    fingerprint: Option<Seq<char>>,
    check: Option<Result<(), String>>,
) -> Result<VerifyStepV, ErrorV> {
    if row is None || row->0.ak_public_b64 is None {
        Ok(VerifyStepV::Done(no_key()))
    } else if quote is None {
        Ok(VerifyStepV::Quote)
    } else if mismatch(row->0, quote->0, fingerprint) is Some {
        Ok(VerifyStepV::Done(mismatch(row->0, quote->0, fingerprint)->0))
    } else {
        match quote_check(quote->0, b) {
            Err(e) => Err(e),
            Ok(c) => match check {
                None => Ok(VerifyStepV::Check(c)),
                Some(r) => Ok(VerifyStepV::Done(checked_out(row->0, quote->0, fingerprint, r))),
            },
        }
    }
}

/// What the parts of a quote and the stored key are read as.
pub open spec fn quote_bytes(q: QuoteParseV, ak: Seq<char>) -> QuoteBytes {
    QuoteBytes {
        quoted: b64_decoded(trim(q.quoted_b64)),
        signature: b64_decoded(trim(q.signature_b64)),
        ak_public: b64_decoded(trim(ak)),
        nonce: pair_bytes(q.nonce_hex),
    }
}

fn answer(
    row: &AkRow,
    fingerprint: Option<String>,
    ek: Option<String>,
    chain: Option<String>,
    ok: bool,
    message: String,
) -> (r: AttestationOut)
    ensures
        r@ == key_out(
            row@,
            opt_text(fingerprint),
            opt_text(ek),
            opt_text(chain),
            ok,
            message@,
        ),
{
    AttestationOut {
        enrolled: true,
        ak_enrolled_at: match &row.ak_enrolled_at {
            Some(s) => Some(lit(s)),
            None => None,
        },
        ak_fingerprint: fingerprint,
        ek_fingerprint: ek,
        ek_chain_status: chain,
        ok: Some(ok),
        message,
    }
}

/// Whether a quote is that of the enrolled keys; if not, the answer.
pub fn find_mismatch(row: &AkRow, q: &QuoteParse, fingerprint: &Option<String>) -> (r: Option<
    AttestationOut,
>)
    ensures
        r is Some == mismatch(row@, q@, opt_text(*fingerprint)) is Some,
        r is Some ==> r->0@ == mismatch(row@, q@, opt_text(*fingerprint))->0,
{
    let fp = match fingerprint {
        Some(s) => Some(lit(s)),
        None => None,
    };
    if !q.available {
        return Some(answer(row, fp, short_of(&row.ek_fingerprint), None, false, lit(&q.message)));
    }
    if !opt_eq(&row.ak_public_b64, &q.ak_public_b64) {
        return Some(
            answer(
                row,
                fp,
                short_of(&row.ek_fingerprint),
                some_text(&q.ek_chain_status),
                false,
                lit("Quote AK does not match enrolled key (re-enroll after AK reset?)"),
            ),
        );
    }
    match &row.ek_fingerprint {
        Some(want) => {
            if !want.is_empty() {
                if q.ek_fingerprint.is_empty() {
                    return Some(
                        answer(
                            row,
                            fp,
                            ek_fp_short(want),
                            None,
                            false,
                            lit("enrolled EK fingerprint present but Quote has no EK cert"),
                        ),
                    );
                }
                if !str_eq(&q.ek_fingerprint, want) {
                    return Some(
                        answer(
                            row,
                            fp,
                            ek_fp_short(want),
                            Some(lit(&q.ek_chain_status)),
                            false,
                            lit("Quote EK fingerprint does not match enrolled EK"),
                        ),
                    );
                }
            }
        },
        None => {},
    }
    None
}

fn copy_pcrs(v: &Vec<(u32, String)>) -> (r: Vec<(u32, String)>)
    ensures
        pcr_views(r@) == pcr_views(v@),
{
    let mut out: Vec<(u32, String)> = Vec::new();
    let mut i: usize = 0;
    while i < v.len()
        invariant
            i <= v.len(),
            out.len() == i,
            forall|k: int| 0 <= k < i ==> (#[trigger] out@[k]).0 == v@[k].0 && out@[k].1@ == v@[k].1@,
        decreases v.len() - i,
    {
        out.push((v[i].0, lit(&v[i].1)));
        i += 1;
    }
    assert(pcr_views(out@) =~= pcr_views(v@));
    out
}

/// What the signature of a quote is checked over, given what its parts are read
/// as.
pub fn check_of(
    q: &QuoteParse,
    quoted: Result<Vec<u8>, String>,
    signature: Result<Vec<u8>, String>,
    ak_public: Result<Vec<u8>, String>,
    nonce: Result<Vec<u8>, String>,
) -> (r: ApiResult<QuoteCheck>)
    ensures
        ({
            let b = QuoteBytes {
                quoted: bytes_view(quoted),
                signature: bytes_view(signature),
                ak_public: bytes_view(ak_public),
                nonce: bytes_view(nonce),
            };
            match r {
                Ok(c) => quote_check(q@, b) == Ok::<QuoteCheckV, ErrorV>(c@),
                Err(e) => quote_check(q@, b) == Err::<QuoteCheckV, ErrorV>(e@),
            }
        }),
{
    match quoted {
        Err(e) => Err(AppError::BadRequest(cat("quoted_b64: ", &e))),
        Ok(quoted) => match signature {
            Err(e) => Err(AppError::BadRequest(cat("signature_b64: ", &e))),
            Ok(signature) => match ak_public {
                Err(e) => Err(AppError::BadRequest(cat("ak_public_b64: ", &e))),
                Ok(ak_public) => match nonce {
                    Err(e) => Err(AppError::BadRequest(e)),
                    Ok(nonce) => Ok(
                        QuoteCheck { quoted, signature, ak_public, nonce, pcrs: copy_pcrs(&q.pcrs) },
                    ),
                },
            },
        },
    }
}

/// The answer on a quote of the enrolled keys, given whether its signature is
/// right.
pub fn check_answer(
    row: &AkRow,
    q: &QuoteParse,
    fingerprint: Option<String>,
    check: &Result<(), String>,
) -> (r: AttestationOut)
    ensures
        r@ == checked_out(row@, q@, opt_text(fingerprint), *check),
{
    match check {
        Ok(_) => {
            let mut message = lit("verify=ok (signature + nonce + PCR digest)");
            if !q.ek_fingerprint.is_empty() {
                message = message.concat("; EK ok chain=").concat(
                    &dash_if_empty(&q.ek_chain_status),
                );
            }
            let ek = match ek_fp_short(&q.ek_fingerprint) {
                Some(s) => Some(s),
                None => short_of(&row.ek_fingerprint),
            };
            answer(row, fingerprint, ek, some_text(&q.ek_chain_status), true, message)
        },
        Err(e) => answer(
            row,
            fingerprint,
            short_of(&row.ek_fingerprint),
            some_text(&q.ek_chain_status),
            false,
            cat("verify failed: ", e),
        ),
    }
}

/// The stored key of a row.
pub open spec fn stored_key(row: Option<AkRowV>) -> Seq<char> {
    if row is Some && row->0.ak_public_b64 is Some {
        row->0.ak_public_b64->0
    } else {
        Seq::empty()
    }
}

/// The mathematical form of a quote that may not have been asked for yet.
pub open spec fn opt_quote(o: Option<QuoteParse>) -> Option<QuoteParseV> {
    match o {
        Some(q) => Some(q@),
        None => None,
    }
}

/// The next step in the verification of a node: with no quote it asks for one,
/// with no check of the signature for that.
pub fn verify(
    row: &Option<AkRow>,
    quote: &Option<QuoteParse>,
    check: &Option<Result<(), String>>,
) -> (r: ApiResult<VerifyStep>)
    ensures
        step_view(r) == verify_step(
            opt_row(*row),
            opt_quote(*quote),
            quote_bytes(opt_quote(*quote)->0, stored_key(opt_row(*row))),
            key_fingerprint(stored_key(opt_row(*row))),
            *check,
        ),
{
    let ghost key = stored_key(opt_row(*row));
    match row {
        Some(k) => match &k.ak_public_b64 {
            Some(stored) => match quote {
                None => Ok(VerifyStep::Quote),
                Some(q) => {
                    let fingerprint = fingerprint_b64(stored);
                    match find_mismatch(k, q, &fingerprint) {
                        Some(out) => {
                            return Ok(VerifyStep::Done(out));
                        },
                        None => {},
                    }
                    match check_of(
                        q,
                        b64_decode(&str_trim(&q.quoted_b64)),
                        b64_decode(&str_trim(&q.signature_b64)),
                        b64_decode(&str_trim(stored)),
                        decode_hex(&q.nonce_hex),
                    ) {
                        Err(e) => Err(e),
                        Ok(c) => match check {
                            None => Ok(VerifyStep::Check(c)),
                            Some(done) => Ok(
                                VerifyStep::Done(check_answer(k, q, fingerprint, done)),
                            ),
                        },
                    }
                },
            },
            None => Ok(VerifyStep::Done(unenrolled())),
        },
        None => Ok(VerifyStep::Done(unenrolled())),
    }
}

fn unenrolled() -> (r: AttestationOut)
    ensures
        r@ == no_key(),
{
    AttestationOut {
        enrolled: false,
        ak_enrolled_at: None,
        ak_fingerprint: None,
        ek_fingerprint: None,
        ek_chain_status: None,
        ok: Some(false),
        message: lit("no AK enrolled — POST …/attestation/enroll first"),
    }
}

/// What is known of the enrolment of a node without asking it.
pub open spec fn status_out(row: Option<AkRowV>, fingerprint: Option<Seq<char>>) ->
    AttestationOutV {
    if stored_key(row).len() > 0 {
        AttestationOutV {
            enrolled: true,
            ak_enrolled_at: row->0.ak_enrolled_at,
            ak_fingerprint: fingerprint,
            ek_fingerprint: row_short(row->0),
            ek_chain_status: None,
            ok: None,
            message: if row->0.ek_fingerprint is Some && row->0.ek_fingerprint->0.len() > 0 {
                "AK + EK enrolled"@
            } else {
                "AK enrolled"@
            },
        }
    } else {
        AttestationOutV {
            enrolled: false,
            ak_enrolled_at: None,
            ak_fingerprint: None,
            ek_fingerprint: None,
            ek_chain_status: None,
            ok: None,
            message: "not enrolled"@,
        }
    }
}

/// What is known of the enrolment of a node without asking it.
pub fn status(row: &Option<AkRow>) -> (r: AttestationOut)
    ensures
        r@ == status_out(opt_row(*row), key_fingerprint(stored_key(opt_row(*row)))),
{
    match row {
        Some(k) => match &k.ak_public_b64 {
            Some(ak) => {
                if !ak.is_empty() {
                    return AttestationOut {
                        enrolled: true,
                        ak_enrolled_at: match &k.ak_enrolled_at {
                            Some(s) => Some(lit(s)),
                            None => None,
                        },
                        ak_fingerprint: fingerprint_b64(ak),
                        ek_fingerprint: short_of(&k.ek_fingerprint),
                        ek_chain_status: None,
                        ok: None,
                        message: match &k.ek_fingerprint {
                            Some(e) => if e.is_empty() {
                                lit("AK enrolled")
                            } else {
                                lit("AK + EK enrolled")
                            },
                            None => lit("AK enrolled"),
                        },
                    };
                }
            },
            None => {},
        },
        None => {},
    }
    AttestationOut {
        enrolled: false,
        ak_enrolled_at: None,
        ak_fingerprint: None,
        ek_fingerprint: None,
        ek_chain_status: None,
        ok: None,
        message: lit("not enrolled"),
    }
}

/// A node passes only with an available quote of the enrolled attestation key,
/// with the enrolled endorsement certificate where one is stored, and with a
/// signature that was checked and is right.
pub proof fn law_only_enrolled_keys_pass(
    row: Option<AkRowV>,
    quote: Option<QuoteParseV>,
    b: QuoteBytes,
    fingerprint: Option<Seq<char>>,
    check: Option<Result<(), String>>,
)
    requires
        verify_step(row, quote, b, fingerprint, check) matches Ok(VerifyStepV::Done(out))
            && out.ok == Some(true),
    ensures
        row is Some,
        quote is Some,
        quote->0.available,
        row->0.ak_public_b64 == Some(quote->0.ak_public_b64),
        row->0.ek_fingerprint is Some && row->0.ek_fingerprint->0.len() > 0
            ==> quote->0.ek_fingerprint == row->0.ek_fingerprint->0,
        check is Some,
        check->0 is Ok,
{
}

/// A quote that was enrolled is that of the enrolled keys.
pub proof fn law_enrolled_quote_matches(
    q: QuoteParseV,
    now: Seq<char>,
    fingerprint: Option<Seq<char>>,
)
    requires
        enrolment(q, now) is Some,
    ensures
        mismatch(enrolment(q, now)->0, q, fingerprint) is None,
{
}

/// A node passes exactly where a key is enrolled, its quote is there, is of that
/// key and of the enrolled machine, and the signature holds.
pub proof fn law_when_a_node_passes(
    row: AkRowV,
    q: QuoteParseV,
    b: QuoteBytes,
    f: Option<Seq<char>>,
    r: Result<(), String>,
)
    requires
        row.ak_public_b64 is Some,
    ensures
        verify_step(Some(row), Some(q), b, f, Some(r)) matches Ok(VerifyStepV::Done(o)) ==> {
            let machine = row.ek_fingerprint is None || row.ek_fingerprint->0.len() == 0
                || row.ek_fingerprint->0 == q.ek_fingerprint;
            &&& o.ok == Some(true) <==> q.available && q.ak_public_b64 == row.ak_public_b64->0
                && machine && r is Ok
            &&& o.ok == Some(true) || o.ok == Some(false)
            &&& o.enrolled
            &&& o.ak_enrolled_at == row.ak_enrolled_at
        },
        verify_step(None, Some(q), b, f, Some(r)) matches Ok(VerifyStepV::Done(o)) && o.ok == Some(
            false,
        ) && !o.enrolled,
{
}

/// What is handed to the check of the signature is what the quote holds, with the
/// key that is enrolled.
pub proof fn law_what_is_checked(q: QuoteParseV, ak: Seq<char>)
    ensures
        quote_check(q, quote_bytes(q, ak)) matches Ok(c) ==> {
            &&& b64_decoded(trim(q.quoted_b64)) == Ok::<Seq<u8>, Seq<char>>(c.quoted)
            &&& b64_decoded(trim(q.signature_b64)) == Ok::<Seq<u8>, Seq<char>>(c.signature)
            &&& b64_decoded(trim(ak)) == Ok::<Seq<u8>, Seq<char>>(c.ak_public)
            &&& pair_bytes(q.nonce_hex) == Ok::<Seq<u8>, Seq<char>>(c.nonce)
            &&& c.pcrs == q.pcrs
        },
{
}

/// A key is enrolled exactly where the quote is there and names one; it is stored
/// with the machine of the quote and the time.
pub proof fn law_what_is_enrolled(
    q: QuoteParseV,
    now: Seq<char>,
    f: Option<Seq<char>>,
    len: nat,
)
    ensures
        ({
            let yes = q.available && q.ak_public_b64.len() > 0;
            let o = enrolled_out(q, now, f, len);
            &&& enrolment(q, now) is Some <==> yes
            &&& yes ==> enrolment(q, now)->0.ak_public_b64 == Some(q.ak_public_b64) && enrolment(
                q,
                now,
            )->0.ak_enrolled_at == Some(now)
            &&& yes && q.ek_fingerprint.len() > 0 ==> enrolment(q, now)->0.ek_fingerprint == Some(
                q.ek_fingerprint,
            )
            &&& yes && q.ek_fingerprint.len() == 0 ==> enrolment(q, now)->0.ek_fingerprint is None
            &&& o.enrolled <==> yes
            &&& o.ok == Some(yes)
            &&& yes ==> o.ak_fingerprint == f && o.ak_enrolled_at == Some(now)
        }),
{
}

/// What is shown of a node that was not asked: whether a key is stored for it.
pub proof fn law_shown_without_asking(row: AkRowV, f: Option<Seq<char>>)
    ensures
        ({
            let key = row.ak_public_b64 is Some && row.ak_public_b64->0.len() > 0;
            let o = status_out(Some(row), f);
            &&& o.enrolled <==> key
            &&& o.ok is None
            &&& key ==> o.ak_fingerprint == f && o.ak_enrolled_at == row.ak_enrolled_at
            &&& !key ==> o.ak_fingerprint is None && o.message == "not enrolled"@
            &&& !status_out(None, f).enrolled
        }),
{
}

/// Each line of a quote fills its own field and leaves the others.
#[verifier::rlimit(60)]
pub proof fn law_lines_of_a_quote(q: QuoteParseV, raw: Seq<char>, v: Seq<char>)
    ensures
        trim(raw) == "nonce="@ + v ==> quote_line(q, raw) == (QuoteParseV {
            nonce_hex: trim(v),
            ..q
        }),
        trim(raw) == "quoted_b64="@ + v ==> quote_line(q, raw) == (QuoteParseV {
            quoted_b64: first_word(v),
            ..q
        }),
        trim(raw) == "signature_b64="@ + v ==> quote_line(q, raw) == (QuoteParseV {
            signature_b64: first_word(v),
            ..q
        }),
        trim(raw) == "ak_public_b64="@ + v ==> quote_line(q, raw) == (QuoteParseV {
            ak_public_b64: first_word(v),
            ..q
        }),
        trim(raw) == "ek_chain_message="@ + v ==> quote_line(q, raw) == (QuoteParseV {
            ek_chain_message: trim(v),
            ..q
        }),
        trim(raw) == "available="@ + v ==> quote_line(q, raw).available == (first_word(v)
            == "true"@) && quote_line(q, raw).ak_public_b64 == q.ak_public_b64,
{
    let t = trim(raw);
    reveal_strlit("available=");
    lemma_line_front(t, "available="@, v);
    reveal_strlit("nonce=");
    lemma_line_front(t, "nonce="@, v);
    reveal_strlit("quoted_b64=");
    lemma_line_front(t, "quoted_b64="@, v);
    reveal_strlit("signature_b64=");
    lemma_line_front(t, "signature_b64="@, v);
    reveal_strlit("ak_public_b64=");
    lemma_line_front(t, "ak_public_b64="@, v);
    reveal_strlit("ek_nv=");
    lemma_line_front(t, "ek_nv="@, v);
    reveal_strlit("ek_chain_message=");
    lemma_line_front(t, "ek_chain_message="@, v);
}

/// A line that begins with a text gives back the rest, and begins as that text
/// does.
proof fn lemma_line_front(t: Seq<char>, p: Seq<char>, v: Seq<char>)
    requires
        p.len() >= 4,
    ensures
        t == p + v ==> starts_with(t, p) && strip_prefix(t, p) == Some(v) && t[0] == p[0] && t[1]
            == p[1] && t[3] == p[3],
        starts_with(t, p) ==> t[0] == p[0] && t[1] == p[1] && t[3] == p[3],
{
    if t == p + v {
        assert(t.subrange(0, p.len() as int) =~= p);
        assert(t.take(p.len() as int) =~= p);
        assert(t.subrange(p.len() as int, t.len() as int) =~= v);
        assert(t.skip(p.len() as int) =~= v);
    }
    if starts_with(t, p) {
        assert(t.subrange(0, p.len() as int)[0] == p[0]);
        assert(t.subrange(0, p.len() as int)[1] == p[1]);
        assert(t.subrange(0, p.len() as int)[3] == p[3]);
    }
}

} // verus!
