//! Names that the add-on settings hold: Kubernetes names, DNS names, image
//! tags, mail addresses.
use crate::text::{
    back_char, byte_len, char_is_alnum, char_is_digit, char_is_lower, chars_of, has_any, is_alnum,
    is_digit, is_lower, is_upper, is_ws, lemma_ascii_bytes, lemma_trim_ends, lemma_trimmed, lit,
    lower, no_texts, only, put, skip_char, slice_str, split_once, starts_with, str_bytes,
    str_eq_nocase, str_has_any, str_has_char, str_lower, str_only, str_split_once, str_strip_prefix,
    str_trim, str_trim_char, str_trim_end_char, str_trim_start_char, str_trim_start_str,
    strip_prefix, texts, trim, trim_char, trim_end_char, trim_start_char, trim_start_str,
};
use vstd::prelude::*;
use vstd::string::*;

verus! {

/// Lower-case letters, digits, `-` and `.`; a letter or digit at both ends; at
/// most 253 bytes.
pub open spec fn name_ok(t: Seq<char>) -> bool {
    &&& 1 <= byte_len(t) <= 253
    &&& forall|i: int|
        0 <= i < t.len() ==> is_lower(#[trigger] t[i]) || is_digit(t[i]) || t[i] == '-' || t[i]
            == '.'
    &&& t.len() > 0
    &&& is_alnum(t[0])
    &&& is_alnum(t.last())
}

/// Whether the trimmed text is a Kubernetes resource name.
pub fn k8s_name_ok(name: &str) -> (r: bool)
    ensures
        r == name_ok(trim(name@)),
{
    let t = str_trim(name);
    let n: usize = str_bytes(&t);
    if n < 1 || n > 253 {
        return false;
    }
    let v = chars_of(&t);
    let mut i: usize = 0;
    while i < v.len()
        invariant
            i <= v.len(),
            v@ == t@,
            t@ == trim(name@),
            1 <= byte_len(t@) <= 253,
            forall|k: int|
                0 <= k < i ==> is_lower(#[trigger] t@[k]) || is_digit(t@[k]) || t@[k] == '-'
                    || t@[k] == '.',
        decreases v.len() - i,
    {
        let c: char = v[i];
        if !char_is_lower(c) && !char_is_digit(c) && c != '-' && c != '.' {
            assert(t@[i as int] == c);
            return false;
        }
        i += 1;
    }
    v.len() > 0 && char_is_alnum(v[0]) && char_is_alnum(v[v.len() - 1])
}

/// The name under which a wildcard is asked for: without the closing dot, the
/// `*.` and the leading dots.
pub open spec fn apex(raw: Seq<char>) -> Seq<char> {
    let t = trim_end_char(trim(raw), '.');
    trim_start_char(
        match strip_prefix(t, "*."@) {
            Some(r) => r,
            None => t,
        },
        '.',
    )
}

/// The wildcard and the apex, nothing where the apex has no dot.
pub open spec fn dns_names(raw: Seq<char>) -> Seq<Seq<char>> {
    if apex(raw).contains('.') {
        seq!["*."@ + apex(raw), apex(raw)]
    } else {
        Seq::empty()
    }
}

/// Apex and wildcard names for a certificate.
pub fn wildcard_dns_names(raw: &str) -> (r: Vec<String>)
    ensures
        texts(r@) == dns_names(raw@),
{
    let t = str_trim_end_char(&str_trim(raw), '.');
    let base = match str_strip_prefix(&t, "*.") {
        Some(r) => r,
        None => lit(&t),
    };
    let a = str_trim_start_char(&base, '.');
    let mut out = no_texts();
    if str_has_char(&a, '.') {
        let star = lit("*.").concat(&a);
        put(&mut out, &star);
        put(&mut out, &a);
        assert(texts(out@) =~= seq!["*."@ + a@, a@]);
    }
    out
}

/// Dots at the end of a text that follows `*.` are those of the text, and the
/// one of `*.` where it has nothing else.
proof fn lemma_back_after_star(t: Seq<char>, k: int)
    requires
        0 <= k <= t.len(),
    ensures
        0 <= back_char(t, '.', k) <= k,
        back_char("*."@ + t, '.', k + 2) == (if back_char(t, '.', k) > 0 {
            back_char(t, '.', k) + 2
        } else {
            1
        }),
    decreases k,
{
    reveal_strlit("*.");
    let w = "*."@ + t;
    if k == 0 {
        reveal_with_fuel(back_char, 3);
        assert(w[1] == '.');
        assert(w[0] == '*');
    } else {
        assert(w[k + 1] == t[k - 1]);
        lemma_back_after_star(t, k - 1);
    }
}

/// A domain gives the same names whether or not it is written as a wildcard.
pub proof fn law_wildcard_stands_for_its_domain(domain: Seq<char>)
    requires
        !starts_with(trim(domain), "*."@),
    ensures
        dns_names("*."@ + trim(domain)) == dns_names(domain),
{
    reveal_strlit("*.");
    let t = trim(domain);
    let w = "*."@ + t;
    lemma_trim_ends(domain);
    assert(!is_ws(w[0]));
    assert(!is_ws(w.last())) by {
        if t.len() > 0 {
            assert(w.last() == t.last());
        }
    }
    lemma_trimmed(w);
    lemma_back_after_star(t, t.len() as int);
    let e = trim_end_char(t, '.');
    if e.len() > 0 {
        assert(trim_end_char(w, '.') =~= "*."@ + e);
        assert(starts_with("*."@ + e, "*."@)) by {
            assert(("*."@ + e).subrange(0, 2) =~= "*."@);
        }
        assert(("*."@ + e).subrange(2, e.len() as int + 2) =~= e);
        assert(!starts_with(e, "*."@)) by {
            if starts_with(e, "*."@) {
                assert(e.subrange(0, 2) =~= t.subrange(0, 2));
            }
        }
        assert(apex(w) == apex(domain));
    } else {
        assert(trim_end_char(w, '.') =~= seq!['*']);
        assert(skip_char(seq!['*'], '.', 0) == 0);
        assert(apex(w) =~= seq!['*']);
        assert(e =~= Seq::<char>::empty());
        assert(apex(domain) =~= Seq::<char>::empty());
        assert(!apex(w).contains('.'));
        assert(!apex(domain).contains('.'));
    }
}

/// Letters and digits of the first `n` characters, with one `-` for each run of
/// dots and dashes between them.
pub open spec fn slug(t: Seq<char>, n: int) -> Seq<char>
    decreases n,
{
    if 0 < n <= t.len() {
        let r = slug(t, n - 1);
        let c = t[n - 1];
        if is_alnum(c) {
            r.push(c)
        } else if (c == '.' || c == '-') && !(r.len() > 0 && r.last() == '-') {
            r.push('-')
        } else {
            r
        }
    } else {
        Seq::empty()
    }
}

/// The base of the secret's name.
pub open spec fn secret_slug(raw: Seq<char>) -> Seq<char> {
    let t = lower(trim_start_str(trim_end_char(trim(raw), '.'), "*."@));
    trim_char(slug(t, t.len() as int), '-')
}

/// The name of the TLS secret for a domain.
pub open spec fn secret_name(raw: Seq<char>) -> Seq<char> {
    let s = secret_slug(raw);
    let name = if s.len() == 0 {
        "wildcard-tls"@
    } else {
        s + "-tls"@
    };
    if name.len() > 63 {
        trim_end_char(name.take(63), '-')
    } else {
        name
    }
}

/// The name of the TLS secret for a domain.
pub fn cert_secret_name(raw: &str) -> (r: String)
    ensures
        r@ == secret_name(raw@),
{
    let t = str_lower(&str_trim_start_str(&str_trim_end_char(&str_trim(raw), '.'), "*."));
    let v = chars_of(&t);
    let mut out = String::new();
    let mut dash = false;
    let mut i: usize = 0;
    while i < v.len()
        invariant
            i <= v.len(),
            v@ == t@,
            out@ == slug(t@, i as int),
            dash == (out@.len() > 0 && out@.last() == '-'),
        decreases v.len() - i,
    {
        let c: char = v[i];
        if char_is_alnum(c) {
            out.push(c);
            dash = false;
        } else if (c == '.' || c == '-') && !dash {
            out.push('-');
            dash = true;
        }
        i += 1;
    }
    let base = str_trim_char(&out, '-');
    let name = if base.is_empty() {
        lit("wildcard-tls")
    } else {
        base.concat("-tls")
    };
    let n = chars_of(&name);
    if n.len() > 63 {
        let cut = slice_str(&n, 0, 63);
        assert(cut@ =~= name@.take(63));
        str_trim_end_char(&cut, '-')
    } else {
        name
    }
}

proof fn lemma_slug_chars(t: Seq<char>, n: int)
    requires
        0 <= n <= t.len(),
        forall|i: int| 0 <= i < t.len() ==> !is_upper(#[trigger] t[i]),
    ensures
        forall|i: int|
            0 <= i < slug(t, n).len() ==> is_lower(#[trigger] slug(t, n)[i]) || is_digit(
                slug(t, n)[i],
            ) || slug(t, n)[i] == '-',
    decreases n,
{
    if n > 0 {
        lemma_slug_chars(t, n - 1);
        let r = slug(t, n - 1);
        assert(!is_upper(t[n - 1]));
        assert forall|i: int| 0 <= i < slug(t, n).len() implies is_lower(#[trigger] slug(t, n)[i])
            || is_digit(slug(t, n)[i]) || slug(t, n)[i] == '-' by {
            if i < r.len() {
                assert(slug(t, n)[i] == r[i]);
            }
        }
    }
}

proof fn lemma_skip_char(s: Seq<char>, c: char, i: int)
    requires
        0 <= i <= s.len(),
    ensures
        i <= skip_char(s, c, i) <= s.len(),
        skip_char(s, c, i) < s.len() ==> s[skip_char(s, c, i)] != c,
    decreases s.len() - i,
{
    if i < s.len() && s[i] == c {
        lemma_skip_char(s, c, i + 1);
    }
}

proof fn lemma_back_char(s: Seq<char>, c: char, b: int)
    requires
        0 <= b <= s.len(),
    ensures
        0 <= back_char(s, c, b) <= b,
        back_char(s, c, b) > 0 ==> s[back_char(s, c, b) - 1] != c,
        b > 0 && s[0] != c ==> back_char(s, c, b) > 0,
    decreases b,
{
    if b > 0 && s[b - 1] == c {
        lemma_back_char(s, c, b - 1);
    }
}

/// The name of a TLS secret is a Kubernetes name of at most 63 characters, for
/// whatever domain was asked.
pub proof fn law_secret_name_is_a_name(raw: Seq<char>)
    ensures
        name_ok(secret_name(raw)),
        secret_name(raw).len() <= 63,
{
    let t = lower(trim_start_str(trim_end_char(trim(raw), '.'), "*."@));
    let sl = slug(t, t.len() as int);
    assert forall|i: int| 0 <= i < t.len() implies !is_upper(#[trigger] t[i]) by {}
    lemma_slug_chars(t, t.len() as int);
    lemma_skip_char(sl, '-', 0);
    let ts = trim_start_char(sl, '-');
    lemma_back_char(ts, '-', ts.len() as int);
    let s = secret_slug(raw);
    assert(s == ts.subrange(0, back_char(ts, '-', ts.len() as int)));
    reveal_strlit("wildcard-tls");
    reveal_strlit("-tls");
    let name = if s.len() == 0 {
        "wildcard-tls"@
    } else {
        s + "-tls"@
    };
    assert forall|i: int| 0 <= i < name.len() implies is_lower(#[trigger] name[i]) || is_digit(
        name[i],
    ) || name[i] == '-' by {
        if s.len() > 0 && i < s.len() {
            assert(name[i] == s[i]);
            assert(s[i] == ts[i]);
            assert(ts[i] == sl[skip_char(sl, '-', 0) + i]);
        }
    }
    if s.len() > 0 {
        assert(name[0] == s[0] && s[0] == ts[0] && ts[0] == sl[skip_char(sl, '-', 0)]);
        assert(name.last() == 's');
    }
    assert(is_alnum(name[0]));
    let r = secret_name(raw);
    if name.len() > 63 {
        let cut = name.take(63);
        lemma_back_char(cut, '-', 63);
        assert(cut[0] == name[0]);
        assert(r.last() == cut[back_char(cut, '-', 63) - 1]);
        assert(cut[back_char(cut, '-', 63) - 1] == name[back_char(cut, '-', 63) - 1]);
    }
    lemma_ascii_bytes(r);
}

/// A wildcard can be asked for, and the text holds only characters of names.
pub open spec fn is_domain(raw: Seq<char>) -> bool {
    dns_names(raw).len() > 0 && only(trim(raw), ".-*"@)
}

pub fn domain_ok(raw: &str) -> (r: bool)
    ensures
        r == is_domain(raw@),
{
    let names = wildcard_dns_names(raw);
    assert(texts(names@).len() == names.len());
    names.len() > 0 && str_only(&str_trim(raw), ".-*")
}

/// Something, an `@`, and a host with an inner dot.
pub open spec fn is_email(s: Seq<char>) -> bool {
    match split_once(s, "@"@) {
        Some((user, host)) => {
            &&& user.len() > 0
            &&& host.contains('.')
            &&& host[0] != '.'
            &&& host.last() != '.'
        },
        None => false,
    }
}

pub fn email_ok(email: &str) -> (r: bool)
    ensures
        r == is_email(email@),
{
    match str_split_once(email, "@") {
        Some((user, host)) => {
            let v = chars_of(&host);
            !user.is_empty() && str_has_char(&host, '.') && v.len() > 0 && v[0] != '.' && v[v.len()
                - 1] != '.'
        },
        None => false,
    }
}

/// The name of a registry account.
pub open spec fn is_registry_user(s: Seq<char>) -> bool {
    s.len() > 0 && byte_len(s) <= 253 && only(s, "._-+$@"@)
}

pub fn registry_user_ok(user: &str) -> (r: bool)
    ensures
        r == is_registry_user(user@),
{
    !user.is_empty() && str_bytes(user) <= 253 && str_only(user, "._-+$@")
}

/// A Docker tag: letters, digits, `.`, `_`, `-`, `+`, at most 128 bytes.
pub open spec fn is_tag(s: Seq<char>) -> bool {
    s.len() > 0 && byte_len(s) <= 128 && only(s, "._-+"@)
}

pub fn tag_ok(tag: &str) -> (r: bool)
    ensures
        r == is_tag(tag@),
{
    !tag.is_empty() && str_bytes(tag) <= 128 && str_only(tag, "._-+")
}

/// A host name: letters, digits, `.`, `-`, at most 253 bytes.
pub open spec fn is_hostname(s: Seq<char>) -> bool {
    byte_len(s) <= 253 && only(s, ".-"@)
}

pub fn hostname_ok(host: &str) -> (r: bool)
    ensures
        r == is_hostname(host@),
{
    str_bytes(host) <= 253 && str_only(host, ".-")
}

/// The text breaks a line or holds a NUL.
pub open spec fn has_break(s: Seq<char>) -> bool {
    has_any(s, "\n\r\0"@)
}

pub fn breaks_line(s: &str) -> (r: bool)
    ensures
        r == has_break(s@),
{
    str_has_any(s, "\n\r\0")
}

/// The name that a setting chooses; `none` and blank choose nothing.
pub open spec fn chosen_name(raw: Seq<char>) -> Seq<char> {
    let t = trim(raw);
    if t.len() == 0 || lower(t) == lower("none"@) {
        Seq::empty()
    } else {
        t
    }
}

pub fn choose_name(raw: &str) -> (r: String)
    ensures
        r@ == chosen_name(raw@),
{
    let t = str_trim(raw);
    if t.is_empty() || str_eq_nocase(&t, "none") {
        String::new()
    } else {
        t
    }
}

/// The trimmed text, or `d` where it is blank.
pub open spec fn trimmed_or(s: Seq<char>, d: Seq<char>) -> Seq<char> {
    if trim(s).len() == 0 {
        d
    } else {
        trim(s)
    }
}

pub fn trim_or(s: &str, d: &str) -> (r: String)
    ensures
        r@ == trimmed_or(s@, d@),
{
    let t = str_trim(s);
    if t.is_empty() {
        lit(d)
    } else {
        t
    }
}

} // verus!
