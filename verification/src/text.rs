//! Text as sequences of characters: the specification vocabulary that every
//! parser and renderer of the crate speaks, and the verified operations on it.
use vstd::prelude::*;
use vstd::string::*;
use vstd::utf8::*;

verus! {

/// `String::push` appends one character.
pub assume_specification[ String::push ](s: &mut String, c: char)
    ensures
        final(s)@ == old(s)@.push(c),
;

/// `String::is_empty` is true of the text without characters.
pub assume_specification[ String::is_empty ](s: &String) -> (r: bool)
    ensures
        r == (s@.len() == 0),
;

// ---------------------------------------------------------------------------
// Characters
// ---------------------------------------------------------------------------

/// Unicode `White_Space`.
pub open spec fn is_ws(c: char) -> bool {
    let n = c as int;
    ||| 9 <= n <= 13
    ||| n == 32
    ||| n == 0x85
    ||| n == 0xa0
    ||| n == 0x1680
    ||| 0x2000 <= n <= 0x200a
    ||| n == 0x2028
    ||| n == 0x2029
    ||| n == 0x202f
    ||| n == 0x205f
    ||| n == 0x3000
}

pub open spec fn is_digit(c: char) -> bool {
    48 <= c as int <= 57
}

pub open spec fn is_upper(c: char) -> bool {
    65 <= c as int <= 90
}

pub open spec fn is_lower(c: char) -> bool {
    97 <= c as int <= 122
}

/// ASCII letter or digit.
pub open spec fn is_alnum(c: char) -> bool {
    is_digit(c) || is_upper(c) || is_lower(c)
}

pub open spec fn is_hex(c: char) -> bool {
    is_digit(c) || 65 <= c as int <= 70 || 97 <= c as int <= 102
}

/// The ASCII lower-case form; other characters are unchanged.
pub open spec fn lower_char(c: char) -> char {
    if is_upper(c) {
        (c as int + 32) as char
    } else {
        c
    }
}

pub fn char_is_ws(c: char) -> (r: bool)
    ensures
        r == is_ws(c),
{
    let n: u32 = c as u32;
    (9 <= n && n <= 13) || n == 32 || n == 0x85 || n == 0xa0 || n == 0x1680 || (0x2000 <= n && n
        <= 0x200a) || n == 0x2028 || n == 0x2029 || n == 0x202f || n == 0x205f || n == 0x3000
}

pub fn char_is_digit(c: char) -> (r: bool)
    ensures
        r == is_digit(c),
{
    let n: u32 = c as u32;
    48 <= n && n <= 57
}

pub fn char_is_lower(c: char) -> (r: bool)
    ensures
        r == is_lower(c),
{
    let n: u32 = c as u32;
    97 <= n && n <= 122
}

pub fn char_is_alnum(c: char) -> (r: bool)
    ensures
        r == is_alnum(c),
{
    let n: u32 = c as u32;
    (48 <= n && n <= 57) || (65 <= n && n <= 90) || (97 <= n && n <= 122)
}

pub fn char_is_hex(c: char) -> (r: bool)
    ensures
        r == is_hex(c),
{
    let n: u32 = c as u32;
    (48 <= n && n <= 57) || (65 <= n && n <= 70) || (97 <= n && n <= 102)
}

pub fn char_lower(c: char) -> (r: char)
    ensures
        r == lower_char(c),
{
    let n: u32 = c as u32;
    if 65 <= n && n <= 90 {
        let b: u8 = c as u8;
        (b + 32) as char
    } else {
        c
    }
}

// ---------------------------------------------------------------------------
// Sequences of characters
// ---------------------------------------------------------------------------

/// The texts of a list of strings.
pub open spec fn texts(v: Seq<String>) -> Seq<Seq<char>> {
    Seq::new(v.len(), |i: int| v[i]@)
}

/// The text of an optional string.
pub open spec fn opt_text(o: Option<String>) -> Option<Seq<char>> {
    match o {
        Some(s) => Some(s@),
        None => None,
    }
}

/// The text of an optional string slice.
pub open spec fn opt_str(o: Option<&str>) -> Option<Seq<char>> {
    match o {
        Some(s) => Some(s@),
        None => None,
    }
}

/// Number of bytes in the UTF-8 form.
pub open spec fn byte_len(s: Seq<char>) -> usize {
    encode_utf8(s).len() as usize
}

pub open spec fn lower(s: Seq<char>) -> Seq<char> {
    Seq::new(s.len(), |i: int| lower_char(s[i]))
}

/// First index at or after `i` whose character is not white space.
pub open spec fn skip_ws(s: Seq<char>, i: int) -> int
    decreases s.len() - i,
{
    if 0 <= i < s.len() && is_ws(s[i]) {
        skip_ws(s, i + 1)
    } else {
        i
    }
}

/// First index at or after `i` that is white space or the end.
pub open spec fn skip_word(s: Seq<char>, i: int) -> int
    decreases s.len() - i,
{
    if 0 <= i < s.len() && !is_ws(s[i]) {
        skip_word(s, i + 1)
    } else {
        i
    }
}

/// The end of `s[a..b]` once trailing white space is cut off.
pub open spec fn back_ws(s: Seq<char>, a: int, b: int) -> int
    decreases b - a,
{
    if 0 <= a < b <= s.len() && is_ws(s[b - 1]) {
        back_ws(s, a, b - 1)
    } else {
        b
    }
}

/// `s` without leading white space.
pub open spec fn trim_start(s: Seq<char>) -> Seq<char> {
    s.subrange(skip_ws(s, 0), s.len() as int)
}

/// `s` without leading and trailing white space.
pub open spec fn trim(s: Seq<char>) -> Seq<char> {
    let a = skip_ws(s, 0);
    s.subrange(a, back_ws(s, a, s.len() as int))
}

pub open spec fn skip_char(s: Seq<char>, c: char, i: int) -> int
    decreases s.len() - i,
{
    if 0 <= i < s.len() && s[i] == c {
        skip_char(s, c, i + 1)
    } else {
        i
    }
}

pub open spec fn back_char(s: Seq<char>, c: char, b: int) -> int
    decreases b,
{
    if 0 < b <= s.len() && s[b - 1] == c {
        back_char(s, c, b - 1)
    } else {
        b
    }
}

/// `s` without its leading run of `c`.
pub open spec fn trim_start_char(s: Seq<char>, c: char) -> Seq<char> {
    s.subrange(skip_char(s, c, 0), s.len() as int)
}

/// `s` without its trailing run of `c`.
pub open spec fn trim_end_char(s: Seq<char>, c: char) -> Seq<char> {
    s.subrange(0, back_char(s, c, s.len() as int))
}

pub open spec fn is_paren(c: char) -> bool {
    c == '(' || c == ')'
}

pub open spec fn skip_parens(s: Seq<char>, i: int) -> int
    decreases s.len() - i,
{
    if 0 <= i < s.len() && is_paren(s[i]) {
        skip_parens(s, i + 1)
    } else {
        i
    }
}

pub open spec fn back_parens(s: Seq<char>, a: int, b: int) -> int
    decreases b - a,
{
    if 0 <= a < b <= s.len() && is_paren(s[b - 1]) {
        back_parens(s, a, b - 1)
    } else {
        b
    }
}

/// `s` without leading and trailing round brackets.
pub open spec fn trim_parens(s: Seq<char>) -> Seq<char> {
    let a = skip_parens(s, 0);
    s.subrange(a, back_parens(s, a, s.len() as int))
}

/// `p` stands in `s` at `i`.
pub open spec fn match_at(s: Seq<char>, p: Seq<char>, i: int) -> bool {
    0 <= i && i + p.len() <= s.len() && s.subrange(i, i + p.len()) == p
}

pub open spec fn starts_with(s: Seq<char>, p: Seq<char>) -> bool {
    match_at(s, p, 0)
}

pub open spec fn ends_with(s: Seq<char>, p: Seq<char>) -> bool {
    match_at(s, p, s.len() - p.len())
}

/// `p` stands somewhere in `s`.
pub open spec fn contains(s: Seq<char>, p: Seq<char>) -> bool {
    exists|i: int| match_at(s, p, i)
}

/// What follows the prefix `p`, if `s` has it.
pub open spec fn strip_prefix(s: Seq<char>, p: Seq<char>) -> Option<Seq<char>> {
    if starts_with(s, p) {
        Some(s.subrange(p.len() as int, s.len() as int))
    } else {
        None
    }
}

/// What precedes the suffix `p`, if `s` has it.
pub open spec fn strip_suffix(s: Seq<char>, p: Seq<char>) -> Option<Seq<char>> {
    if ends_with(s, p) {
        Some(s.subrange(0, s.len() - p.len()))
    } else {
        None
    }
}

/// `s` without any number of leading copies of `p`.
pub open spec fn trim_start_str(s: Seq<char>, p: Seq<char>) -> Seq<char>
    decreases s.len(),
{
    if p.len() > 0 && starts_with(s, p) {
        trim_start_str(s.subrange(p.len() as int, s.len() as int), p)
    } else {
        s
    }
}

pub open spec fn find_from(s: Seq<char>, p: Seq<char>, i: int) -> Option<int>
    decreases s.len() + 1 - i,
{
    if i < 0 || i + p.len() > s.len() {
        None
    } else if match_at(s, p, i) {
        Some(i)
    } else {
        find_from(s, p, i + 1)
    }
}

/// The first place where `p` stands in `s`.
pub open spec fn find(s: Seq<char>, p: Seq<char>) -> Option<int> {
    find_from(s, p, 0)
}

/// What stands before and after the first `p` in `s`.
pub open spec fn split_once(s: Seq<char>, p: Seq<char>) -> Option<(Seq<char>, Seq<char>)> {
    match find(s, p) {
        Some(i) => Some((s.subrange(0, i), s.subrange(i + p.len(), s.len() as int))),
        None => None,
    }
}

/// What stands before the first `p` in `s`, all of `s` where there is none.
pub open spec fn before(s: Seq<char>, p: Seq<char>) -> Seq<char> {
    match split_once(s, p) {
        Some((a, _b)) => a,
        None => s,
    }
}

/// First index at or after `i` that holds `c`, the length where there is none.
pub open spec fn pos(s: Seq<char>, c: char, i: int) -> int
    decreases s.len() - i,
{
    if 0 <= i < s.len() && s[i] != c {
        pos(s, c, i + 1)
    } else {
        i
    }
}

/// Last index before `b` that holds `c`, -1 where there is none.
pub open spec fn rpos(s: Seq<char>, c: char, b: int) -> int
    decreases b,
{
    if 0 < b <= s.len() && s[b - 1] != c {
        rpos(s, c, b - 1)
    } else {
        b - 1
    }
}

pub proof fn lemma_pos_bounds(s: Seq<char>, c: char, i: int)
    requires
        0 <= i <= s.len(),
    ensures
        i <= pos(s, c, i) <= s.len(),
        pos(s, c, i) < s.len() ==> s[pos(s, c, i)] == c,
        forall|k: int| i <= k < pos(s, c, i) ==> s[k] != c,
    decreases s.len() - i,
{
    if i < s.len() && s[i] != c {
        lemma_pos_bounds(s, c, i + 1);
    }
}

/// The first `c` at or after `i` is at `j`.
pub proof fn lemma_pos_is(s: Seq<char>, c: char, i: int, j: int)
    requires
        0 <= i <= j <= s.len(),
        forall|k: int| i <= k < j ==> s[k] != c,
        j < s.len() ==> s[j] == c,
    ensures
        pos(s, c, i) == j,
    decreases j - i,
{
    if i < j {
        lemma_pos_is(s, c, i + 1, j);
    }
}

/// A trimmed text has no white space at its ends.
pub proof fn lemma_trim_ends(s: Seq<char>)
    ensures
        trim(s).len() > 0 ==> !is_ws(trim(s)[0]) && !is_ws(trim(s).last()),
{
    lemma_skip_bounds(s, 0);
    let a = skip_ws(s, 0);
    lemma_back_bounds(s, a, s.len() as int);
}

/// A text without white space at its ends is its own trimmed form.
pub proof fn lemma_trimmed(s: Seq<char>)
    requires
        s.len() > 0 ==> !is_ws(s[0]) && !is_ws(s.last()),
    ensures
        trim(s) == s,
{
    assert(skip_ws(s, 0) == 0);
    assert(back_ws(s, 0, s.len() as int) == s.len());
    assert(s.subrange(0, s.len() as int) =~= s);
}

pub open spec fn split_from(s: Seq<char>, c: char, i: int) -> Seq<Seq<char>>
    decreases s.len() - i,
{
    if 0 <= i <= s.len() {
        proof {
            lemma_pos_bounds(s, c, i);
        }
        let j = pos(s, c, i);
        if j < s.len() {
            seq![s.subrange(i, j)] + split_from(s, c, j + 1)
        } else {
            seq![s.subrange(i, s.len() as int)]
        }
    } else {
        Seq::empty()
    }
}

/// The pieces of `s` between occurrences of `c`; there is always one.
pub open spec fn split(s: Seq<char>, c: char) -> Seq<Seq<char>> {
    split_from(s, c, 0)
}

pub open spec fn lines_from(s: Seq<char>, i: int) -> Seq<Seq<char>>
    decreases s.len() - i,
{
    if 0 <= i < s.len() {
        proof {
            lemma_pos_bounds(s, '\n', i);
        }
        let j = pos(s, '\n', i);
        if j < s.len() {
            let e = if j > i && s[j - 1] == '\r' {
                j - 1
            } else {
                j
            };
            seq![s.subrange(i, e)] + lines_from(s, j + 1)
        } else {
            seq![s.subrange(i, s.len() as int)]
        }
    } else {
        Seq::empty()
    }
}

/// The lines of `s`, ended by a line feed or a carriage return and a line
/// feed; the last ending is optional.
pub open spec fn lines(s: Seq<char>) -> Seq<Seq<char>> {
    lines_from(s, 0)
}

pub proof fn lemma_skip_bounds(s: Seq<char>, i: int)
    requires
        0 <= i <= s.len(),
    ensures
        i <= skip_ws(s, i) <= s.len(),
        i <= skip_word(s, i) <= s.len(),
        skip_ws(s, i) < s.len() ==> !is_ws(s[skip_ws(s, i)]),
    decreases s.len() - i,
{
    if i < s.len() {
        if is_ws(s[i]) {
            lemma_skip_bounds(s, i + 1);
        } else {
            lemma_skip_bounds(s, i + 1);
        }
    }
}

pub proof fn lemma_word_progress(s: Seq<char>, a: int)
    requires
        0 <= a < s.len(),
        !is_ws(s[a]),
    ensures
        a < skip_word(s, a) <= s.len(),
{
    lemma_skip_bounds(s, a + 1);
}

pub proof fn lemma_back_bounds(s: Seq<char>, a: int, b: int)
    requires
        0 <= a <= b <= s.len(),
    ensures
        a <= back_ws(s, a, b) <= b,
        a < back_ws(s, a, b) ==> !is_ws(s[back_ws(s, a, b) - 1]),
    decreases b - a,
{
    if a < b && is_ws(s[b - 1]) {
        lemma_back_bounds(s, a, b - 1);
    }
}

pub open spec fn words_from(s: Seq<char>, i: int) -> Seq<Seq<char>>
    decreases s.len() - i,
{
    if 0 <= i <= s.len() {
        proof {
            lemma_skip_bounds(s, i);
            if skip_ws(s, i) < s.len() {
                lemma_word_progress(s, skip_ws(s, i));
            }
        }
        let a = skip_ws(s, i);
        if a < s.len() {
            seq![s.subrange(a, skip_word(s, a))] + words_from(s, skip_word(s, a))
        } else {
            Seq::empty()
        }
    } else {
        Seq::empty()
    }
}

/// The words of `s`: its longest pieces without white space.
pub open spec fn words(s: Seq<char>) -> Seq<Seq<char>> {
    words_from(s, 0)
}

/// The first word of `s`, empty where there is none.
pub open spec fn first_word(s: Seq<char>) -> Seq<char> {
    let w = words(s);
    if w.len() > 0 {
        w[0]
    } else {
        Seq::empty()
    }
}

pub open spec fn all_hex(s: Seq<char>) -> bool {
    forall|i: int| 0 <= i < s.len() ==> is_hex(#[trigger] s[i])
}

pub open spec fn all_digits(s: Seq<char>) -> bool {
    forall|i: int| 0 <= i < s.len() ==> is_digit(#[trigger] s[i])
}

/// `n` copies of the space.
pub open spec fn spaces(n: nat) -> Seq<char> {
    Seq::new(n, |_i: int| ' ')
}

/// The elements of `v` with `sep` between them.
pub open spec fn join(v: Seq<Seq<char>>, sep: Seq<char>) -> Seq<char>
    decreases v.len(),
{
    if v.len() == 0 {
        Seq::empty()
    } else if v.len() == 1 {
        v[0]
    } else {
        join(v.drop_last(), sep) + sep + v.last()
    }
}

// ---------------------------------------------------------------------------
// Verified operations
// ---------------------------------------------------------------------------

/// The characters of `s`, in order.
pub fn chars_of(s: &str) -> (r: Vec<char>)
    ensures
        r@ == s@,
{
    let mut out: Vec<char> = Vec::new();
    for c in it: s.chars()
        invariant
            out@ == it.seq().take(it.index()),
            it.seq() == s@,
    {
        out.push(c);
    }
    out
}

/// The characters `a..b` of `v` as a string.
pub fn slice_str(v: &Vec<char>, a: usize, b: usize) -> (r: String)
    requires
        a <= b <= v.len(),
    ensures
        r@ == v@.subrange(a as int, b as int),
{
    let mut out = String::new();
    let mut i: usize = a;
    while i < b
        invariant
            a <= i <= b <= v.len(),
            out@ == v@.subrange(a as int, i as int),
        decreases b - i,
    {
        out.push(v[i]);
        i += 1;
    }
    out
}

/// An owned copy.
pub fn lit(s: &str) -> (r: String)
    ensures
        r@ == s@,
{
    String::from_str(s)
}

/// `a` followed by `b`.
pub fn cat(a: &str, b: &str) -> (r: String)
    ensures
        r@ == a@ + b@,
{
    String::from_str(a).concat(b)
}

pub fn str_eq(a: &str, b: &str) -> (r: bool)
    ensures
        r == (a@ == b@),
{
    let x = chars_of(a);
    let y = chars_of(b);
    if x.len() != y.len() {
        return false;
    }
    let mut i: usize = 0;
    while i < x.len()
        invariant
            x.len() == y.len(),
            i <= x.len(),
            forall|k: int| 0 <= k < i ==> x@[k] == y@[k],
            x@ == a@,
            y@ == b@,
        decreases x.len() - i,
    {
        if x[i] != y[i] {
            assert(a@[i as int] != b@[i as int]);
            return false;
        }
        i += 1;
    }
    assert(a@ =~= b@);
    true
}

/// Whether an optional string is present and equal to `b`.
pub fn opt_eq(a: &Option<String>, b: &str) -> (r: bool)
    ensures
        r == (opt_text(*a) == Some(b@)),
{
    match a {
        Some(s) => str_eq(s, b),
        None => false,
    }
}

/// Number of bytes in the UTF-8 form.
pub fn str_bytes(s: &str) -> (r: usize)
    ensures
        r == byte_len(s@),
{
    s.len()
}

pub fn str_lower(s: &str) -> (r: String)
    ensures
        r@ == lower(s@),
{
    let v = chars_of(s);
    let mut out = String::new();
    let mut i: usize = 0;
    while i < v.len()
        invariant
            i <= v.len(),
            v@ == s@,
            out@ == lower(s@).take(i as int),
        decreases v.len() - i,
    {
        out.push(char_lower(v[i]));
        assert(lower(s@).take(i + 1) =~= lower(s@).take(i as int).push(lower(s@)[i as int]));
        i += 1;
    }
    assert(lower(s@).take(v.len() as int) =~= lower(s@));
    out
}

pub(crate) fn idx_skip_ws(v: &Vec<char>, i: usize) -> (r: usize)
    requires
        i <= v.len(),
    ensures
        r == skip_ws(v@, i as int),
        i <= r <= v.len(),
        r < v.len() ==> !is_ws(v@[r as int]),
{
    let mut k: usize = i;
    while k < v.len() && char_is_ws(v[k])
        invariant
            i <= k <= v.len(),
            skip_ws(v@, i as int) == skip_ws(v@, k as int),
        decreases v.len() - k,
    {
        k += 1;
    }
    k
}

pub(crate) fn idx_skip_word(v: &Vec<char>, i: usize) -> (r: usize)
    requires
        i <= v.len(),
    ensures
        r == skip_word(v@, i as int),
        i <= r <= v.len(),
        i < v.len() && !is_ws(v@[i as int]) ==> i < r,
{
    let mut k: usize = i;
    while k < v.len() && !char_is_ws(v[k])
        invariant
            i <= k <= v.len(),
            skip_word(v@, i as int) == skip_word(v@, k as int),
        decreases v.len() - k,
    {
        k += 1;
    }
    k
}

pub(crate) fn idx_back_ws(v: &Vec<char>, a: usize, b: usize) -> (r: usize)
    requires
        a <= b <= v.len(),
    ensures
        r == back_ws(v@, a as int, b as int),
        a <= r <= b,
{
    let mut k: usize = b;
    while k > a && char_is_ws(v[k - 1])
        invariant
            a <= k <= b <= v.len(),
            back_ws(v@, a as int, b as int) == back_ws(v@, a as int, k as int),
        decreases k,
    {
        k -= 1;
    }
    k
}

pub(crate) fn idx_pos(v: &Vec<char>, c: char, i: usize) -> (r: usize)
    requires
        i <= v.len(),
    ensures
        r == pos(v@, c, i as int),
        i <= r <= v.len(),
        r < v.len() ==> v@[r as int] == c,
{
    let mut k: usize = i;
    while k < v.len() && v[k] != c
        invariant
            i <= k <= v.len(),
            pos(v@, c, i as int) == pos(v@, c, k as int),
        decreases v.len() - k,
    {
        k += 1;
    }
    k
}

pub fn str_trim(s: &str) -> (r: String)
    ensures
        r@ == trim(s@),
{
    let v = chars_of(s);
    let a = idx_skip_ws(&v, 0);
    let b = idx_back_ws(&v, a, v.len());
    slice_str(&v, a, b)
}

pub fn str_trim_start(s: &str) -> (r: String)
    ensures
        r@ == trim_start(s@),
{
    let v = chars_of(s);
    let a = idx_skip_ws(&v, 0);
    slice_str(&v, a, v.len())
}

pub fn str_trim_start_char(s: &str, c: char) -> (r: String)
    ensures
        r@ == trim_start_char(s@, c),
{
    let v = chars_of(s);
    let mut k: usize = 0;
    while k < v.len() && v[k] == c
        invariant
            k <= v.len(),
            skip_char(v@, c, 0) == skip_char(v@, c, k as int),
        decreases v.len() - k,
    {
        k += 1;
    }
    slice_str(&v, k, v.len())
}

pub fn str_trim_end_char(s: &str, c: char) -> (r: String)
    ensures
        r@ == trim_end_char(s@, c),
{
    let v = chars_of(s);
    let mut k: usize = v.len();
    while k > 0 && v[k - 1] == c
        invariant
            k <= v.len(),
            back_char(v@, c, v.len() as int) == back_char(v@, c, k as int),
        decreases k,
    {
        k -= 1;
    }
    slice_str(&v, 0, k)
}

pub fn str_trim_parens(s: &str) -> (r: String)
    ensures
        r@ == trim_parens(s@),
{
    let v = chars_of(s);
    let mut a: usize = 0;
    while a < v.len() && (v[a] == '(' || v[a] == ')')
        invariant
            a <= v.len(),
            skip_parens(v@, 0) == skip_parens(v@, a as int),
        decreases v.len() - a,
    {
        a += 1;
    }
    let mut b: usize = v.len();
    while b > a && (v[b - 1] == '(' || v[b - 1] == ')')
        invariant
            a <= b <= v.len(),
            back_parens(v@, a as int, v.len() as int) == back_parens(v@, a as int, b as int),
        decreases b,
    {
        b -= 1;
    }
    slice_str(&v, a, b)
}

/// Whether `p` stands in `v` at `i`.
pub(crate) fn idx_match(v: &Vec<char>, p: &Vec<char>, i: usize) -> (r: bool)
    requires
        i <= v.len(),
    ensures
        r == match_at(v@, p@, i as int),
{
    if p.len() > v.len() - i {
        return false;
    }
    let mut k: usize = 0;
    while k < p.len()
        invariant
            i + p.len() <= v.len(),
            k <= p.len(),
            forall|j: int| 0 <= j < k ==> v@[i + j] == p@[j],
        decreases p.len() - k,
    {
        if v[i + k] != p[k] {
            proof {
                assert(v@.subrange(i as int, i + p@.len())[k as int] == v@[i + k]);
            }
            return false;
        }
        k += 1;
    }
    assert(v@.subrange(i as int, i + p@.len()) =~= p@);
    true
}

pub fn str_starts(s: &str, p: &str) -> (r: bool)
    ensures
        r == starts_with(s@, p@),
{
    let v = chars_of(s);
    let q = chars_of(p);
    idx_match(&v, &q, 0)
}

pub fn str_ends(s: &str, p: &str) -> (r: bool)
    ensures
        r == ends_with(s@, p@),
{
    let v = chars_of(s);
    let q = chars_of(p);
    if q.len() > v.len() {
        return false;
    }
    idx_match(&v, &q, v.len() - q.len())
}

pub fn str_strip_prefix(s: &str, p: &str) -> (r: Option<String>)
    ensures
        opt_text(r) == strip_prefix(s@, p@),
{
    let v = chars_of(s);
    let q = chars_of(p);
    if idx_match(&v, &q, 0) {
        Some(slice_str(&v, q.len(), v.len()))
    } else {
        None
    }
}

pub fn str_strip_suffix(s: &str, p: &str) -> (r: Option<String>)
    ensures
        opt_text(r) == strip_suffix(s@, p@),
{
    let v = chars_of(s);
    let q = chars_of(p);
    if q.len() <= v.len() && idx_match(&v, &q, v.len() - q.len()) {
        Some(slice_str(&v, 0, v.len() - q.len()))
    } else {
        None
    }
}

pub fn str_trim_start_str(s: &str, p: &str) -> (r: String)
    ensures
        r@ == trim_start_str(s@, p@),
{
    let v = chars_of(s);
    let q = chars_of(p);
    if q.len() == 0 {
        return lit(s);
    }
    let mut k: usize = 0;
    assert(v@.subrange(0, v.len() as int) =~= v@);
    while idx_match(&v, &q, k)
        invariant
            q.len() > 0,
            v@ == s@,
            q@ == p@,
            k <= v.len(),
            trim_start_str(s@, p@) == trim_start_str(v@.subrange(k as int, v.len() as int), p@),
        ensures
            k <= v.len(),
            trim_start_str(s@, p@) == trim_start_str(v@.subrange(k as int, v.len() as int), p@),
            !match_at(v@, q@, k as int),
        decreases v.len() - k,
    {
        proof {
            let t = v@.subrange(k as int, v.len() as int);
            assert(t.subrange(0, p@.len() as int) =~= v@.subrange(k as int, k + p@.len()));
            assert(starts_with(t, p@));
            assert(t.subrange(p@.len() as int, t.len() as int) =~= v@.subrange(
                k + p@.len(),
                v.len() as int,
            ));
        }
        k += q.len();
    }
    proof {
        let t = v@.subrange(k as int, v.len() as int);
        if starts_with(t, p@) {
            assert(t.subrange(0, p@.len() as int) =~= v@.subrange(k as int, k + p@.len()));
        }
    }
    slice_str(&v, k, v.len())
}

pub proof fn lemma_find_from(s: Seq<char>, p: Seq<char>, i: int)
    requires
        0 <= i,
    ensures
        match find_from(s, p, i) {
            Some(k) => i <= k && match_at(s, p, k) && forall|j: int|
                i <= j < k ==> !#[trigger] match_at(s, p, j),
            None => forall|j: int| i <= j ==> !#[trigger] match_at(s, p, j),
        },
    decreases s.len() + 1 - i,
{
    if i + p.len() <= s.len() && !match_at(s, p, i) {
        lemma_find_from(s, p, i + 1);
    }
}

/// A text has a match exactly where the search finds one.
pub proof fn lemma_contains_find(s: Seq<char>, p: Seq<char>)
    ensures
        contains(s, p) <==> find(s, p) is Some,
{
    lemma_find_from(s, p, 0);
    if contains(s, p) {
        let i = choose|i: int| match_at(s, p, i);
        assert(match_at(s, p, i));
    }
}

/// The first place of `q` in `v`.
pub(crate) fn idx_find(v: &Vec<char>, q: &Vec<char>) -> (r: Option<usize>)
    ensures
        match r {
            Some(i) => find(v@, q@) == Some(i as int) && match_at(v@, q@, i as int),
            None => find(v@, q@) is None,
        },
{
    if q.len() > v.len() {
        return None;
    }
    let mut i: usize = 0;
    let last: usize = v.len() - q.len();
    loop
        invariant
            last + q.len() == v.len(),
            i <= last,
            find(v@, q@) == find_from(v@, q@, i as int),
        decreases last - i,
    {
        if idx_match(v, q, i) {
            return Some(i);
        }
        if i == last {
            assert(find_from(v@, q@, last + 1) is None);
            return None;
        }
        i += 1;
    }
}

pub fn str_contains(s: &str, p: &str) -> (r: bool)
    ensures
        r == contains(s@, p@),
{
    proof {
        lemma_contains_find(s@, p@);
    }
    let v = chars_of(s);
    let q = chars_of(p);
    idx_find(&v, &q).is_some()
}

pub fn str_split_once(s: &str, p: &str) -> (r: Option<(String, String)>)
    ensures
        match r {
            Some((a, b)) => split_once(s@, p@) == Some((a@, b@)),
            None => split_once(s@, p@) is None,
        },
{
    let v = chars_of(s);
    let q = chars_of(p);
    match idx_find(&v, &q) {
        Some(i) => {
            let n: usize = v.len();
            Some((slice_str(&v, 0, i), slice_str(&v, i + q.len(), n)))
        },
        None => None,
    }
}

/// What stands before the first `p`, all of `s` where there is none.
pub fn str_before(s: &str, p: &str) -> (r: String)
    ensures
        r@ == before(s@, p@),
{
    match str_split_once(s, p) {
        Some((a, _b)) => a,
        None => lit(s),
    }
}

/// Whether the character occurs.
pub fn str_has_char(s: &str, c: char) -> (r: bool)
    ensures
        r == s@.contains(c),
{
    let v = chars_of(s);
    let i = idx_pos(&v, c, 0);
    proof {
        lemma_pos_bounds(v@, c, 0);
    }
    i < v.len()
}

proof fn lemma_texts_push(v: Seq<String>, s: String)
    ensures
        texts(v.push(s)) == texts(v).push(s@),
{
    assert(texts(v.push(s)) =~= texts(v).push(s@));
}

pub fn str_split(s: &str, c: char) -> (r: Vec<String>)
    ensures
        texts(r@) == split(s@, c),
        r.len() >= 1,
{
    let v = chars_of(s);
    let mut out: Vec<String> = Vec::new();
    let mut i: usize = 0;
    assert(texts(out@) + split_from(v@, c, 0) =~= split(s@, c));
    loop
        invariant
            v@ == s@,
            i <= v.len(),
            texts(out@) + split_from(v@, c, i as int) == split(s@, c),
        decreases v.len() - i,
    {
        let j = idx_pos(&v, c, i);
        let piece = slice_str(&v, i, j);
        let ghost before_push = out@;
        out.push(piece);
        proof {
            lemma_texts_push(before_push, piece);
        }
        if j >= v.len() {
            assert(texts(out@) =~= texts(before_push) + split_from(v@, c, i as int));
            return out;
        }
        assert(texts(out@) + split_from(v@, c, j + 1) =~= texts(before_push) + split_from(
            v@,
            c,
            i as int,
        ));
        i = j + 1;
    }
}

/// The piece before the first `c`.
pub fn str_until(s: &str, c: char) -> (r: String)
    ensures
        r@ == split(s@, c)[0],
        r@ == s@.subrange(0, pos(s@, c, 0)),
{
    let v = chars_of(s);
    let j = idx_pos(&v, c, 0);
    slice_str(&v, 0, j)
}

pub fn str_lines(s: &str) -> (r: Vec<String>)
    ensures
        texts(r@) == lines(s@),
{
    let v = chars_of(s);
    let mut out: Vec<String> = Vec::new();
    let mut i: usize = 0;
    assert(texts(out@) + lines_from(v@, 0) =~= lines(s@));
    while i < v.len()
        invariant
            v@ == s@,
            i <= v.len(),
            texts(out@) + lines_from(v@, i as int) == lines(s@),
        decreases v.len() - i,
    {
        let j = idx_pos(&v, '\n', i);
        let e: usize = if j < v.len() && j > i && v[j - 1] == '\r' {
            j - 1
        } else {
            j
        };
        let line = slice_str(&v, i, e);
        let ghost before_push = out@;
        out.push(line);
        proof {
            lemma_texts_push(before_push, line);
        }
        if j >= v.len() {
            assert(texts(out@) =~= texts(before_push) + lines_from(v@, i as int));
            return out;
        }
        assert(texts(out@) + lines_from(v@, j + 1) =~= texts(before_push) + lines_from(
            v@,
            i as int,
        ));
        i = j + 1;
    }
    assert(texts(out@) + lines_from(v@, i as int) =~= texts(out@));
    out
}

pub fn str_words(s: &str) -> (r: Vec<String>)
    ensures
        texts(r@) == words(s@),
{
    let v = chars_of(s);
    let mut out: Vec<String> = Vec::new();
    let mut i: usize = 0;
    assert(texts(out@) + words_from(v@, 0) =~= words(s@));
    loop
        invariant
            v@ == s@,
            i <= v.len(),
            texts(out@) + words_from(v@, i as int) == words(s@),
        decreases v.len() - i,
    {
        let a = idx_skip_ws(&v, i);
        if a >= v.len() {
            assert(texts(out@) =~= words(s@));
            return out;
        }
        let b = idx_skip_word(&v, a);
        let word = slice_str(&v, a, b);
        let ghost before_push = out@;
        out.push(word);
        proof {
            lemma_texts_push(before_push, word);
        }
        assert(texts(out@) + words_from(v@, b as int) =~= texts(before_push) + words_from(
            v@,
            i as int,
        ));
        i = b;
    }
}

/// The first word, empty where there is none.
pub fn str_first_word(s: &str) -> (r: String)
    ensures
        r@ == first_word(s@),
{
    let w = str_words(s);
    if w.len() > 0 {
        assert(texts(w@)[0] == w@[0]@);
        lit(&w[0])
    } else {
        assert(texts(w@).len() == 0);
        String::new()
    }
}

/// `n` spaces.
pub fn str_spaces(n: usize) -> (r: String)
    ensures
        r@ == spaces(n as nat),
{
    let mut out = String::new();
    let mut i: usize = 0;
    while i < n
        invariant
            i <= n,
            out@ == spaces(i as nat),
        decreases n - i,
    {
        out.push(' ');
        i += 1;
        assert(out@ =~= spaces(i as nat));
    }
    out
}

pub fn str_join(v: &Vec<String>, sep: &str) -> (r: String)
    ensures
        r@ == join(texts(v@), sep@),
{
    if v.len() == 0 {
        return String::new();
    }
    let mut out = lit(&v[0]);
    let mut i: usize = 1;
    assert(texts(v@).take(1) =~= seq![v@[0]@]);
    while i < v.len()
        invariant
            1 <= i <= v.len(),
            out@ == join(texts(v@).take(i as int), sep@),
        decreases v.len() - i,
    {
        let next = out.concat(sep).concat(&v[i]);
        proof {
            let t = texts(v@).take(i + 1);
            assert(t.drop_last() =~= texts(v@).take(i as int));
            assert(t.last() == v@[i as int]@);
        }
        out = next;
        i += 1;
    }
    assert(texts(v@).take(v.len() as int) =~= texts(v@));
    out
}

/// Whether every character is an ASCII hexadecimal digit.
pub fn str_all_hex(s: &str) -> (r: bool)
    ensures
        r == all_hex(s@),
{
    let v = chars_of(s);
    let mut i: usize = 0;
    while i < v.len()
        invariant
            i <= v.len(),
            v@ == s@,
            forall|k: int| 0 <= k < i ==> is_hex(#[trigger] v@[k]),
        decreases v.len() - i,
    {
        if !char_is_hex(v[i]) {
            return false;
        }
        i += 1;
    }
    true
}

/// What stands behind the last `c`, all of `s` where there is none.
pub fn str_after_last(s: &str, c: char) -> (r: String)
    ensures
        r@ == split(s@, c).last(),
{
    let parts = str_split(s, c);
    proof {
        assert(split(s@, c).len() > 0);
        assert(texts(parts@).len() == parts.len());
        assert(texts(parts@).last() == parts@.last()@);
    }
    lit(&parts[parts.len() - 1])
}

/// An ASCII text has one byte for each character.
pub proof fn lemma_ascii_bytes(s: Seq<char>)
    requires
        forall|i: int| 0 <= i < s.len() ==> '\0' <= #[trigger] s[i] <= '\u{7f}',
        s.len() <= usize::MAX,
    ensures
        byte_len(s) == s.len(),
{
    vstd::utf8::is_ascii_chars_encode_utf8(s);
}

/// Every character is a letter, a digit or one of `extra`.
pub open spec fn only(s: Seq<char>, extra: Seq<char>) -> bool {
    forall|i: int| 0 <= i < s.len() ==> is_alnum(#[trigger] s[i]) || extra.contains(s[i])
}

pub fn str_only(s: &str, extra: &str) -> (r: bool)
    ensures
        r == only(s@, extra@),
{
    let v = chars_of(s);
    let mut i: usize = 0;
    while i < v.len()
        invariant
            i <= v.len(),
            v@ == s@,
            forall|k: int| 0 <= k < i ==> is_alnum(#[trigger] s@[k]) || extra@.contains(s@[k]),
        decreases v.len() - i,
    {
        let c: char = v[i];
        if !char_is_alnum(c) && !str_has_char(extra, c) {
            assert(s@[i as int] == c);
            return false;
        }
        i += 1;
    }
    true
}

/// Some character is one of `set`.
pub open spec fn has_any(s: Seq<char>, set: Seq<char>) -> bool {
    exists|i: int| 0 <= i < s.len() && set.contains(#[trigger] s[i])
}

pub fn str_has_any(s: &str, set: &str) -> (r: bool)
    ensures
        r == has_any(s@, set@),
{
    let v = chars_of(s);
    let mut i: usize = 0;
    while i < v.len()
        invariant
            i <= v.len(),
            v@ == s@,
            forall|k: int| 0 <= k < i ==> !set@.contains(#[trigger] s@[k]),
        decreases v.len() - i,
    {
        if str_has_char(set, v[i]) {
            assert(set@.contains(s@[i as int]));
            return true;
        }
        i += 1;
    }
    false
}

/// The two texts are equal but for the case of ASCII letters.
pub fn str_eq_nocase(a: &str, b: &str) -> (r: bool)
    ensures
        r == (lower(a@) == lower(b@)),
{
    str_eq(&str_lower(a), &str_lower(b))
}

/// `s` without the leading and the trailing run of `c`.
pub open spec fn trim_char(s: Seq<char>, c: char) -> Seq<char> {
    trim_end_char(trim_start_char(s, c), c)
}

pub fn str_trim_char(s: &str, c: char) -> (r: String)
    ensures
        r@ == trim_char(s@, c),
{
    str_trim_end_char(&str_trim_start_char(s, c), c)
}

/// `s` with each place of `p` replaced by `t`, from the left.
pub open spec fn replaced(s: Seq<char>, p: Seq<char>, t: Seq<char>) -> Seq<char>
    decreases s.len(),
    when p.len() > 0
    via replaced_shrinks
{
    match find(s, p) {
        Some(i) => s.subrange(0, i) + t + replaced(s.subrange(i + p.len(), s.len() as int), p, t),
        None => s,
    }
}

#[via_fn]
proof fn replaced_shrinks(s: Seq<char>, p: Seq<char>, t: Seq<char>) {
    lemma_find_from(s, p, 0);
}

pub fn str_replace(s: &str, p: &str, t: &str) -> (r: String)
    requires
        p@.len() > 0,
    ensures
        r@ == replaced(s@, p@, t@),
{
    let mut rest = lit(s);
    let mut out = String::new();
    loop
        invariant
            p@.len() > 0,
            replaced(s@, p@, t@) == out@ + replaced(rest@, p@, t@),
        decreases rest@.len(),
    {
        let v = chars_of(&rest);
        let q = chars_of(p);
        match idx_find(&v, &q) {
            Some(i) => {
                let n: usize = v.len();
                let ghost tail = replaced(v@.subrange(i + q@.len(), n as int), p@, t@);
                let head = slice_str(&v, 0, i);
                let next = slice_str(&v, i + q.len(), n);
                assert(out@ + (head@ + t@ + tail) =~= out@ + head@ + t@ + tail);
                out = out.concat(&head).concat(t);
                rest = next;
            },
            None => {
                return out.concat(&rest);
            },
        }
    }
}

/// Adds a text to a list.
pub fn put(v: &mut Vec<String>, s: &str)
    ensures
        texts(final(v)@) == texts(old(v)@).push(s@),
{
    let ghost before = v@;
    v.push(lit(s));
    assert(texts(v@) =~= texts(before).push(s@));
}

/// The empty list.
pub fn no_texts() -> (r: Vec<String>)
    ensures
        texts(r@) == Seq::<Seq<char>>::empty(),
{
    let v: Vec<String> = Vec::new();
    assert(texts(v@) =~= Seq::<Seq<char>>::empty());
    v
}

/// A text in quotation marks, with escapes, as diagnostics show it.
pub uninterp spec fn quoted(s: Seq<char>) -> Seq<char>;

/// Formats with `{:?}` of `str`. Claimed: the text depends on the argument
/// alone.
#[verifier::external_body]
pub(crate) fn quote(s: &str) -> (r: String)
    ensures
        r@ == quoted(s@),
{
    format!("{:?}", s)
}

/// The same text again, where there is one.
pub fn again(o: &Option<String>) -> (r: Option<String>)
    ensures
        opt_text(r) == opt_text(*o),
{
    match o {
        Some(s) => Some(lit(s)),
        None => None,
    }
}

/// Whether the text is one of them.
pub fn has_text(v: &Vec<String>, t: &str) -> (r: bool)
    ensures
        r == texts(v@).contains(t@),
{
    let mut i: usize = 0;
    while i < v.len()
        invariant
            i <= v.len(),
            forall|k: int| 0 <= k < i ==> (#[trigger] v@[k])@ != t@,
        decreases v.len() - i,
    {
        if str_eq(&v[i], t) {
            assert(texts(v@)[i as int] == t@);
            return true;
        }
        i += 1;
    }
    assert forall|k: int| 0 <= k < texts(v@).len() implies texts(v@)[k] != t@ by {
        assert(texts(v@)[k] == v@[k]@);
    }
    false
}

// ---------------------------------------------------------------------------
// What the operations mean
// ---------------------------------------------------------------------------

proof fn lemma_skipped(s: Seq<char>, i: int)
    requires
        0 <= i <= s.len(),
    ensures
        i <= skip_ws(s, i) <= s.len(),
        forall|k: int| i <= k < skip_ws(s, i) ==> is_ws(#[trigger] s[k]),
        skip_ws(s, i) < s.len() ==> !is_ws(s[skip_ws(s, i)]),
    decreases s.len() - i,
{
    if i < s.len() && is_ws(s[i]) {
        lemma_skipped(s, i + 1);
    }
}

proof fn lemma_backed(s: Seq<char>, a: int, b: int)
    requires
        0 <= a <= b <= s.len(),
    ensures
        a <= back_ws(s, a, b) <= b,
        forall|k: int| back_ws(s, a, b) <= k < b ==> is_ws(#[trigger] s[k]),
        back_ws(s, a, b) > a ==> !is_ws(s[back_ws(s, a, b) - 1]),
    decreases b - a,
{
    if a < b && is_ws(s[b - 1]) {
        lemma_backed(s, a, b - 1);
    }
}

/// A text is white space, then what is left of it, then white space; what is left
/// neither begins nor ends with any.
pub proof fn law_only_white_space_is_trimmed(s: Seq<char>)
    ensures
        exists|a: int, b: int|
            #![trigger s.subrange(a, b)]
            0 <= a <= b <= s.len() && trim(s) == s.subrange(a, b) && (forall|k: int|
                0 <= k < a || b <= k < s.len() ==> is_ws(#[trigger] s[k])),
        trim(s).len() > 0 ==> !is_ws(trim(s)[0]) && !is_ws(trim(s).last()),
{
    lemma_skipped(s, 0);
    let a = skip_ws(s, 0);
    lemma_backed(s, a, s.len() as int);
    let b = back_ws(s, a, s.len() as int);
    assert(trim(s) == s.subrange(a, b));
}

/// A text in small letters has the same length, and each capital in the place of
/// which the small one stands; nothing else is changed.
pub proof fn law_small_letters(s: Seq<char>, i: int)
    requires
        0 <= i < s.len(),
    ensures
        lower(s).len() == s.len(),
        65 <= s[i] as int <= 90 ==> lower(s)[i] as int == s[i] as int + 32,
        !(65 <= s[i] as int <= 90) ==> lower(s)[i] == s[i],
        lower(lower(s)) == lower(s),
{
    assert(lower(lower(s)) =~= lower(s));
}

/// What is put in front is found in front and can be taken off; likewise at the
/// end and in the middle.
pub proof fn law_parts_are_found(a: Seq<char>, p: Seq<char>, b: Seq<char>)
    ensures
        starts_with(p + b, p) && strip_prefix(p + b, p) == Some(b),
        ends_with(a + p, p) && strip_suffix(a + p, p) == Some(a),
        contains(a + p + b, p),
{
    let x = p + b;
    assert(x.subrange(0, p.len() as int) =~= p);
    assert(x.subrange(p.len() as int, x.len() as int) =~= b);
    let y = a + p;
    assert(y.subrange(a.len() as int, y.len() as int) =~= p);
    assert(y.subrange(0, a.len() as int) =~= a);
    let z = a + p + b;
    assert(z.subrange(a.len() as int, a.len() as int + p.len()) =~= p);
    assert(match_at(z, p, a.len() as int));
}

proof fn lemma_first_place(s: Seq<char>, p: Seq<char>, i: int, k: int)
    requires
        0 <= i <= k,
        match_at(s, p, k),
        forall|n: int| i <= n < k ==> !match_at(s, p, n),
    ensures
        find_from(s, p, i) == Some(k),
    decreases k - i,
{
    if i < k {
        assert(!match_at(s, p, i));
        lemma_first_place(s, p, i + 1, k);
    }
}

/// A text is parted at the first place where the other stands.
pub proof fn law_parted_at_the_first(s: Seq<char>, p: Seq<char>, k: int)
    requires
        match_at(s, p, k),
        forall|n: int| 0 <= n < k ==> !match_at(s, p, n),
    ensures
        split_once(s, p) == Some((s.subrange(0, k), s.subrange(k + p.len(), s.len() as int))),
        s == s.subrange(0, k) + p + s.subrange(k + p.len(), s.len() as int),
{
    lemma_first_place(s, p, 0, k);
    assert(s =~= s.subrange(0, k) + s.subrange(k, k + p.len()) + s.subrange(
        k + p.len(),
        s.len() as int,
    ));
}

proof fn lemma_char_end(s: Seq<char>, c: char, b: int)
    requires
        0 <= b <= s.len(),
    ensures
        0 <= back_char(s, c, b) <= b,
        forall|k: int| back_char(s, c, b) <= k < b ==> #[trigger] s[k] == c,
        back_char(s, c, b) > 0 ==> s[back_char(s, c, b) - 1] != c,
    decreases b,
{
    if b > 0 && s[b - 1] == c {
        lemma_char_end(s, c, b - 1);
    }
}

/// Only the character at the end is taken off there, as often as it stands.
pub proof fn law_end_is_taken_off(s: Seq<char>, c: char)
    ensures
        ({
            let r = trim_end_char(s, c);
            &&& r.len() <= s.len() && r == s.take(r.len() as int)
            &&& forall|k: int| r.len() <= k < s.len() ==> #[trigger] s[k] == c
            &&& r.len() > 0 ==> r.last() != c
        }),
{
    lemma_char_end(s, c, s.len() as int);
    let r = trim_end_char(s, c);
    assert(r =~= s.take(r.len() as int));
}

/// A list of texts is put together with the other one between every two.
pub proof fn law_put_together(v: Seq<Seq<char>>, x: Seq<char>, sep: Seq<char>)
    ensures
        join(Seq::empty(), sep) == Seq::<char>::empty(),
        join(seq![x], sep) == x,
        v.len() > 0 ==> join(v.push(x), sep) == join(v, sep) + sep + x,
{
    assert(v.push(x).drop_last() =~= v);
}

/// Every word is free of white space and not empty.
pub proof fn law_words_are_words(s: Seq<char>, i: int, k: int)
    requires
        0 <= i <= s.len(),
    ensures
        0 <= k < words_from(s, i).len() ==> words_from(s, i)[k].len() > 0 && forall|n: int|
            0 <= n < words_from(s, i)[k].len() ==> !is_ws(#[trigger] words_from(s, i)[k][n]),
    decreases s.len() - i,
{
    lemma_skip_bounds(s, i);
    lemma_skipped(s, i);
    let a = skip_ws(s, i);
    if a < s.len() {
        lemma_word_progress(s, a);
        lemma_word_end(s, a);
        let e = skip_word(s, a);
        law_words_are_words(s, e, k - 1);
        let w = words_from(s, i);
        let rest = words_from(s, e);
        assert(w == seq![s.subrange(a, e)] + rest);
        if 0 < k < w.len() {
            assert(w[k] == rest[k - 1]);
        }
    }
}

proof fn lemma_word_end(s: Seq<char>, i: int)
    requires
        0 <= i <= s.len(),
    ensures
        i <= skip_word(s, i) <= s.len(),
        forall|k: int| i <= k < skip_word(s, i) ==> !is_ws(#[trigger] s[k]),
        i < s.len() && !is_ws(s[i]) ==> skip_word(s, i) > i,
    decreases s.len() - i,
{
    if i < s.len() && !is_ws(s[i]) {
        lemma_word_end(s, i + 1);
    }
}

} // verus!
