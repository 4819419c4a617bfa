//! Line-wise edits of YAML texts.
use crate::text::{
    byte_len, cat, chars_of, contains, idx_skip_ws, is_ws, lemma_ascii_bytes, lemma_pos_bounds,
    lines, lines_from, lit, pos, skip_ws, slice_str, spaces, starts_with, str_bytes, str_contains,
    str_eq, str_lines, str_spaces, str_starts, str_trim, str_trim_start, texts, trim, trim_start,
};
use vstd::prelude::*;
use vstd::string::*;

verus! {

/// The lines, each ended by a line feed.
pub open spec fn unlines(ls: Seq<Seq<char>>) -> Seq<char>
    decreases ls.len(),
{
    if ls.len() == 0 {
        Seq::empty()
    } else {
        unlines(ls.drop_last()) + ls.last() + "\n"@
    }
}

/// The line starts with the key, after any white space.
pub open spec fn has_key(line: Seq<char>, key: Seq<char>) -> bool {
    starts_with(trim_start(line), key)
}

/// As many spaces as the white space before the line's text has bytes.
pub open spec fn indent(line: Seq<char>) -> Seq<char> {
    spaces(byte_len(line.subrange(0, skip_ws(line, 0))) as nat)
}

/// The line's indent, the key, a space and the value.
pub open spec fn keyed(line: Seq<char>, key: Seq<char>, val: Seq<char>) -> Seq<char> {
    indent(line) + key + " "@ + val
}

/// The number of bytes of white space before the line's text.
pub fn indent_of(line: &str) -> (r: usize)
    ensures
        r == byte_len(line@.subrange(0, skip_ws(line@, 0))),
{
    let v = chars_of(line);
    let a = idx_skip_ws(&v, 0);
    str_bytes(&slice_str(&v, 0, a))
}

pub fn has_key_at(line: &str, key: &str) -> (r: bool)
    ensures
        r == has_key(line@, key@),
{
    str_starts(&str_trim_start(line), key)
}

pub fn keyed_line(line: &str, key: &str, val: &str) -> (r: String)
    ensures
        r@ == keyed(line@, key@, val@),
{
    str_spaces(indent_of(line)).concat(key).concat(" ").concat(val)
}

pub proof fn lemma_unlines_push(ls: Seq<Seq<char>>, l: Seq<char>)
    ensures
        unlines(ls.push(l)) == unlines(ls) + l + "\n"@,
{
    assert(ls.push(l).drop_last() =~= ls);
}

/// Every line with the key gets the value.
pub open spec fn set_all(ls: Seq<Seq<char>>, key: Seq<char>, val: Seq<char>) -> Seq<Seq<char>> {
    Seq::new(
        ls.len(),
        |i: int|
            if has_key(ls[i], key) {
                keyed(ls[i], key, val)
            } else {
                ls[i]
            },
    )
}

/// The first line at or after `i` with the key, the number of lines if none.
pub open spec fn first_with(ls: Seq<Seq<char>>, key: Seq<char>, i: int) -> int
    decreases ls.len() - i,
{
    if 0 <= i < ls.len() && !has_key(ls[i], key) {
        first_with(ls, key, i + 1)
    } else {
        i
    }
}

/// The first line with the key gets the value.
pub open spec fn set_first(ls: Seq<Seq<char>>, key: Seq<char>, val: Seq<char>) -> Seq<Seq<char>> {
    let k = first_with(ls, key, 0);
    if k < ls.len() {
        ls.update(k, keyed(ls[k], key, val))
    } else {
        ls
    }
}

/// Gives every line of `text` with the key the value.
pub fn replace_all(text: &str, key: &str, val: &str) -> (r: String)
    ensures
        r@ == unlines(set_all(lines(text@), key@, val@)),
{
    let ls = str_lines(text);
    let ghost want = lines(text@);
    let ghost goal = set_all(want, key@, val@);
    let mut out = String::new();
    let mut i: usize = 0;
    assert(goal.take(0) =~= Seq::<Seq<char>>::empty());
    while i < ls.len()
        invariant
            i <= ls.len(),
            want == texts(ls@),
            goal == set_all(want, key@, val@),
            out@ == unlines(goal.take(i as int)),
        decreases ls.len() - i,
    {
        assert(want[i as int] == ls@[i as int]@);
        let line = if has_key_at(&ls[i], key) {
            keyed_line(&ls[i], key, val)
        } else {
            lit(&ls[i])
        };
        proof {
            assert(goal.take(i + 1) =~= goal.take(i as int).push(line@));
            lemma_unlines_push(goal.take(i as int), line@);
        }
        out = out.concat(&line).concat("\n");
        i += 1;
    }
    assert(goal.take(ls.len() as int) =~= goal);
    out
}

/// Gives the first line of `text` with the key the value.
pub fn replace_first(text: &str, key: &str, val: &str) -> (r: String)
    ensures
        r@ == unlines(set_first(lines(text@), key@, val@)),
{
    let ls = str_lines(text);
    let ghost want = lines(text@);
    let ghost goal = set_first(want, key@, val@);
    let ghost k = first_with(want, key@, 0);
    let mut out = String::new();
    let mut patched = false;
    let mut i: usize = 0;
    assert(goal.take(0) =~= Seq::<Seq<char>>::empty());
    while i < ls.len()
        invariant
            i <= ls.len(),
            want == texts(ls@),
            goal == set_first(want, key@, val@),
            k == first_with(want, key@, 0),
            !patched ==> k == first_with(want, key@, i as int),
            patched ==> 0 <= k < i,
            out@ == unlines(goal.take(i as int)),
        decreases ls.len() - i,
    {
        assert(want[i as int] == ls@[i as int]@);
        let line = if !patched && has_key_at(&ls[i], key) {
            patched = true;
            keyed_line(&ls[i], key, val)
        } else {
            lit(&ls[i])
        };
        proof {
            if !patched {
                lemma_first_after(want, key@, (i + 1) as int);
            }
            assert(goal[i as int] == line@);
            assert(goal.take(i + 1) =~= goal.take(i as int).push(line@));
            lemma_unlines_push(goal.take(i as int), line@);
        }
        out = out.concat(&line).concat("\n");
        i += 1;
    }
    assert(goal.take(ls.len() as int) =~= goal);
    out
}

pub proof fn lemma_first_after(ls: Seq<Seq<char>>, key: Seq<char>, i: int)
    requires
        0 <= i <= ls.len(),
    ensures
        i <= first_with(ls, key, i) <= ls.len(),
        first_with(ls, key, i) < ls.len() ==> has_key(ls[first_with(ls, key, i)], key),
    decreases ls.len() - i,
{
    if i < ls.len() && !has_key(ls[i], key) {
        lemma_first_after(ls, key, i + 1);
    }
}

/// Some line has the key.
pub open spec fn any_key(ls: Seq<Seq<char>>, key: Seq<char>) -> bool {
    exists|i: int| 0 <= i < ls.len() && has_key(#[trigger] ls[i], key)
}

/// Whether some line of `text` has the key.
pub fn has_line(text: &str, key: &str) -> (r: bool)
    ensures
        r == any_key(lines(text@), key@),
{
    let ls = str_lines(text);
    let ghost want = lines(text@);
    let mut i: usize = 0;
    while i < ls.len()
        invariant
            i <= ls.len(),
            want == lines(text@),
            want == texts(ls@),
            forall|k: int| 0 <= k < i ==> !has_key(#[trigger] want[k], key@),
        decreases ls.len() - i,
    {
        assert(want[i as int] == ls@[i as int]@);
        if has_key_at(&ls[i], key) {
            return true;
        }
        i += 1;
    }
    assert(want.len() == ls.len());
    false
}

/// The first line at or after `i` that is `t` when trimmed.
pub open spec fn first_equal(ls: Seq<Seq<char>>, t: Seq<char>, i: int) -> int
    decreases ls.len() - i,
{
    if 0 <= i < ls.len() && trim(ls[i]) != t {
        first_equal(ls, t, i + 1)
    } else {
        i
    }
}

/// `add` as a line of its own after the first line that is `t` when trimmed.
pub open spec fn insert_after(ls: Seq<Seq<char>>, t: Seq<char>, add: Seq<char>) -> Seq<Seq<char>> {
    let k = first_equal(ls, t, 0);
    if k < ls.len() {
        ls.insert(k + 1, add)
    } else {
        ls
    }
}

/// Puts a line after the first line of `text` that is `t` when trimmed.
pub fn add_line_after(text: &str, t: &str, line: &str) -> (r: String)
    ensures
        r@ == unlines(insert_after(lines(text@), t@, line@)),
{
    let ls = str_lines(text);
    let ghost want = lines(text@);
    let ghost k = first_equal(want, t@, 0);
    let ghost goal = insert_after(want, t@, line@);
    let mut out = String::new();
    let mut inserted = false;
    let mut i: usize = 0;
    assert(goal.take(0) =~= Seq::<Seq<char>>::empty());
    while i < ls.len()
        invariant
            i <= ls.len(),
            want == texts(ls@),
            goal == insert_after(want, t@, line@),
            k == first_equal(want, t@, 0),
            !inserted ==> k == first_equal(want, t@, i as int),
            inserted ==> 0 <= k < i && k < want.len(),
            out@ == unlines(
                goal.take(
                    if inserted {
                        i + 1
                    } else {
                        i as int
                    },
                ),
            ),
        decreases ls.len() - i,
    {
        assert(want[i as int] == ls@[i as int]@);
        let ghost at = if inserted {
            i + 1
        } else {
            i as int
        };
        proof {
            lemma_first_equal_after(want, t@, i as int);
            assert(goal[at] == ls@[i as int]@);
            assert(goal.take(at + 1) =~= goal.take(at).push(ls@[i as int]@));
            lemma_unlines_push(goal.take(at), ls@[i as int]@);
        }
        out = out.concat(&ls[i]).concat("\n");
        if !inserted && str_eq(&str_trim(&ls[i]), t) {
            proof {
                assert(k == i);
                assert(goal[i + 1] == line@);
                assert(goal.take(i + 2) =~= goal.take(i + 1).push(line@));
                lemma_unlines_push(goal.take(i + 1), line@);
            }
            out = out.concat(line).concat("\n");
            inserted = true;
        }
        i += 1;
    }
    assert(want.len() == ls.len());
    assert(goal.take(goal.len() as int) =~= goal);
    out
}

proof fn lemma_first_equal_after(ls: Seq<Seq<char>>, t: Seq<char>, i: int)
    requires
        0 <= i <= ls.len(),
    ensures
        i <= first_equal(ls, t, i) <= ls.len(),
    decreases ls.len() - i,
{
    if i < ls.len() && trim(ls[i]) != t {
        lemma_first_equal_after(ls, t, i + 1);
    }
}

// ---------------------------------------------------------------------------
// Machine configurations
// ---------------------------------------------------------------------------

/// Gives the machine its host name.
pub fn patch_yaml_hostname(yaml: &str, hostname: &str) -> (r: String)
    ensures
        r@ == unlines(set_first(lines(yaml@), "hostname:"@, hostname@)),
{
    replace_first(yaml, "hostname:", hostname)
}

/// Sets the Kubernetes version wherever the text has one.
pub fn patch_yaml_kubernetes_version(yaml: &str, version: &str) -> (r: String)
    ensures
        r@ == unlines(set_all(lines(yaml@), "kubernetesVersion:"@, version@)),
{
    replace_all(yaml, "kubernetesVersion:", version)
}

/// The text with the Kubernetes version set; where it has none, it gets one
/// right below `cluster:`.
pub open spec fn with_version(yaml: Seq<char>, version: Seq<char>) -> Seq<char> {
    let out = unlines(set_all(lines(yaml), "kubernetesVersion:"@, version));
    if !any_key(lines(yaml), "kubernetesVersion:"@) && contains(out, "cluster:"@) {
        unlines(insert_after(lines(out), "cluster:"@, "  kubernetesVersion: "@ + version))
    } else {
        out
    }
}

/// Sets the Kubernetes version, or adds it to the cluster section.
pub fn patch_kubernetes_version(yaml: &str, version: &str) -> (r: String)
    ensures
        r@ == with_version(yaml@, version@),
{
    let out = replace_all(yaml, "kubernetesVersion:", version);
    if !has_line(yaml, "kubernetesVersion:") && str_contains(&out, "cluster:") {
        add_line_after(&out, "cluster:", &cat("  kubernetesVersion: ", version))
    } else {
        out
    }
}

// ---------------------------------------------------------------------------
// Laws
// ---------------------------------------------------------------------------

/// A line that comes back as it is: it holds no line feed and does not end in a
/// carriage return.
pub open spec fn plain_line(l: Seq<char>) -> bool {
    !l.contains('\n') && !(l.len() > 0 && l.last() == '\r')
}

pub open spec fn plain_lines(ls: Seq<Seq<char>>) -> bool {
    forall|i: int| 0 <= i < ls.len() ==> plain_line(#[trigger] ls[i])
}

/// Reading a text from `at` on, where the text is a head, the ended lines of
/// `ls` and nothing more.
proof fn lemma_lines_from_unlines(head: Seq<char>, ls: Seq<Seq<char>>, all: Seq<char>)
    requires
        plain_lines(ls),
        all == head + cat_lines(ls, 0),
    ensures
        lines_from(all, head.len() as int) == ls,
    decreases ls.len(),
{
    reveal_strlit("\n");
    if ls.len() == 0 {
        assert(all.len() == head.len());
        assert(lines_from(all, head.len() as int) =~= ls);
    } else {
        let l = ls[0];
        let rest = ls.drop_first();
        let at = head.len() as int;
        assert(plain_line(l));
        assert(plain_lines(rest)) by {
            assert forall|i: int| 0 <= i < rest.len() implies plain_line(#[trigger] rest[i]) by {
                assert(plain_line(ls[i + 1]));
            }
        }
        lemma_cat_lines_shift(ls, 0);
        let head2 = head + l + "\n"@;
        assert(cat_lines(ls, 0) == l + "\n"@ + cat_lines(rest, 0));
        assert(all =~= head2 + cat_lines(rest, 0));
        lemma_lines_from_unlines(head2, rest, all);
        // the line feed that ends `l` is the first one from `at` on
        lemma_pos_bounds(all, '\n', at);
        let j = pos(all, '\n', at);
        assert(all[at + l.len()] == '\n');
        assert forall|k: int| at <= k < at + l.len() implies all[k] != '\n' by {
            assert(all[k] == l[k - at]);
            assert(l.contains(l[k - at]));
        }
        assert(j == at + l.len());
        if j > at {
            assert(all[j - 1] == l.last());
        }
        assert(all.subrange(at, j) =~= l);
        assert(head2.len() == j + 1);
        assert(lines_from(all, at) =~= seq![l] + rest);
        assert(seq![l] + rest =~= ls);
    }
}

/// The ended lines from `i` on, one after the other.
spec fn cat_lines(ls: Seq<Seq<char>>, i: int) -> Seq<char>
    decreases ls.len() - i,
{
    if 0 <= i < ls.len() {
        ls[i] + "\n"@ + cat_lines(ls, i + 1)
    } else {
        Seq::empty()
    }
}

proof fn lemma_cat_lines_shift(ls: Seq<Seq<char>>, i: int)
    requires
        0 <= i < ls.len(),
    ensures
        cat_lines(ls, i + 1) == cat_lines(ls.drop_first(), i),
    decreases ls.len() - i,
{
    if i + 1 < ls.len() {
        lemma_cat_lines_shift(ls, i + 1);
        assert(ls.drop_first()[i] == ls[i + 1]);
    }
}

proof fn lemma_cat_is_unlines(ls: Seq<Seq<char>>)
    ensures
        cat_lines(ls, 0) == unlines(ls),
    decreases ls.len(),
{
    if ls.len() > 0 {
        let init = ls.drop_last();
        lemma_cat_is_unlines(init);
        lemma_cat_split(ls, 0);
    }
}

proof fn lemma_cat_split(ls: Seq<Seq<char>>, i: int)
    requires
        ls.len() > 0,
        0 <= i < ls.len(),
    ensures
        cat_lines(ls, i) == cat_lines(ls.drop_last(), i) + ls.last() + "\n"@,
    decreases ls.len() - i,
{
    if i + 1 < ls.len() {
        lemma_cat_split(ls, i + 1);
        assert(ls.drop_last()[i] == ls[i]);
        assert(cat_lines(ls, i) =~= cat_lines(ls.drop_last(), i) + ls.last() + "\n"@);
    } else {
        assert(cat_lines(ls, i + 1) =~= Seq::<char>::empty());
        assert(cat_lines(ls.drop_last(), i) =~= Seq::<char>::empty());
        assert(cat_lines(ls, i) =~= cat_lines(ls.drop_last(), i) + ls.last() + "\n"@);
    }
}

/// Joining plain lines and splitting them again gives the lines back.
pub proof fn law_lines_roundtrip(ls: Seq<Seq<char>>)
    requires
        plain_lines(ls),
    ensures
        lines(unlines(ls)) == ls,
{
    lemma_cat_is_unlines(ls);
    assert(unlines(ls) =~= Seq::<char>::empty() + cat_lines(ls, 0));
    lemma_lines_from_unlines(Seq::empty(), ls, unlines(ls));
}

proof fn lemma_skip_spaces(n: nat, rest: Seq<char>, i: int)
    requires
        0 <= i <= n,
        rest.len() > 0,
        !is_ws(rest[0]),
    ensures
        skip_ws(spaces(n) + rest, i) == n,
    decreases n - i,
{
    let s = spaces(n) + rest;
    if i < n {
        assert(s[i] == ' ');
        lemma_skip_spaces(n, rest, i + 1);
    } else {
        assert(s[n as int] == rest[0]);
    }
}

/// A line that starts with a key after an indent of spaces keeps indent and key
/// under the same key.
pub proof fn lemma_keyed_again(n: usize, key: Seq<char>, val: Seq<char>, other: Seq<char>)
    requires
        key.len() > 0,
        !is_ws(key[0]),
    ensures
        ({
            let line = spaces(n as nat) + key + " "@ + val;
            &&& trim_start(line) == key + " "@ + val
            &&& has_key(line, key)
            &&& byte_len(line.subrange(0, skip_ws(line, 0))) == n
            &&& keyed(line, key, other) == spaces(n as nat) + key + " "@ + other
        }),
{
    let rest = key + " "@ + val;
    let line = spaces(n as nat) + key + " "@ + val;
    assert(line =~= spaces(n as nat) + rest);
    assert(rest[0] == key[0]);
    lemma_skip_spaces(n as nat, rest, 0);
    assert(line.subrange(0, n as int) =~= spaces(n as nat));
    assert(line.subrange(n as int, line.len() as int) =~= rest);
    assert(rest.subrange(0, key.len() as int) =~= key);
    lemma_ascii_bytes(spaces(n as nat));
}

/// Setting a value twice on the lines of a text leaves the second.
pub proof fn law_last_value_stays(
    ls: Seq<Seq<char>>,
    key: Seq<char>,
    first: Seq<char>,
    second: Seq<char>,
)
    requires
        key.len() > 0,
        !is_ws(key[0]),
    ensures
        set_all(set_all(ls, key, first), key, second) == set_all(ls, key, second),
        set_first(set_first(ls, key, first), key, second) == set_first(ls, key, second),
{
    let a = set_all(set_all(ls, key, first), key, second);
    let b = set_all(ls, key, second);
    assert forall|i: int| 0 <= i < ls.len() implies a[i] == b[i] by {
        if has_key(ls[i], key) {
            let n = byte_len(ls[i].subrange(0, skip_ws(ls[i], 0)));
            lemma_keyed_again(n, key, first, second);
        }
    }
    assert(a =~= b);
    let k = first_with(ls, key, 0);
    lemma_first_after(ls, key, 0);
    if k < ls.len() {
        let n = byte_len(ls[k].subrange(0, skip_ws(ls[k], 0)));
        lemma_keyed_again(n, key, first, second);
        let once = ls.update(k, keyed(ls[k], key, first));
        lemma_first_with_same(ls, once, key, 0, k);
        assert(set_first(once, key, second) =~= set_first(ls, key, second));
    }
}

proof fn lemma_first_with_same(
    ls: Seq<Seq<char>>,
    other: Seq<Seq<char>>,
    key: Seq<char>,
    i: int,
    k: int,
)
    requires
        0 <= i <= k < ls.len(),
        ls.len() == other.len(),
        first_with(ls, key, i) == k,
        forall|j: int| i <= j < k ==> ls[j] == other[j],
        has_key(other[k], key),
    ensures
        first_with(other, key, i) == k,
    decreases k - i,
{
    if i < k {
        lemma_first_with_same(ls, other, key, i + 1, k);
    }
}

/// The lines of a patched text are the patched lines, where no line ends in a
/// carriage return and the value is a plain one.
pub proof fn law_patched_text_has_patched_lines(
    ls: Seq<Seq<char>>,
    key: Seq<char>,
    val: Seq<char>,
)
    requires
        plain_lines(ls),
        !key.contains('\n'),
        val.len() > 0,
        plain_line(val),
    ensures
        lines(unlines(set_all(ls, key, val))) == set_all(ls, key, val),
        lines(unlines(set_first(ls, key, val))) == set_first(ls, key, val),
{
    assert forall|l: Seq<char>| plain_line(#[trigger] keyed(l, key, val)) by {
        let k = keyed(l, key, val);
        reveal_strlit(" ");
        assert(k.last() == val.last());
        assert forall|i: int| 0 <= i < k.len() implies k[i] != '\n' by {
            let n = indent(l).len();
            if i < n {
                assert(k[i] == ' ');
            } else if i < n + key.len() {
                assert(k[i] == key[i - n]);
                assert(key.contains(key[i - n]));
            } else if i == n + key.len() {
                assert(k[i] == ' ');
            } else {
                assert(k[i] == val[i - n - key.len() - 1]);
                assert(val.contains(val[i - n - key.len() - 1]));
            }
        }
    }
    let a = set_all(ls, key, val);
    assert forall|i: int| 0 <= i < a.len() implies plain_line(#[trigger] a[i]) by {
        assert(plain_line(ls[i]));
    }
    law_lines_roundtrip(a);
    lemma_first_after(ls, key, 0);
    let b = set_first(ls, key, val);
    assert forall|i: int| 0 <= i < b.len() implies plain_line(#[trigger] b[i]) by {
        assert(plain_line(ls[i]));
    }
    law_lines_roundtrip(b);
}

} // verus!
