//! The order of texts, and sets of texts kept as ascending lists.
use crate::text::{chars_of, lit, texts};
use vstd::prelude::*;
use vstd::string::*;

verus! {

/// `a` comes before `b`: character by character, a prefix first.
pub open spec fn less(a: Seq<char>, b: Seq<char>) -> bool
    decreases a.len(),
{
    if b.len() == 0 {
        false
    } else if a.len() == 0 {
        true
    } else if a[0] != b[0] {
        (a[0] as int) < (b[0] as int)
    } else {
        less(a.drop_first(), b.drop_first())
    }
}

/// Each element comes before every later one, so none occurs twice.
pub open spec fn ascending(v: Seq<Seq<char>>) -> bool {
    forall|i: int, j: int| 0 <= i < j < v.len() ==> less(#[trigger] v[i], #[trigger] v[j])
}

pub proof fn lemma_less_irreflexive(a: Seq<char>)
    ensures
        !less(a, a),
    decreases a.len(),
{
    if a.len() > 0 {
        lemma_less_irreflexive(a.drop_first());
    }
}

pub proof fn lemma_less_transitive(a: Seq<char>, b: Seq<char>, c: Seq<char>)
    requires
        less(a, b),
        less(b, c),
    ensures
        less(a, c),
    decreases a.len(),
{
    if a.len() > 0 && a[0] == b[0] && b[0] == c[0] {
        lemma_less_transitive(a.drop_first(), b.drop_first(), c.drop_first());
    }
}

pub proof fn lemma_less_total(a: Seq<char>, b: Seq<char>)
    ensures
        less(a, b) || less(b, a) || a == b,
    decreases a.len(),
{
    if a.len() > 0 && b.len() > 0 {
        if a[0] == b[0] {
            lemma_less_total(a.drop_first(), b.drop_first());
            if a.drop_first() == b.drop_first() {
                assert(a =~= seq![a[0]] + a.drop_first());
                assert(b =~= seq![b[0]] + b.drop_first());
            }
        }
    } else if a.len() == 0 && b.len() == 0 {
        assert(a =~= b);
    }
}

fn char_before(p: char, q: char) -> (r: bool)
    ensures
        r == ((p as int) < (q as int)),
{
    (p as u32) < (q as u32)
}

/// Whether `a` comes before `b`.
pub fn str_less(a: &str, b: &str) -> (r: bool)
    ensures
        r == less(a@, b@),
{
    let x = chars_of(a);
    let y = chars_of(b);
    let mut i: usize = 0;
    assert(x@.skip(0) =~= x@);
    assert(y@.skip(0) =~= y@);
    loop
        invariant
            x@ == a@,
            y@ == b@,
            i <= x.len(),
            i <= y.len(),
            less(a@, b@) == less(x@.skip(i as int), y@.skip(i as int)),
        decreases x.len() - i,
    {
        if i >= y.len() {
            return false;
        }
        if i >= x.len() {
            return true;
        }
        let p: char = x[i];
        let q: char = y[i];
        if p != q {
            return char_before(p, q);
        }
        assert(x@.skip(i as int).drop_first() =~= x@.skip(i + 1));
        assert(y@.skip(i as int).drop_first() =~= y@.skip(i + 1));
        i += 1;
    }
}

/// Puts `s` into an ascending list, unless it is there already.
pub fn insert_ascending(v: &mut Vec<String>, s: &str)
    requires
        ascending(texts(old(v)@)),
    ensures
        ascending(texts(final(v)@)),
        forall|t: Seq<char>|
            #[trigger] texts(final(v)@).contains(t) <==> texts(old(v)@).contains(t) || t == s@,
{
    let ghost before = texts(v@);
    let mut i: usize = 0;
    while i < v.len() && str_less(&v[i], s)
        invariant
            i <= v.len(),
            before == texts(v@),
            forall|k: int| 0 <= k < i ==> less(#[trigger] before[k], s@),
        decreases v.len() - i,
    {
        i += 1;
    }
    if i < v.len() {
        assert(before[i as int] == v@[i as int]@);
        if !str_less(s, &v[i]) {
            proof {
                lemma_less_total(before[i as int], s@);
                assert(before.contains(s@));
            }
            return ;
        }
    }
    let ghost at = i as int;
    v.insert(i, lit(s));
    proof {
        let after = texts(v@);
        assert(after =~= before.insert(at, s@));
        assert forall|a: int, b: int| 0 <= a < b < after.len() implies less(
            #[trigger] after[a],
            #[trigger] after[b],
        ) by {
            if b == at {
                assert(less(before[a], s@));
            } else if a == at {
                if at < before.len() && b - 1 > at {
                    assert(less(before[at], before[b - 1]));
                    lemma_less_transitive(s@, before[at], before[b - 1]);
                }
            } else {
                let x = if a < at {
                    a
                } else {
                    a - 1
                };
                let y = if b < at {
                    b
                } else {
                    b - 1
                };
                assert(less(before[x], before[y]));
            }
        }
        assert forall|t: Seq<char>| #[trigger]
            after.contains(t) <==> before.contains(t) || t == s@ by {
            if after.contains(t) {
                let k = choose|k: int| 0 <= k < after.len() && after[k] == t;
                if k < at {
                    assert(before[k] == t);
                } else if k > at {
                    assert(before[k - 1] == t);
                }
            }
            if before.contains(t) {
                let k = choose|k: int| 0 <= k < before.len() && before[k] == t;
                if k < at {
                    assert(after[k] == t);
                } else {
                    assert(after[k + 1] == t);
                }
            }
            assert(after[at] == s@);
        }
    }
}

/// The elements of `v`, each once, in ascending order.
pub fn sorted_unique(v: &Vec<String>) -> (r: Vec<String>)
    ensures
        ascending(texts(r@)),
        forall|t: Seq<char>| #[trigger] texts(r@).contains(t) <==> texts(v@).contains(t),
{
    let mut out: Vec<String> = Vec::new();
    let mut i: usize = 0;
    while i < v.len()
        invariant
            i <= v.len(),
            ascending(texts(out@)),
            forall|t: Seq<char>| #[trigger]
                texts(out@).contains(t) <==> texts(v@).take(i as int).contains(t),
        decreases v.len() - i,
    {
        let ghost before = texts(out@);
        insert_ascending(&mut out, &v[i]);
        proof {
            let a = texts(v@).take(i as int);
            let b = texts(v@).take(i + 1);
            assert(b =~= a.push(v@[i as int]@));
            assert forall|t: Seq<char>| #[trigger] texts(out@).contains(t) <==> b.contains(t) by {
                assert(texts(out@).contains(t) <==> before.contains(t) || t == v@[i as int]@);
                if a.contains(t) {
                    let k = choose|k: int| 0 <= k < a.len() && a[k] == t;
                    assert(b[k] == t);
                }
                if b.contains(t) {
                    let k = choose|k: int| 0 <= k < b.len() && b[k] == t;
                    if k < i {
                        assert(a[k] == t);
                    }
                }
                assert(b[i as int] == v@[i as int]@);
                assert(before.contains(t) <==> a.contains(t));
            }
        }
        i += 1;
    }
    assert(texts(v@).take(v.len() as int) =~= texts(v@));
    out
}

/// An ascending list is fixed by the texts that it holds.
pub proof fn law_ascending_unique(a: Seq<Seq<char>>, b: Seq<Seq<char>>)
    requires
        ascending(a),
        ascending(b),
        forall|t: Seq<char>| #[trigger] a.contains(t) <==> b.contains(t),
    ensures
        a == b,
    decreases a.len(),
{
    if a.len() == 0 {
        if b.len() > 0 {
            assert(b.contains(b[0]));
            assert(a.contains(b[0]));
        }
        assert(a =~= b);
    } else {
        assert(a.contains(a[0]));
        assert(b.contains(a[0]));
        assert(b.contains(b[0]));
        assert(a.contains(b[0]));
        let i = choose|i: int| 0 <= i < b.len() && b[i] == a[0];
        let j = choose|j: int| 0 <= j < a.len() && a[j] == b[0];
        if i > 0 && j > 0 {
            assert(less(b[0], b[i]));
            assert(less(a[0], a[j]));
            lemma_less_transitive(a[0], b[0], a[0]);
            lemma_less_irreflexive(a[0]);
        }
        assert(a[0] == b[0]);
        let a1 = a.drop_first();
        let b1 = b.drop_first();
        assert(ascending(a1)) by {
            assert forall|x: int, y: int| 0 <= x < y < a1.len() implies less(
                #[trigger] a1[x],
                #[trigger] a1[y],
            ) by {
                assert(less(a[x + 1], a[y + 1]));
            }
        }
        assert(ascending(b1)) by {
            assert forall|x: int, y: int| 0 <= x < y < b1.len() implies less(
                #[trigger] b1[x],
                #[trigger] b1[y],
            ) by {
                assert(less(b[x + 1], b[y + 1]));
            }
        }
        assert forall|t: Seq<char>| #[trigger] a1.contains(t) <==> b1.contains(t) by {
            lemma_less_irreflexive(a[0]);
            if a1.contains(t) {
                let k = choose|k: int| 0 <= k < a1.len() && a1[k] == t;
                assert(less(a[0], a[k + 1]));
                assert(a.contains(a[k + 1]));
                assert(b.contains(t));
                let m = choose|m: int| 0 <= m < b.len() && b[m] == t;
                assert(m > 0);
                assert(b1[m - 1] == t);
            }
            if b1.contains(t) {
                let k = choose|k: int| 0 <= k < b1.len() && b1[k] == t;
                assert(less(b[0], b[k + 1]));
                assert(b.contains(b[k + 1]));
                assert(a.contains(t));
                let m = choose|m: int| 0 <= m < a.len() && a[m] == t;
                assert(m > 0);
                assert(a1[m - 1] == t);
            }
        }
        law_ascending_unique(a1, b1);
        assert(a =~= seq![a[0]] + a1);
        assert(b =~= seq![b[0]] + b1);
    }
}

} // verus!
