//! Kubeconfig files as they are stored and handed out.
use crate::text::{
    byte_len, cat, char_is_alnum, chars_of, is_alnum, lines, lit, skip_ws, spaces, starts_with,
    str_lines, str_trim, texts, trim, trim_start,
};
use crate::yaml::{
    has_key, has_key_at, indent_of, keyed, keyed_line, lemma_keyed_again, lemma_unlines_push,
    unlines,
};
use vstd::prelude::*;
use vstd::string::*;

verus! {

/// The character is kept in a context name; any other becomes a dash.
pub open spec fn context_char(c: char) -> char {
    if is_alnum(c) || c == '-' || c == '_' || c == '.' {
        c
    } else {
        '-'
    }
}

/// The context name for a cluster.
pub open spec fn context_name(name: Seq<char>) -> Seq<char> {
    let t = trim(name);
    if t.len() == 0 {
        "pertisk"@
    } else {
        Seq::new(t.len(), |i: int| context_char(t[i]))
    }
}

fn sanitize_context_name(name: &str) -> (r: String)
    ensures
        r@ == context_name(name@),
{
    let t = str_trim(name);
    if t.is_empty() {
        return lit("pertisk");
    }
    let v = chars_of(&t);
    let ghost want = context_name(name@);
    let mut out = String::new();
    let mut i: usize = 0;
    while i < v.len()
        invariant
            i <= v.len(),
            v@ == t@,
            want.len() == v.len(),
            forall|k: int| 0 <= k < want.len() ==> #[trigger] want[k] == context_char(t@[k]),
            out@ == want.take(i as int),
        decreases v.len() - i,
    {
        let c: char = v[i];
        if char_is_alnum(c) || c == '-' || c == '_' || c == '.' {
            out.push(c);
        } else {
            out.push('-');
        }
        assert(want.take(i + 1) =~= want.take(i as int).push(want[i as int]));
        i += 1;
    }
    assert(want.take(want.len() as int) =~= want);
    out
}

/// Where in a kubeconfig a line stands.
#[derive(Debug, Clone, Copy, PartialEq, Eq, Structural)]
pub struct Section {
    pub in_clusters: bool,
    pub in_contexts: bool,
    /// The entry of the cluster has got its name.
    pub named_cluster: bool,
    /// The entry of the context has got its name.
    pub named_context: bool,
}

/// Where the line after this one stands, and the line with names replaced.
pub open spec fn renamed_line(line: Seq<char>, name: Seq<char>, st: Section) -> (
    Section,
    Seq<char>,
) {
    let two = byte_len(line.subrange(0, skip_ws(line, 0))) == 2;
    if has_key(line, "clusters:"@) {
        (Section { in_clusters: true, in_contexts: false, named_cluster: false, ..st }, line)
    } else if has_key(line, "users:"@) {
        (Section { in_clusters: false, in_contexts: false, ..st }, line)
    } else if has_key(line, "contexts:"@) {
        (Section { in_clusters: false, in_contexts: true, named_context: false, ..st }, line)
    } else if has_key(line, "current-context:"@) {
        (st, "current-context: "@ + name)
    } else if st.in_clusters && !st.named_cluster && has_key(line, "name:"@) {
        if two {
            (Section { named_cluster: true, ..st }, "  name: "@ + name)
        } else {
            (st, line)
        }
    } else if st.in_contexts && has_key(line, "cluster:"@) {
        (st, keyed(line, "cluster:"@, name))
    } else if st.in_contexts && !st.named_context && has_key(line, "name:"@) && two {
        (Section { named_context: true, ..st }, "  name: "@ + name)
    } else {
        (st, line)
    }
}

/// The section after `n` lines.
pub open spec fn section_at(ls: Seq<Seq<char>>, name: Seq<char>, n: int) -> Section
    decreases n,
{
    if 0 < n <= ls.len() {
        renamed_line(ls[n - 1], name, section_at(ls, name, n - 1)).0
    } else {
        Section {
            in_clusters: false,
            in_contexts: false,
            named_cluster: false,
            named_context: false,
        }
    }
}

/// The lines with names replaced.
pub open spec fn renamed_lines(ls: Seq<Seq<char>>, name: Seq<char>) -> Seq<Seq<char>> {
    Seq::new(ls.len(), |i: int| renamed_line(ls[i], name, section_at(ls, name, i)).1)
}

fn rename_line(line: &str, name: &str, st: Section) -> (r: (Section, String))
    ensures
        (r.0, r.1@) == renamed_line(line@, name@, st),
{
    let two = indent_of(line) == 2;
    if has_key_at(line, "clusters:") {
        (
            Section {
                in_clusters: true,
                in_contexts: false,
                named_cluster: false,
                named_context: st.named_context,
            },
            lit(line),
        )
    } else if has_key_at(line, "users:") {
        (
            Section {
                in_clusters: false,
                in_contexts: false,
                named_cluster: st.named_cluster,
                named_context: st.named_context,
            },
            lit(line),
        )
    } else if has_key_at(line, "contexts:") {
        (
            Section {
                in_clusters: false,
                in_contexts: true,
                named_cluster: st.named_cluster,
                named_context: false,
            },
            lit(line),
        )
    } else if has_key_at(line, "current-context:") {
        (st, cat("current-context: ", name))
    } else if st.in_clusters && !st.named_cluster && has_key_at(line, "name:") {
        if two {
            (
                Section {
                    in_clusters: st.in_clusters,
                    in_contexts: st.in_contexts,
                    named_cluster: true,
                    named_context: st.named_context,
                },
                cat("  name: ", name),
            )
        } else {
            (st, lit(line))
        }
    } else if st.in_contexts && has_key_at(line, "cluster:") {
        (st, keyed_line(line, "cluster:", name))
    } else if st.in_contexts && !st.named_context && has_key_at(line, "name:") && two {
        (
            Section {
                in_clusters: st.in_clusters,
                in_contexts: st.in_contexts,
                named_cluster: st.named_cluster,
                named_context: true,
            },
            cat("  name: ", name),
        )
    } else {
        (st, lit(line))
    }
}

/// Names cluster and context of a kubeconfig after the cluster.
pub fn rename_kubeconfig_context(kc: &str, cluster_name: &str) -> (r: String)
    ensures
        r@ == unlines(renamed_lines(lines(kc@), context_name(cluster_name@))),
{
    let name = sanitize_context_name(cluster_name);
    let ls = str_lines(kc);
    let ghost want = lines(kc@);
    let ghost goal = renamed_lines(want, name@);
    let mut out = String::new();
    let mut st = Section {
        in_clusters: false,
        in_contexts: false,
        named_cluster: false,
        named_context: false,
    };
    let mut i: usize = 0;
    assert(goal.take(0) =~= Seq::<Seq<char>>::empty());
    while i < ls.len()
        invariant
            i <= ls.len(),
            want == texts(ls@),
            goal == renamed_lines(want, name@),
            st == section_at(want, name@, i as int),
            out@ == unlines(goal.take(i as int)),
        decreases ls.len() - i,
    {
        assert(want[i as int] == ls@[i as int]@);
        let (next, line) = rename_line(&ls[i], &name, st);
        proof {
            assert(goal.take(i + 1) =~= goal.take(i as int).push(line@));
            lemma_unlines_push(goal.take(i as int), line@);
        }
        st = next;
        out = out.concat(&line).concat("\n");
        i += 1;
    }
    assert(goal.take(ls.len() as int) =~= goal);
    out
}

/// A key stands at the start of a text where another one does, only if one of
/// the two starts with the other.
proof fn lemma_key_differs(t: Seq<char>, a: Seq<char>, b: Seq<char>, i: int)
    requires
        starts_with(t, a),
        0 <= i < a.len(),
        i < b.len(),
        a[i] != b[i],
    ensures
        !starts_with(t, b),
{
    assert(t.subrange(0, a.len() as int)[i] == t[i]);
    if starts_with(t, b) {
        assert(t.subrange(0, b.len() as int)[i] == t[i]);
    }
}

/// A renamed line is renamed to itself, in the same section.
proof fn lemma_line_renamed_again(line: Seq<char>, name: Seq<char>, st: Section)
    ensures
        renamed_line(renamed_line(line, name, st).1, name, st) == renamed_line(line, name, st),
{
    reveal_strlit("clusters:");
    reveal_strlit("users:");
    reveal_strlit("contexts:");
    reveal_strlit("current-context:");
    reveal_strlit("name:");
    reveal_strlit("cluster:");
    reveal_strlit("current-context: ");
    reveal_strlit("  name: ");
    reveal_strlit(" ");
    let out = renamed_line(line, name, st).1;
    if out != line {
        if has_key(line, "current-context:"@) {
            lemma_keyed_again(0, "current-context:"@, name, name);
            assert(out =~= spaces(0) + "current-context:"@ + " "@ + name);
            let t = trim_start(out);
            lemma_key_differs(t, "current-context:"@, "clusters:"@, 1);
            lemma_key_differs(t, "current-context:"@, "users:"@, 0);
            lemma_key_differs(t, "current-context:"@, "contexts:"@, 1);
        } else if st.in_clusters && !st.named_cluster && has_key(line, "name:"@) {
            lemma_keyed_again(2, "name:"@, name, name);
            assert(out =~= spaces(2) + "name:"@ + " "@ + name);
            let t = trim_start(out);
            lemma_key_differs(t, "name:"@, "clusters:"@, 0);
            lemma_key_differs(t, "name:"@, "users:"@, 0);
            lemma_key_differs(t, "name:"@, "contexts:"@, 0);
            lemma_key_differs(t, "name:"@, "current-context:"@, 0);
        } else if st.in_contexts && has_key(line, "cluster:"@) {
            let n = byte_len(line.subrange(0, skip_ws(line, 0)));
            lemma_keyed_again(n, "cluster:"@, name, name);
            let t = trim_start(out);
            lemma_key_differs(t, "cluster:"@, "clusters:"@, 7);
            lemma_key_differs(t, "cluster:"@, "users:"@, 0);
            lemma_key_differs(t, "cluster:"@, "contexts:"@, 1);
            lemma_key_differs(t, "cluster:"@, "current-context:"@, 1);
            lemma_key_differs(t, "cluster:"@, "name:"@, 0);
            if st.in_clusters && !st.named_cluster {
                assert(!has_key(line, "name:"@));
            }
        } else {
            lemma_keyed_again(2, "name:"@, name, name);
            assert(out =~= spaces(2) + "name:"@ + " "@ + name);
            let t = trim_start(out);
            lemma_key_differs(t, "name:"@, "clusters:"@, 0);
            lemma_key_differs(t, "name:"@, "users:"@, 0);
            lemma_key_differs(t, "name:"@, "contexts:"@, 0);
            lemma_key_differs(t, "name:"@, "current-context:"@, 0);
            lemma_key_differs(t, "name:"@, "cluster:"@, 0);
        }
    }
}

proof fn lemma_sections_renamed(ls: Seq<Seq<char>>, name: Seq<char>, n: int)
    requires
        0 <= n <= ls.len(),
    ensures
        section_at(renamed_lines(ls, name), name, n) == section_at(ls, name, n),
    decreases n,
{
    if n > 0 {
        lemma_sections_renamed(ls, name, n - 1);
        lemma_line_renamed_again(ls[n - 1], name, section_at(ls, name, n - 1));
    }
}

/// Renaming twice to one name is renaming once.
pub proof fn law_rename_twice(ls: Seq<Seq<char>>, name: Seq<char>)
    ensures
        renamed_lines(renamed_lines(ls, name), name) == renamed_lines(ls, name),
{
    let once = renamed_lines(ls, name);
    assert forall|i: int| 0 <= i < ls.len() implies renamed_lines(once, name)[i] == once[i] by {
        lemma_sections_renamed(ls, name, i);
        lemma_line_renamed_again(ls[i], name, section_at(ls, name, i));
    }
    assert(renamed_lines(once, name) =~= once);
}

/// The current context of a renamed kubeconfig is the given name.
pub proof fn law_current_context_is_the_name(ls: Seq<Seq<char>>, name: Seq<char>, i: int)
    requires
        0 <= i < ls.len(),
        has_key(ls[i], "current-context:"@),
    ensures
        renamed_lines(ls, name)[i] == "current-context: "@ + name,
{
    reveal_strlit("clusters:");
    reveal_strlit("users:");
    reveal_strlit("contexts:");
    reveal_strlit("current-context:");
    let t = trim_start(ls[i]);
    lemma_key_differs(t, "current-context:"@, "clusters:"@, 1);
    lemma_key_differs(t, "current-context:"@, "users:"@, 0);
    lemma_key_differs(t, "current-context:"@, "contexts:"@, 1);
}

/// The name of a context is as long as that of the cluster, and keeps its letters,
/// digits, dashes, underscores and dots.
pub proof fn law_name_of_a_context(name: Seq<char>, i: int)
    requires
        0 <= i < trim(name).len(),
    ensures
        context_name(name).len() == trim(name).len(),
        is_alnum(trim(name)[i]) || trim(name)[i] == '-' || trim(name)[i] == '_' || trim(name)[i]
            == '.' ==> context_name(name)[i] == trim(name)[i],
        !(is_alnum(trim(name)[i]) || trim(name)[i] == '-' || trim(name)[i] == '_' || trim(name)[i]
            == '.') ==> context_name(name)[i] == '-',
{
}

} // verus!
