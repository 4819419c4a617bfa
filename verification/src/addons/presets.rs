//! Settings that outlive their cluster: they are kept under the name of the
//! cluster, and a later cluster can take them over.
use crate::addons::CILIUM_LB_ID;
use crate::addons::catalog::{catalog_entry, entry_of};
use crate::json::{Json, JsonV, arr_view, jobj, lemma_arr_view};
use crate::text::{lit, lower, opt_text, str_eq, str_eq_nocase, str_trim, trim};
use vstd::prelude::*;
use vstd::string::*;

verus! {

/// The stored document holds no settings.
pub open spec fn no_settings(config_json: Seq<char>) -> bool {
    let t = trim(config_json);
    t.len() == 0 || t == "{}"@ || t == "null"@
}

pub fn config_is_empty(config_json: &str) -> (r: bool)
    ensures
        r == no_settings(config_json@),
{
    let t = str_trim(config_json);
    t.is_empty() || str_eq(&t, "{}") || str_eq(&t, "null")
}

/// The add-on fits a cluster with the given network.
pub open spec fn fits_network(addon: Seq<char>, cni: Seq<char>) -> bool {
    addon == CILIUM_LB_ID@ ==> lower(cni) == lower("cilium"@)
}

pub fn should_restore_addon(addon: &str, cni: &str) -> (r: bool)
    ensures
        r == fits_network(addon@, cni@),
{
    if str_eq(addon, CILIUM_LB_ID) {
        str_eq_nocase(cni, "cilium")
    } else {
        true
    }
}

/// The name under which settings are kept; nothing where there is no name or
/// there are no settings.
pub fn preset_name(cluster_name: &str, config_json: &str) -> (r: Option<String>)
    ensures
        opt_text(r) == (if trim(cluster_name@).len() == 0 || no_settings(config_json@) {
            None
        } else {
            Some(trim(cluster_name@))
        }),
{
    let t = str_trim(cluster_name);
    if t.is_empty() || config_is_empty(config_json) {
        None
    } else {
        Some(t)
    }
}

/// Kept settings of one add-on.
#[derive(Debug, PartialEq, Eq)]
pub struct Preset {
    pub addon: String,
    pub config_json: String,
    pub secrets_enc: Option<String>,
    pub want_install: i64,
}

/// The settings go to the new cluster.
pub open spec fn is_restored(p: Preset, cni: Seq<char>) -> bool {
    !no_settings(p.config_json@) && fits_network(p.addon@, cni)
}

/// The places of the settings, among the first `n`, that go to the new cluster.
pub open spec fn restored_places(rows: Seq<Preset>, cni: Seq<char>, n: int) -> Seq<int>
    decreases n,
{
    if 0 < n <= rows.len() {
        let r = restored_places(rows, cni, n - 1);
        if is_restored(rows[n - 1], cni) {
            r.push(n - 1)
        } else {
            r
        }
    } else {
        Seq::empty()
    }
}

/// Numbers as integers.
pub open spec fn ints(v: Seq<usize>) -> Seq<int> {
    Seq::new(v.len(), |i: int| v[i] as int)
}

/// The places of the settings that a new cluster takes over from the name
/// `from_name`; none where the name is blank.
pub fn restore_presets(from_name: &str, rows: &Vec<Preset>, cni: &str) -> (r: Vec<usize>)
    ensures
        ints(r@) == (if trim(from_name@).len() == 0 {
            Seq::<int>::empty()
        } else {
            restored_places(rows@, cni@, rows@.len() as int)
        }),
{
    let mut out: Vec<usize> = Vec::new();
    assert(ints(out@) =~= Seq::<int>::empty());
    if str_trim(from_name).is_empty() {
        return out;
    }
    let mut i: usize = 0;
    while i < rows.len()
        invariant
            i <= rows.len(),
            ints(out@) == restored_places(rows@, cni@, i as int),
        decreases rows.len() - i,
    {
        if !config_is_empty(&rows[i].config_json) && should_restore_addon(&rows[i].addon, cni) {
            let ghost was = out@;
            out.push(i);
            assert(ints(out@) =~= ints(was).push(i as int));
        }
        i += 1;
    }
    out
}

/// Settings that a cluster takes over fit its network and are not blank.
pub proof fn law_restored_settings_fit(rows: Seq<Preset>, cni: Seq<char>, n: int)
    requires
        0 <= n <= rows.len(),
    ensures
        forall|k: int|
            0 <= k < restored_places(rows, cni, n).len() ==> {
                let p = #[trigger] restored_places(rows, cni, n)[k];
                0 <= p < n && is_restored(rows[p], cni)
            },
    decreases n,
{
    if n > 0 {
        law_restored_settings_fit(rows, cni, n - 1);
        let r = restored_places(rows, cni, n - 1);
        assert forall|k: int| 0 <= k < restored_places(rows, cni, n).len() implies ({
            let p = #[trigger] restored_places(rows, cni, n)[k];
            0 <= p < n && is_restored(rows[p], cni)
        }) by {
            if k < r.len() {
                assert(restored_places(rows, cni, n)[k] == r[k]);
            }
        }
    }
}

/// Whether an installation of restored settings is to be queued: it is wanted,
/// fits the network, and none is queued or running.
pub fn restored_install_due(addon: &str, want_install: i64, cni: &str, active: bool) -> (r: bool)
    ensures
        r == (want_install != 0 && fits_network(addon@, cni@) && !active),
{
    want_install != 0 && should_restore_addon(addon, cni) && !active
}

/// The payload of such an installation.
pub fn restored_payload(addon: &str) -> (r: Json)
    ensures
        r@ == jobj().with("addon"@, JsonV::Str(addon@)).with("reused"@, JsonV::Bool(true)),
{
    Json::object().with("addon", Json::text(addon)).with("reused", Json::Bool(true))
}

/// Kept settings of one add-on, with the document that they hold.
#[derive(Debug, PartialEq, Eq)]
pub struct PresetRow {
    pub cluster_name: String,
    pub addon: String,
    pub config_json: String,
    /// The document in `config_json`, the empty object where it is none.
    pub config: Json,
    pub want_install: i64,
}

/// The name of an add-on in the catalog, its id where there is none.
pub open spec fn shown_name(addon: Seq<char>) -> Seq<char> {
    match entry_of(addon) {
        Some(e) => e.name,
        None => addon,
    }
}

/// One add-on of a list of kept settings. Secrets are not part of it.
pub open spec fn preset_item(row: PresetRow) -> JsonV {
    jobj().with("id"@, JsonV::Str(row.addon@)).with(
        "name"@,
        JsonV::Str(shown_name(row.addon@)),
    ).with("want_install"@, JsonV::Bool(row.want_install != 0)).with("config"@, row.config@)
}

fn preset_json(row: &PresetRow) -> (r: Json)
    ensures
        r@ == preset_item(*row),
{
    let name = match catalog_entry(&row.addon) {
        Ok(e) => lit(e.name),
        Err(_) => lit(&row.addon),
    };
    Json::object().with("id", Json::text(&row.addon)).with("name", Json::Str(name)).with(
        "want_install",
        Json::Bool(row.want_install != 0),
    ).with("config", row.config.dup())
}

/// The place of the group of a name among the first `n`, `n` where it has none.
pub open spec fn group_place(g: Seq<(Seq<char>, Seq<JsonV>)>, name: Seq<char>, n: int) -> int
    decreases n,
{
    if 0 < n <= g.len() {
        let k = group_place(g, name, n - 1);
        if k < n - 1 {
            k
        } else if g[n - 1].0 == name {
            n - 1
        } else {
            n
        }
    } else {
        0
    }
}

/// The groups with one more item: it joins the group of its name, or begins one.
pub open spec fn grouped(
    g: Seq<(Seq<char>, Seq<JsonV>)>,
    name: Seq<char>,
    item: JsonV,
) -> Seq<(Seq<char>, Seq<JsonV>)> {
    let k = group_place(g, name, g.len() as int);
    if k < g.len() {
        g.update(k, (name, g[k].1.push(item)))
    } else {
        g.push((name, seq![item]))
    }
}

/// The first `n` rows in groups, one for each name, in the order in which the
/// names come. Rows without settings are left out.
pub open spec fn preset_groups(rows: Seq<PresetRow>, n: int) -> Seq<(Seq<char>, Seq<JsonV>)>
    decreases n,
{
    if 0 < n <= rows.len() {
        let g = preset_groups(rows, n - 1);
        let row = rows[n - 1];
        if no_settings(row.config_json@) {
            g
        } else {
            grouped(g, row.cluster_name@, preset_item(row))
        }
    } else {
        Seq::empty()
    }
}

/// The items of the rows, among the first `n`, that have settings and the name,
/// in their order.
pub open spec fn items_of(rows: Seq<PresetRow>, name: Seq<char>, n: int) -> Seq<JsonV>
    decreases n,
{
    if 0 < n <= rows.len() {
        let v = items_of(rows, name, n - 1);
        let row = rows[n - 1];
        if !no_settings(row.config_json@) && row.cluster_name@ == name {
            v.push(preset_item(row))
        } else {
            v
        }
    } else {
        Seq::empty()
    }
}

proof fn lemma_group_place(g: Seq<(Seq<char>, Seq<JsonV>)>, name: Seq<char>, n: int)
    requires
        0 <= n <= g.len(),
    ensures
        0 <= group_place(g, name, n) <= n,
        group_place(g, name, n) < n ==> g[group_place(g, name, n)].0 == name,
        forall|i: int| 0 <= i < group_place(g, name, n) ==> (#[trigger] g[i]).0 != name,
    decreases n,
{
    if n > 0 {
        lemma_group_place(g, name, n - 1);
    }
}

proof fn lemma_groups(rows: Seq<PresetRow>, n: int)
    requires
        0 <= n <= rows.len(),
    ensures
        forall|i: int, j: int|
            0 <= i < j < preset_groups(rows, n).len() ==> (#[trigger] preset_groups(rows, n)[i]).0
                != (#[trigger] preset_groups(rows, n)[j]).0,
        forall|i: int|
            0 <= i < preset_groups(rows, n).len() ==> {
                let g = #[trigger] preset_groups(rows, n)[i];
                g.1.len() > 0 && g.1 == items_of(rows, g.0, n)
            },
        forall|k: int|
            0 <= k < n && !no_settings((#[trigger] rows[k]).config_json@) ==> exists|i: int|
                0 <= i < preset_groups(rows, n).len() && (#[trigger] preset_groups(rows, n)[i]).0
                    == rows[k].cluster_name@,
        forall|name: Seq<char>|
            (forall|i: int|
                0 <= i < preset_groups(rows, n).len() ==> (#[trigger] preset_groups(rows, n)[i]).0
                    != name) ==> (#[trigger] items_of(rows, name, n)).len() == 0,
    decreases n,
{
    if n > 0 {
        lemma_groups(rows, n - 1);
        let g = preset_groups(rows, n - 1);
        let h = preset_groups(rows, n);
        let row = rows[n - 1];
        let name = row.cluster_name@;
        if !no_settings(row.config_json@) {
            let k = group_place(g, name, g.len() as int);
            lemma_group_place(g, name, g.len() as int);
            if k == g.len() {
                assert(items_of(rows, name, n - 1).len() == 0);
                assert(items_of(rows, name, n) =~= seq![preset_item(row)]);
            }
            assert(h[k].0 == name);
            assert forall|i: int| 0 <= i < h.len() implies {
                let x = #[trigger] h[i];
                x.1.len() > 0 && x.1 == items_of(rows, x.0, n)
            } by {
                if i != k {
                    assert(h[i] == g[i]);
                    assert(g[i].0 != name);
                }
            }
            assert forall|q: int|
                0 <= q < n && !no_settings((#[trigger] rows[q]).config_json@) implies exists|
                i: int,
            |
                0 <= i < h.len() && (#[trigger] h[i]).0 == rows[q].cluster_name@ by {
                if q < n - 1 {
                    let i = choose|i: int|
                        0 <= i < g.len() && (#[trigger] g[i]).0 == rows[q].cluster_name@;
                    assert(h[i].0 == g[i].0);
                } else {
                    assert(h[k].0 == rows[q].cluster_name@);
                }
            }
            assert forall|other: Seq<char>|
                (forall|i: int| 0 <= i < h.len() ==> (#[trigger] h[i]).0 != other) implies (
            #[trigger] items_of(rows, other, n)).len() == 0 by {
                assert(h[k].0 != other);
                assert forall|i: int| 0 <= i < g.len() implies (#[trigger] g[i]).0 != other by {
                    assert(h[i].0 == g[i].0);
                }
                assert(items_of(rows, other, n - 1).len() == 0);
            }
        } else {
            assert forall|other: Seq<char>|
                (forall|i: int| 0 <= i < h.len() ==> (#[trigger] h[i]).0 != other) implies (
            #[trigger] items_of(rows, other, n)).len() == 0 by {
                assert(items_of(rows, other, n - 1).len() == 0);
            }
        }
    }
}

/// Kept settings are grouped by the name of the cluster: no two groups have the
/// same name, a group holds the rows of its name that have settings, each once
/// and in order, and every row with settings is in a group.
pub proof fn law_one_group_for_each_name(rows: Seq<PresetRow>, n: int)
    requires
        0 <= n <= rows.len(),
    ensures
        forall|i: int, j: int|
            0 <= i < j < preset_groups(rows, n).len() ==> (#[trigger] preset_groups(rows, n)[i]).0
                != (#[trigger] preset_groups(rows, n)[j]).0,
        forall|i: int|
            0 <= i < preset_groups(rows, n).len() ==> {
                let g = #[trigger] preset_groups(rows, n)[i];
                g.1.len() > 0 && g.1 == items_of(rows, g.0, n)
            },
        forall|k: int|
            0 <= k < n && !no_settings((#[trigger] rows[k]).config_json@) ==> exists|i: int|
                0 <= i < preset_groups(rows, n).len() && (#[trigger] preset_groups(rows, n)[i]).0
                    == rows[k].cluster_name@,
{
    lemma_groups(rows, n);
}

/// The document of a group.
pub open spec fn group_doc(g: (Seq<char>, Seq<JsonV>)) -> JsonV {
    jobj().with("cluster_name"@, JsonV::Str(g.0)).with("addons"@, JsonV::Arr(g.1))
}

/// The forms of groups.
pub open spec fn groups_view(v: Seq<(String, Vec<Json>)>) -> Seq<(Seq<char>, Seq<JsonV>)> {
    Seq::new(v.len(), |i: int| (v[i].0@, arr_view(v[i].1@)))
}

fn find_group(groups: &Vec<(String, Vec<Json>)>, name: &str) -> (r: usize)
    ensures
        r == group_place(groups_view(groups@), name@, groups@.len() as int),
        r <= groups.len(),
{
    let ghost g = groups_view(groups@);
    let mut i: usize = 0;
    let mut found: usize = 0;
    while i < groups.len()
        invariant
            i <= groups.len(),
            g == groups_view(groups@),
            found <= i,
            found == group_place(g, name@, i as int),
        decreases groups.len() - i,
    {
        assert(g[i as int].0 == groups@[i as int].0@);
        if found == i && !str_eq(&groups[i].0, name) {
            found = i + 1;
        }
        i += 1;
    }
    found
}

fn add_preset(groups: &mut Vec<(String, Vec<Json>)>, row: &PresetRow)
    ensures
        groups_view(final(groups)@) == grouped(
            groups_view(old(groups)@),
            row.cluster_name@,
            preset_item(*row),
        ),
{
    let ghost g = groups_view(groups@);
    let item = preset_json(row);
    let k: usize = find_group(groups, &row.cluster_name);
    if k < groups.len() {
        proof {
            lemma_group_place(g, row.cluster_name@, g.len() as int);
        }
        let (name, items) = groups.remove(k);
        let ghost before = items@;
        let mut items = items;
        items.push(item);
        assert(arr_view(items@) =~= arr_view(before).push(item@));
        groups.insert(k, (name, items));
        assert(groups_view(groups@) =~= g.update(
            k as int,
            (row.cluster_name@, g[k as int].1.push(item@)),
        ));
    } else {
        let mut items: Vec<Json> = Vec::new();
        items.push(item);
        assert(arr_view(items@) =~= seq![item@]);
        groups.push((lit(&row.cluster_name), items));
        assert(groups_view(groups@) =~= g.push((row.cluster_name@, seq![item@])));
    }
}

/// Kept settings, one document for each cluster name.
pub fn list_presets(rows: &Vec<PresetRow>) -> (r: Vec<Json>)
    ensures
        arr_view(r@) == Seq::new(
            preset_groups(rows@, rows@.len() as int).len(),
            |i: int| group_doc(preset_groups(rows@, rows@.len() as int)[i]),
        ),
{
    let mut groups: Vec<(String, Vec<Json>)> = Vec::new();
    assert(groups_view(groups@) =~= Seq::empty());
    let mut i: usize = 0;
    while i < rows.len()
        invariant
            i <= rows.len(),
            groups_view(groups@) == preset_groups(rows@, i as int),
        decreases rows.len() - i,
    {
        if !config_is_empty(&rows[i].config_json) {
            add_preset(&mut groups, &rows[i]);
        }
        i += 1;
    }
    let ghost g = groups_view(groups@);
    let mut out: Vec<Json> = Vec::new();
    let mut k: usize = 0;
    while k < groups.len()
        invariant
            k <= groups.len(),
            g == groups_view(groups@),
            out.len() == k,
            forall|j: int| 0 <= j < k ==> #[trigger] out@[j].view() == group_doc(g[j]),
        decreases groups.len() - k,
    {
        let mut items: Vec<Json> = Vec::new();
        let mut j: usize = 0;
        while j < groups[k].1.len()
            invariant
                k < groups.len(),
                j <= groups@[k as int].1@.len(),
                items.len() == j,
                forall|x: int|
                    0 <= x < j ==> #[trigger] items@[x].view() == groups@[k as int].1@[x].view(),
            decreases groups@[k as int].1@.len() - j,
        {
            items.push(groups[k].1[j].dup());
            j += 1;
        }
        proof {
            lemma_arr_view(items@);
            lemma_arr_view(groups@[k as int].1@);
            assert forall|x: int| 0 <= x < items.len() implies arr_view(items@)[x] == arr_view(
                groups@[k as int].1@,
            )[x] by {
                assert(items@[x].view() == groups@[k as int].1@[x].view());
            }
            assert(arr_view(items@) =~= arr_view(groups@[k as int].1@));
            assert(g[k as int] == (groups@[k as int].0@, arr_view(groups@[k as int].1@)));
        }
        let doc = Json::object().with("cluster_name", Json::text(&groups[k].0)).with(
            "addons",
            Json::array(items),
        );
        out.push(doc);
        k += 1;
    }
    proof {
        lemma_arr_view(out@);
        assert forall|j: int| 0 <= j < g.len() implies arr_view(out@)[j] == group_doc(g[j]) by {
            assert(out@[j].view() == group_doc(g[j]));
        }
        assert(arr_view(out@) =~= Seq::new(g.len(), |i: int| group_doc(g[i])));
    }
    out
}

/// Settings are restored exactly where there are any, and where the cluster has the
/// network that they need.
pub proof fn law_restored_settings(p: Preset, cni: Seq<char>)
    ensures
        trim(p.config_json@).len() == 0 || trim(p.config_json@) == "{}"@ || trim(p.config_json@)
            == "null"@ ==> !is_restored(p, cni),
        !no_settings(p.config_json@) && p.addon@ != "cilium-lb"@ ==> is_restored(p, cni),
        !no_settings(p.config_json@) && p.addon@ == "cilium-lb"@ ==> (is_restored(p, cni) <==> lower(
            cni,
        ) == "cilium"@),
{
    reveal_strlit("cilium");
    assert(lower("cilium"@) =~= "cilium"@);
}

/// What is shown of a preset: the add-on, whether it is to be installed, and its
/// settings.
pub proof fn law_shown_preset(row: PresetRow)
    ensures
        preset_item(row).get("id"@) == Some(JsonV::Str(row.addon@)),
        preset_item(row).get("want_install"@) == Some(JsonV::Bool(row.want_install != 0)),
        preset_item(row).get("config"@) == Some(row.config@),
{
    broadcast use {crate::json::lemma_get_with, crate::json::lemma_get_empty};

    reveal_strlit("id");
    reveal_strlit("name");
    reveal_strlit("want_install");
    reveal_strlit("config");
    assert("id"@.len() == 2);
    assert("name"@.len() == 4);
    assert("want_install"@.len() == 12);
    assert("config"@.len() == 6);
}

} // verus!
