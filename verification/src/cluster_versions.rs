//! The versions that a cluster runs, component by component.
use crate::json::text_or;
use crate::text::{
    chars_of, has_text, lit, no_texts, opt_str, opt_text, put, rpos, slice_str, str_has_char,
    str_trim, texts, trim,
};
use vstd::prelude::*;
use vstd::string::*;

verus! {

pub const DEFAULT_ETCD_IMAGE: &'static str = "registry.k8s.io/etcd:3.5.16-0";

pub const DEFAULT_PAUSE_IMAGE: &'static str = "registry.k8s.io/pause:3.10";

pub const DEFAULT_KUBE_VIP_IMAGE: &'static str = "ghcr.io/kube-vip/kube-vip:v0.8.9";

/// A node as the API shows it.
#[derive(Debug, PartialEq, Eq)]
pub struct NodeOut {
    pub id: String,
    pub cluster_id: String,
    pub name: String,
    pub role: String,
    pub vmid: Option<i64>,
    pub ip: Option<String>,
    pub ip6: Option<String>,
    pub k8s_version: Option<String>,
    pub os_version: Option<String>,
    pub kernel_version: Option<String>,
    pub container_runtime: Option<String>,
    pub memory: Option<i64>,
    pub cores: Option<i64>,
    pub disk_gb: Option<i64>,
    pub ak_public_b64: Option<String>,
    pub ak_enrolled_at: Option<String>,
    pub source: String,
    pub status: String,
    pub availability: String,
    pub created_at: String,
    pub updated_at: String,
}

#[derive(Debug, PartialEq, Eq)]
pub struct NodeComponentVersion {
    pub name: String,
    pub version: Option<String>,
}

#[derive(Debug, PartialEq, Eq)]
pub struct ComponentVersion {
    pub id: String,
    pub name: String,
    /// The version that all nodes run, `mixed`, or a dash.
    pub version: String,
    /// The version that the cluster should have.
    pub desired: Option<String>,
    pub source: String,
    pub mixed: bool,
    /// Node by node, where versions are mixed.
    pub nodes: Vec<NodeComponentVersion>,
}

#[derive(Debug, PartialEq, Eq)]
pub struct ClusterVersionCtx<'a> {
    pub k8s_version: &'a str,
    pub cni: &'a str,
    pub catalog_os: Option<&'a str>,
    pub has_vip: bool,
}

/// The mathematical form of a component.
#[verifier::ext_equal]
pub ghost struct ComponentV {
    pub id: Seq<char>,
    pub name: Seq<char>,
    pub version: Seq<char>,
    pub desired: Option<Seq<char>>,
    pub source: Seq<char>,
    pub mixed: bool,
    pub nodes: Seq<(Seq<char>, Option<Seq<char>>)>,
}

/// Names and versions of nodes.
pub open spec fn node_versions(v: Seq<NodeComponentVersion>) -> Seq<
    (Seq<char>, Option<Seq<char>>),
> {
    Seq::new(v.len(), |i: int| (v[i].name@, opt_text(v[i].version)))
}

impl View for ComponentVersion {
    type V = ComponentV;

    open spec fn view(&self) -> ComponentV {
        ComponentV {
            id: self.id@,
            name: self.name@,
            version: self.version@,
            desired: opt_text(self.desired),
            source: self.source@,
            mixed: self.mixed,
            nodes: node_versions(self.nodes@),
        }
    }
}

/// The forms of components.
pub open spec fn components_view(v: Seq<ComponentVersion>) -> Seq<ComponentV> {
    Seq::new(v.len(), |i: int| v[i]@)
}

/// A field of a node that holds a version.
#[derive(Debug, Clone, Copy, PartialEq, Eq, Structural)]
pub enum VersionField {
    Kubernetes,
    Os,
    Kernel,
    Containerd,
}

/// The value of the field.
pub open spec fn version_at(n: NodeOut, f: VersionField) -> Option<Seq<char>> {
    match f {
        VersionField::Kubernetes => opt_text(n.k8s_version),
        VersionField::Os => opt_text(n.os_version),
        VersionField::Kernel => opt_text(n.kernel_version),
        VersionField::Containerd => opt_text(n.container_runtime),
    }
}

/// The trimmed text, where it is not blank.
pub open spec fn unblank(o: Option<Seq<char>>) -> Option<Seq<char>> {
    match o {
        Some(s) => if trim(s).len() == 0 {
            None
        } else {
            Some(trim(s))
        },
        None => None,
    }
}

fn nonempty_opt(o: &Option<String>) -> (r: Option<String>)
    ensures
        opt_text(r) == unblank(opt_text(*o)),
{
    match o {
        Some(s) => nonempty(s),
        None => None,
    }
}

fn nonempty(s: &str) -> (r: Option<String>)
    ensures
        opt_text(r) == unblank(Some(s@)),
{
    let t = str_trim(s);
    if t.is_empty() {
        None
    } else {
        Some(t)
    }
}

/// Names and versions of the nodes.
pub open spec fn breakdown(nodes: Seq<NodeOut>, f: VersionField) -> Seq<
    (Seq<char>, Option<Seq<char>>),
> {
    Seq::new(nodes.len(), |i: int| (nodes[i].name@, unblank(version_at(nodes[i], f))))
}

/// The versions of the first `n` nodes, each once, in the order in which they
/// come.
pub open spec fn distinct(rows: Seq<(Seq<char>, Option<Seq<char>>)>, n: int) -> Seq<Seq<char>>
    decreases n,
{
    if 0 < n <= rows.len() {
        let r = distinct(rows, n - 1);
        match rows[n - 1].1 {
            Some(v) => if r.contains(v) {
                r
            } else {
                r.push(v)
            },
            None => r,
        }
    } else {
        Seq::empty()
    }
}

/// A component whose version the nodes report.
pub open spec fn node_component(
    id: Seq<char>,
    name: Seq<char>,
    nodes: Seq<NodeOut>,
    f: VersionField,
    desired: Option<Seq<char>>,
) -> ComponentV {
    let rows = breakdown(nodes, f);
    let found = distinct(rows, rows.len() as int);
    ComponentV {
        id: id,
        name: name,
        version: if found.len() == 0 {
            "—"@
        } else if found.len() == 1 {
            found[0]
        } else {
            "mixed"@
        },
        desired: unblank(desired),
        source: "nodes"@,
        mixed: found.len() > 1,
        nodes: if found.len() > 1 {
            rows
        } else {
            Seq::empty()
        },
    }
}

fn version_of(n: &NodeOut, f: VersionField) -> (r: Option<String>)
    ensures
        opt_text(r) == unblank(version_at(*n, f)),
{
    match f {
        VersionField::Kubernetes => nonempty_opt(&n.k8s_version),
        VersionField::Os => nonempty_opt(&n.os_version),
        VersionField::Kernel => nonempty_opt(&n.kernel_version),
        VersionField::Containerd => nonempty_opt(&n.container_runtime),
    }
}

fn from_nodes(id: &str, name: &str, nodes: &Vec<NodeOut>, f: VersionField, desired: Option<&str>) -> (r:
    ComponentVersion)
    ensures
        r@ == node_component(id@, name@, nodes@, f, opt_str(desired)),
{
    let ghost rows = breakdown(nodes@, f);
    let mut list: Vec<NodeComponentVersion> = Vec::new();
    let mut unique = no_texts();
    let mut i: usize = 0;
    while i < nodes.len()
        invariant
            i <= nodes.len(),
            rows == breakdown(nodes@, f),
            list.len() == i,
            forall|k: int|
                0 <= k < i ==> (#[trigger] list@[k]).name@ == rows[k].0 && opt_text(
                    list@[k].version,
                ) == rows[k].1,
            texts(unique@) == distinct(rows, i as int),
        decreases nodes.len() - i,
    {
        let version = version_of(&nodes[i], f);
        assert(rows[i as int] == (nodes@[i as int].name@, opt_text(version)));
        match &version {
            Some(v) => {
                if !has_text(&unique, v) {
                    put(&mut unique, v);
                }
            },
            None => {},
        }
        list.push(NodeComponentVersion { name: lit(&nodes[i].name), version });
        i += 1;
    }
    assert(node_versions(list@) =~= rows);
    assert(texts(unique@).len() == unique.len());
    let mixed = unique.len() > 1;
    let version = if unique.len() == 0 {
        lit("—")
    } else if unique.len() == 1 {
        assert(texts(unique@)[0] == unique@[0]@);
        lit(&unique[0])
    } else {
        lit("mixed")
    };
    let wanted = match desired {
        Some(d) => nonempty(d),
        None => None,
    };
    let shown: Vec<NodeComponentVersion> = if mixed {
        list
    } else {
        Vec::new()
    };
    assert(!mixed ==> node_versions(shown@) =~= Seq::empty());
    ComponentVersion {
        id: lit(id),
        name: lit(name),
        version,
        desired: wanted,
        source: lit("nodes"),
        mixed,
        nodes: shown,
    }
}

/// The tag of an image: what follows the last colon, unless that is part of a
/// host; else the whole image.
pub open spec fn tag_of(image: Seq<char>) -> Seq<char> {
    let i = rpos(image, ':', image.len() as int);
    let tag = image.subrange(i + 1, image.len() as int);
    if i >= 0 && tag.len() != 0 && !tag.contains('/') {
        tag
    } else {
        image
    }
}

pub fn image_tag(image: &str) -> (r: String)
    ensures
        r@ == tag_of(image@),
{
    let v = chars_of(image);
    let mut k: usize = v.len();
    while k > 0 && v[k - 1] != ':'
        invariant
            k <= v.len(),
            v@ == image@,
            rpos(image@, ':', v.len() as int) == rpos(image@, ':', k as int),
        decreases k,
    {
        k -= 1;
    }
    if k == 0 {
        return lit(image);
    }
    let tag = slice_str(&v, k, v.len());
    if !tag.is_empty() && !str_has_char(&tag, '/') {
        tag
    } else {
        lit(image)
    }
}

/// A component whose image is fixed.
pub open spec fn fixed_component(id: Seq<char>, name: Seq<char>, image: Seq<char>) -> ComponentV {
    ComponentV {
        id: id,
        name: name,
        version: tag_of(image),
        desired: None,
        source: "image"@,
        mixed: false,
        nodes: Seq::empty(),
    }
}

fn pinned(id: &str, name: &str, image: &str) -> (r: ComponentVersion)
    ensures
        r@ == fixed_component(id@, name@, image@),
{
    let nodes: Vec<NodeComponentVersion> = Vec::new();
    assert(node_versions(nodes@) =~= Seq::empty());
    ComponentVersion {
        id: lit(id),
        name: lit(name),
        version: image_tag(image),
        desired: None,
        source: lit("image"),
        mixed: false,
        nodes,
    }
}

/// The network component.
pub open spec fn network_component(cni: Seq<char>) -> ComponentV {
    ComponentV {
        id: "cni"@,
        name: "CNI"@,
        version: text_or(unblank(Some(cni)), "—"@),
        desired: None,
        source: "cluster"@,
        mixed: false,
        nodes: Seq::empty(),
    }
}

/// The components of a cluster.
pub open spec fn components_of(
    k8s_version: Seq<char>,
    cni: Seq<char>,
    catalog_os: Option<Seq<char>>,
    has_vip: bool,
    nodes: Seq<NodeOut>,
) -> Seq<ComponentV> {
    let base = Seq::<ComponentV>::empty().push(
        node_component(
            "kubernetes"@,
            "Kubernetes"@,
            nodes,
            VersionField::Kubernetes,
            Some(k8s_version),
        ),
    ).push(node_component("os"@, "OS"@, nodes, VersionField::Os, catalog_os)).push(
        node_component("kernel"@, "Kernel"@, nodes, VersionField::Kernel, None),
    ).push(
        node_component("containerd"@, "containerd"@, nodes, VersionField::Containerd, None),
    ).push(network_component(cni)).push(
        fixed_component("etcd"@, "etcd"@, DEFAULT_ETCD_IMAGE@),
    ).push(fixed_component("pause"@, "pause"@, DEFAULT_PAUSE_IMAGE@));
    if has_vip {
        base.push(fixed_component("kube-vip"@, "kube-vip"@, DEFAULT_KUBE_VIP_IMAGE@))
    } else {
        base
    }
}

fn add_component(v: &mut Vec<ComponentVersion>, c: ComponentVersion)
    ensures
        components_view(final(v)@) == components_view(old(v)@).push(c@),
{
    let ghost before = v@;
    v.push(c);
    assert(components_view(v@) =~= components_view(before).push(c@));
}

/// The versions that a cluster runs.
pub fn summarize(cluster: &ClusterVersionCtx<'_>, nodes: &Vec<NodeOut>) -> (r: Vec<ComponentVersion>)
    ensures
        components_view(r@) == components_of(
            cluster.k8s_version@,
            cluster.cni@,
            opt_str(cluster.catalog_os),
            cluster.has_vip,
            nodes@,
        ),
{
    let mut out: Vec<ComponentVersion> = Vec::new();
    assert(components_view(out@) =~= Seq::empty());
    add_component(
        &mut out,
        from_nodes(
            "kubernetes",
            "Kubernetes",
            nodes,
            VersionField::Kubernetes,
            Some(cluster.k8s_version),
        ),
    );
    add_component(
        &mut out,
        from_nodes("os", "OS", nodes, VersionField::Os, cluster.catalog_os),
    );
    add_component(&mut out, from_nodes("kernel", "Kernel", nodes, VersionField::Kernel, None));
    add_component(
        &mut out,
        from_nodes("containerd", "containerd", nodes, VersionField::Containerd, None),
    );
    let none: Vec<NodeComponentVersion> = Vec::new();
    assert(node_versions(none@) =~= Seq::empty());
    let shown = match nonempty(cluster.cni) {
        Some(c) => c,
        None => lit("—"),
    };
    add_component(
        &mut out,
        ComponentVersion {
            id: lit("cni"),
            name: lit("CNI"),
            version: shown,
            desired: None,
            source: lit("cluster"),
            mixed: false,
            nodes: none,
        },
    );
    add_component(&mut out, pinned("etcd", "etcd", DEFAULT_ETCD_IMAGE));
    add_component(&mut out, pinned("pause", "pause", DEFAULT_PAUSE_IMAGE));
    if cluster.has_vip {
        add_component(&mut out, pinned("kube-vip", "kube-vip", DEFAULT_KUBE_VIP_IMAGE));
    }
    out
}

proof fn lemma_distinct_covers(
    rows: Seq<(Seq<char>, Option<Seq<char>>)>,
    n: int,
    v: Seq<char>,
)
    requires
        0 <= n <= rows.len(),
        forall|i: int| 0 <= i < n && (#[trigger] rows[i]).1 is Some ==> rows[i].1->0 == v,
    ensures
        distinct(rows, n).len() <= 1,
        distinct(rows, n).len() == 1 ==> distinct(rows, n)[0] == v,
    decreases n,
{
    if n > 0 {
        lemma_distinct_covers(rows, n - 1, v);
        if rows[n - 1].1 is Some {
            let r = distinct(rows, n - 1);
            if r.len() == 1 {
                assert(r[0] == v);
                assert(r.contains(v));
            }
        }
    }
}

/// Where all nodes that report a version report the same one, versions are not
/// mixed.
pub proof fn law_uniform_versions_are_not_mixed(
    id: Seq<char>,
    name: Seq<char>,
    nodes: Seq<NodeOut>,
    f: VersionField,
    desired: Option<Seq<char>>,
    v: Seq<char>,
)
    requires
        forall|i: int|
            0 <= i < nodes.len() && unblank(version_at(#[trigger] nodes[i], f)) is Some
                ==> unblank(version_at(nodes[i], f))->0 == v,
    ensures
        !node_component(id, name, nodes, f, desired).mixed,
        node_component(id, name, nodes, f, desired).version == v || node_component(
            id,
            name,
            nodes,
            f,
            desired,
        ).version == "—"@,
{
    let rows = breakdown(nodes, f);
    assert forall|i: int| 0 <= i < rows.len() && (#[trigger] rows[i]).1 is Some implies rows[i].1->0
        == v by {
        assert(rows[i].1 == unblank(version_at(nodes[i], f)));
    }
    lemma_distinct_covers(rows, rows.len() as int, v);
}

/// Each component of a cluster is read of its own field: of one node that is its
/// version, with the one that is wanted beside it.
pub proof fn law_components_of_one_node(
    k8s_version: Seq<char>,
    cni: Seq<char>,
    catalog_os: Option<Seq<char>>,
    has_vip: bool,
    x: NodeOut,
    v: Seq<char>,
)
    requires
        trim(v).len() > 0,
    ensures
        ({
            let c = components_of(k8s_version, cni, catalog_os, has_vip, seq![x]);
            let says = |o: Option<String>| o is Some && o->0@ == v;
            &&& c.len() == (if has_vip {
                8int
            } else {
                7int
            })
            &&& c[0].id == "kubernetes"@ && c[1].id == "os"@ && c[2].id == "kernel"@ && c[3].id
                == "containerd"@ && c[4].id == "cni"@ && c[5].id == "etcd"@ && c[6].id == "pause"@
            &&& has_vip ==> c[7].id == "kube-vip"@
            &&& says(x.k8s_version) ==> c[0].version == trim(v)
            &&& says(x.os_version) ==> c[1].version == trim(v)
            &&& says(x.kernel_version) ==> c[2].version == trim(v)
            &&& says(x.container_runtime) ==> c[3].version == trim(v)
            &&& x.k8s_version is None ==> c[0].version == "—"@
            &&& !c[0].mixed && !c[1].mixed && !c[2].mixed && !c[3].mixed
            &&& trim(k8s_version).len() > 0 ==> c[0].desired == Some(trim(k8s_version))
            &&& catalog_os is Some && trim(catalog_os->0).len() > 0 ==> c[1].desired == Some(
                trim(catalog_os->0),
            )
            &&& catalog_os is None ==> c[1].desired is None
            &&& c[2].desired is None && c[3].desired is None
            &&& trim(cni).len() > 0 ==> c[4].version == trim(cni)
        }),
{
    let nodes = seq![x];
    reveal_with_fuel(distinct, 2);
    lemma_one(nodes, VersionField::Kubernetes);
    lemma_one(nodes, VersionField::Os);
    lemma_one(nodes, VersionField::Kernel);
    lemma_one(nodes, VersionField::Containerd);
}

proof fn lemma_one(nodes: Seq<NodeOut>, f: VersionField)
    requires
        nodes.len() == 1,
    ensures
        ({
            let found = distinct(breakdown(nodes, f), 1);
            match unblank(version_at(nodes[0], f)) {
                Some(v) => found == seq![v],
                None => found.len() == 0,
            }
        }),
{
    reveal_with_fuel(distinct, 2);
    let rows = breakdown(nodes, f);
    assert(distinct(rows, 0) =~= Seq::<Seq<char>>::empty());
    assert(rows[0].1 == unblank(version_at(nodes[0], f)));
    match unblank(version_at(nodes[0], f)) {
        Some(v) => {
            assert(distinct(rows, 1) =~= seq![v]);
        },
        None => {},
    }
}

/// Versions are mixed exactly where two nodes give different ones.
pub proof fn law_mixed_versions(
    id: Seq<char>,
    name: Seq<char>,
    nodes: Seq<NodeOut>,
    f: VersionField,
    i: int,
    j: int,
)
    requires
        0 <= i < nodes.len(),
        0 <= j < nodes.len(),
        unblank(version_at(nodes[i], f)) is Some,
        unblank(version_at(nodes[j], f)) is Some,
        unblank(version_at(nodes[i], f)) != unblank(version_at(nodes[j], f)),
    ensures
        node_component(id, name, nodes, f, None).mixed,
        node_component(id, name, nodes, f, None).version == "mixed"@,
        node_component(id, name, nodes, f, None).nodes.len() == nodes.len(),
        node_component(id, name, nodes, f, None).nodes[i] == (
            nodes[i].name@,
            unblank(version_at(nodes[i], f)),
        ),
{
    let rows = breakdown(nodes, f);
    let n = rows.len() as int;
    lemma_is_among(rows, n, i);
    lemma_is_among(rows, n, j);
    let found = distinct(rows, n);
    let p = choose|p: int| 0 <= p < found.len() && found[p] == rows[i].1->0;
    let q = choose|q: int| 0 <= q < found.len() && found[q] == rows[j].1->0;
    assert(p != q);
}

proof fn lemma_is_among(rows: Seq<(Seq<char>, Option<Seq<char>>)>, n: int, i: int)
    requires
        0 <= i < n <= rows.len(),
        rows[i].1 is Some,
    ensures
        distinct(rows, n).contains(rows[i].1->0),
    decreases n,
{
    let b = distinct(rows, n - 1);
    let r = distinct(rows, n);
    if i < n - 1 {
        lemma_is_among(rows, n - 1, i);
        let k = choose|k: int| 0 <= k < b.len() && b[k] == rows[i].1->0;
        assert(r[k] == b[k]);
    } else if !b.contains(rows[i].1->0) {
        assert(r[r.len() - 1] == rows[i].1->0);
    }
}

/// The version of an image is what stands behind its last colon.
pub proof fn law_tag_of_an_image(repo: Seq<char>, tag: Seq<char>)
    requires
        tag.len() > 0,
        !tag.contains(':'),
        !tag.contains('/'),
    ensures
        tag_of(repo + ":"@ + tag) == tag,
{
    reveal_strlit(":");
    let image = repo + ":"@ + tag;
    assert(image[repo.len() as int] == ':');
    assert forall|k: int| repo.len() < k < image.len() implies image[k] != ':' by {
        assert(image[k] == tag[k - repo.len() - 1]);
    }
    lemma_last_colon(image, image.len() as int, repo.len() as int);
    assert(image.subrange(repo.len() as int + 1, image.len() as int) =~= tag);
}

proof fn lemma_last_colon(s: Seq<char>, b: int, k: int)
    requires
        0 <= k < b <= s.len(),
        s[k] == ':',
        forall|i: int| k < i < b ==> s[i] != ':',
    ensures
        rpos(s, ':', b) == k,
    decreases b,
{
    if b - 1 > k {
        lemma_last_colon(s, b - 1, k);
    }
}

} // verus!
