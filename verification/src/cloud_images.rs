//! The catalog of prebuilt guest disks, `pertisk-cloud-{arch}*.qcow2`.
use crate::order::{lemma_less_irreflexive, lemma_less_total, lemma_less_transitive, less, str_less};
use crate::text::{
    cat, contains, ends_with, lit, lower, only, opt_text, starts_with, str_contains, str_ends,
    str_eq, str_eq_nocase, str_has_char, str_lower, str_only, str_starts, str_strip_prefix,
    str_strip_suffix, str_trim, strip_prefix, strip_suffix, texts, trim,
};
use vstd::prelude::*;
use vstd::string::*;

verus! {

#[derive(Debug, PartialEq, Eq)]
pub struct CloudImage {
    pub name: String,
    pub arch: String,
    pub size_bytes: u64,
    /// `base`, `50g` and the like in a name `pertisk-cloud-{arch}[-{role}].qcow2`.
    pub role: String,
    pub is_default: bool,
    pub created_at: Option<String>,
}

#[derive(Debug, PartialEq, Eq)]
pub struct Catalog {
    pub dir: String,
    pub images: Vec<CloudImage>,
    pub ready: Ready,
}

#[derive(Debug, Clone, Copy, PartialEq, Eq, Structural)]
pub struct Ready {
    pub amd64: bool,
    pub arm64: bool,
}

/// A file in the directory of images.
#[derive(Debug, PartialEq, Eq)]
pub struct ImageFile {
    pub name: String,
    pub size_bytes: u64,
    pub created_at: Option<String>,
}

/// The mathematical form of an image.
#[verifier::ext_equal]
pub ghost struct CloudImageV {
    pub name: Seq<char>,
    pub arch: Seq<char>,
    pub size_bytes: u64,
    pub role: Seq<char>,
    pub is_default: bool,
    pub created_at: Option<Seq<char>>,
}

impl View for CloudImage {
    type V = CloudImageV;

    open spec fn view(&self) -> CloudImageV {
        CloudImageV {
            name: self.name@,
            arch: self.arch@,
            size_bytes: self.size_bytes,
            role: self.role@,
            is_default: self.is_default,
            created_at: opt_text(self.created_at),
        }
    }
}

/// The name of the disk that an architecture uses by default.
pub open spec fn default_name(arch: Seq<char>) -> Seq<char> {
    "pertisk-cloud-"@ + arch + ".qcow2"@
}

fn default_image(arch: &str) -> (r: String)
    ensures
        r@ == default_name(arch@),
{
    lit("pertisk-cloud-").concat(arch).concat(".qcow2")
}

/// What to tell where no disk is there.
pub fn missing_message(arch: &str) -> (r: String)
    ensures
        r@ == "missing cloud image for arch="@ + arch@ + "; upload pertisk-cloud-"@ + arch@
            + ".qcow2 on Images (or copy it into the mgmt images directory)"@,
{
    lit("missing cloud image for arch=").concat(arch).concat("; upload pertisk-cloud-").concat(
        arch,
    ).concat(".qcow2 on Images (or copy it into the mgmt images directory)")
}

/// The architecture that a file name speaks of; amd64 where it names none.
pub open spec fn arch_in_name(name: Seq<char>) -> Seq<char> {
    let l = lower(name);
    if contains(l, "arm64"@) || contains(l, "aarch64"@) {
        "arm64"@
    } else {
        "amd64"@
    }
}

fn arch_of_name(name: &str) -> (r: String)
    ensures
        r@ == arch_in_name(name@),
{
    let l = str_lower(name);
    if str_contains(&l, "arm64") || str_contains(&l, "aarch64") {
        lit("arm64")
    } else {
        lit("amd64")
    }
}

/// The file is a disk: its name ends in `.qcow2` and is not hidden.
pub open spec fn is_disk(name: Seq<char>) -> bool {
    ends_with(lower(name), ".qcow2"@) && !starts_with(name, "."@)
}

/// The role of a disk: `base`, what follows the architecture, or `other`.
pub open spec fn role_in_name(name: Seq<char>, arch: Seq<char>) -> Seq<char> {
    let stem = match strip_suffix(name, ".qcow2"@) {
        Some(s) => s,
        None => match strip_suffix(name, ".QCOW2"@) {
            Some(s) => s,
            None => name,
        },
    };
    let prefix = "pertisk-cloud-"@ + arch;
    if lower(stem) == lower(prefix) {
        "base"@
    } else {
        match strip_prefix(lower(stem), prefix + "-"@) {
            Some(rest) => if rest.len() == 0 {
                "other"@
            } else {
                rest
            },
            None => "other"@,
        }
    }
}

pub fn role_from_name(name: &str, arch: &str) -> (r: String)
    ensures
        r@ == role_in_name(name@, arch@),
{
    let stem = match str_strip_suffix(name, ".qcow2") {
        Some(s) => s,
        None => match str_strip_suffix(name, ".QCOW2") {
            Some(s) => s,
            None => lit(name),
        },
    };
    let prefix = cat("pertisk-cloud-", arch);
    if str_eq_nocase(&stem, &prefix) {
        return lit("base");
    }
    match str_strip_prefix(&str_lower(&stem), &prefix.concat("-")) {
        Some(rest) => if rest.is_empty() {
            lit("other")
        } else {
            rest
        },
        None => lit("other"),
    }
}

/// The image in a file.
pub open spec fn image_in(f: ImageFile) -> CloudImageV {
    let arch = arch_in_name(f.name@);
    CloudImageV {
        name: f.name@,
        arch: arch,
        size_bytes: f.size_bytes,
        role: role_in_name(f.name@, arch),
        is_default: lower(f.name@) == lower(default_name(arch)),
        created_at: opt_text(f.created_at),
    }
}

fn image_of_file(f: &ImageFile) -> (r: CloudImage)
    ensures
        r@ == image_in(*f),
{
    let arch = arch_of_name(&f.name);
    let role = role_from_name(&f.name, &arch);
    let is_default = str_eq_nocase(&f.name, &default_image(&arch));
    CloudImage {
        name: lit(&f.name),
        arch,
        size_bytes: f.size_bytes,
        role,
        is_default,
        created_at: match &f.created_at {
            Some(t) => Some(lit(t)),
            None => None,
        },
    }
}

/// The images among the first `n` files.
pub open spec fn images_in(files: Seq<ImageFile>, n: int) -> Seq<CloudImageV>
    decreases n,
{
    if 0 < n <= files.len() {
        let r = images_in(files, n - 1);
        if is_disk(files[n - 1].name@) {
            r.push(image_in(files[n - 1]))
        } else {
            r
        }
    } else {
        Seq::empty()
    }
}

/// The forms of a list of images.
pub open spec fn images_view(v: Seq<CloudImage>) -> Seq<CloudImageV> {
    Seq::new(v.len(), |i: int| v[i]@)
}

/// By architecture, then by name.
pub open spec fn comes_before(a: CloudImageV, b: CloudImageV) -> bool {
    less(a.arch, b.arch) || (a.arch == b.arch && less(a.name, b.name))
}

/// No image stands behind one that it comes before.
pub open spec fn in_order(v: Seq<CloudImageV>) -> bool {
    forall|i: int, j: int| 0 <= i < j < v.len() ==> !comes_before(#[trigger] v[j], #[trigger] v[i])
}

fn image_before(a: &CloudImage, b: &CloudImage) -> (r: bool)
    ensures
        r == comes_before(a@, b@),
{
    str_less(&a.arch, &b.arch) || (str_eq(&a.arch, &b.arch) && str_less(&a.name, &b.name))
}

proof fn lemma_order_transitive(a: CloudImageV, b: CloudImageV, c: CloudImageV)
    requires
        !comes_before(b, a),
        !comes_before(c, b),
    ensures
        !comes_before(c, a),
{
    if comes_before(c, a) {
        lemma_less_total(a.arch, b.arch);
        lemma_less_total(b.arch, c.arch);
        lemma_less_total(a.name, b.name);
        lemma_less_total(b.name, c.name);
        lemma_less_irreflexive(a.arch);
        lemma_less_irreflexive(a.name);
        if less(a.arch, b.arch) {
            if less(b.arch, c.arch) {
                lemma_less_transitive(a.arch, b.arch, c.arch);
                if less(c.arch, a.arch) {
                    lemma_less_transitive(a.arch, c.arch, a.arch);
                }
            } else {
                if less(c.arch, a.arch) {
                    lemma_less_transitive(a.arch, c.arch, a.arch);
                }
            }
        } else {
            assert(a.arch == b.arch);
            if less(b.arch, c.arch) {
                if less(c.arch, a.arch) {
                    lemma_less_transitive(a.arch, c.arch, a.arch);
                }
            } else {
                assert(b.arch == c.arch);
                if less(a.name, b.name) && less(b.name, c.name) {
                    lemma_less_transitive(a.name, b.name, c.name);
                }
                if less(c.name, a.name) {
                    lemma_less_transitive(a.name, c.name, a.name);
                }
            }
        }
    }
}

/// Puts an image in its place.
fn insert_image(v: &mut Vec<CloudImage>, x: CloudImage)
    requires
        in_order(images_view(old(v)@)),
    ensures
        in_order(images_view(final(v)@)),
        images_view(final(v)@).to_multiset() == images_view(old(v)@).to_multiset().insert(x@),
{
    let ghost s = images_view(v@);
    let mut k: usize = v.len();
    while k > 0 && image_before(&x, &v[k - 1])
        invariant
            k <= v.len(),
            s == images_view(v@),
            forall|j: int| k <= j < s.len() ==> comes_before(x@, #[trigger] s[j]),
        decreases k,
    {
        assert(s[k - 1] == v@[k - 1]@);
        k -= 1;
    }
    proof {
        if k > 0 {
            assert(s[k - 1] == v@[k - 1]@);
        }
    }
    v.insert(k, x);
    proof {
        let t = images_view(v@);
        assert(t =~= s.insert(k as int, x@));
        t.to_multiset_ensures();
        assert(t.remove(k as int) =~= s);
        assert(t[k as int] == x@);
        assert(t.contains(x@));
        assert(t.to_multiset() =~= s.to_multiset().insert(x@));
        assert forall|i: int, j: int| 0 <= i < j < t.len() implies !comes_before(
            #[trigger] t[j],
            #[trigger] t[i],
        ) by {
            let a = t[i];
            let b = t[j];
            if i == k {
                assert(b == s[j - 1]);
                assert(comes_before(x@, s[j - 1]));
                lemma_order_antisymmetric(x@, s[j - 1]);
            } else if j == k {
                assert(a == s[i]);
                if i < k - 1 {
                    assert(!comes_before(s[k - 1], s[i]));
                    lemma_order_transitive(s[i], s[k - 1], x@);
                }
            } else {
                let i0 = if i < k {
                    i
                } else {
                    i - 1
                };
                let j0 = if j < k {
                    j
                } else {
                    j - 1
                };
                assert(a == s[i0] && b == s[j0]);
            }
        }
    }
}

proof fn lemma_order_antisymmetric(a: CloudImageV, b: CloudImageV)
    requires
        comes_before(a, b),
    ensures
        !comes_before(b, a),
{
    lemma_less_irreflexive(a.arch);
    lemma_less_irreflexive(a.name);
    if less(a.arch, b.arch) && less(b.arch, a.arch) {
        lemma_less_transitive(a.arch, b.arch, a.arch);
    }
    if less(a.name, b.name) && less(b.name, a.name) {
        lemma_less_transitive(a.name, b.name, a.name);
    }
}

/// The file can serve an architecture.
pub open spec fn serves(name: Seq<char>, arch: Seq<char>) -> bool {
    starts_with(lower(name), "pertisk-cloud-"@ + arch) && ends_with(lower(name), ".qcow2"@)
}

/// The file that an architecture uses: the default disk, else the first by name
/// that can serve it.
pub open spec fn is_choice(names: Seq<Seq<char>>, arch: Seq<char>, choice: Option<Seq<char>>) -> bool {
    if names.contains(default_name(arch)) {
        choice == Some(default_name(arch))
    } else {
        match choice {
            Some(c) => {
                &&& names.contains(c)
                &&& serves(c, arch)
                &&& forall|i: int|
                    0 <= i < names.len() && serves(#[trigger] names[i], arch) ==> !less(names[i], c)
            },
            None => forall|i: int| 0 <= i < names.len() ==> !serves(#[trigger] names[i], arch),
        }
    }
}

/// The file that an architecture uses, among the names in the directory.
pub fn find_for_arch(names: &Vec<String>, arch: &str) -> (r: Option<String>)
    ensures
        is_choice(texts(names@), arch@, opt_text(r)),
{
    let want = default_image(arch);
    let prefix = cat("pertisk-cloud-", arch);
    let ghost s = texts(names@);
    let mut best: Option<usize> = None;
    let mut i: usize = 0;
    while i < names.len()
        invariant
            i <= names.len(),
            s == texts(names@),
            want@ == default_name(arch@),
            prefix@ == "pertisk-cloud-"@ + arch@,
            forall|k: int| 0 <= k < i ==> #[trigger] s[k] != want@,
            match best {
                Some(b) => {
                    &&& b < i
                    &&& serves(s[b as int], arch@)
                    &&& forall|k: int|
                        0 <= k < i && serves(#[trigger] s[k], arch@) ==> !less(s[k], s[b as int])
                },
                None => forall|k: int| 0 <= k < i ==> !serves(#[trigger] s[k], arch@),
            },
        decreases names.len() - i,
    {
        assert(s[i as int] == names@[i as int]@);
        if str_eq(&names[i], &want) {
            assert(s.contains(want@));
            return Some(want);
        }
        let l = str_lower(&names[i]);
        if str_starts(&l, &prefix) && str_ends(&l, ".qcow2") {
            match best {
                Some(b) => {
                    assert(s[b as int] == names@[b as int]@);
                    if str_less(&names[i], &names[b]) {
                        proof {
                            lemma_less_irreflexive(s[i as int]);
                            assert forall|k: int| 0 <= k < i + 1 && serves(
                                #[trigger] s[k],
                                arch@,
                            ) implies !less(s[k], s[i as int]) by {
                                if k < i && less(s[k], s[i as int]) {
                                    lemma_less_transitive(s[k], s[i as int], s[b as int]);
                                }
                            }
                        }
                        best = Some(i);
                    }
                },
                None => {
                    proof {
                        lemma_less_irreflexive(s[i as int]);
                    }
                    best = Some(i);
                },
            }
        }
        i += 1;
    }
    match best {
        Some(b) => {
            assert(s[b as int] == names@[b as int]@);
            Some(lit(&names[b]))
        },
        None => None,
    }
}

/// The names of files.
pub open spec fn file_names(files: Seq<ImageFile>) -> Seq<Seq<char>> {
    Seq::new(files.len(), |i: int| files[i].name@)
}

fn names_of(files: &Vec<ImageFile>) -> (r: Vec<String>)
    ensures
        texts(r@) == file_names(files@),
{
    let mut out: Vec<String> = Vec::new();
    let mut i: usize = 0;
    while i < files.len()
        invariant
            i <= files.len(),
            out.len() == i,
            forall|k: int| 0 <= k < i ==> (#[trigger] out@[k])@ == files@[k].name@,
        decreases files.len() - i,
    {
        out.push(lit(&files[i].name));
        i += 1;
    }
    assert(texts(out@) =~= file_names(files@));
    out
}

/// The catalog of a directory: its disks by architecture and name, and which
/// architectures have one.
pub fn list(dir: &str, files: &Vec<ImageFile>) -> (r: Catalog)
    ensures
        r.dir@ == dir@,
        in_order(images_view(r.images@)),
        images_view(r.images@).to_multiset() == images_in(
            files@,
            files@.len() as int,
        ).to_multiset(),
        r.ready.amd64 == !is_choice(file_names(files@), "amd64"@, None),
        r.ready.arm64 == !is_choice(file_names(files@), "arm64"@, None),
{
    let mut images: Vec<CloudImage> = Vec::new();
    assert(images_view(images@) =~= Seq::empty());
    let mut i: usize = 0;
    while i < files.len()
        invariant
            i <= files.len(),
            in_order(images_view(images@)),
            images_view(images@).to_multiset() == images_in(files@, i as int).to_multiset(),
        decreases files.len() - i,
    {
        let f = &files[i];
        if str_ends(&str_lower(&f.name), ".qcow2") && !str_starts(&f.name, ".") {
            let ghost before = images_in(files@, i as int);
            insert_image(&mut images, image_of_file(f));
            proof {
                before.to_multiset_ensures();
            }
        }
        i += 1;
    }
    let names = names_of(files);
    let amd64 = find_for_arch(&names, "amd64").is_some();
    let arm64 = find_for_arch(&names, "arm64").is_some();
    proof {
        lemma_choice_exists(file_names(files@), "amd64"@);
        lemma_choice_exists(file_names(files@), "arm64"@);
    }
    Catalog { dir: lit(dir), images, ready: Ready { amd64, arm64 } }
}

/// Nothing is chosen only where something cannot be.
proof fn lemma_choice_exists(names: Seq<Seq<char>>, arch: Seq<char>)
    ensures
        forall|c: Seq<char>|
            #[trigger] is_choice(names, arch, Some(c)) ==> !is_choice(names, arch, None),
{
    assert forall|c: Seq<char>| #[trigger] is_choice(names, arch, Some(c)) implies !is_choice(
        names,
        arch,
        None,
    ) by {
        if !names.contains(default_name(arch)) {
            let k = choose|k: int| 0 <= k < names.len() && names[k] == c;
            assert(serves(names[k], arch));
        }
    }
}

/// Why a file name cannot be that of an image.
pub open spec fn name_fault(name: Seq<char>) -> Option<Seq<char>> {
    let base = trim(name);
    if contains(name, ".."@) || name.contains('/') || name.contains('\\') {
        Some("invalid image filename"@)
    } else if base.len() == 0 || starts_with(base, "."@) {
        Some("invalid image filename"@)
    } else if !ends_with(lower(base), ".qcow2"@) {
        Some("file must be a .qcow2 image"@)
    } else if !only(base, ".-_"@) {
        Some("filename must be alphanumeric with . _ -"@)
    } else {
        None
    }
}

/// The trimmed name of an uploaded image; a name with a path is refused.
pub fn sanitize_filename(name: &str) -> (r: Result<String, String>)
    ensures
        match r {
            Ok(s) => name_fault(name@) is None && s@ == trim(name@),
            Err(e) => name_fault(name@) == Some(e@),
        },
{
    if str_contains(name, "..") || str_has_char(name, '/') || str_has_char(name, '\\') {
        return Err(lit("invalid image filename"));
    }
    let base = str_trim(name);
    if base.is_empty() || str_starts(&base, ".") {
        return Err(lit("invalid image filename"));
    }
    if !str_ends(&str_lower(&base), ".qcow2") {
        return Err(lit("file must be a .qcow2 image"));
    }
    if !str_only(&base, ".-_") {
        return Err(lit("filename must be alphanumeric with . _ -"));
    }
    Ok(base)
}

/// Keeps a name `pertisk-cloud-*.qcow2`; any other image becomes the default
/// disk of the architecture.
pub fn dest_name(original: &str, arch: &str) -> (r: String)
    ensures
        r@ == (if starts_with(lower(original@), "pertisk-cloud-"@) && ends_with(
            lower(original@),
            ".qcow2"@,
        ) {
            original@
        } else {
            default_name(arch@)
        }),
{
    let l = str_lower(original);
    if str_starts(&l, "pertisk-cloud-") && str_ends(&l, ".qcow2") {
        lit(original)
    } else {
        default_image(arch)
    }
}

/// Checks the first bytes of an image.
pub fn verify_qcow2(head: &[u8]) -> (r: Result<(), String>)
    ensures
        match r {
            Ok(_) => head@.len() >= 4 && head@.take(4) == seq![0x51u8, 0x46, 0x49, 0xfb],
            Err(e) => if head@.len() < 4 {
                e@ == "image is too small to be qcow2"@
            } else {
                &&& head@.take(4) != seq![0x51u8, 0x46, 0x49, 0xfb]
                &&& e@ == "file is not a qcow2 image (missing QFI magic)"@
            },
        },
{
    if head.len() < 4 {
        return Err(lit("image is too small to be qcow2"));
    }
    let ghost magic = seq![0x51u8, 0x46, 0x49, 0xfb];
    if head[0] == 0x51 && head[1] == 0x46 && head[2] == 0x49 && head[3] == 0xfb {
        assert(head@.take(4) =~= magic);
        Ok(())
    } else {
        proof {
            if head@.take(4) == magic {
                assert(head@.take(4)[0] == head@[0] && head@.take(4)[1] == head@[1]);
                assert(head@.take(4)[2] == head@[2] && head@.take(4)[3] == head@[3]);
            }
        }
        Err(lit("file is not a qcow2 image (missing QFI magic)"))
    }
}

/// An image is for the arm family exactly where its name says so, and it is listed
/// exactly where it is a disk that is not hidden.
pub proof fn law_images_that_are_listed(files: Seq<ImageFile>, n: int, k: int)
    requires
        0 <= n <= files.len(),
    ensures
        0 <= k < n && ends_with(lower(files[k].name@), ".qcow2"@) && !starts_with(
            files[k].name@,
            "."@,
        ) ==> images_in(files, n).contains(image_in(files[k])),
        0 <= k < images_in(files, n).len() ==> exists|i: int|
            0 <= i < n && images_in(files, n)[k] == image_in(#[trigger] files[i]) && ends_with(
                lower(files[i].name@),
                ".qcow2"@,
            ) && !starts_with(files[i].name@, "."@),
    decreases n,
{
    if n > 0 {
        law_images_that_are_listed(files, n - 1, k);
        let b = images_in(files, n - 1);
        let r = images_in(files, n);
        if is_disk(files[n - 1].name@) {
            assert(r[r.len() - 1] == image_in(files[n - 1]));
        }
        if 0 <= k < n - 1 && b.contains(image_in(files[k])) {
            let i = choose|i: int| 0 <= i < b.len() && b[i] == image_in(files[k]);
            assert(r[i] == image_in(files[k]));
        }
        if 0 <= k < r.len() {
            if k < b.len() {
                assert(r[k] == b[k]);
            } else {
                assert(is_disk(files[n - 1].name@));
            }
        }
    }
}

/// What is listed of an image: its name, size and time as they are, its family,
/// and whether it is the one that is taken by default.
pub proof fn law_image_is_shown(f: ImageFile)
    ensures
        ({
            let m = image_in(f);
            let arm = contains(lower(f.name@), "arm64"@) || contains(lower(f.name@), "aarch64"@);
            &&& m.name == f.name@ && m.size_bytes == f.size_bytes
            &&& m.arch == "arm64"@ <==> arm
            &&& m.arch == "amd64"@ <==> !arm
            &&& arm ==> (m.is_default <==> lower(f.name@) == lower(
                "pertisk-cloud-"@ + "arm64"@ + ".qcow2"@,
            ))
            &&& !arm ==> (m.is_default <==> lower(f.name@) == lower(
                "pertisk-cloud-"@ + "amd64"@ + ".qcow2"@,
            ))
        }),
{
    reveal_strlit("arm64");
    reveal_strlit("amd64");
    assert("arm64"@.len() == 5);
    assert("amd64"@.len() == 5);
    assert("arm64"@[1] == 'r' && "amd64"@[1] == 'm');
}

/// A name is accepted exactly where it is one of a disk image, of plain characters
/// and without a path.
pub proof fn law_accepted_image_names(name: Seq<char>)
    ensures
        name_fault(name) is None <==> {
            &&& !contains(name, ".."@) && !name.contains('/') && !name.contains('\\')
            &&& trim(name).len() > 0 && !starts_with(trim(name), "."@)
            &&& ends_with(lower(trim(name)), ".qcow2"@)
            &&& only(trim(name), ".-_"@)
        },
        contains(name, ".."@) || name.contains('/') ==> name_fault(name) == Some(
            "invalid image filename"@,
        ),
{
}

} // verus!
