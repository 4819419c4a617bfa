//! JSON documents as plain values.
//!
//! Documents that come from `kubectl`, from the database and from API callers
//! are read through this type, and the documents that the library hands out are
//! built in it.
use crate::text::{lit, opt_text, str_eq, texts};
use vstd::prelude::*;
use vstd::string::*;

verus! {

/// A JSON document.
#[derive(Debug, PartialEq, Eq)]
pub enum Json {
    Null,
    Bool(bool),
    /// An integer that fits `i64`.
    Int(i64),
    /// An integer above `i64::MAX`, and the decimal text of the nearest
    /// floating-point number; no text where the number was computed here.
    Big(u64, String),
    /// Any other number: the decimal text of its floating-point value.
    Real(String),
    Str(String),
    Arr(Vec<Json>),
    Obj(Vec<(String, Json)>),
}

/// The mathematical form of a document.
#[verifier::ext_equal]
pub enum JsonV {
    Null,
    Bool(bool),
    Int(int),
    Big(nat, Seq<char>),
    Real(Seq<char>),
    Str(Seq<char>),
    Arr(Seq<JsonV>),
    /// Members in order; the first member of a name counts.
    Obj(Seq<(Seq<char>, JsonV)>),
}

/// The forms of the elements of an array.
pub open spec fn arr_view(s: Seq<Json>) -> Seq<JsonV>
    decreases s,
{
    Seq::new(
        s.len(),
        |i: int|
            if 0 <= i < s.len() {
                s[i].view()
            } else {
                JsonV::Null
            },
    )
}

/// The forms of the members of an object.
pub open spec fn obj_view(s: Seq<(String, Json)>) -> Seq<(Seq<char>, JsonV)>
    decreases s,
{
    Seq::new(
        s.len(),
        |i: int|
            if 0 <= i < s.len() {
                (s[i].0@, s[i].1.view())
            } else {
                (Seq::empty(), JsonV::Null)
            },
    )
}

impl Json {
    pub open spec fn view(self) -> JsonV
        decreases self,
    {
        match self {
            Json::Null => JsonV::Null,
            Json::Bool(b) => JsonV::Bool(b),
            Json::Int(n) => JsonV::Int(n as int),
            Json::Big(n, t) => JsonV::Big(n as nat, t@),
            Json::Real(t) => JsonV::Real(t@),
            Json::Str(s) => JsonV::Str(s@),
            Json::Arr(v) => JsonV::Arr(arr_view(v@)),
            Json::Obj(v) => JsonV::Obj(obj_view(v@)),
        }
    }
}

/// An array has the forms of its elements, one for one.
pub proof fn lemma_arr_view(s: Seq<Json>)
    ensures
        arr_view(s).len() == s.len(),
        forall|i: int| 0 <= i < s.len() ==> #[trigger] arr_view(s)[i] == s[i].view(),
{
}

/// The value of the first member at or after `i` with the name `k`.
pub open spec fn member_from(s: Seq<(Seq<char>, JsonV)>, k: Seq<char>, i: int) -> Option<JsonV>
    decreases s.len() - i,
{
    if 0 <= i < s.len() {
        if s[i].0 == k {
            Some(s[i].1)
        } else {
            member_from(s, k, i + 1)
        }
    } else {
        None
    }
}

impl JsonV {
    /// The member `k` of an object.
    pub open spec fn get(self, k: Seq<char>) -> Option<JsonV> {
        match self {
            JsonV::Obj(s) => member_from(s, k, 0),
            _ => None,
        }
    }

    /// The member `k2` of the member `k1`.
    pub open spec fn get2(self, k1: Seq<char>, k2: Seq<char>) -> Option<JsonV> {
        match self.get(k1) {
            Some(j) => j.get(k2),
            None => None,
        }
    }

    pub open spec fn get3(self, k1: Seq<char>, k2: Seq<char>, k3: Seq<char>) -> Option<JsonV> {
        match self.get2(k1, k2) {
            Some(j) => j.get(k3),
            None => None,
        }
    }

    /// The element `i` of an array.
    pub open spec fn at(self, i: int) -> Option<JsonV> {
        match self {
            JsonV::Arr(s) => if 0 <= i < s.len() {
                Some(s[i])
            } else {
                None
            },
            _ => None,
        }
    }

    pub open spec fn as_str(self) -> Option<Seq<char>> {
        match self {
            JsonV::Str(s) => Some(s),
            _ => None,
        }
    }

    pub open spec fn as_bool(self) -> Option<bool> {
        match self {
            JsonV::Bool(b) => Some(b),
            _ => None,
        }
    }

    pub open spec fn as_int(self) -> Option<int> {
        match self {
            JsonV::Int(n) => Some(n),
            _ => None,
        }
    }

    pub open spec fn as_nat(self) -> Option<nat> {
        match self {
            JsonV::Int(n) => if n >= 0 {
                Some(n as nat)
            } else {
                None
            },
            JsonV::Big(n, _) => Some(n),
            _ => None,
        }
    }

    pub open spec fn as_arr(self) -> Option<Seq<JsonV>> {
        match self {
            JsonV::Arr(s) => Some(s),
            _ => None,
        }
    }

    /// The document with one more member.
    pub open spec fn with(self, k: Seq<char>, v: JsonV) -> JsonV {
        match self {
            JsonV::Obj(s) => JsonV::Obj(s.push((k, v))),
            _ => JsonV::Obj(seq![(k, v)]),
        }
    }
}

/// The index of the first member at or after `i` with the name `k`, the number
/// of members where there is none.
pub open spec fn member_index(s: Seq<(Seq<char>, JsonV)>, k: Seq<char>, i: int) -> int
    decreases s.len() - i,
{
    if 0 <= i < s.len() && s[i].0 != k {
        member_index(s, k, i + 1)
    } else {
        i
    }
}

impl JsonV {
    /// The object with the value `v` under the name `k`, in the place of an
    /// older value where there is one. `null` counts as the empty object; any
    /// other document stays.
    pub open spec fn put(self, k: Seq<char>, v: JsonV) -> JsonV {
        match self {
            JsonV::Obj(s) => {
                let i = member_index(s, k, 0);
                if i < s.len() {
                    JsonV::Obj(s.update(i, (k, v)))
                } else {
                    JsonV::Obj(s.push((k, v)))
                }
            },
            JsonV::Null => JsonV::Obj(seq![(k, v)]),
            _ => self,
        }
    }

    /// The object without its member `k`.
    pub open spec fn without(self, k: Seq<char>) -> JsonV {
        match self {
            JsonV::Obj(s) => {
                let i = member_index(s, k, 0);
                if i < s.len() {
                    JsonV::Obj(s.remove(i))
                } else {
                    self
                }
            },
            _ => self,
        }
    }
}

/// The empty object.
pub open spec fn jobj() -> JsonV {
    JsonV::Obj(Seq::empty())
}

/// The text of an optional document that is a string.
pub open spec fn str_in(o: Option<JsonV>) -> Option<Seq<char>> {
    match o {
        Some(j) => j.as_str(),
        None => None,
    }
}

pub open spec fn nat_in(o: Option<JsonV>) -> Option<nat> {
    match o {
        Some(j) => j.as_nat(),
        None => None,
    }
}

pub open spec fn bool_in(o: Option<JsonV>) -> Option<bool> {
    match o {
        Some(j) => j.as_bool(),
        None => None,
    }
}

/// The elements of an optional document, none where it is no array.
pub open spec fn items_in(o: Option<JsonV>) -> Seq<JsonV> {
    match o {
        Some(JsonV::Arr(s)) => s,
        _ => Seq::empty(),
    }
}

/// A number that was counted.
pub open spec fn count_json(n: nat) -> JsonV {
    if n <= i64::MAX {
        JsonV::Int(n as int)
    } else {
        JsonV::Big(n, Seq::empty())
    }
}

/// A string value, `null` where there is none.
pub open spec fn opt_str_json(o: Option<Seq<char>>) -> JsonV {
    match o {
        Some(s) => JsonV::Str(s),
        None => JsonV::Null,
    }
}

/// An array of strings.
pub open spec fn str_arr(v: Seq<Seq<char>>) -> JsonV {
    JsonV::Arr(Seq::new(v.len(), |i: int| JsonV::Str(v[i])))
}

/// The form of an optional document.
pub open spec fn opt_view(o: Option<&Json>) -> Option<JsonV> {
    match o {
        Some(j) => Some(j.view()),
        None => None,
    }
}

fn find_member(m: &Vec<(String, Json)>, k: &str) -> (r: usize)
    ensures
        r == member_index(obj_view(m@), k@, 0),
        r <= m.len(),
{
    let ghost s = obj_view(m@);
    let mut i: usize = 0;
    while i < m.len()
        invariant
            i <= m.len(),
            s == obj_view(m@),
            member_index(s, k@, 0) == member_index(s, k@, i as int),
        decreases m.len() - i,
    {
        assert(s[i as int] == (m@[i as int].0@, m@[i as int].1@));
        if str_eq(&m[i].0, k) {
            return i;
        }
        i += 1;
    }
    i
}

impl Json {
    /// The empty object.
    pub fn object() -> (r: Json)
        ensures
            r@ == jobj(),
    {
        let v: Vec<(String, Json)> = Vec::new();
        assert(obj_view(v@) =~= Seq::empty());
        Json::Obj(v)
    }

    /// A number that was counted.
    pub fn count(n: u64) -> (r: Json)
        ensures
            r@ == count_json(n as nat),
    {
        if n <= i64::MAX as u64 {
            Json::Int(n as i64)
        } else {
            Json::Big(n, String::new())
        }
    }

    pub fn text(s: &str) -> (r: Json)
        ensures
            r@ == JsonV::Str(s@),
    {
        Json::Str(lit(s))
    }

    /// A string, `null` where there is none.
    pub fn opt_text(s: &Option<String>) -> (r: Json)
        ensures
            r@ == opt_str_json(opt_text(*s)),
    {
        match s {
            Some(t) => Json::Str(lit(t)),
            None => Json::Null,
        }
    }

    /// An array of strings.
    pub fn text_array(v: &Vec<String>) -> (r: Json)
        ensures
            r@ == str_arr(texts(v@)),
    {
        let mut out: Vec<Json> = Vec::new();
        let mut i: usize = 0;
        while i < v.len()
            invariant
                i <= v.len(),
                out.len() == i,
                forall|k: int| 0 <= k < i ==> #[trigger] out@[k].view() == JsonV::Str(v@[k]@),
            decreases v.len() - i,
        {
            out.push(Json::text(&v[i]));
            i += 1;
        }
        proof {
            lemma_arr_view(out@);
            let want = Seq::new(texts(v@).len(), |i: int| JsonV::Str(texts(v@)[i]));
            assert forall|k: int| 0 <= k < v.len() implies arr_view(out@)[k] == want[k] by {
                assert(out@[k].view() == JsonV::Str(v@[k]@));
            }
            assert(arr_view(out@) =~= want);
        }
        Json::Arr(out)
    }

    /// An array of one element.
    pub fn singleton(x: Json) -> (r: Json)
        ensures
            r@ == JsonV::Arr(seq![x@]),
    {
        let mut v: Vec<Json> = Vec::new();
        v.push(x);
        assert(arr_view(v@) =~= seq![x@]);
        Json::Arr(v)
    }

    /// An array of two elements.
    pub fn pair(x: Json, y: Json) -> (r: Json)
        ensures
            r@ == JsonV::Arr(seq![x@, y@]),
    {
        let mut v: Vec<Json> = Vec::new();
        v.push(x);
        v.push(y);
        assert(arr_view(v@) =~= seq![x@, y@]);
        Json::Arr(v)
    }

    /// The empty array.
    pub fn no_items() -> (r: Json)
        ensures
            r@ == JsonV::Arr(Seq::empty()),
    {
        let v: Vec<Json> = Vec::new();
        assert(arr_view(v@) =~= Seq::empty());
        Json::Arr(v)
    }

    /// An array.
    pub fn array(v: Vec<Json>) -> (r: Json)
        ensures
            r@ == JsonV::Arr(arr_view(v@)),
    {
        Json::Arr(v)
    }

    /// The document with one more member.
    pub fn with(self, k: &str, v: Json) -> (r: Json)
        ensures
            r@ == self@.with(k@, v@),
    {
        match self {
            Json::Obj(m) => {
                let ghost before = m@;
                let mut m = m;
                m.push((lit(k), v));
                assert(obj_view(m@) =~= obj_view(before).push((k@, v@)));
                Json::Obj(m)
            },
            _ => {
                let mut m: Vec<(String, Json)> = Vec::new();
                m.push((lit(k), v));
                assert(obj_view(m@) =~= seq![(k@, v@)]);
                Json::Obj(m)
            },
        }
    }

    /// The object with the value `v` under the name `k`.
    pub fn put(self, k: &str, v: Json) -> (r: Json)
        ensures
            r@ == self@.put(k@, v@),
    {
        match self {
            Json::Obj(m) => {
                let ghost before = m@;
                let mut m = m;
                let i = find_member(&m, k);
                if i < m.len() {
                    m.set(i, (lit(k), v));
                    assert(obj_view(m@) =~= obj_view(before).update(i as int, (k@, v@)));
                } else {
                    m.push((lit(k), v));
                    assert(obj_view(m@) =~= obj_view(before).push((k@, v@)));
                }
                Json::Obj(m)
            },
            Json::Null => {
                let mut m: Vec<(String, Json)> = Vec::new();
                m.push((lit(k), v));
                assert(obj_view(m@) =~= seq![(k@, v@)]);
                Json::Obj(m)
            },
            other => other,
        }
    }

    /// The object without its member `k`.
    pub fn without(self, k: &str) -> (r: Json)
        ensures
            r@ == self@.without(k@),
    {
        match self {
            Json::Obj(m) => {
                let ghost before = m@;
                let mut m = m;
                let i = find_member(&m, k);
                if i < m.len() {
                    m.remove(i);
                    assert(obj_view(m@) =~= obj_view(before).remove(i as int));
                }
                Json::Obj(m)
            },
            other => other,
        }
    }

    /// The member `k` of an object.
    pub fn get(&self, k: &str) -> (r: Option<&Json>)
        ensures
            opt_view(r) == self@.get(k@),
    {
        match self {
            Json::Obj(m) => {
                let ghost s = obj_view(m@);
                let mut i: usize = 0;
                while i < m.len()
                    invariant
                        *self == Json::Obj(*m),
                        i <= m.len(),
                        s == obj_view(m@),
                        member_from(s, k@, 0) == member_from(s, k@, i as int),
                    decreases m.len() - i,
                {
                    assert(s[i as int] == (m@[i as int].0@, m@[i as int].1@));
                    if str_eq(&m[i].0, k) {
                        return Some(&m[i].1);
                    }
                    i += 1;
                }
                None
            },
            _ => None,
        }
    }

    pub fn get2(&self, k1: &str, k2: &str) -> (r: Option<&Json>)
        ensures
            opt_view(r) == self@.get2(k1@, k2@),
    {
        match self.get(k1) {
            Some(j) => j.get(k2),
            None => None,
        }
    }

    pub fn get3(&self, k1: &str, k2: &str, k3: &str) -> (r: Option<&Json>)
        ensures
            opt_view(r) == self@.get3(k1@, k2@, k3@),
    {
        match self.get2(k1, k2) {
            Some(j) => j.get(k3),
            None => None,
        }
    }

    pub fn as_str(&self) -> (r: Option<String>)
        ensures
            opt_text(r) == self@.as_str(),
    {
        match self {
            Json::Str(s) => Some(lit(s)),
            _ => None,
        }
    }

    pub fn as_bool(&self) -> (r: Option<bool>)
        ensures
            r == self@.as_bool(),
    {
        match self {
            Json::Bool(b) => Some(*b),
            _ => None,
        }
    }

    pub fn as_i64(&self) -> (r: Option<i64>)
        ensures
            match r {
                Some(n) => self@.as_int() == Some(n as int),
                None => self@.as_int() is None,
            },
    {
        match self {
            Json::Int(n) => Some(*n),
            _ => None,
        }
    }

    pub fn as_u64(&self) -> (r: Option<u64>)
        ensures
            match r {
                Some(n) => self@.as_nat() == Some(n as nat),
                None => self@.as_nat() is None,
            },
    {
        match self {
            Json::Int(n) => if *n >= 0 {
                Some(*n as u64)
            } else {
                None
            },
            Json::Big(n, _) => Some(*n),
            _ => None,
        }
    }

    /// A deep copy.
    pub fn dup(&self) -> (r: Json)
        ensures
            r@ == self@,
        decreases self,
    {
        match self {
            Json::Null => Json::Null,
            Json::Bool(b) => Json::Bool(*b),
            Json::Int(n) => Json::Int(*n),
            Json::Big(n, t) => Json::Big(*n, lit(t)),
            Json::Real(t) => Json::Real(lit(t)),
            Json::Str(s) => Json::Str(lit(s)),
            Json::Arr(v) => {
                let mut out: Vec<Json> = Vec::new();
                let mut i: usize = 0;
                while i < v.len()
                    invariant
                        *self == Json::Arr(*v),
                        i <= v.len(),
                        out.len() == i,
                        forall|k: int| 0 <= k < i ==> #[trigger] out@[k].view() == v@[k].view(),
                    decreases v.len() - i,
                {
                    assert(decreases_to!(self => self->Arr_0));
                    assert(decreases_to!(*v => v@));
                    assert(decreases_to!(v@ => v@[i as int]));
                    let x = v[i].dup();
                    out.push(x);
                    i += 1;
                }
                proof {
                    lemma_arr_view(out@);
                    lemma_arr_view(v@);
                    assert forall|k: int| 0 <= k < v.len() implies arr_view(out@)[k] == arr_view(
                        v@,
                    )[k] by {
                        assert(out@[k].view() == v@[k].view());
                    }
                    assert(arr_view(out@) =~= arr_view(v@));
                }
                Json::Arr(out)
            },
            Json::Obj(m) => {
                let mut out: Vec<(String, Json)> = Vec::new();
                let mut i: usize = 0;
                while i < m.len()
                    invariant
                        *self == Json::Obj(*m),
                        i <= m.len(),
                        out.len() == i,
                        forall|k: int|
                            0 <= k < i ==> (#[trigger] out@[k]).0@ == m@[k].0@ && out@[k].1.view()
                                == m@[k].1.view(),
                    decreases m.len() - i,
                {
                    assert(decreases_to!(self => self->Obj_0));
                    assert(decreases_to!(*m => m@));
                    assert(decreases_to!(m@ => m@[i as int]));
                    assert(decreases_to!(m@[i as int] => m@[i as int].1));
                    let x = m[i].1.dup();
                    out.push((lit(&m[i].0), x));
                    i += 1;
                }
                assert(obj_view(out@) =~= obj_view(m@));
                Json::Obj(out)
            },
        }
    }
}

/// The text of an optional document that is a string.
pub fn str_of(o: Option<&Json>) -> (r: Option<String>)
    ensures
        opt_text(r) == str_in(opt_view(o)),
{
    match o {
        Some(j) => j.as_str(),
        None => None,
    }
}

/// The text of an optional document that is a string, or `d`.
pub fn str_or(o: Option<&Json>, d: &str) -> (r: String)
    ensures
        r@ == text_or(str_in(opt_view(o)), d@),
{
    match str_of(o) {
        Some(s) => s,
        None => lit(d),
    }
}

/// The text, or `d` where there is none.
pub open spec fn text_or(o: Option<Seq<char>>, d: Seq<char>) -> Seq<char> {
    match o {
        Some(s) => s,
        None => d,
    }
}

pub open spec fn nat_or(o: Option<nat>, d: nat) -> nat {
    match o {
        Some(n) => n,
        None => d,
    }
}

/// The unsigned integer of an optional document, or `d`.
pub fn u64_or(o: Option<&Json>, d: u64) -> (r: u64)
    ensures
        r as nat == nat_or(nat_in(opt_view(o)), d as nat),
{
    match o {
        Some(j) => match j.as_u64() {
            Some(n) => n,
            None => d,
        },
        None => d,
    }
}

/// Whether an optional document is `true`.
pub fn is_true(o: Option<&Json>) -> (r: bool)
    ensures
        r == (bool_in(opt_view(o)) == Some(true)),
{
    match o {
        Some(j) => match j.as_bool() {
            Some(b) => b,
            None => false,
        },
        None => false,
    }
}

/// Whether an optional document is the string `t`.
pub fn is_text(o: Option<&Json>, t: &str) -> (r: bool)
    ensures
        r == (str_in(opt_view(o)) == Some(t@)),
{
    match o {
        Some(Json::Str(s)) => str_eq(s, t),
        _ => false,
    }
}

/// Number of elements of an optional document, 0 where it is no array.
pub fn items_len(o: Option<&Json>) -> (r: usize)
    ensures
        r == items_in(opt_view(o)).len(),
{
    match o {
        Some(Json::Arr(v)) => v.len(),
        _ => 0,
    }
}

/// The element `i` of an optional document.
pub fn item_at(o: Option<&Json>, i: usize) -> (r: &Json)
    requires
        i < items_in(opt_view(o)).len(),
    ensures
        r@ == items_in(opt_view(o))[i as int],
{
    match o {
        Some(Json::Arr(v)) => &v[i],
        _ => {
            assert(false);
            &Json::Null
        },
    }
}

proof fn lemma_member_push(s: Seq<(Seq<char>, JsonV)>, k: Seq<char>, v: JsonV, q: Seq<char>, i: int)
    requires
        0 <= i <= s.len(),
    ensures
        member_from(s.push((k, v)), q, i) == (match member_from(s, q, i) {
            Some(x) => Some(x),
            None => if k == q {
                Some(v)
            } else {
                None
            },
        }),
    decreases s.len() - i,
{
    if i < s.len() {
        lemma_member_push(s, k, v, q, i + 1);
    } else {
        assert(member_from(s.push((k, v)), q, i + 1) is None);
    }
}

/// A member that is put behind the others is found under its name unless an
/// earlier one has that name, and hides no other.
pub broadcast proof fn lemma_get_with(j: JsonV, k: Seq<char>, v: JsonV, q: Seq<char>)
    ensures
        #[trigger] j.with(k, v).get(q) == (match j.get(q) {
            Some(x) => Some(x),
            None => if k == q {
                Some(v)
            } else {
                None
            },
        }),
{
    match j {
        JsonV::Obj(s) => lemma_member_push(s, k, v, q, 0),
        _ => {
            assert(seq![(k, v)] =~= Seq::empty().push((k, v)));
            lemma_member_push(Seq::empty(), k, v, q, 0);
        },
    }
}

/// An empty object has no members.
pub broadcast proof fn lemma_get_empty(q: Seq<char>)
    ensures
        #[trigger] jobj().get(q) is None,
{
}

proof fn lemma_index_bounds(s: Seq<(Seq<char>, JsonV)>, k: Seq<char>, i: int)
    requires
        0 <= i <= s.len(),
    ensures
        i <= member_index(s, k, i) <= s.len(),
        member_index(s, k, i) < s.len() ==> s[member_index(s, k, i)].0 == k,
        forall|n: int| i <= n < member_index(s, k, i) ==> (#[trigger] s[n]).0 != k,
    decreases s.len() - i,
{
    if i < s.len() && s[i].0 != k {
        lemma_index_bounds(s, k, i + 1);
    }
}

proof fn lemma_member_update(
    s: Seq<(Seq<char>, JsonV)>,
    at: int,
    k: Seq<char>,
    v: JsonV,
    q: Seq<char>,
    i: int,
)
    requires
        0 <= i <= s.len(),
        0 <= at < s.len(),
        s[at].0 == k,
        forall|n: int| 0 <= n < at ==> (#[trigger] s[n]).0 != k,
    ensures
        q != k ==> member_from(s.update(at, (k, v)), q, i) == member_from(s, q, i),
        q == k && i <= at ==> member_from(s.update(at, (k, v)), q, i) == Some(v),
    decreases s.len() - i,
{
    let t = s.update(at, (k, v));
    if i < s.len() {
        lemma_member_update(s, at, k, v, q, i + 1);
        if i != at {
            assert(t[i] == s[i]);
        }
    }
}

proof fn lemma_no_member(s: Seq<(Seq<char>, JsonV)>, k: Seq<char>, i: int)
    requires
        0 <= i <= s.len(),
        forall|n: int| i <= n < s.len() ==> (#[trigger] s[n]).0 != k,
    ensures
        member_from(s, k, i) is None,
    decreases s.len() - i,
{
    if i < s.len() {
        lemma_no_member(s, k, i + 1);
    }
}

/// A value that is put under a name is found there; what stands under other names
/// stays.
pub broadcast proof fn lemma_get_put(j: JsonV, k: Seq<char>, v: JsonV, q: Seq<char>)
    requires
        j is Obj || j is Null,
    ensures
        #[trigger] j.put(k, v).get(q) == (if q == k {
            Some(v)
        } else {
            j.get(q)
        }),
{
    match j {
        JsonV::Obj(s) => {
            lemma_index_bounds(s, k, 0);
            let i = member_index(s, k, 0);
            if i < s.len() {
                lemma_member_update(s, i, k, v, q, 0);
            } else {
                lemma_member_push(s, k, v, q, 0);
                if q == k {
                    lemma_no_member(s, k, 0);
                }
            }
        },
        _ => {
            assert(seq![(k, v)] =~= Seq::empty().push((k, v)));
            lemma_member_push(Seq::empty(), k, v, q, 0);
        },
    }
}

} // verus!
