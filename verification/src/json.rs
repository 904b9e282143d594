//! The JSON value model that the codec operates on.
//!
//! The transport layer hands the codec one JSON document per message; this
//! module gives that document a typed in-memory form, a ghost mirror for
//! specifications, and the object-lookup primitive that every decoder uses.

use vstd::prelude::*;

verus! {

/// A JSON value, as handed to the codec by the transport layer.
///
/// Numbers keep their literal text so that decoding and re-encoding
/// never loses precision.
#[derive(Debug)]
pub enum Json {
    Null,
    Bool(bool),
    Num(String),
    Str(String),
    Arr(Vec<Json>),
    Obj(Vec<(String, Json)>),
}

/// Ghost mirror of [`Json`]: the mathematical value of a JSON document.
pub ghost enum JsonV {
    Null,
    Bool(bool),
    Num(Seq<char>),
    Str(Seq<char>),
    Arr(Seq<JsonV>),
    Obj(Seq<(Seq<char>, JsonV)>),
}

/// Views of the elements of a JSON array.
pub open spec fn arr_view(s: Seq<Json>) -> Seq<JsonV>
    decreases s,
{
    if s.len() == 0 {
        Seq::empty()
    } else {
        arr_view(s.drop_last()).push(s.last().view())
    }
}

/// Views of the entries of a JSON object: each key with its value.
pub open spec fn obj_view(s: Seq<(String, Json)>) -> Seq<(Seq<char>, JsonV)>
    decreases s,
{
    if s.len() == 0 {
        Seq::empty()
    } else {
        obj_view(s.drop_last()).push((s.last().0@, s.last().1.view()))
    }
}

impl View for Json {
    type V = JsonV;

    open spec fn view(&self) -> JsonV
        decreases self,
    {
        match self {
            Json::Null => JsonV::Null,
            Json::Bool(b) => JsonV::Bool(*b),
            Json::Num(s) => JsonV::Num(s@),
            Json::Str(s) => JsonV::Str(s@),
            Json::Arr(items) => JsonV::Arr(arr_view(items@)),
            Json::Obj(entries) => JsonV::Obj(obj_view(entries@)),
        }
    }
}

pub broadcast proof fn lemma_arr_view(s: Seq<Json>)
    ensures
        (#[trigger] arr_view(s)).len() == s.len(),
        forall|i: int| 0 <= i < s.len() ==> arr_view(s)[i] == s[i]@,
    decreases s,
{
    if s.len() > 0 {
        lemma_arr_view(s.drop_last());
        assert(arr_view(s) == arr_view(s.drop_last()).push(s.last().view()));
        assert(arr_view(s.drop_last()).len() == s.drop_last().len());
        assert(s.drop_last().len() == s.len() - 1);
        assert(arr_view(s).len() == s.len());
        assert forall|i: int| 0 <= i < s.len() implies arr_view(s)[i] == s[i]@ by {
            if i < s.len() - 1 {
                assert(arr_view(s)[i] == arr_view(s.drop_last())[i]);
                assert(s.drop_last()[i] == s[i]);
            } else {
                assert(s.last() == s[i]);
            }
        }
    }
}

pub broadcast proof fn lemma_obj_view(s: Seq<(String, Json)>)
    ensures
        (#[trigger] obj_view(s)).len() == s.len(),
        forall|i: int| 0 <= i < s.len() ==> obj_view(s)[i] == (s[i].0@, s[i].1@),
    decreases s,
{
    if s.len() > 0 {
        lemma_obj_view(s.drop_last());
        assert(obj_view(s) == obj_view(s.drop_last()).push((s.last().0@, s.last().1.view())));
        assert(obj_view(s.drop_last()).len() == s.drop_last().len());
        assert(s.drop_last().len() == s.len() - 1);
        assert(obj_view(s).len() == s.len());
        assert forall|i: int| 0 <= i < s.len() implies obj_view(s)[i] == (s[i].0@, s[i].1@) by {
            if i < s.len() - 1 {
                assert(obj_view(s)[i] == obj_view(s.drop_last())[i]);
                assert(s.drop_last()[i] == s[i]);
            } else {
                assert(s.last() == s[i]);
            }
        }
    }
}

/// Index of the first entry of an object whose key is `k`.
pub open spec fn key_index(s: Seq<(Seq<char>, JsonV)>, k: Seq<char>, from: int) -> Option<int>
    decreases s.len() - from,
    when 0 <= from <= s.len()
{
    if from == s.len() {
        None
    } else if s[from].0 == k {
        Some(from)
    } else {
        key_index(s, k, from + 1)
    }
}

/// What a decoder sees of an object at key `k`: the value of the first
/// entry with that key, or nothing.
pub open spec fn obj_lookup(s: Seq<(Seq<char>, JsonV)>, k: Seq<char>) -> Option<JsonV> {
    match key_index(s, k, 0) {
        Some(i) => Some(s[i].1),
        None => None,
    }
}

/// `key_index` finds exactly the first matching entry.
pub proof fn lemma_key_index(s: Seq<(Seq<char>, JsonV)>, k: Seq<char>, from: int)
    requires
        0 <= from <= s.len(),
    ensures
        match key_index(s, k, from) {
            Some(i) => from <= i < s.len() && s[i].0 == k && forall|j: int|
                from <= j < i ==> s[j].0 != k,
            None => forall|j: int| from <= j < s.len() ==> s[j].0 != k,
        },
    decreases s.len() - from,
{
    if from < s.len() && s[from].0 != k {
        lemma_key_index(s, k, from + 1);
    }
}

/// Copies of the elements of a JSON array.
pub(crate) fn clone_arr(v: &Vec<Json>) -> (r: Vec<Json>)
    ensures
        r@.len() == v@.len(),
        forall|i: int| 0 <= i < v@.len() ==> #[trigger] r@[i]@ == v@[i]@,
    decreases v@,
{
    let mut out: Vec<Json> = Vec::new();
    let n = v.len();
    let mut i: usize = 0;
    while i < n
        invariant
            0 <= i <= n,
            n == v@.len(),
            out@.len() == i,
            forall|j: int| 0 <= j < i ==> #[trigger] out@[j]@ == v@[j]@,
        decreases n - i,
    {
        out.push(v[i].clone());
        i += 1;
    }
    out
}

/// Copies of the entries of a JSON object.
fn clone_obj(v: &Vec<(String, Json)>) -> (r: Vec<(String, Json)>)
    ensures
        r@.len() == v@.len(),
        forall|i: int|
            0 <= i < v@.len() ==> #[trigger] r@[i].0@ == v@[i].0@ && r@[i].1@ == v@[i].1@,
    decreases v@,
{
    let mut out: Vec<(String, Json)> = Vec::new();
    let n = v.len();
    let mut i: usize = 0;
    while i < n
        invariant
            0 <= i <= n,
            n == v@.len(),
            out@.len() == i,
            forall|j: int|
                0 <= j < i ==> #[trigger] out@[j].0@ == v@[j].0@ && out@[j].1@ == v@[j].1@,
        decreases n - i,
    {
        let key = v[i].0.clone();
        let val = v[i].1.clone();
        out.push((key, val));
        i += 1;
    }
    out
}

impl Clone for Json {
    /// A copy with the same mathematical value.
    fn clone(&self) -> (r: Self)
        ensures
            r@ == self@,
        decreases *self,
    {
        match self {
            Json::Null => Json::Null,
            Json::Bool(b) => Json::Bool(*b),
            Json::Num(s) => Json::Num(s.clone()),
            Json::Str(s) => Json::Str(s.clone()),
            Json::Arr(items) => {
                let out = clone_arr(items);
                proof {
                    lemma_arr_view(out@);
                    lemma_arr_view(items@);
                    assert(arr_view(out@) =~= arr_view(items@));
                }
                Json::Arr(out)
            },
            Json::Obj(entries) => {
                let out = clone_obj(entries);
                proof {
                    lemma_obj_view(out@);
                    lemma_obj_view(entries@);
                    assert(obj_view(out@) =~= obj_view(entries@));
                }
                Json::Obj(out)
            },
        }
    }
}

/// String equality by character comparison.
pub fn str_eq(a: &str, b: &str) -> (r: bool)
    ensures
        r == (a@ == b@),
{
    let la = a.unicode_len();
    let lb = b.unicode_len();
    if la != lb {
        assert(a@ != b@) by {
            assert(a@.len() != b@.len());
        }
        return false;
    }
    let mut i: usize = 0;
    while i < la
        invariant
            0 <= i <= la,
            la == a@.len() && la == b@.len(),
            forall|j: int| 0 <= j < i ==> a@[j] == b@[j],
        decreases la - i,
    {
        if a.get_char(i) != b.get_char(i) {
            return false;
        }
        i += 1;
    }
    proof {
        assert(a@ =~= b@);
    }
    true
}

/// The value of the first entry of `entries` whose key is `key`.
pub fn obj_get<'a>(entries: &'a Vec<(String, Json)>, key: &str) -> (r: Option<&'a Json>)
    ensures
        match r {
            Some(j) => obj_lookup(obj_view(entries@), key@) == Some(j@),
            None => obj_lookup(obj_view(entries@), key@) is None,
        },
{
    proof {
        lemma_obj_view(entries@);
        lemma_key_index(obj_view(entries@), key@, 0);
    }
    let n = entries.len();
    let mut i: usize = 0;
    while i < n
        invariant
            0 <= i <= n,
            n == entries@.len(),
            obj_view(entries@).len() == n,
            forall|j: int| 0 <= j < n ==> obj_view(entries@)[j] == (entries@[j].0@, entries@[j].1@),
            forall|j: int| 0 <= j < i ==> entries@[j].0@ != key@,
        decreases n - i,
    {
        if str_eq(entries[i].0.as_str(), key) {
            proof {
                let s = obj_view(entries@);
                lemma_key_index(s, key@, 0);
                assert(s[i as int].0 == key@);
                assert(forall|j: int| 0 <= j < i ==> s[j].0 != key@);
                assert(key_index(s, key@, 0) == Some(i as int));
                assert(s[i as int].1 == entries@[i as int].1@);
            }
            return Some(&entries[i].1);
        }
        i += 1;
    }
    None
}

} // verus!
