//! The library's model of a decoded JSON document.
//!
//! A document is held as a tree of plain values, so that the shape checks on
//! the API's responses are ordinary verified code.  A number is held as
//! `Some` of its value when it is an integer within `i64`, and as `None`
//! otherwise (a float, or an integer out of range): such a number can sit
//! anywhere in a document; it only reads as no integer at all.

use vstd::prelude::*;
use vstd::string::*;

verus! {

/// One JSON value.  An object is a list of key/value entries; a lookup takes
/// the first entry carrying the key.
pub enum Json {
    Null,
    Bool(bool),
    Num(Option<i64>),
    Str(String),
    Arr(Vec<Json>),
    Obj(Vec<(String, Json)>),
}

/// The mathematical value of a JSON document, number for number what a
/// [`Json`] tree carries.
pub ghost enum JsonModel {
    Null,
    Bool(bool),
    Num(Option<i64>),
    Str(Seq<char>),
    Arr(Seq<JsonModel>),
    Obj(Seq<(Seq<char>, JsonModel)>),
}

impl Json {
    /// The mathematical value of this tree.
    pub open spec fn model(self) -> JsonModel
        decreases self,
    {
        match self {
            Json::Null => JsonModel::Null,
            Json::Bool(b) => JsonModel::Bool(b),
            Json::Num(x) => JsonModel::Num(x),
            Json::Str(s) => JsonModel::Str(s@),
            Json::Arr(items) => JsonModel::Arr(model_seq(items@)),
            Json::Obj(entries) => JsonModel::Obj(model_entries(entries@)),
        }
    }
}

/// The models of the elements of an array.
pub open spec fn model_seq(items: Seq<Json>) -> Seq<JsonModel>
    decreases items,
{
    if items.len() == 0 {
        Seq::empty()
    } else {
        seq![items[0].model()] + model_seq(items.drop_first())
    }
}

/// The models of the entries of an object.
pub open spec fn model_entries(entries: Seq<(String, Json)>) -> Seq<(Seq<char>, JsonModel)>
    decreases entries,
{
    if entries.len() == 0 {
        Seq::empty()
    } else {
        seq![(entries[0].0@, entries[0].1.model())] + model_entries(entries.drop_first())
    }
}

/// The nesting depth of a document: 1 for a leaf, one more for each level of
/// arrays or objects around it.
pub open spec fn depth_of(m: JsonModel) -> nat
    decreases m,
{
    match m {
        JsonModel::Arr(items) => 1 + seq_depth(items),
        JsonModel::Obj(entries) => 1 + entries_depth(entries),
        _ => 1,
    }
}

/// The largest depth among an array's elements.
pub open spec fn seq_depth(items: Seq<JsonModel>) -> nat
    decreases items,
{
    if items.len() == 0 {
        0
    } else if depth_of(items[0]) >= seq_depth(items.drop_first()) {
        depth_of(items[0])
    } else {
        seq_depth(items.drop_first())
    }
}

/// The largest depth among an object's entries.
pub open spec fn entries_depth(entries: Seq<(Seq<char>, JsonModel)>) -> nat
    decreases entries,
{
    if entries.len() == 0 {
        0
    } else if depth_of(entries[0].1) >= entries_depth(entries.drop_first()) {
        depth_of(entries[0].1)
    } else {
        entries_depth(entries.drop_first())
    }
}

/// Every document is at least one level deep.
pub proof fn lemma_depth_at_least_one(m: JsonModel)
    ensures
        depth_of(m) >= 1,
{
}

/// Each element of an array stays within the array's depth.
pub proof fn lemma_seq_element_bounds(items: Seq<JsonModel>, i: int)
    requires
        0 <= i < items.len(),
    ensures
        depth_of(items[i]) <= seq_depth(items),
    decreases i,
{
    if i > 0 {
        lemma_seq_element_bounds(items.drop_first(), i - 1);
    }
}

/// Each entry of an object stays within the object's depth.
pub proof fn lemma_entries_element_bounds(entries: Seq<(Seq<char>, JsonModel)>, i: int)
    requires
        0 <= i < entries.len(),
    ensures
        depth_of(entries[i].1) <= entries_depth(entries),
    decreases i,
{
    if i > 0 {
        lemma_entries_element_bounds(entries.drop_first(), i - 1);
    }
}

/// An array of elements each within `bound` is within `bound` itself.
pub proof fn lemma_seq_aggregate_bounds(items: Seq<JsonModel>, bound: nat)
    requires
        forall|i: int| 0 <= i < items.len() ==> depth_of(#[trigger] items[i]) <= bound,
    ensures
        seq_depth(items) <= bound,
    decreases items.len(),
{
    if items.len() > 0 {
        lemma_seq_aggregate_bounds(items.drop_first(), bound);
    }
}

/// An object of entries each within `bound` is within `bound` itself.
pub proof fn lemma_entries_aggregate_bounds(entries: Seq<(Seq<char>, JsonModel)>, bound: nat)
    requires
        forall|i: int| 0 <= i < entries.len() ==> depth_of(#[trigger] entries[i].1) <= bound,
    ensures
        entries_depth(entries) <= bound,
    decreases entries.len(),
{
    if entries.len() > 0 {
        lemma_entries_aggregate_bounds(entries.drop_first(), bound);
    }
}

/// `model_seq`, element by element.
pub proof fn lemma_model_seq_index(items: Seq<Json>)
    ensures
        model_seq(items).len() == items.len(),
        forall|i: int| 0 <= i < items.len() ==> model_seq(items)[i] == items[i].model(),
    decreases items.len(),
{
    if items.len() > 0 {
        lemma_model_seq_index(items.drop_first());
    }
}

/// `model_entries`, entry by entry.
pub proof fn lemma_model_entries_index(entries: Seq<(String, Json)>)
    ensures
        model_entries(entries).len() == entries.len(),
        forall|i: int| 0 <= i < entries.len() ==> model_entries(entries)[i] == (
            entries[i].0@,
            entries[i].1.model(),
        ),
    decreases entries.len(),
{
    if entries.len() > 0 {
        lemma_model_entries_index(entries.drop_first());
    }
}

/// The value under `key` in an entry list: the first entry that carries it.
pub open spec fn obj_lookup(entries: Seq<(String, Json)>, key: Seq<char>) -> Option<Json>
    decreases entries.len(),
{
    if entries.len() == 0 {
        None
    } else if entries[0].0@ == key {
        Some(entries[0].1)
    } else {
        obj_lookup(entries.drop_first(), key)
    }
}

/// The value under `key` when `j` is an object that carries it.
pub open spec fn json_field(j: Json, key: Seq<char>) -> Option<Json> {
    match j {
        Json::Obj(entries) => obj_lookup(entries@, key),
        _ => None,
    }
}

/// The text of a JSON string value.
pub open spec fn json_str(j: Json) -> Option<Seq<char>> {
    match j {
        Json::Str(s) => Some(s@),
        _ => None,
    }
}

/// The value of a JSON number, when it is an integer within `i64`.
pub open spec fn json_int(j: Json) -> Option<i64> {
    match j {
        Json::Num(x) => x,
        _ => None,
    }
}

/// The elements of a JSON array.
pub open spec fn json_arr(j: Json) -> Option<Seq<Json>> {
    match j {
        Json::Arr(items) => Some(items@),
        _ => None,
    }
}

proof fn lemma_obj_lookup_found(entries: Seq<(String, Json)>, key: Seq<char>, i: int)
    requires
        0 <= i < entries.len(),
        forall|t: int| 0 <= t < i ==> entries[t].0@ != key,
        entries[i].0@ == key,
    ensures
        obj_lookup(entries, key) == Some(entries[i].1),
    decreases i,
{
    if i > 0 {
        lemma_obj_lookup_found(entries.drop_first(), key, i - 1);
    }
}

proof fn lemma_obj_lookup_missing(entries: Seq<(String, Json)>, key: Seq<char>)
    requires
        forall|t: int| 0 <= t < entries.len() ==> entries[t].0@ != key,
    ensures
        obj_lookup(entries, key) is None,
    decreases entries.len(),
{
    if entries.len() > 0 {
        lemma_obj_lookup_missing(entries.drop_first(), key);
    }
}

impl Json {
    /// The value under `key`, when this value is an object that carries it.
    #[verifier::loop_isolation(false)]
    pub fn get_field<'a>(&'a self, key: &str) -> (r: Option<&'a Json>)
        ensures
            match r {
                Some(f) => json_field(*self, key@) == Some(*f),
                None => json_field(*self, key@) is None,
            },
    {
        match self {
            Json::Obj(entries) => {
                let k = String::from_str(key);
                let n = entries.len();
                let mut i: usize = 0;
                while i < n
                    invariant
                        n == entries@.len(),
                        i <= n,
                        k@ == key@,
                        forall|t: int| 0 <= t < i ==> entries@[t].0@ != key@,
                    decreases n - i,
                {
                    if entries[i].0 == k {
                        proof {
                            lemma_obj_lookup_found(entries@, key@, i as int);
                        }
                        return Some(&entries[i].1);
                    }
                    i = i + 1;
                }
                proof {
                    lemma_obj_lookup_missing(entries@, key@);
                }
                None
            },
            _ => None,
        }
    }

    /// The text of this value, when it is a string.
    pub fn as_str<'a>(&'a self) -> (r: Option<&'a String>)
        ensures
            match r {
                Some(s) => json_str(*self) == Some(s@),
                None => json_str(*self) is None,
            },
    {
        match self {
            Json::Str(s) => Some(s),
            _ => None,
        }
    }

    /// The value of this value, when it is an integer within `i64`.
    pub fn as_int(&self) -> (r: Option<i64>)
        ensures
            match r {
                Some(i) => json_int(*self) == Some(i),
                None => json_int(*self) is None,
            },
    {
        match self {
            Json::Num(x) => *x,
            _ => None,
        }
    }

    /// The elements of this value, when it is an array.
    pub fn as_arr<'a>(&'a self) -> (r: Option<&'a Vec<Json>>)
        ensures
            match r {
                Some(items) => json_arr(*self) == Some(items@),
                None => json_arr(*self) is None,
            },
    {
        match self {
            Json::Arr(items) => Some(items),
            _ => None,
        }
    }
}

} // verus!
