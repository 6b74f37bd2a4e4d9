//! Turning JSON text into the library's [`Json`] tree.
//!
//! The text itself is parsed by serde_json behind a small trusted boundary;
//! everything after the parse — walking the parsed value, bounding the
//! nesting — is verified code.  The trusted
//! contracts speak of the parse through three names: [`doc_model`] for what
//! the text parses to, [`value_model`] for the contents of a parsed value,
//! and [`number_model`] for what a parsed number yields as an `i64`.

use vstd::prelude::*;

use crate::error::ClientError;
use crate::json::{depth_of, lemma_depth_at_least_one, lemma_entries_aggregate_bounds,
    lemma_entries_element_bounds, lemma_model_entries_index, lemma_model_seq_index,
    lemma_seq_aggregate_bounds, lemma_seq_element_bounds, model_entries, model_seq, Json,
    JsonModel};

verus! {

#[verifier::external_type_specification]
#[verifier::external_body]
pub struct ExValue(serde_json::Value);

#[verifier::external_type_specification]
#[verifier::external_body]
pub struct ExNumber(serde_json::Number);

#[verifier::external_type_specification]
#[verifier::external_body]
pub struct ExJsonError(serde_json::Error);

/// What JSON text parses to, in the library's model: `Some` exactly when
/// serde_json accepts the text, and then the parsed document's model.
pub uninterp spec fn doc_model(s: Seq<char>) -> Option<JsonModel>;

/// The contents of a parsed `serde_json::Value`, in the library's model.
pub uninterp spec fn value_model(v: serde_json::Value) -> JsonModel;

/// What `serde_json::Number::as_i64` returns for a parsed number: `Some`
/// exactly for integers within `i64`.
pub uninterp spec fn number_model(n: serde_json::Number) -> Option<i64>;

/// One node of a parsed document, its children still in serde_json's form.
enum RawNode {
    Null,
    Bool(bool),
    Num(serde_json::Number),
    Str(String),
    Arr(Vec<serde_json::Value>),
    Obj(Vec<(String, serde_json::Value)>),
}

/// Relies on `serde_json::from_str::<serde_json::Value>`: `Ok` exactly when
/// serde_json accepts `s` — a well-formed JSON document within serde_json's
/// own default recursion limit — returning its parsed form.
#[verifier::external_body]
fn parse_value(s: &str) -> (r: Result<serde_json::Value, serde_json::Error>)
    ensures
        r is Ok <==> doc_model(s@) is Some,
        r matches Ok(v) ==> doc_model(s@) == Some(value_model(v)),
{
    serde_json::from_str(s)
}

/// Relies on the variants of `serde_json::Value`: hands each variant's
/// payload over unchanged, one arm per variant; an object becomes its
/// entries in the map's iteration order.
#[verifier::external_body]
fn split_value(v: serde_json::Value) -> (r: RawNode)
    ensures
        r is Null ==> value_model(v) == JsonModel::Null,
        r matches RawNode::Bool(b) ==> value_model(v) == JsonModel::Bool(b),
        r matches RawNode::Num(n) ==> value_model(v) == JsonModel::Num(number_model(n)),
        r matches RawNode::Str(s) ==> value_model(v) == JsonModel::Str(s@),
        r matches RawNode::Arr(items) ==> value_model(v) == JsonModel::Arr(
            items@.map_values(|c: serde_json::Value| value_model(c)),
        ),
        r matches RawNode::Obj(entries) ==> value_model(v) == JsonModel::Obj(
            entries@.map_values(|e: (String, serde_json::Value)| (e.0@, value_model(e.1))),
        ),
{
    match v {
        serde_json::Value::Null => RawNode::Null,
        serde_json::Value::Bool(b) => RawNode::Bool(b),
        serde_json::Value::Number(n) => RawNode::Num(n),
        serde_json::Value::String(s) => RawNode::Str(s),
        serde_json::Value::Array(items) => RawNode::Arr(items),
        serde_json::Value::Object(entries) => RawNode::Obj(entries.into_iter().collect()),
    }
}

/// Relies on `serde_json::Number::as_i64`: `Some` exactly when the number is
/// an integer representable as `i64`, returning that integer.
#[verifier::external_body]
fn number_as_i64(n: &serde_json::Number) -> (r: Option<i64>)
    ensures
        r == number_model(*n),
{
    n.as_i64()
}

/// Nesting depth beyond which a document is rejected.
pub const MAX_DEPTH: u32 = 512;

#[verifier::loop_isolation(false)]
fn value_to_json(v: serde_json::Value, depth: u32) -> (r: Option<Json>)
    ensures
        r matches Some(j) ==> j.model() == value_model(v) && depth_of(j.model()) <= depth,
        depth_of(value_model(v)) <= depth ==> r is Some,
    decreases depth,
{
    if depth == 0 {
        proof {
            lemma_depth_at_least_one(value_model(v));
        }
        return None;
    }
    match split_value(v) {
        RawNode::Null => Some(Json::Null),
        RawNode::Bool(b) => Some(Json::Bool(b)),
        RawNode::Num(n) => Some(Json::Num(number_as_i64(&n))),
        RawNode::Str(s) => Some(Json::Str(s)),
        RawNode::Arr(items) => {
            let ghost items0 = items@;
            let mut items = items;
            let mut out: Vec<Json> = Vec::new();
            proof {
                assert(items@ =~= items0.skip(0));
            }
            while items.len() > 0
                invariant
                    out@.len() + items@.len() == items0.len(),
                    items@ == items0.skip(out@.len() as int),
                    forall|t: int| 0 <= t < out@.len() ==> out@[t].model() == value_model(
                        items0[t],
                    ),
                    forall|t: int| 0 <= t < out@.len() ==> depth_of(#[trigger] out@[t].model())
                        <= depth - 1,
                decreases items.len(),
            {
                let ghost k = out@.len() as int;
                let child = items.remove(0);
                proof {
                    assert(child == items0[k]);
                }
                match value_to_json(child, depth - 1) {
                    Some(j) => out.push(j),
                    None => {
                        proof {
                            if depth_of(value_model(v)) <= depth {
                                lemma_seq_element_bounds(
                                    items0.map_values(|c: serde_json::Value| value_model(c)),
                                    k,
                                );
                            }
                        }
                        return None;
                    },
                }
                proof {
                    assert(items@ =~= items0.skip(out@.len() as int));
                }
            }
            proof {
                lemma_model_seq_index(out@);
                assert(model_seq(out@) =~= items0.map_values(
                    |c: serde_json::Value| value_model(c),
                ));
                lemma_seq_aggregate_bounds(model_seq(out@), (depth - 1) as nat);
            }
            Some(Json::Arr(out))
        },
        RawNode::Obj(entries) => {
            let ghost entries0 = entries@;
            let mut entries = entries;
            let mut out: Vec<(String, Json)> = Vec::new();
            proof {
                assert(entries@ =~= entries0.skip(0));
            }
            while entries.len() > 0
                invariant
                    out@.len() + entries@.len() == entries0.len(),
                    entries@ == entries0.skip(out@.len() as int),
                    forall|t: int| 0 <= t < out@.len() ==> out@[t].0@ == entries0[t].0@
                        && out@[t].1.model() == value_model(entries0[t].1),
                    forall|t: int| 0 <= t < out@.len() ==> depth_of(#[trigger] out@[t].1.model())
                        <= depth - 1,
                decreases entries.len(),
            {
                let ghost k = out@.len() as int;
                let (key, child) = entries.remove(0);
                proof {
                    assert(key == entries0[k].0 && child == entries0[k].1);
                }
                match value_to_json(child, depth - 1) {
                    Some(j) => out.push((key, j)),
                    None => {
                        proof {
                            if depth_of(value_model(v)) <= depth {
                                lemma_entries_element_bounds(
                                    entries0.map_values(
                                        |e: (String, serde_json::Value)| (e.0@, value_model(e.1)),
                                    ),
                                    k,
                                );
                            }
                        }
                        return None;
                    },
                }
                proof {
                    assert(entries@ =~= entries0.skip(out@.len() as int));
                }
            }
            proof {
                lemma_model_entries_index(out@);
                assert(model_entries(out@) =~= entries0.map_values(
                    |e: (String, serde_json::Value)| (e.0@, value_model(e.1)),
                ));
                lemma_entries_aggregate_bounds(model_entries(out@), (depth - 1) as nat);
            }
            Some(Json::Obj(out))
        },
    }
}

/// Parses JSON text into the library's tree: an `Ok` tree's model is exactly
/// what the text parses to.  `Ok` comes exactly when serde_json accepts the
/// text and the nesting stays within [`MAX_DEPTH`] — a bound with no bite,
/// since serde_json's own recursion limit of 128 fails first.  A number that
/// is not an integer within `i64` still builds its node; only a decoder that
/// reads an integer from it refuses it.  Every failure is reported as the
/// decode error.
pub fn parse_json(s: &str) -> (r: Result<Json, ClientError>)
    ensures
        r matches Err(e) ==> e is Decode,
        r matches Ok(j) ==> doc_model(s@) == Some(j.model()),
        r is Ok <==> (doc_model(s@) matches Some(m) && depth_of(m) <= MAX_DEPTH as nat),
{
    match parse_value(s) {
        Ok(v) => match value_to_json(v, MAX_DEPTH) {
            Some(j) => Ok(j),
            None => Err(ClientError::Decode),
        },
        Err(_) => Err(ClientError::Decode),
    }
}

} // verus!
