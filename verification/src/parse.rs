//! Parsing response bodies into the JSON model.
//!
//! serde_json does the text-level parsing; everything after its generic
//! `Value` tree is verified. The tree is taken apart one level at a time
//! through a trusted shim, and rebuilt as a `JsonValue` whose ghost
//! meaning is pinned to the parse result.

use vstd::prelude::*;

use crate::errors::{DecodeErrV, DecodeError};
use crate::json::{
    jdepth, jdepth_arr, jdepth_obj, jentries_of, jvals_of, lemma_jdepth_arr_bound,
    lemma_jdepth_obj_bound, lemma_jentries_of, lemma_jvals_of, JVal, JsonValue,
};

verus! {

#[verifier::external_type_specification]
#[verifier::external_body]
pub struct ExSerdeValue(serde_json::Value);

#[verifier::external_type_specification]
#[verifier::external_body]
pub struct ExSerdeError(serde_json::Error);

/// What `serde_json::from_str::<serde_json::Value>` yields on a text:
/// `None` when the text is not JSON it accepts, the document tree
/// otherwise. Parsing depends on the text alone.
pub uninterp spec fn parsed_json(s: Seq<char>) -> Option<JVal>;

/// The document tree a `serde_json::Value` holds, with every number
/// carried as the decimal rendering its `Display` produces. The tree is
/// a function of the value alone.
pub uninterp spec fn value_rep(v: serde_json::Value) -> JVal;

/// One level of a `serde_json::Value`, children still opaque.
pub enum JsonNode {
    Null,
    Bool(bool),
    Number(String),
    Text(String),
    Array(Vec<serde_json::Value>),
    Object(Vec<(String, serde_json::Value)>),
}

/// Relies on serde_json::from_str::<Value>: a deterministic parse that
/// refuses nesting beyond its recursion limit of 128 levels, so a
/// returned tree nests at most 129 deep in the leaf-counts-one measure.
#[verifier::external_body]
fn parse_json_text(s: &str) -> (r: Result<serde_json::Value, serde_json::Error>)
    ensures
        r is Ok <==> parsed_json(s@) is Some,
        r is Ok ==> value_rep(r->Ok_0) == parsed_json(s@)->0,
        r is Ok ==> jdepth(value_rep(r->Ok_0)) <= 129,
{
    serde_json::from_str(s)
}

/// Relies on the variants of serde_json::Value and on Number's Display
/// (itoa for integers, a finite-float formatter otherwise): one match
/// arm per variant, moving the fields out; a map iterates its entries
/// in ascending key order.
#[verifier::external_body]
fn value_node(v: serde_json::Value) -> (r: JsonNode)
    ensures
        match r {
            JsonNode::Null => value_rep(v) == JVal::Null,
            JsonNode::Bool(b) => value_rep(v) == JVal::Bool(b),
            JsonNode::Number(s) => value_rep(v) == JVal::Num(s@),
            JsonNode::Text(s) => value_rep(v) == JVal::Str(s@),
            JsonNode::Array(a) => value_rep(v) == JVal::Arr(
                a@.map_values(|x: serde_json::Value| value_rep(x)),
            ),
            JsonNode::Object(o) => value_rep(v) == JVal::Obj(
                o@.map_values(|p: (String, serde_json::Value)| (p.0@, value_rep(p.1))),
            ),
        },
{
    match v {
        serde_json::Value::Null => JsonNode::Null,
        serde_json::Value::Bool(b) => JsonNode::Bool(b),
        serde_json::Value::Number(n) => JsonNode::Number(n.to_string()),
        serde_json::Value::String(s) => JsonNode::Text(s),
        serde_json::Value::Array(a) => JsonNode::Array(a),
        serde_json::Value::Object(m) => JsonNode::Object(m.into_iter().collect()),
    }
}

/// Rebuilds the document as a `JsonValue`, spending one unit of fuel per
/// nesting level.
fn to_tree(v: serde_json::Value, fuel: u32) -> (r: Option<JsonValue>)
    ensures
        r is Some ==> r->0@ == value_rep(v),
        jdepth(value_rep(v)) <= fuel ==> r is Some,
    decreases fuel,
{
    if fuel == 0 {
        return None;
    }
    match value_node(v) {
        JsonNode::Null => Some(JsonValue::Null),
        JsonNode::Bool(b) => Some(JsonValue::Bool(b)),
        JsonNode::Number(s) => Some(JsonValue::Number(s)),
        JsonNode::Text(s) => Some(JsonValue::Text(s)),
        JsonNode::Array(a) => {
            let ghost kids = a@.map_values(|x: serde_json::Value| value_rep(x));
            let mut rest = a;
            let mut out: Vec<JsonValue> = Vec::new();
            let ghost total = kids.len();
            while rest.len() > 0
                invariant
                    out@.len() + rest@.len() == total,
                    kids.len() == total,
                    value_rep(v) == JVal::Arr(kids),
                    jdepth(value_rep(v)) == 1 + jdepth_arr(kids),
                    fuel >= 1,
                    forall|i: int|
                        0 <= i < rest@.len() ==> value_rep(#[trigger] rest@[i]) == kids[out@.len()
                            + i],
                    forall|i: int| 0 <= i < out@.len() ==> (#[trigger] out@[i]).jval() == kids[i],
                decreases rest@.len(),
            {
                let ghost k = out@.len() as int;
                let x = rest.remove(0);
                proof {
                    assert(value_rep(x) == kids[k]);
                    lemma_jdepth_arr_bound(kids, k);
                }
                match to_tree(x, fuel - 1) {
                    Some(t) => {
                        out.push(t);
                    },
                    None => {
                        proof {
                            assert(jdepth(kids[k]) > fuel - 1);
                        }
                        return None;
                    },
                }
            }
            proof {
                lemma_jvals_of(out@);
                assert(jvals_of(out@) =~= kids);
            }
            Some(JsonValue::Array(out))
        },
        JsonNode::Object(o) => {
            let ghost kids = o@.map_values(
                |p: (String, serde_json::Value)| (p.0@, value_rep(p.1)),
            );
            let mut rest = o;
            let mut out: Vec<(String, JsonValue)> = Vec::new();
            let ghost total = kids.len();
            while rest.len() > 0
                invariant
                    out@.len() + rest@.len() == total,
                    kids.len() == total,
                    value_rep(v) == JVal::Obj(kids),
                    jdepth(value_rep(v)) == 1 + jdepth_obj(kids),
                    fuel >= 1,
                    forall|i: int|
                        0 <= i < rest@.len() ==> ((#[trigger] rest@[i]).0@, value_rep(
                            rest@[i].1,
                        )) == kids[out@.len() + i],
                    forall|i: int|
                        0 <= i < out@.len() ==> ((#[trigger] out@[i]).0@, out@[i].1.jval())
                            == kids[i],
                decreases rest@.len(),
            {
                let ghost k = out@.len() as int;
                let entry = rest.remove(0);
                proof {
                    assert((entry.0@, value_rep(entry.1)) == kids[k]);
                    lemma_jdepth_obj_bound(kids, k);
                }
                match to_tree(entry.1, fuel - 1) {
                    Some(t) => {
                        out.push((entry.0, t));
                    },
                    None => {
                        proof {
                            assert(jdepth(kids[k].1) > fuel - 1);
                        }
                        return None;
                    },
                }
            }
            proof {
                lemma_jentries_of(out@);
                assert(jentries_of(out@) =~= kids);
            }
            Some(JsonValue::Object(out))
        },
    }
}

/// Parses a response body into the JSON model.
///
/// Succeeds exactly when the body is well-formed JSON; a body the parser
/// refuses yields `MalformedJson`.
pub fn parse_document(s: &str) -> (r: Result<JsonValue, DecodeError>)
    ensures
        r is Ok <==> parsed_json(s@) is Some,
        r is Ok ==> r->Ok_0@ == parsed_json(s@)->0,
        r is Err ==> r->Err_0@ == DecodeErrV::MalformedJson,
{
    match parse_json_text(s) {
        Ok(v) => match to_tree(v, 256) {
            Some(t) => Ok(t),
            None => {
                proof {
                    assert(false);
                }
                Err(DecodeError::MalformedJson)
            },
        },
        Err(_) => Err(DecodeError::MalformedJson),
    }
}

} // verus!
