//! Structural decoding of JSON documents into typed models.
//!
//! A field accessor reads one named field of an object and checks its
//! JSON type. Numeric fields are permissive: a number and its decimal
//! rendering as a string denote the same value; anything else is a
//! schema mismatch naming the field's path.

use vstd::prelude::*;

use crate::errors::{mismatch, DecodeErrV, DecodeError};
use crate::json::{jvals_of, lemma_jvals_of, obj_get, JVal, JsonValue};
use crate::numstr::{dec_str, int_str_val, is_int_str, parse_int_ranged, parse_uint_capped, u64_to_dec};

verus! {

/// The string value of a field, when it is a JSON string.
pub open spec fn str_field(j: JVal, key: Seq<char>) -> Option<Seq<char>> {
    match obj_get(j, key) {
        Some(JVal::Str(s)) => Some(s),
        _ => None,
    }
}

/// The normalized text of an amount-like field: a JSON string as given,
/// a JSON number as its decimal rendering.
pub open spec fn amount_field(j: JVal, key: Seq<char>) -> Option<Seq<char>> {
    match obj_get(j, key) {
        Some(JVal::Str(s)) => Some(s),
        Some(JVal::Num(n)) => Some(n),
        _ => None,
    }
}

/// The integer a numeric field denotes, whether presented as a JSON
/// number or as a decimal string.
pub open spec fn int_field(j: JVal, key: Seq<char>) -> Option<int> {
    match obj_get(j, key) {
        Some(JVal::Num(n)) => if is_int_str(n) {
            Some(int_str_val(n))
        } else {
            None
        },
        Some(JVal::Str(s)) => if is_int_str(s) {
            Some(int_str_val(s))
        } else {
            None
        },
        _ => None,
    }
}

/// Whether a numeric field denotes an integer in `lo..=hi`.
pub open spec fn int_field_in(j: JVal, key: Seq<char>, lo: int, hi: int) -> bool {
    match int_field(j, key) {
        Some(x) => lo <= x <= hi,
        None => false,
    }
}

/// The value of a boolean field.
pub open spec fn bool_field(j: JVal, key: Seq<char>) -> Option<bool> {
    match obj_get(j, key) {
        Some(JVal::Bool(b)) => Some(b),
        _ => None,
    }
}

/// The elements of an array field.
pub open spec fn arr_field(j: JVal, key: Seq<char>) -> Option<Seq<JVal>> {
    match obj_get(j, key) {
        Some(JVal::Arr(a)) => Some(a),
        _ => None,
    }
}

/// The text of a number or string node, if it is one.
fn num_or_text<'a>(f: &'a JsonValue) -> (r: Option<&'a String>)
    ensures
        match f@ {
            JVal::Num(n) => r is Some && r->0@ == n,
            JVal::Str(s) => r is Some && r->0@ == s,
            _ => r is None,
        },
{
    match f {
        JsonValue::Number(s) => Some(s),
        JsonValue::Text(s) => Some(s),
        _ => None,
    }
}

/// Builds the schema-mismatch error for `key` expecting `expected`.
fn field_err(expected: &str, key: &str) -> (r: DecodeError)
    ensures
        r@ == mismatch(expected@, key@),
{
    DecodeError::SchemaMismatch { expected: expected.to_owned(), path: key.to_owned() }
}

/// Reads a required string field.
pub fn req_string(v: &JsonValue, key: &str) -> (r: Result<String, DecodeError>)
    ensures
        r is Ok <==> str_field(v@, key@) is Some,
        r is Ok ==> Some(r->Ok_0@) == str_field(v@, key@),
        r is Err ==> r->Err_0@ == mismatch("string"@, key@),
{
    match v.get_field(key) {
        Some(f) => match f {
            JsonValue::Text(s) => Ok(s.clone()),
            _ => Err(field_err("string", key)),
        },
        None => Err(field_err("string", key)),
    }
}

/// Reads a required amount-like field: a string passes through, a number
/// normalizes to its decimal rendering.
pub fn req_amount(v: &JsonValue, key: &str) -> (r: Result<String, DecodeError>)
    ensures
        r is Ok <==> amount_field(v@, key@) is Some,
        r is Ok ==> Some(r->Ok_0@) == amount_field(v@, key@),
        r is Err ==> r->Err_0@ == mismatch("string or number"@, key@),
{
    match v.get_field(key) {
        Some(f) => match f {
            JsonValue::Text(s) => Ok(s.clone()),
            JsonValue::Number(s) => Ok(s.clone()),
            _ => Err(field_err("string or number", key)),
        },
        None => Err(field_err("string or number", key)),
    }
}

/// Reads a required boolean field.
pub fn req_bool(v: &JsonValue, key: &str) -> (r: Result<bool, DecodeError>)
    ensures
        r is Ok <==> bool_field(v@, key@) is Some,
        r is Ok ==> Some(r->Ok_0) == bool_field(v@, key@),
        r is Err ==> r->Err_0@ == mismatch("boolean"@, key@),
{
    match v.get_field(key) {
        Some(f) => match f {
            JsonValue::Bool(b) => Ok(*b),
            _ => Err(field_err("boolean", key)),
        },
        None => Err(field_err("boolean", key)),
    }
}

/// Reads a required `i64` field, number- or string-presented.
pub fn req_i64(v: &JsonValue, key: &str) -> (r: Result<i64, DecodeError>)
    ensures
        r is Ok <==> int_field_in(v@, key@, i64::MIN as int, i64::MAX as int),
        r is Ok ==> Some(r->Ok_0 as int) == int_field(v@, key@),
        r is Err ==> r->Err_0@ == mismatch("integer"@, key@),
{
    match v.get_field(key) {
        Some(f) => match num_or_text(f) {
            Some(s) => match parse_int_ranged(s.as_str(), i64::MIN, i64::MAX) {
                Some(x) => Ok(x),
                None => Err(field_err("integer", key)),
            },
            None => Err(field_err("integer", key)),
        },
        None => Err(field_err("integer", key)),
    }
}

/// Reads a required `i32` field, number- or string-presented.
pub fn req_i32(v: &JsonValue, key: &str) -> (r: Result<i32, DecodeError>)
    ensures
        r is Ok <==> int_field_in(v@, key@, i32::MIN as int, i32::MAX as int),
        r is Ok ==> Some(r->Ok_0 as int) == int_field(v@, key@),
        r is Err ==> r->Err_0@ == mismatch("integer"@, key@),
{
    match v.get_field(key) {
        Some(f) => match num_or_text(f) {
            Some(s) => match parse_int_ranged(s.as_str(), i32::MIN as i64, i32::MAX as i64) {
                Some(x) => Ok(x as i32),
                None => Err(field_err("integer", key)),
            },
            None => Err(field_err("integer", key)),
        },
        None => Err(field_err("integer", key)),
    }
}

/// Reads a required `u64` field, number- or string-presented.
pub fn req_u64(v: &JsonValue, key: &str) -> (r: Result<u64, DecodeError>)
    ensures
        r is Ok <==> int_field_in(v@, key@, 0, u64::MAX as int),
        r is Ok ==> Some(r->Ok_0 as int) == int_field(v@, key@),
        r is Err ==> r->Err_0@ == mismatch("unsigned integer"@, key@),
{
    match v.get_field(key) {
        Some(f) => match num_or_text(f) {
            Some(s) => match parse_uint_capped(s.as_str(), u64::MAX) {
                Some(x) => Ok(x),
                None => Err(field_err("unsigned integer", key)),
            },
            None => Err(field_err("unsigned integer", key)),
        },
        None => Err(field_err("unsigned integer", key)),
    }
}

/// Reads a required `u32` field, number- or string-presented.
pub fn req_u32(v: &JsonValue, key: &str) -> (r: Result<u32, DecodeError>)
    ensures
        r is Ok <==> int_field_in(v@, key@, 0, u32::MAX as int),
        r is Ok ==> Some(r->Ok_0 as int) == int_field(v@, key@),
        r is Err ==> r->Err_0@ == mismatch("unsigned integer"@, key@),
{
    match v.get_field(key) {
        Some(f) => match num_or_text(f) {
            Some(s) => match parse_uint_capped(s.as_str(), u32::MAX as u64) {
                Some(x) => Ok(x as u32),
                None => Err(field_err("unsigned integer", key)),
            },
            None => Err(field_err("unsigned integer", key)),
        },
        None => Err(field_err("unsigned integer", key)),
    }
}

/// How a typed model reads a JSON document.
pub trait FromJson: Sized {
    /// Whether the document carries every field the model requires, with
    /// the right JSON type.
    spec fn conforms(j: JVal) -> bool;

    /// How the decoded value's fields relate to the document.
    spec fn fields_match(j: JVal, t: Self) -> bool;

    /// The mismatch reported for a document that does not conform: the
    /// first required field, in declared order, that is missing or
    /// wrongly typed.
    spec fn first_err(j: JVal) -> DecodeErrV;

    /// Decodes the document into the model.
    fn from_json(v: &JsonValue) -> (r: Result<Self, DecodeError>)
        ensures
            r is Ok <==> Self::conforms(v@),
            r is Ok ==> Self::fields_match(v@, r->Ok_0),
            r is Err ==> r->Err_0@ == Self::first_err(v@),
    ;
}

/// An element error, re-rooted under the field that holds the object.
pub open spec fn dot_path(prefix: Seq<char>, e: DecodeErrV) -> DecodeErrV {
    match e {
        DecodeErrV::SchemaMismatch { expected, path } => DecodeErrV::SchemaMismatch {
            expected,
            path: prefix + "."@ + path,
        },
        DecodeErrV::MalformedJson => DecodeErrV::MalformedJson,
    }
}

/// An element error, re-rooted under position `i` of an array field.
pub open spec fn idx_path(prefix: Seq<char>, i: int, e: DecodeErrV) -> DecodeErrV {
    match e {
        DecodeErrV::SchemaMismatch { expected, path } => DecodeErrV::SchemaMismatch {
            expected,
            path: prefix + "["@ + dec_str(i as nat) + "]."@ + path,
        },
        DecodeErrV::MalformedJson => DecodeErrV::MalformedJson,
    }
}

/// Whether the field `key` holds an object `T` accepts.
pub open spec fn nested_field_ok<T: FromJson>(j: JVal, key: Seq<char>) -> bool {
    match obj_get(j, key) {
        Some(f) => T::conforms(f),
        None => false,
    }
}

/// The error for a nested field `T` does not accept.
pub open spec fn nested_field_err<T: FromJson>(j: JVal, key: Seq<char>) -> DecodeErrV {
    match obj_get(j, key) {
        Some(f) => dot_path(key, T::first_err(f)),
        None => mismatch("object"@, key),
    }
}

/// Re-roots a decode error under the field named `key`.
fn prefix_dot(key: &str, e: DecodeError) -> (r: DecodeError)
    ensures
        r@ == dot_path(key@, e@),
{
    match e {
        DecodeError::MalformedJson => DecodeError::MalformedJson,
        DecodeError::SchemaMismatch { expected, path } => {
            let mut p = key.to_owned();
            p.append(".");
            p.append(path.as_str());
            DecodeError::SchemaMismatch { expected, path: p }
        },
    }
}

/// Re-roots a decode error under position `i` of the array field `key`.
fn prefix_idx(key: &str, i: usize, e: DecodeError) -> (r: DecodeError)
    ensures
        r@ == idx_path(key@, i as int, e@),
{
    match e {
        DecodeError::MalformedJson => DecodeError::MalformedJson,
        DecodeError::SchemaMismatch { expected, path } => {
            let mut p = key.to_owned();
            p.append("[");
            let n = u64_to_dec(i as u64);
            p.append(n.as_str());
            p.append("].");
            p.append(path.as_str());
            DecodeError::SchemaMismatch { expected, path: p }
        },
    }
}

/// Reads a required object-valued field and decodes it as `T`.
pub fn req_nested<T: FromJson>(v: &JsonValue, key: &str) -> (r: Result<T, DecodeError>)
    ensures
        r is Ok <==> nested_field_ok::<T>(v@, key@),
        r is Ok ==> T::fields_match(obj_get(v@, key@)->0, r->Ok_0),
        r is Err ==> r->Err_0@ == nested_field_err::<T>(v@, key@),
{
    match v.get_field(key) {
        Some(f) => match T::from_json(f) {
            Ok(t) => Ok(t),
            Err(e) => Err(prefix_dot(key, e)),
        },
        None => Err(field_err("object", key)),
    }
}

/// The first position whose element `T` does not accept.
pub open spec fn first_nonconf<T: FromJson>(a: Seq<JVal>) -> int
    decreases a.len(),
{
    if a.len() == 0 {
        0
    } else if !T::conforms(a[0]) {
        0
    } else {
        1 + first_nonconf::<T>(a.drop_first())
    }
}

/// A scan that accepts everything before `i` and rejects `a[i]` stops at `i`.
proof fn lemma_first_nonconf_at<T: FromJson>(a: Seq<JVal>, i: int)
    requires
        0 <= i < a.len(),
        forall|k: int| 0 <= k < i ==> T::conforms(#[trigger] a[k]),
        !T::conforms(a[i]),
    ensures
        first_nonconf::<T>(a) == i,
    decreases i,
{
    if i > 0 {
        lemma_first_nonconf_at::<T>(a.drop_first(), i - 1);
    }
}

/// Whether every element of a sequence conforms to `T`.
pub open spec fn arr_elems_conform<T: FromJson>(a: Seq<JVal>) -> bool {
    forall|i: int| 0 <= i < a.len() ==> T::conforms(#[trigger] a[i])
}

/// Whether the field `key` holds an array whose elements all conform.
pub open spec fn vec_field_ok<T: FromJson>(j: JVal, key: Seq<char>) -> bool {
    match arr_field(j, key) {
        Some(a) => arr_elems_conform::<T>(a),
        None => false,
    }
}

/// The error for an array field `T` does not accept throughout.
pub open spec fn vec_field_err<T: FromJson>(j: JVal, key: Seq<char>) -> DecodeErrV {
    match arr_field(j, key) {
        Some(a) => idx_path(key, first_nonconf::<T>(a), T::first_err(a[first_nonconf::<T>(a)])),
        None => mismatch("array"@, key),
    }
}

/// Elementwise relation between an array and its decoded models.
pub open spec fn arr_matches<T: FromJson>(a: Seq<JVal>, ts: Seq<T>) -> bool {
    ts.len() == a.len() && forall|i: int|
        0 <= i < a.len() ==> T::fields_match(#[trigger] a[i], ts[i])
}

/// Reads a required array field and decodes every element as `T`.
pub fn req_vec<T: FromJson>(v: &JsonValue, key: &str) -> (r: Result<Vec<T>, DecodeError>)
    ensures
        r is Ok <==> vec_field_ok::<T>(v@, key@),
        r is Ok ==> arr_matches::<T>(arr_field(v@, key@)->0, r->Ok_0@),
        r is Err ==> r->Err_0@ == vec_field_err::<T>(v@, key@),
{
    match v.get_field(key) {
        Some(f) => match f {
            JsonValue::Array(items) => {
                proof {
                    lemma_jvals_of(items@);
                }
                let ghost a = jvals_of(items@);
                let mut out: Vec<T> = Vec::new();
                let mut i: usize = 0;
                while i < items.len()
                    invariant
                        i <= items@.len(),
                        out@.len() == i,
                        a == jvals_of(items@),
                        a.len() == items@.len(),
                        forall|k: int| 0 <= k < items@.len() ==> a[k] == items@[k].jval(),
                        arr_field(v@, key@) == Some(a),
                        forall|k: int| 0 <= k < i ==> T::conforms(#[trigger] a[k]),
                        forall|k: int|
                            0 <= k < i ==> T::fields_match(#[trigger] a[k], out@[k]),
                    decreases items@.len() - i,
                {
                    match T::from_json(&items[i]) {
                        Ok(t) => {
                            out.push(t);
                        },
                        Err(e) => {
                            proof {
                                lemma_first_nonconf_at::<T>(a, i as int);
                            }
                            return Err(prefix_idx(key, i, e));
                        },
                    }
                    i = i + 1;
                }
                Ok(out)
            },
            _ => Err(field_err("array", key)),
        },
        None => Err(field_err("array", key)),
    }
}

/// Whether the field `key` holds an array of strings.
pub open spec fn vec_string_field_ok(j: JVal, key: Seq<char>) -> bool {
    match arr_field(j, key) {
        Some(a) => forall|i: int| 0 <= i < a.len() ==> (#[trigger] a[i]) is Str,
        None => false,
    }
}

/// The first position of an array that is not a string.
pub open spec fn first_nonstr(a: Seq<JVal>) -> int
    decreases a.len(),
{
    if a.len() == 0 {
        0
    } else if !(a[0] is Str) {
        0
    } else {
        1 + first_nonstr(a.drop_first())
    }
}

/// A scan that sees strings before `i` and a non-string at `i` stops at `i`.
proof fn lemma_first_nonstr_at(a: Seq<JVal>, i: int)
    requires
        0 <= i < a.len(),
        forall|k: int| 0 <= k < i ==> (#[trigger] a[k]) is Str,
        !(a[i] is Str),
    ensures
        first_nonstr(a) == i,
    decreases i,
{
    if i > 0 {
        lemma_first_nonstr_at(a.drop_first(), i - 1);
    }
}

/// The error for an array field that should hold strings only.
pub open spec fn vec_string_field_err(j: JVal, key: Seq<char>) -> DecodeErrV {
    match arr_field(j, key) {
        Some(a) => mismatch("string"@, key + "["@ + dec_str(first_nonstr(a) as nat) + "]"@),
        None => mismatch("array"@, key),
    }
}

/// Elementwise relation between a string array and its decoded strings.
pub open spec fn arr_strings_match(a: Seq<JVal>, ts: Seq<String>) -> bool {
    ts.len() == a.len() && forall|i: int| 0 <= i < a.len() ==> a[i] == JVal::Str(#[trigger] ts[i]@)
}

/// Reads a required array-of-strings field.
pub fn req_vec_string(v: &JsonValue, key: &str) -> (r: Result<Vec<String>, DecodeError>)
    ensures
        r is Ok <==> vec_string_field_ok(v@, key@),
        r is Ok ==> arr_strings_match(arr_field(v@, key@)->0, r->Ok_0@),
        r is Err ==> r->Err_0@ == vec_string_field_err(v@, key@),
{
    match v.get_field(key) {
        Some(f) => match f {
            JsonValue::Array(items) => {
                proof {
                    lemma_jvals_of(items@);
                }
                let ghost a = jvals_of(items@);
                let mut out: Vec<String> = Vec::new();
                let mut i: usize = 0;
                while i < items.len()
                    invariant
                        i <= items@.len(),
                        out@.len() == i,
                        a == jvals_of(items@),
                        a.len() == items@.len(),
                        forall|k: int| 0 <= k < items@.len() ==> a[k] == items@[k].jval(),
                        arr_field(v@, key@) == Some(a),
                        forall|k: int| 0 <= k < i ==> (#[trigger] a[k]) is Str,
                        forall|k: int| 0 <= k < i ==> a[k] == JVal::Str(#[trigger] out@[k]@),
                    decreases items@.len() - i,
                {
                    match &items[i] {
                        JsonValue::Text(t) => {
                            out.push(t.clone());
                        },
                        _ => {
                            proof {
                                lemma_first_nonstr_at(a, i as int);
                            }
                            let mut p = key.to_owned();
                            p.append("[");
                            let n = u64_to_dec(i as u64);
                            p.append(n.as_str());
                            p.append("]");
                            return Err(
                                DecodeError::SchemaMismatch {
                                    expected: "string".to_owned(),
                                    path: p,
                                },
                            );
                        },
                    }
                    i = i + 1;
                }
                Ok(out)
            },
            _ => Err(field_err("array", key)),
        },
        None => Err(field_err("array", key)),
    }
}

/// An amount-like field decodes to the same normalized text whether the
/// document presents it as a JSON string or as the number whose decimal
/// rendering is that text.
pub proof fn lemma_amount_presentation(j1: JVal, j2: JVal, key: Seq<char>, n: Seq<char>)
    requires
        obj_get(j1, key) == Some(JVal::Str(n)),
        obj_get(j2, key) == Some(JVal::Num(n)),
    ensures
        amount_field(j1, key) == amount_field(j2, key),
        amount_field(j1, key) == Some(n),
{
}

/// Whether an optional string field is absent, null, or a string.
pub open spec fn opt_str_ok(j: JVal, key: Seq<char>) -> bool {
    match obj_get(j, key) {
        None => true,
        Some(JVal::Null) => true,
        Some(JVal::Str(_)) => true,
        _ => false,
    }
}

/// The value of an optional string field; absent and null read the same.
pub open spec fn opt_str_val(j: JVal, key: Seq<char>) -> Option<Seq<char>> {
    match obj_get(j, key) {
        Some(JVal::Str(s)) => Some(s),
        _ => None,
    }
}

/// Reads an optional string field: absent or null is `None`, any other
/// non-string value is a mismatch.
pub fn opt_string(v: &JsonValue, key: &str) -> (r: Result<Option<String>, DecodeError>)
    ensures
        r is Ok <==> opt_str_ok(v@, key@),
        r is Ok ==> match r->Ok_0 {
            Some(s) => opt_str_val(v@, key@) == Some(s@),
            None => opt_str_val(v@, key@) is None,
        },
        r is Err ==> r->Err_0@ == mismatch("string or null"@, key@),
{
    match v.get_field(key) {
        Some(f) => match f {
            JsonValue::Text(s) => Ok(Some(s.clone())),
            JsonValue::Null => Ok(None),
            _ => Err(field_err("string or null", key)),
        },
        None => Ok(None),
    }
}

/// Whether an optional object field is absent, null, or accepted by `T`.
pub open spec fn opt_nested_ok<T: FromJson>(j: JVal, key: Seq<char>) -> bool {
    match obj_get(j, key) {
        None => true,
        Some(JVal::Null) => true,
        Some(f) => T::conforms(f),
    }
}

/// Whether an optional object field holds a value (not absent or null).
pub open spec fn opt_nested_present(j: JVal, key: Seq<char>) -> bool {
    match obj_get(j, key) {
        Some(JVal::Null) => false,
        Some(_) => true,
        None => false,
    }
}

/// The error for an optional object field `T` does not accept.
pub open spec fn opt_nested_err<T: FromJson>(j: JVal, key: Seq<char>) -> DecodeErrV {
    match obj_get(j, key) {
        Some(f) => dot_path(key, T::first_err(f)),
        None => arbitrary(),
    }
}

/// Reads an optional object-valued field: absent or null is `None`, a
/// present value must decode as `T`.
pub fn opt_nested<T: FromJson>(v: &JsonValue, key: &str) -> (r: Result<Option<T>, DecodeError>)
    ensures
        r is Ok <==> opt_nested_ok::<T>(v@, key@),
        r is Ok ==> (r->Ok_0 is Some <==> opt_nested_present(v@, key@)),
        r is Ok && r->Ok_0 is Some ==> T::fields_match(obj_get(v@, key@)->0, r->Ok_0->0),
        r is Err ==> r->Err_0@ == opt_nested_err::<T>(v@, key@),
{
    match v.get_field(key) {
        Some(f) => match f {
            JsonValue::Null => Ok(None),
            _ => match T::from_json(f) {
                Ok(t) => Ok(Some(t)),
                Err(e) => Err(prefix_dot(key, e)),
            },
        },
        None => Ok(None),
    }
}

} // verus!
