//! Response envelopes and the decode dispatch.
//!
//! Each endpoint declares which envelope its responses follow; the shape
//! is never inferred from content. `Flat` and `Paged` match the target
//! at the document root, `Coded` matches it under the `data` field of a
//! `{code, data, msg}` wrapper.

use vstd::prelude::*;

use crate::decode::{
    arr_field, arr_matches, int_field_in, nested_field_err, nested_field_ok, req_i64, req_nested,
    req_string, req_vec, str_field, vec_field_err, vec_field_ok, FromJson,
};
use crate::errors::{mismatch, DecodeErrV, DecodeError};
use crate::json::{obj_get, JVal, JsonValue};
use crate::models::Paging;
use crate::parse::{parse_document, parsed_json};

verus! {

/// Which envelope a response body follows.
#[derive(Debug, Clone, Copy, PartialEq, Eq, Structural)]
pub enum ShapeTag {
    /// The target's fields sit directly at the JSON root.
    Flat,
    /// The root is a `{results, paging}` page of the target.
    Paged,
    /// The root is a `{code, data, msg}` wrapper around the target.
    Coded,
}

/// A page of results together with its pagination metadata.
#[derive(Debug, Clone)]
pub struct Paged<T> {
    pub results: Vec<T>,
    pub paging: Paging,
}

/// Whether a document is a conforming page of `T`.
pub open spec fn paged_conforms<T: FromJson>(j: JVal) -> bool {
    vec_field_ok::<T>(j, "results"@) && nested_field_ok::<Paging>(j, "paging"@)
}

/// How a decoded page relates to its document.
pub open spec fn paged_matches<T: FromJson>(j: JVal, t: Paged<T>) -> bool {
    arr_matches::<T>(arr_field(j, "results"@)->0, t.results@) && Paging::fields_match(
        obj_get(j, "paging"@)->0,
        t.paging,
    )
}

/// The first failing field of a document for a page of `T`.
pub open spec fn paged_first_err<T: FromJson>(j: JVal) -> DecodeErrV {
    if !vec_field_ok::<T>(j, "results"@) {
        vec_field_err::<T>(j, "results"@)
    } else if !nested_field_ok::<Paging>(j, "paging"@) {
        nested_field_err::<Paging>(j, "paging"@)
    } else {
        arbitrary()
    }
}

impl<T: FromJson> FromJson for Paged<T> {
    open spec fn conforms(j: JVal) -> bool {
        paged_conforms::<T>(j)
    }

    open spec fn fields_match(j: JVal, t: Self) -> bool {
        paged_matches::<T>(j, t)
    }

    open spec fn first_err(j: JVal) -> DecodeErrV {
        paged_first_err::<T>(j)
    }

    fn from_json(v: &JsonValue) -> (r: Result<Self, DecodeError>) {
        let results = req_vec::<T>(v, "results")?;
        let paging = req_nested::<Paging>(v, "paging")?;
        Ok(Paged { results, paging })
    }
}

/// Whether a parsed document decodes as `T` under `shape`.
pub open spec fn decode_ok<T: FromJson>(j: JVal, shape: ShapeTag) -> bool {
    match shape {
        ShapeTag::Flat => T::conforms(j),
        ShapeTag::Paged => T::conforms(j),
        ShapeTag::Coded => int_field_in(j, "code"@, i64::MIN as int, i64::MAX as int) && str_field(
            j,
            "msg"@,
        ) is Some && nested_field_ok::<T>(j, "data"@),
    }
}

/// How the decoded value relates to the parsed document under `shape`.
pub open spec fn decode_match<T: FromJson>(j: JVal, shape: ShapeTag, t: T) -> bool {
    match shape {
        ShapeTag::Flat => T::fields_match(j, t),
        ShapeTag::Paged => T::fields_match(j, t),
        ShapeTag::Coded => T::fields_match(obj_get(j, "data"@)->0, t),
    }
}

/// The error reported for a parsed document that does not decode.
pub open spec fn decode_err<T: FromJson>(j: JVal, shape: ShapeTag) -> DecodeErrV {
    match shape {
        ShapeTag::Flat => T::first_err(j),
        ShapeTag::Paged => T::first_err(j),
        ShapeTag::Coded => if !int_field_in(j, "code"@, i64::MIN as int, i64::MAX as int) {
            mismatch("integer"@, "code"@)
        } else if !(str_field(j, "msg"@) is Some) {
            mismatch("string"@, "msg"@)
        } else {
            nested_field_err::<T>(j, "data"@)
        },
    }
}

/// Decodes a raw response body as `T` under the declared envelope.
///
/// A body that is not well-formed JSON fails with `MalformedJson`; a
/// well-formed body that does not match the target fails with the
/// schema mismatch of its first failing field.
pub fn decode_body<T: FromJson>(body: &str, shape: ShapeTag) -> (r: Result<T, DecodeError>)
    ensures
        parsed_json(body@) is None ==> r is Err && r->Err_0@ == DecodeErrV::MalformedJson,
        parsed_json(body@) is Some ==> {
            let j = parsed_json(body@)->0;
            &&& (r is Ok <==> decode_ok::<T>(j, shape))
            &&& (r is Ok ==> decode_match::<T>(j, shape, r->Ok_0))
            &&& (r is Err ==> r->Err_0@ == decode_err::<T>(j, shape))
        },
{
    let doc = parse_document(body)?;
    match shape {
        ShapeTag::Flat => T::from_json(&doc),
        ShapeTag::Paged => T::from_json(&doc),
        ShapeTag::Coded => {
            let _code = req_i64(&doc, "code")?;
            let _msg = req_string(&doc, "msg")?;
            req_nested::<T>(&doc, "data")
        },
    }
}

} // verus!
