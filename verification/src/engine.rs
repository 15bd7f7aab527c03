//! The fetch engine's response handling.
//!
//! The transport hands back a status code and a raw body; everything
//! after that point is verified. A non-2xx status is classified without
//! ever decoding the body; a 2xx body goes to the response decoder, and
//! any decode failure is wrapped into the error taxonomy.

use vstd::prelude::*;

use crate::decode::FromJson;
use crate::envelope::{decode_body, decode_err, decode_match, decode_ok, ShapeTag};
use crate::errors::{ApiErrV, ApiError, DecodeErrV};
use crate::parse::parsed_json;

verus! {

/// Whether an HTTP status code reports success.
pub open spec fn spec_is_success(code: u16) -> bool {
    200 <= code < 300
}

/// Whether an HTTP status code reports success.
pub fn is_success(code: u16) -> (r: bool)
    ensures
        r == spec_is_success(code),
{
    200 <= code && code < 300
}

/// Classifies a transport response and decodes its body.
///
/// Any non-2xx status yields `HttpStatus` carrying the status and the
/// raw body, and the body is never decoded. On a 2xx status the body is
/// decoded as `T` under the declared envelope; a failure there yields
/// `Decode` with the exact cause.
pub fn execute_response<T: FromJson>(status: u16, body: &str, shape: ShapeTag) -> (r: Result<
    T,
    ApiError,
>)
    ensures
        !spec_is_success(status) ==> r is Err && r->Err_0@ == (ApiErrV::HttpStatus {
            code: status,
            body: body@,
        }),
        spec_is_success(status) && parsed_json(body@) is None ==> r is Err && r->Err_0@
            == ApiErrV::Decode(DecodeErrV::MalformedJson),
        spec_is_success(status) && parsed_json(body@) is Some ==> {
            let j = parsed_json(body@)->0;
            &&& (r is Ok <==> decode_ok::<T>(j, shape))
            &&& (r is Ok ==> decode_match::<T>(j, shape, r->Ok_0))
            &&& (r is Err ==> r->Err_0@ == ApiErrV::Decode(decode_err::<T>(j, shape)))
        },
{
    if !is_success(status) {
        return Err(ApiError::HttpStatus { code: status, body: body.to_owned() });
    }
    match decode_body::<T>(body, shape) {
        Ok(t) => Ok(t),
        Err(e) => Err(ApiError::Decode(e)),
    }
}

} // verus!
