//! The error taxonomy: validation, transport, HTTP status, and decoding.
//!
//! Every failure a call can raise is one of these values; the engine does
//! no local recovery, so each carries enough context to diagnose the call
//! without re-issuing it.

use vstd::prelude::*;

verus! {

/// Why a response body could not be decoded.
#[derive(Debug, Clone)]
pub enum DecodeError {
    /// The body is not well-formed JSON.
    MalformedJson,
    /// A required field is missing or has the wrong JSON type.
    SchemaMismatch { expected: String, path: String },
}

/// The mathematical value of a `DecodeError`.
pub enum DecodeErrV {
    MalformedJson,
    SchemaMismatch { expected: Seq<char>, path: Seq<char> },
}

impl View for DecodeError {
    type V = DecodeErrV;

    open spec fn view(&self) -> DecodeErrV {
        match self {
            DecodeError::MalformedJson => DecodeErrV::MalformedJson,
            DecodeError::SchemaMismatch { expected, path } => DecodeErrV::SchemaMismatch {
                expected: expected@,
                path: path@,
            },
        }
    }
}

/// A schema mismatch naming the expected type and the field's path.
pub open spec fn mismatch(expected: Seq<char>, path: Seq<char>) -> DecodeErrV {
    DecodeErrV::SchemaMismatch { expected, path }
}

/// How a single call through the fetch engine failed.
#[derive(Debug, Clone)]
pub enum ApiError {
    /// The transport failed before any status was obtained.
    Transport { message: String },
    /// The configured per-call timeout elapsed.
    Timeout,
    /// The upstream answered with a non-2xx status; the raw body is kept
    /// for diagnostics.
    HttpStatus { code: u16, body: String },
    /// The upstream answered 2xx but the body did not decode.
    Decode(DecodeError),
}

/// The mathematical value of an `ApiError`.
pub enum ApiErrV {
    Transport { message: Seq<char> },
    Timeout,
    HttpStatus { code: u16, body: Seq<char> },
    Decode(DecodeErrV),
}

impl View for ApiError {
    type V = ApiErrV;

    open spec fn view(&self) -> ApiErrV {
        match self {
            ApiError::Transport { message } => ApiErrV::Transport { message: message@ },
            ApiError::Timeout => ApiErrV::Timeout,
            ApiError::HttpStatus { code, body } => ApiErrV::HttpStatus {
                code: *code,
                body: body@,
            },
            ApiError::Decode(e) => ApiErrV::Decode(e@),
        }
    }
}

} // verus!
