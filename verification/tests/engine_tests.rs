use kaiascan::engine::{execute_response, is_success};
use kaiascan::envelope::ShapeTag;
use kaiascan::errors::{ApiError, DecodeError};
use kaiascan::models::TransactionStatus;

#[test]
fn status_classification_follows_the_2xx_rule() {
    assert!(is_success(200));
    assert!(is_success(204));
    assert!(is_success(299));
    assert!(!is_success(199));
    assert!(!is_success(300));
    assert!(!is_success(404));
    assert!(!is_success(500));
}

#[test]
fn non_2xx_yields_http_status_and_never_decodes() {
    // The body is not JSON at all; a decode attempt would fail with
    // MalformedJson, so getting HttpStatus shows no decode happened.
    let r: Result<TransactionStatus, ApiError> =
        execute_response(404, "<html>not found</html>", ShapeTag::Flat);
    match r {
        Err(ApiError::HttpStatus { code, body }) => {
            assert_eq!(code, 404);
            assert_eq!(body, "<html>not found</html>");
        }
        other => panic!("expected an http-status error, got {:?}", other),
    }
}

#[test]
fn error_statuses_preserve_well_formed_bodies_too() {
    let r: Result<TransactionStatus, ApiError> =
        execute_response(500, r#"{"status": "broken"}"#, ShapeTag::Flat);
    match r {
        Err(ApiError::HttpStatus { code, body }) => {
            assert_eq!(code, 500);
            assert_eq!(body, r#"{"status": "broken"}"#);
        }
        other => panic!("expected an http-status error, got {:?}", other),
    }
}

#[test]
fn success_status_decodes_the_body() {
    let r: Result<TransactionStatus, ApiError> =
        execute_response(200, r#"{"status": "Committed"}"#, ShapeTag::Flat);
    assert_eq!(r.unwrap().status, "Committed");
}

#[test]
fn success_status_with_bad_json_is_a_decode_error() {
    let r: Result<TransactionStatus, ApiError> = execute_response(200, "", ShapeTag::Flat);
    assert!(matches!(r, Err(ApiError::Decode(DecodeError::MalformedJson))));
}

#[test]
fn success_status_with_wrong_schema_is_a_decode_error() {
    let r: Result<TransactionStatus, ApiError> =
        execute_response(200, r#"{"other": 1}"#, ShapeTag::Flat);
    match r {
        Err(ApiError::Decode(DecodeError::SchemaMismatch { expected, path })) => {
            assert_eq!(expected, "string");
            assert_eq!(path, "status");
        }
        other => panic!("expected a decode error, got {:?}", other),
    }
}
