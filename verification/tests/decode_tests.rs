use kaiascan::decode::{req_amount, req_u64};
use kaiascan::envelope::{decode_body, Paged, ShapeTag};
use kaiascan::errors::DecodeError;
use kaiascan::json::JsonValue;
use kaiascan::models::{
    AccountKeyHistory, BlockBurns, EventLogResult, LatestBlock, TokenInfo, TransactionsResponse,
};
use kaiascan::parse::parse_document;

const TOKEN_BODY: &str = r#"{
    "contract_type": "ERC20",
    "name": "TestToken",
    "symbol": "TT",
    "icon": "https://example.com/icon.png",
    "decimal": 18,
    "total_supply": 1000000.0,
    "total_transfers": 500,
    "official_site": "https://example.com",
    "burn_amount": "1000",
    "total_burns": 10
}"#;

#[test]
fn flat_token_body_decodes_every_field() {
    let t: TokenInfo = decode_body(TOKEN_BODY, ShapeTag::Flat).unwrap();
    assert_eq!(t.contract_type, "ERC20");
    assert_eq!(t.name, "TestToken");
    assert_eq!(t.symbol, "TT");
    assert_eq!(t.icon, "https://example.com/icon.png");
    assert_eq!(t.decimal, 18);
    assert_eq!(t.total_supply, "1000000.0");
    assert_eq!(t.total_transfers, 500);
    assert_eq!(t.official_site, "https://example.com");
    assert_eq!(t.burn_amount, "1000");
    assert_eq!(t.total_burns, 10);
}

#[test]
fn unknown_fields_are_ignored() {
    let body = r#"{"status": "ok", "somethingElse": [1, 2, {"x": null}]}"#;
    let t: kaiascan::models::TransactionStatus = decode_body(body, ShapeTag::Flat).unwrap();
    assert_eq!(t.status, "ok");
}

#[test]
fn amount_normalizes_string_and_number_alike() {
    let as_number = parse_document(r#"{"x": 1000000.0}"#).unwrap();
    let as_string = parse_document(r#"{"x": "1000000.0"}"#).unwrap();
    let a = req_amount(&as_number, "x").unwrap();
    let b = req_amount(&as_string, "x").unwrap();
    assert_eq!(a, "1000000.0");
    assert_eq!(a, b);
}

#[test]
fn integer_fields_accept_string_presentation() {
    let body = r#"{"block_id": "16973854", "amount": 12.5, "datetime": "2024-01-01"}"#;
    let b: BlockBurns = decode_body(body, ShapeTag::Flat).unwrap();
    assert_eq!(b.block_id, 16973854);
    assert_eq!(b.amount, "12.5");
    assert_eq!(b.datetime, "2024-01-01");
}

#[test]
fn u64_fields_take_the_full_range() {
    let doc = parse_document(r#"{"a": 18446744073709551615}"#).unwrap();
    assert_eq!(req_u64(&doc, "a").unwrap(), u64::MAX);
    let doc = parse_document(r#"{"a": -1}"#).unwrap();
    assert!(req_u64(&doc, "a").is_err());
}

#[test]
fn paged_envelope_decodes_results_and_paging() {
    let body = r#"{
        "results": [{
            "address": "0xabc",
            "key_type": "public",
            "public_key": "0x04deadbeef",
            "created_at": "2024-01-01T00:00:00Z"
        }],
        "paging": {"current_page": 1, "total_page": 1, "total_count": 1, "last": true}
    }"#;
    let page: Paged<AccountKeyHistory> = decode_body(body, ShapeTag::Paged).unwrap();
    assert_eq!(page.results.len(), 1);
    assert_eq!(page.results[0].address, "0xabc");
    assert_eq!(page.paging.current_page, 1);
    assert_eq!(page.paging.total_page, 1);
    assert_eq!(page.paging.total_count, 1);
    assert!(page.paging.last);
}

#[test]
fn missing_required_field_names_its_path() {
    let body = r#"{
        "contract_type": "ERC20",
        "symbol": "TT",
        "icon": "i",
        "decimal": 18,
        "total_supply": "1",
        "total_transfers": 1,
        "official_site": "s",
        "burn_amount": "0",
        "total_burns": 0
    }"#;
    let r: Result<TokenInfo, DecodeError> = decode_body(body, ShapeTag::Flat);
    match r {
        Err(DecodeError::SchemaMismatch { expected, path }) => {
            assert_eq!(expected, "string");
            assert_eq!(path, "name");
        }
        other => panic!("expected a schema mismatch, got {:?}", other),
    }
}

#[test]
fn wrongly_typed_field_names_its_path() {
    let body = r#"{"status": 7}"#;
    let r: Result<kaiascan::models::TransactionStatus, DecodeError> =
        decode_body(body, ShapeTag::Flat);
    match r {
        Err(DecodeError::SchemaMismatch { expected, path }) => {
            assert_eq!(expected, "string");
            assert_eq!(path, "status");
        }
        other => panic!("expected a schema mismatch, got {:?}", other),
    }
}

#[test]
fn nested_failures_carry_the_full_path() {
    let body = r#"{
        "results": [{"amount": "1"}],
        "paging": {"current_page": 1, "total_page": 1, "total_count": 1, "last": true}
    }"#;
    let r: Result<TransactionsResponse, DecodeError> = decode_body(body, ShapeTag::Flat);
    match r {
        Err(DecodeError::SchemaMismatch { expected, path }) => {
            assert_eq!(expected, "integer");
            assert_eq!(path, "results[0].block_id");
        }
        other => panic!("expected a schema mismatch, got {:?}", other),
    }

    let body = r#"{
        "block_id": 1,
        "datetime": "d",
        "hash": "h",
        "total_transaction_count": 0,
        "block_reward": {"minted": "1", "total_fee": "2"}
    }"#;
    let r: Result<LatestBlock, DecodeError> = decode_body(body, ShapeTag::Flat);
    match r {
        Err(DecodeError::SchemaMismatch { expected, path }) => {
            assert_eq!(expected, "string or number");
            assert_eq!(path, "block_reward.burnt_fee");
        }
        other => panic!("expected a schema mismatch, got {:?}", other),
    }
}

#[test]
fn malformed_json_is_its_own_error() {
    let r: Result<TokenInfo, DecodeError> = decode_body("{not json", ShapeTag::Flat);
    assert!(matches!(r, Err(DecodeError::MalformedJson)));
    let r: Result<TokenInfo, DecodeError> = decode_body("", ShapeTag::Flat);
    assert!(matches!(r, Err(DecodeError::MalformedJson)));
}

#[test]
fn coded_envelope_unwraps_its_data() {
    let body = r#"{
        "code": 0,
        "data": {"status": "Success"},
        "msg": "ok"
    }"#;
    let t: kaiascan::models::TransactionStatus = decode_body(body, ShapeTag::Coded).unwrap();
    assert_eq!(t.status, "Success");
}

#[test]
fn coded_envelope_requires_its_wrapper_fields() {
    let r: Result<kaiascan::models::TransactionStatus, DecodeError> =
        decode_body(r#"{"data": {"status": "x"}, "msg": "ok"}"#, ShapeTag::Coded);
    match r {
        Err(DecodeError::SchemaMismatch { expected, path }) => {
            assert_eq!(expected, "integer");
            assert_eq!(path, "code");
        }
        other => panic!("expected a schema mismatch, got {:?}", other),
    }
    let r: Result<kaiascan::models::TransactionStatus, DecodeError> =
        decode_body(r#"{"code": 0, "msg": "ok"}"#, ShapeTag::Coded);
    match r {
        Err(DecodeError::SchemaMismatch { expected, path }) => {
            assert_eq!(expected, "object");
            assert_eq!(path, "data");
        }
        other => panic!("expected a schema mismatch, got {:?}", other),
    }
}

#[test]
fn event_logs_decode_arrays_of_strings_and_items() {
    let body = r#"{
        "log_index": 3,
        "contract_address": "0xc",
        "log_type": "Transfer",
        "topics": ["0xt1", "0xt2"],
        "data": "0x00",
        "items": [{"name": "from", "value": "0xa"}, {"name": "to", "value": "0xb"}],
        "block_number": 99,
        "transaction_hash": "0xh",
        "estimated_event_log": false
    }"#;
    let e: EventLogResult = decode_body(body, ShapeTag::Flat).unwrap();
    assert_eq!(e.log_index, 3);
    assert_eq!(e.topics, vec!["0xt1".to_string(), "0xt2".to_string()]);
    assert_eq!(e.items.len(), 2);
    assert_eq!(e.items[1].name, "to");
    assert_eq!(e.items[1].value, "0xb");
    assert_eq!(e.block_number, 99);
    assert!(!e.estimated_event_log);
}

#[test]
fn parsed_documents_are_structured_values() {
    let doc = parse_document(r#"{"a": 7}"#).unwrap();
    assert!(matches!(doc, JsonValue::Object(_)));
    assert_eq!(req_u64(&doc, "a").unwrap(), 7);
}

#[test]
fn reward_type_reads_the_upstream_type_key() {
    let body = r#"{
        "burnt_fee": "1",
        "distributions": [{"amount": "10", "type": "block"}],
        "minted": "5",
        "recipients": [{"address": "0xa", "amount": "10", "name": "n", "type": "proposer"}],
        "total_fee": "2"
    }"#;
    let r: kaiascan::models::BlockRewardsResponse = decode_body(body, ShapeTag::Flat).unwrap();
    assert_eq!(r.distributions[0].distribution_type, "block");
    assert_eq!(r.recipients[0].reward_type, "proposer");
}

#[test]
fn camel_case_models_read_their_renamed_keys() {
    let body = r#"{
        "contract": {"contract_address": "0xc", "contract_type": "KIP7"},
        "blockId": 5,
        "transactionHash": "0xh",
        "feePayer": "0xf",
        "transactionIndex": 2,
        "datetime": "2024-01-01",
        "from": "0xa",
        "to": "0xb",
        "amount": 1000
    }"#;
    let t: kaiascan::models::TokenTransfer = decode_body(body, ShapeTag::Flat).unwrap();
    assert_eq!(t.contract.contract_type, "KIP7");
    assert_eq!(t.block_id, 5);
    assert_eq!(t.transaction_index, 2);
    assert_eq!(t.amount, 1000);

    let body = r#"{"totalCount": 9, "currentPage": 1, "last": false, "totalPage": 3}"#;
    let p: kaiascan::models::Pagin = decode_body(body, ShapeTag::Flat).unwrap();
    assert_eq!(p.total_count, 9);
    assert_eq!(p.total_page, 3);
    assert!(!p.last);
}

#[test]
fn optional_fields_accept_absence_null_and_values() {
    let body = r#"{
        "originalValue": "0x00",
        "decodedValue": null,
        "utf8Value": null
    }"#;
    let t: kaiascan::models::TransactionInputData = decode_body(body, ShapeTag::Flat).unwrap();
    assert!(t.decoded_value.is_none());
    assert!(t.utf8_value.is_none());

    let body = r#"{"originalValue": "0x00"}"#;
    let t: kaiascan::models::TransactionInputData = decode_body(body, ShapeTag::Flat).unwrap();
    assert!(t.decoded_value.is_none());
    assert!(t.utf8_value.is_none());

    let body = r#"{
        "originalValue": "0x00",
        "decodedValue": {
            "signature": "transfer(address,uint256)",
            "methodId": "0xa9059cbb",
            "parameters": [{"type": "address", "name": "to", "value": "0xb"}]
        },
        "utf8Value": "hello"
    }"#;
    let t: kaiascan::models::TransactionInputData = decode_body(body, ShapeTag::Flat).unwrap();
    let d = t.decoded_value.unwrap();
    assert_eq!(d.method_id, "0xa9059cbb");
    assert_eq!(d.parameters[0].param_type, "address");
    assert_eq!(d.parameters[0].name, "to");
    assert_eq!(t.utf8_value.unwrap(), "hello");
}

#[test]
fn wrongly_typed_optional_field_is_a_mismatch() {
    let body = r#"{"originalValue": "0x00", "utf8Value": 7}"#;
    let r: Result<kaiascan::models::TransactionInputData, DecodeError> =
        decode_body(body, ShapeTag::Flat);
    match r {
        Err(DecodeError::SchemaMismatch { expected, path }) => {
            assert_eq!(expected, "string or null");
            assert_eq!(path, "utf8Value");
        }
        other => panic!("expected a schema mismatch, got {:?}", other),
    }
}

#[test]
fn internal_transaction_entries_decode_their_parameters() {
    let body = r#"{
        "signature": "callIt()",
        "method_id": "0x1234",
        "parameters": [{"param_type": "uint256", "value": "7"}]
    }"#;
    let t: kaiascan::models::InternalTransactionEntry = decode_body(body, ShapeTag::Flat).unwrap();
    assert_eq!(t.signature, "callIt()");
    assert_eq!(t.parameters[0].param_type, "uint256");
}
