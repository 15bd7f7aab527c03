use kaiascan::address::Address;
use kaiascan::endpoints::{
    account_event_logs_url, account_token_balances_url, block_url, blocks_url,
    fungible_token_url, latest_block_burns_url, latest_block_url, transaction_event_logs_url,
    transaction_input_data_url, transactions_of_block_url,
};
use kaiascan::network::Network;
use kaiascan::pagination::ValidationError;
use kaiascan::urls::{build, percent_encode};

#[test]
fn empty_query_has_no_question_mark() {
    let url = build("https://example.test", "api/v1/x", &vec![]);
    assert_eq!(url, "https://example.test/api/v1/x");
}

#[test]
fn trailing_slash_base_joins_with_one_slash() {
    let url = build("https://example.test/", "api/v1/x", &vec![]);
    assert_eq!(url, "https://example.test/api/v1/x");
    let url = build("https://example.test/", "/api/v1/x", &vec![]);
    assert_eq!(url, "https://example.test/api/v1/x");
    let url = build("https://example.test", "/api/v1/x", &vec![]);
    assert_eq!(url, "https://example.test/api/v1/x");
}

#[test]
fn query_pairs_keep_their_order() {
    let q = vec![
        ("a".to_string(), "1".to_string()),
        ("b".to_string(), "2".to_string()),
    ];
    let url = build("https://example.test", "api/v1/x", &q);
    assert_eq!(url, "https://example.test/api/v1/x?a=1&b=2");
}

#[test]
fn reserved_characters_are_percent_encoded() {
    assert_eq!(percent_encode("0x5c74070fdea071359b86082bd9f9b3deaafbe32b"), "0x5c74070fdea071359b86082bd9f9b3deaafbe32b");
    assert_eq!(percent_encode("a b"), "a%20b");
    assert_eq!(
        percent_encode("Transfer(address,address,uint256)"),
        "Transfer%28address%2Caddress%2Cuint256%29"
    );
    let q = vec![("signature".to_string(), "Transfer(address,uint256)".to_string())];
    let url = build("https://example.test", "api/v1/x", &q);
    assert_eq!(
        url,
        "https://example.test/api/v1/x?signature=Transfer%28address%2Cuint256%29"
    );
}

#[test]
fn address_wraps_its_string() {
    let a = Address::new("0x5c74070fdea071359b86082bd9f9b3deaafbe32b");
    assert_eq!(a.as_ref(), "0x5c74070fdea071359b86082bd9f9b3deaafbe32b");
}

#[test]
fn network_selects_its_base_url() {
    assert_eq!(
        Network::from_flag(false).base_url(),
        "https://mainnet-oapi.kaiascan.io/"
    );
    assert_eq!(
        Network::from_flag(true).base_url(),
        "https://kairos-oapi.kaiscan.io/"
    );
}

#[test]
fn fungible_token_url_interpolates_the_address() {
    let a = Address::new("0x5c74070fdea071359b86082bd9f9b3deaafbe32b");
    assert_eq!(
        fungible_token_url(Network::Mainnet, &a),
        "https://mainnet-oapi.kaiascan.io/api/v1/tokens/0x5c74070fdea071359b86082bd9f9b3deaafbe32b"
    );
}

#[test]
fn latest_block_url_is_fixed() {
    assert_eq!(
        latest_block_url(Network::Mainnet),
        "https://mainnet-oapi.kaiascan.io/api/v1/blocks/latest"
    );
}

#[test]
fn block_url_renders_negative_numbers() {
    assert_eq!(
        block_url(Network::Mainnet, 16973854),
        "https://mainnet-oapi.kaiascan.io/api/v1/blocks?blockNumber=16973854"
    );
    assert_eq!(
        block_url(Network::Mainnet, -5),
        "https://mainnet-oapi.kaiascan.io/api/v1/blocks?blockNumber=-5"
    );
}

#[test]
fn transactions_of_block_url_uses_the_path() {
    assert_eq!(
        transactions_of_block_url(Network::Mainnet, 16973854),
        "https://mainnet-oapi.kaiascan.io/api/v1/blocks/16973854/transactions"
    );
}

#[test]
fn blocks_url_orders_all_parameters() {
    let url = blocks_url(Network::Mainnet, 123456, None, None, Some(2), Some(5)).unwrap();
    assert_eq!(
        url,
        "https://mainnet-oapi.kaiascan.io/api/v1/blocks?blockNumber=123456&page=2&size=5"
    );
    let url = blocks_url(Network::Mainnet, 123456, Some(100), Some(200), None, None).unwrap();
    assert_eq!(
        url,
        "https://mainnet-oapi.kaiascan.io/api/v1/blocks?blockNumber=123456&blockNumberStart=100&blockNumberEnd=200&page=1&size=20"
    );
}

#[test]
fn paginated_urls_reject_page_zero_before_any_request() {
    let a = Address::new("0xabc");
    assert_eq!(
        account_token_balances_url(Network::Mainnet, &a, Some(0), Some(20)),
        Err(ValidationError::PageTooSmall)
    );
    assert_eq!(
        blocks_url(Network::Mainnet, 1, None, None, Some(0), None),
        Err(ValidationError::PageTooSmall)
    );
    assert_eq!(
        latest_block_burns_url(Network::Mainnet, Some(0), Some(5)),
        Err(ValidationError::PageTooSmall)
    );
}

#[test]
fn paginated_urls_reject_bad_sizes() {
    let a = Address::new("0xabc");
    assert_eq!(
        account_token_balances_url(Network::Mainnet, &a, Some(1), Some(2001)),
        Err(ValidationError::SizeOutOfRange)
    );
    assert_eq!(
        account_token_balances_url(Network::Mainnet, &a, Some(1), Some(0)),
        Err(ValidationError::SizeOutOfRange)
    );
}

#[test]
fn latest_block_burns_url_carries_page_and_size() {
    assert_eq!(
        latest_block_burns_url(Network::Mainnet, Some(2), Some(5)).unwrap(),
        "https://mainnet-oapi.kaiascan.io/api/v1/blocks/latest/burns?page=2&size=5"
    );
}

#[test]
fn event_logs_url_appends_optional_parameters_in_order() {
    let a = Address::new("0xabc");
    let url = account_event_logs_url(
        Network::Mainnet,
        &a,
        Some(2),
        Some(10),
        Some("Transfer(address,address,uint256)"),
        Some(100),
        Some(200),
    )
    .unwrap();
    assert_eq!(
        url,
        "https://mainnet-oapi.kaiascan.io/api/v1/accounts/0xabc/event-logs?page=2&size=10&signature=Transfer%28address%2Caddress%2Cuint256%29&blockNumberStart=100&blockNumberEnd=200"
    );
    let url = account_event_logs_url(Network::Mainnet, &a, None, None, None, None, None).unwrap();
    assert_eq!(
        url,
        "https://mainnet-oapi.kaiascan.io/api/v1/accounts/0xabc/event-logs?page=1&size=20"
    );
}

#[test]
fn transaction_accessors_require_a_hash() {
    assert_eq!(
        transaction_event_logs_url(Network::Mainnet, "", Some(1), Some(20), None),
        Err(ValidationError::MissingTransactionHash)
    );
    assert_eq!(
        transaction_input_data_url(Network::Mainnet, ""),
        Err(ValidationError::MissingTransactionHash)
    );
    assert_eq!(
        transaction_input_data_url(Network::Mainnet, "0xdead").unwrap(),
        "https://mainnet-oapi.kaiascan.io/api/v1/transactions/0xdead/input-data"
    );
}
