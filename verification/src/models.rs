//! The per-endpoint response models, with verified decoders.
//!
//! Each model is a plain data record whose fields mirror the upstream
//! schema; its decoder checks the document structurally, field by field
//! in declared order, and reports the first field that is missing or
//! wrongly typed. Unknown upstream fields are ignored.

use vstd::prelude::*;

use crate::decode::{
    amount_field, arr_field, arr_matches, arr_strings_match, bool_field, int_field, int_field_in,
    nested_field_err, nested_field_ok, opt_nested, opt_nested_err, opt_nested_ok,
    opt_nested_present, opt_str_ok, opt_str_val, opt_string, req_amount, req_bool, req_i32,
    req_i64, req_nested, req_string, req_u32, req_u64, req_vec, req_vec_string, str_field,
    vec_field_err, vec_field_ok, vec_string_field_err, vec_string_field_ok, FromJson,
};
use crate::errors::{mismatch, DecodeErrV, DecodeError};
use crate::json::{obj_get, JVal, JsonValue};

verus! {

/// Pagination metadata for a result page, snake_case form.
#[derive(Debug, Clone)]
pub struct Paging {
    pub current_page: i64,
    pub last: bool,
    pub total_count: i64,
    pub total_page: i64,
}

/// Whether a document carries every field `Paging` requires.
pub open spec fn paging_conforms(j: JVal) -> bool {
    &&& int_field_in(j, "current_page"@, i64::MIN as int, i64::MAX as int)
    &&& bool_field(j, "last"@) is Some
    &&& int_field_in(j, "total_count"@, i64::MIN as int, i64::MAX as int)
    &&& int_field_in(j, "total_page"@, i64::MIN as int, i64::MAX as int)
}

/// How a decoded `Paging` relates to its document.
pub open spec fn paging_matches(j: JVal, t: Paging) -> bool {
    &&& Some(t.current_page as int) == int_field(j, "current_page"@)
    &&& Some(t.last) == bool_field(j, "last"@)
    &&& Some(t.total_count as int) == int_field(j, "total_count"@)
    &&& Some(t.total_page as int) == int_field(j, "total_page"@)
}

/// The first missing or wrongly typed field of a document for `Paging`.
pub open spec fn paging_first_err(j: JVal) -> DecodeErrV {
    if !(int_field_in(j, "current_page"@, i64::MIN as int, i64::MAX as int)) {
        mismatch("integer"@, "current_page"@)
    } else if !(bool_field(j, "last"@) is Some) {
        mismatch("boolean"@, "last"@)
    } else if !(int_field_in(j, "total_count"@, i64::MIN as int, i64::MAX as int)) {
        mismatch("integer"@, "total_count"@)
    } else if !(int_field_in(j, "total_page"@, i64::MIN as int, i64::MAX as int)) {
        mismatch("integer"@, "total_page"@)
    } else {
        arbitrary()
    }
}

impl FromJson for Paging {
    open spec fn conforms(j: JVal) -> bool {
        paging_conforms(j)
    }

    open spec fn fields_match(j: JVal, t: Self) -> bool {
        paging_matches(j, t)
    }

    open spec fn first_err(j: JVal) -> DecodeErrV {
        paging_first_err(j)
    }

    fn from_json(v: &JsonValue) -> (r: Result<Self, DecodeError>) {
        let current_page = req_i64(v, "current_page")?;
        let last = req_bool(v, "last")?;
        let total_count = req_i64(v, "total_count")?;
        let total_page = req_i64(v, "total_page")?;
        Ok(Paging { current_page, last, total_count, total_page })
    }
}

/// A fungible token's descriptive record.
#[derive(Debug, Clone)]
pub struct TokenInfo {
    pub contract_type: String,
    pub name: String,
    pub symbol: String,
    pub icon: String,
    pub decimal: i32,
    pub total_supply: String,
    pub total_transfers: i64,
    pub official_site: String,
    pub burn_amount: String,
    pub total_burns: i64,
}

/// Whether a document carries every field `TokenInfo` requires.
pub open spec fn token_info_conforms(j: JVal) -> bool {
    &&& str_field(j, "contract_type"@) is Some
    &&& str_field(j, "name"@) is Some
    &&& str_field(j, "symbol"@) is Some
    &&& str_field(j, "icon"@) is Some
    &&& int_field_in(j, "decimal"@, i32::MIN as int, i32::MAX as int)
    &&& amount_field(j, "total_supply"@) is Some
    &&& int_field_in(j, "total_transfers"@, i64::MIN as int, i64::MAX as int)
    &&& str_field(j, "official_site"@) is Some
    &&& amount_field(j, "burn_amount"@) is Some
    &&& int_field_in(j, "total_burns"@, i64::MIN as int, i64::MAX as int)
}

/// How a decoded `TokenInfo` relates to its document.
pub open spec fn token_info_matches(j: JVal, t: TokenInfo) -> bool {
    &&& Some(t.contract_type@) == str_field(j, "contract_type"@)
    &&& Some(t.name@) == str_field(j, "name"@)
    &&& Some(t.symbol@) == str_field(j, "symbol"@)
    &&& Some(t.icon@) == str_field(j, "icon"@)
    &&& Some(t.decimal as int) == int_field(j, "decimal"@)
    &&& Some(t.total_supply@) == amount_field(j, "total_supply"@)
    &&& Some(t.total_transfers as int) == int_field(j, "total_transfers"@)
    &&& Some(t.official_site@) == str_field(j, "official_site"@)
    &&& Some(t.burn_amount@) == amount_field(j, "burn_amount"@)
    &&& Some(t.total_burns as int) == int_field(j, "total_burns"@)
}

/// The first missing or wrongly typed field of a document for `TokenInfo`.
pub open spec fn token_info_first_err(j: JVal) -> DecodeErrV {
    if !(str_field(j, "contract_type"@) is Some) {
        mismatch("string"@, "contract_type"@)
    } else if !(str_field(j, "name"@) is Some) {
        mismatch("string"@, "name"@)
    } else if !(str_field(j, "symbol"@) is Some) {
        mismatch("string"@, "symbol"@)
    } else if !(str_field(j, "icon"@) is Some) {
        mismatch("string"@, "icon"@)
    } else if !(int_field_in(j, "decimal"@, i32::MIN as int, i32::MAX as int)) {
        mismatch("integer"@, "decimal"@)
    } else if !(amount_field(j, "total_supply"@) is Some) {
        mismatch("string or number"@, "total_supply"@)
    } else if !(int_field_in(j, "total_transfers"@, i64::MIN as int, i64::MAX as int)) {
        mismatch("integer"@, "total_transfers"@)
    } else if !(str_field(j, "official_site"@) is Some) {
        mismatch("string"@, "official_site"@)
    } else if !(amount_field(j, "burn_amount"@) is Some) {
        mismatch("string or number"@, "burn_amount"@)
    } else if !(int_field_in(j, "total_burns"@, i64::MIN as int, i64::MAX as int)) {
        mismatch("integer"@, "total_burns"@)
    } else {
        arbitrary()
    }
}

impl FromJson for TokenInfo {
    open spec fn conforms(j: JVal) -> bool {
        token_info_conforms(j)
    }

    open spec fn fields_match(j: JVal, t: Self) -> bool {
        token_info_matches(j, t)
    }

    open spec fn first_err(j: JVal) -> DecodeErrV {
        token_info_first_err(j)
    }

    fn from_json(v: &JsonValue) -> (r: Result<Self, DecodeError>) {
        let contract_type = req_string(v, "contract_type")?;
        let name = req_string(v, "name")?;
        let symbol = req_string(v, "symbol")?;
        let icon = req_string(v, "icon")?;
        let decimal = req_i32(v, "decimal")?;
        let total_supply = req_amount(v, "total_supply")?;
        let total_transfers = req_i64(v, "total_transfers")?;
        let official_site = req_string(v, "official_site")?;
        let burn_amount = req_amount(v, "burn_amount")?;
        let total_burns = req_i64(v, "total_burns")?;
        Ok(TokenInfo { contract_type, name, symbol, icon, decimal, total_supply, total_transfers, official_site, burn_amount, total_burns })
    }
}

/// The reward summary nested in a block record.
#[derive(Debug, Clone)]
pub struct BlockReward {
    pub minted: String,
    pub total_fee: String,
    pub burnt_fee: String,
}

/// Whether a document carries every field `BlockReward` requires.
pub open spec fn block_reward_conforms(j: JVal) -> bool {
    &&& amount_field(j, "minted"@) is Some
    &&& amount_field(j, "total_fee"@) is Some
    &&& amount_field(j, "burnt_fee"@) is Some
}

/// How a decoded `BlockReward` relates to its document.
pub open spec fn block_reward_matches(j: JVal, t: BlockReward) -> bool {
    &&& Some(t.minted@) == amount_field(j, "minted"@)
    &&& Some(t.total_fee@) == amount_field(j, "total_fee"@)
    &&& Some(t.burnt_fee@) == amount_field(j, "burnt_fee"@)
}

/// The first missing or wrongly typed field of a document for `BlockReward`.
pub open spec fn block_reward_first_err(j: JVal) -> DecodeErrV {
    if !(amount_field(j, "minted"@) is Some) {
        mismatch("string or number"@, "minted"@)
    } else if !(amount_field(j, "total_fee"@) is Some) {
        mismatch("string or number"@, "total_fee"@)
    } else if !(amount_field(j, "burnt_fee"@) is Some) {
        mismatch("string or number"@, "burnt_fee"@)
    } else {
        arbitrary()
    }
}

impl FromJson for BlockReward {
    open spec fn conforms(j: JVal) -> bool {
        block_reward_conforms(j)
    }

    open spec fn fields_match(j: JVal, t: Self) -> bool {
        block_reward_matches(j, t)
    }

    open spec fn first_err(j: JVal) -> DecodeErrV {
        block_reward_first_err(j)
    }

    fn from_json(v: &JsonValue) -> (r: Result<Self, DecodeError>) {
        let minted = req_amount(v, "minted")?;
        let total_fee = req_amount(v, "total_fee")?;
        let burnt_fee = req_amount(v, "burnt_fee")?;
        Ok(BlockReward { minted, total_fee, burnt_fee })
    }
}

/// The most recent block.
#[derive(Debug, Clone)]
pub struct LatestBlock {
    pub block_id: i64,
    pub datetime: String,
    pub hash: String,
    pub total_transaction_count: i64,
    pub block_reward: BlockReward,
}

/// Whether a document carries every field `LatestBlock` requires.
pub open spec fn latest_block_conforms(j: JVal) -> bool {
    &&& int_field_in(j, "block_id"@, i64::MIN as int, i64::MAX as int)
    &&& str_field(j, "datetime"@) is Some
    &&& str_field(j, "hash"@) is Some
    &&& int_field_in(j, "total_transaction_count"@, i64::MIN as int, i64::MAX as int)
    &&& nested_field_ok::<BlockReward>(j, "block_reward"@)
}

/// How a decoded `LatestBlock` relates to its document.
pub open spec fn latest_block_matches(j: JVal, t: LatestBlock) -> bool {
    &&& Some(t.block_id as int) == int_field(j, "block_id"@)
    &&& Some(t.datetime@) == str_field(j, "datetime"@)
    &&& Some(t.hash@) == str_field(j, "hash"@)
    &&& Some(t.total_transaction_count as int) == int_field(j, "total_transaction_count"@)
    &&& BlockReward::fields_match(obj_get(j, "block_reward"@)->0, t.block_reward)
}

/// The first missing or wrongly typed field of a document for `LatestBlock`.
pub open spec fn latest_block_first_err(j: JVal) -> DecodeErrV {
    if !(int_field_in(j, "block_id"@, i64::MIN as int, i64::MAX as int)) {
        mismatch("integer"@, "block_id"@)
    } else if !(str_field(j, "datetime"@) is Some) {
        mismatch("string"@, "datetime"@)
    } else if !(str_field(j, "hash"@) is Some) {
        mismatch("string"@, "hash"@)
    } else if !(int_field_in(j, "total_transaction_count"@, i64::MIN as int, i64::MAX as int)) {
        mismatch("integer"@, "total_transaction_count"@)
    } else if !(nested_field_ok::<BlockReward>(j, "block_reward"@)) {
        nested_field_err::<BlockReward>(j, "block_reward"@)
    } else {
        arbitrary()
    }
}

impl FromJson for LatestBlock {
    open spec fn conforms(j: JVal) -> bool {
        latest_block_conforms(j)
    }

    open spec fn fields_match(j: JVal, t: Self) -> bool {
        latest_block_matches(j, t)
    }

    open spec fn first_err(j: JVal) -> DecodeErrV {
        latest_block_first_err(j)
    }

    fn from_json(v: &JsonValue) -> (r: Result<Self, DecodeError>) {
        let block_id = req_i64(v, "block_id")?;
        let datetime = req_string(v, "datetime")?;
        let hash = req_string(v, "hash")?;
        let total_transaction_count = req_i64(v, "total_transaction_count")?;
        let block_reward = req_nested::<BlockReward>(v, "block_reward")?;
        Ok(LatestBlock { block_id, datetime, hash, total_transaction_count, block_reward })
    }
}

/// A single block looked up by number.
#[derive(Debug, Clone)]
pub struct BlockDetails {
    pub block_id: i64,
    pub datetime: String,
    pub hash: String,
    pub total_transaction_count: i64,
    pub block_reward: BlockReward,
}

/// Whether a document carries every field `BlockDetails` requires.
pub open spec fn block_details_conforms(j: JVal) -> bool {
    &&& int_field_in(j, "block_id"@, i64::MIN as int, i64::MAX as int)
    &&& str_field(j, "datetime"@) is Some
    &&& str_field(j, "hash"@) is Some
    &&& int_field_in(j, "total_transaction_count"@, i64::MIN as int, i64::MAX as int)
    &&& nested_field_ok::<BlockReward>(j, "block_reward"@)
}

/// How a decoded `BlockDetails` relates to its document.
pub open spec fn block_details_matches(j: JVal, t: BlockDetails) -> bool {
    &&& Some(t.block_id as int) == int_field(j, "block_id"@)
    &&& Some(t.datetime@) == str_field(j, "datetime"@)
    &&& Some(t.hash@) == str_field(j, "hash"@)
    &&& Some(t.total_transaction_count as int) == int_field(j, "total_transaction_count"@)
    &&& BlockReward::fields_match(obj_get(j, "block_reward"@)->0, t.block_reward)
}

/// The first missing or wrongly typed field of a document for `BlockDetails`.
pub open spec fn block_details_first_err(j: JVal) -> DecodeErrV {
    if !(int_field_in(j, "block_id"@, i64::MIN as int, i64::MAX as int)) {
        mismatch("integer"@, "block_id"@)
    } else if !(str_field(j, "datetime"@) is Some) {
        mismatch("string"@, "datetime"@)
    } else if !(str_field(j, "hash"@) is Some) {
        mismatch("string"@, "hash"@)
    } else if !(int_field_in(j, "total_transaction_count"@, i64::MIN as int, i64::MAX as int)) {
        mismatch("integer"@, "total_transaction_count"@)
    } else if !(nested_field_ok::<BlockReward>(j, "block_reward"@)) {
        nested_field_err::<BlockReward>(j, "block_reward"@)
    } else {
        arbitrary()
    }
}

impl FromJson for BlockDetails {
    open spec fn conforms(j: JVal) -> bool {
        block_details_conforms(j)
    }

    open spec fn fields_match(j: JVal, t: Self) -> bool {
        block_details_matches(j, t)
    }

    open spec fn first_err(j: JVal) -> DecodeErrV {
        block_details_first_err(j)
    }

    fn from_json(v: &JsonValue) -> (r: Result<Self, DecodeError>) {
        let block_id = req_i64(v, "block_id")?;
        let datetime = req_string(v, "datetime")?;
        let hash = req_string(v, "hash")?;
        let total_transaction_count = req_i64(v, "total_transaction_count")?;
        let block_reward = req_nested::<BlockReward>(v, "block_reward")?;
        Ok(BlockDetails { block_id, datetime, hash, total_transaction_count, block_reward })
    }
}

/// A list of block records.
#[derive(Debug, Clone)]
pub struct BlocksResponse {
    pub blocks: Vec<BlockDetails>,
}

/// Whether a document carries every field `BlocksResponse` requires.
pub open spec fn blocks_response_conforms(j: JVal) -> bool {
    vec_field_ok::<BlockDetails>(j, "blocks"@)
}

/// How a decoded `BlocksResponse` relates to its document.
pub open spec fn blocks_response_matches(j: JVal, t: BlocksResponse) -> bool {
    arr_matches::<BlockDetails>(arr_field(j, "blocks"@)->0, t.blocks@)
}

/// The first missing or wrongly typed field of a document for `BlocksResponse`.
pub open spec fn blocks_response_first_err(j: JVal) -> DecodeErrV {
    if !(vec_field_ok::<BlockDetails>(j, "blocks"@)) {
        vec_field_err::<BlockDetails>(j, "blocks"@)
    } else {
        arbitrary()
    }
}

impl FromJson for BlocksResponse {
    open spec fn conforms(j: JVal) -> bool {
        blocks_response_conforms(j)
    }

    open spec fn fields_match(j: JVal, t: Self) -> bool {
        blocks_response_matches(j, t)
    }

    open spec fn first_err(j: JVal) -> DecodeErrV {
        blocks_response_first_err(j)
    }

    fn from_json(v: &JsonValue) -> (r: Result<Self, DecodeError>) {
        let blocks = req_vec::<BlockDetails>(v, "blocks")?;
        Ok(BlocksResponse { blocks })
    }
}

/// The status object of a transaction.
#[derive(Debug, Clone)]
pub struct TransactionStatus {
    pub status: String,
}

/// Whether a document carries every field `TransactionStatus` requires.
pub open spec fn transaction_status_conforms(j: JVal) -> bool {
    str_field(j, "status"@) is Some
}

/// How a decoded `TransactionStatus` relates to its document.
pub open spec fn transaction_status_matches(j: JVal, t: TransactionStatus) -> bool {
    Some(t.status@) == str_field(j, "status"@)
}

/// The first missing or wrongly typed field of a document for `TransactionStatus`.
pub open spec fn transaction_status_first_err(j: JVal) -> DecodeErrV {
    if !(str_field(j, "status"@) is Some) {
        mismatch("string"@, "status"@)
    } else {
        arbitrary()
    }
}

impl FromJson for TransactionStatus {
    open spec fn conforms(j: JVal) -> bool {
        transaction_status_conforms(j)
    }

    open spec fn fields_match(j: JVal, t: Self) -> bool {
        transaction_status_matches(j, t)
    }

    open spec fn first_err(j: JVal) -> DecodeErrV {
        transaction_status_first_err(j)
    }

    fn from_json(v: &JsonValue) -> (r: Result<Self, DecodeError>) {
        let status = req_string(v, "status")?;
        Ok(TransactionStatus { status })
    }
}

/// A transaction inside a block listing.
#[derive(Debug, Clone)]
pub struct Transaction {
    pub amount: String,
    pub block_id: i64,
    pub datetime: String,
    pub effective_gas_price: String,
    pub fee_payer: String,
    pub from: String,
    pub method_id: String,
    pub status: TransactionStatus,
    pub to: String,
    pub transaction_fee: String,
    pub transaction_hash: String,
    pub transaction_index: i64,
    pub transaction_type: String,
}

/// Whether a document carries every field `Transaction` requires.
pub open spec fn transaction_conforms(j: JVal) -> bool {
    &&& amount_field(j, "amount"@) is Some
    &&& int_field_in(j, "block_id"@, i64::MIN as int, i64::MAX as int)
    &&& str_field(j, "datetime"@) is Some
    &&& amount_field(j, "effective_gas_price"@) is Some
    &&& str_field(j, "fee_payer"@) is Some
    &&& str_field(j, "from"@) is Some
    &&& str_field(j, "method_id"@) is Some
    &&& nested_field_ok::<TransactionStatus>(j, "status"@)
    &&& str_field(j, "to"@) is Some
    &&& amount_field(j, "transaction_fee"@) is Some
    &&& str_field(j, "transaction_hash"@) is Some
    &&& int_field_in(j, "transaction_index"@, i64::MIN as int, i64::MAX as int)
    &&& str_field(j, "transaction_type"@) is Some
}

/// How a decoded `Transaction` relates to its document.
pub open spec fn transaction_matches(j: JVal, t: Transaction) -> bool {
    &&& Some(t.amount@) == amount_field(j, "amount"@)
    &&& Some(t.block_id as int) == int_field(j, "block_id"@)
    &&& Some(t.datetime@) == str_field(j, "datetime"@)
    &&& Some(t.effective_gas_price@) == amount_field(j, "effective_gas_price"@)
    &&& Some(t.fee_payer@) == str_field(j, "fee_payer"@)
    &&& Some(t.from@) == str_field(j, "from"@)
    &&& Some(t.method_id@) == str_field(j, "method_id"@)
    &&& TransactionStatus::fields_match(obj_get(j, "status"@)->0, t.status)
    &&& Some(t.to@) == str_field(j, "to"@)
    &&& Some(t.transaction_fee@) == amount_field(j, "transaction_fee"@)
    &&& Some(t.transaction_hash@) == str_field(j, "transaction_hash"@)
    &&& Some(t.transaction_index as int) == int_field(j, "transaction_index"@)
    &&& Some(t.transaction_type@) == str_field(j, "transaction_type"@)
}

/// The first missing or wrongly typed field of a document for `Transaction`.
pub open spec fn transaction_first_err(j: JVal) -> DecodeErrV {
    if !(amount_field(j, "amount"@) is Some) {
        mismatch("string or number"@, "amount"@)
    } else if !(int_field_in(j, "block_id"@, i64::MIN as int, i64::MAX as int)) {
        mismatch("integer"@, "block_id"@)
    } else if !(str_field(j, "datetime"@) is Some) {
        mismatch("string"@, "datetime"@)
    } else if !(amount_field(j, "effective_gas_price"@) is Some) {
        mismatch("string or number"@, "effective_gas_price"@)
    } else if !(str_field(j, "fee_payer"@) is Some) {
        mismatch("string"@, "fee_payer"@)
    } else if !(str_field(j, "from"@) is Some) {
        mismatch("string"@, "from"@)
    } else if !(str_field(j, "method_id"@) is Some) {
        mismatch("string"@, "method_id"@)
    } else if !(nested_field_ok::<TransactionStatus>(j, "status"@)) {
        nested_field_err::<TransactionStatus>(j, "status"@)
    } else if !(str_field(j, "to"@) is Some) {
        mismatch("string"@, "to"@)
    } else if !(amount_field(j, "transaction_fee"@) is Some) {
        mismatch("string or number"@, "transaction_fee"@)
    } else if !(str_field(j, "transaction_hash"@) is Some) {
        mismatch("string"@, "transaction_hash"@)
    } else if !(int_field_in(j, "transaction_index"@, i64::MIN as int, i64::MAX as int)) {
        mismatch("integer"@, "transaction_index"@)
    } else if !(str_field(j, "transaction_type"@) is Some) {
        mismatch("string"@, "transaction_type"@)
    } else {
        arbitrary()
    }
}

impl FromJson for Transaction {
    open spec fn conforms(j: JVal) -> bool {
        transaction_conforms(j)
    }

    open spec fn fields_match(j: JVal, t: Self) -> bool {
        transaction_matches(j, t)
    }

    open spec fn first_err(j: JVal) -> DecodeErrV {
        transaction_first_err(j)
    }

    fn from_json(v: &JsonValue) -> (r: Result<Self, DecodeError>) {
        let amount = req_amount(v, "amount")?;
        let block_id = req_i64(v, "block_id")?;
        let datetime = req_string(v, "datetime")?;
        let effective_gas_price = req_amount(v, "effective_gas_price")?;
        let fee_payer = req_string(v, "fee_payer")?;
        let from = req_string(v, "from")?;
        let method_id = req_string(v, "method_id")?;
        let status = req_nested::<TransactionStatus>(v, "status")?;
        let to = req_string(v, "to")?;
        let transaction_fee = req_amount(v, "transaction_fee")?;
        let transaction_hash = req_string(v, "transaction_hash")?;
        let transaction_index = req_i64(v, "transaction_index")?;
        let transaction_type = req_string(v, "transaction_type")?;
        Ok(Transaction { amount, block_id, datetime, effective_gas_price, fee_payer, from, method_id, status, to, transaction_fee, transaction_hash, transaction_index, transaction_type })
    }
}

/// A page of transactions.
#[derive(Debug, Clone)]
pub struct TransactionsResponse {
    pub paging: Paging,
    pub results: Vec<Transaction>,
}

/// Whether a document carries every field `TransactionsResponse` requires.
pub open spec fn transactions_response_conforms(j: JVal) -> bool {
    &&& nested_field_ok::<Paging>(j, "paging"@)
    &&& vec_field_ok::<Transaction>(j, "results"@)
}

/// How a decoded `TransactionsResponse` relates to its document.
pub open spec fn transactions_response_matches(j: JVal, t: TransactionsResponse) -> bool {
    &&& Paging::fields_match(obj_get(j, "paging"@)->0, t.paging)
    &&& arr_matches::<Transaction>(arr_field(j, "results"@)->0, t.results@)
}

/// The first missing or wrongly typed field of a document for `TransactionsResponse`.
pub open spec fn transactions_response_first_err(j: JVal) -> DecodeErrV {
    if !(nested_field_ok::<Paging>(j, "paging"@)) {
        nested_field_err::<Paging>(j, "paging"@)
    } else if !(vec_field_ok::<Transaction>(j, "results"@)) {
        vec_field_err::<Transaction>(j, "results"@)
    } else {
        arbitrary()
    }
}

impl FromJson for TransactionsResponse {
    open spec fn conforms(j: JVal) -> bool {
        transactions_response_conforms(j)
    }

    open spec fn fields_match(j: JVal, t: Self) -> bool {
        transactions_response_matches(j, t)
    }

    open spec fn first_err(j: JVal) -> DecodeErrV {
        transactions_response_first_err(j)
    }

    fn from_json(v: &JsonValue) -> (r: Result<Self, DecodeError>) {
        let paging = req_nested::<Paging>(v, "paging")?;
        let results = req_vec::<Transaction>(v, "results")?;
        Ok(TransactionsResponse { paging, results })
    }
}

/// A transaction receipt's status.
#[derive(Debug, Clone)]
pub struct TransactionReceiptStatus {
    pub status: String,
    pub block_id: i64,
    pub tx_hash: String,
}

/// Whether a document carries every field `TransactionReceiptStatus` requires.
pub open spec fn transaction_receipt_status_conforms(j: JVal) -> bool {
    &&& str_field(j, "status"@) is Some
    &&& int_field_in(j, "block_id"@, i64::MIN as int, i64::MAX as int)
    &&& str_field(j, "tx_hash"@) is Some
}

/// How a decoded `TransactionReceiptStatus` relates to its document.
pub open spec fn transaction_receipt_status_matches(j: JVal, t: TransactionReceiptStatus) -> bool {
    &&& Some(t.status@) == str_field(j, "status"@)
    &&& Some(t.block_id as int) == int_field(j, "block_id"@)
    &&& Some(t.tx_hash@) == str_field(j, "tx_hash"@)
}

/// The first missing or wrongly typed field of a document for `TransactionReceiptStatus`.
pub open spec fn transaction_receipt_status_first_err(j: JVal) -> DecodeErrV {
    if !(str_field(j, "status"@) is Some) {
        mismatch("string"@, "status"@)
    } else if !(int_field_in(j, "block_id"@, i64::MIN as int, i64::MAX as int)) {
        mismatch("integer"@, "block_id"@)
    } else if !(str_field(j, "tx_hash"@) is Some) {
        mismatch("string"@, "tx_hash"@)
    } else {
        arbitrary()
    }
}

impl FromJson for TransactionReceiptStatus {
    open spec fn conforms(j: JVal) -> bool {
        transaction_receipt_status_conforms(j)
    }

    open spec fn fields_match(j: JVal, t: Self) -> bool {
        transaction_receipt_status_matches(j, t)
    }

    open spec fn first_err(j: JVal) -> DecodeErrV {
        transaction_receipt_status_first_err(j)
    }

    fn from_json(v: &JsonValue) -> (r: Result<Self, DecodeError>) {
        let status = req_string(v, "status")?;
        let block_id = req_i64(v, "block_id")?;
        let tx_hash = req_string(v, "tx_hash")?;
        Ok(TransactionReceiptStatus { status, block_id, tx_hash })
    }
}

/// A transaction looked up by hash.
#[derive(Debug, Clone)]
pub struct TransactionDetails {
    pub tx_hash: String,
    pub block_id: i64,
    pub from: String,
    pub to: String,
    pub value: String,
    pub gas_used: String,
    pub status: String,
}

/// Whether a document carries every field `TransactionDetails` requires.
pub open spec fn transaction_details_conforms(j: JVal) -> bool {
    &&& str_field(j, "tx_hash"@) is Some
    &&& int_field_in(j, "block_id"@, i64::MIN as int, i64::MAX as int)
    &&& str_field(j, "from"@) is Some
    &&& str_field(j, "to"@) is Some
    &&& amount_field(j, "value"@) is Some
    &&& amount_field(j, "gas_used"@) is Some
    &&& str_field(j, "status"@) is Some
}

/// How a decoded `TransactionDetails` relates to its document.
pub open spec fn transaction_details_matches(j: JVal, t: TransactionDetails) -> bool {
    &&& Some(t.tx_hash@) == str_field(j, "tx_hash"@)
    &&& Some(t.block_id as int) == int_field(j, "block_id"@)
    &&& Some(t.from@) == str_field(j, "from"@)
    &&& Some(t.to@) == str_field(j, "to"@)
    &&& Some(t.value@) == amount_field(j, "value"@)
    &&& Some(t.gas_used@) == amount_field(j, "gas_used"@)
    &&& Some(t.status@) == str_field(j, "status"@)
}

/// The first missing or wrongly typed field of a document for `TransactionDetails`.
pub open spec fn transaction_details_first_err(j: JVal) -> DecodeErrV {
    if !(str_field(j, "tx_hash"@) is Some) {
        mismatch("string"@, "tx_hash"@)
    } else if !(int_field_in(j, "block_id"@, i64::MIN as int, i64::MAX as int)) {
        mismatch("integer"@, "block_id"@)
    } else if !(str_field(j, "from"@) is Some) {
        mismatch("string"@, "from"@)
    } else if !(str_field(j, "to"@) is Some) {
        mismatch("string"@, "to"@)
    } else if !(amount_field(j, "value"@) is Some) {
        mismatch("string or number"@, "value"@)
    } else if !(amount_field(j, "gas_used"@) is Some) {
        mismatch("string or number"@, "gas_used"@)
    } else if !(str_field(j, "status"@) is Some) {
        mismatch("string"@, "status"@)
    } else {
        arbitrary()
    }
}

impl FromJson for TransactionDetails {
    open spec fn conforms(j: JVal) -> bool {
        transaction_details_conforms(j)
    }

    open spec fn fields_match(j: JVal, t: Self) -> bool {
        transaction_details_matches(j, t)
    }

    open spec fn first_err(j: JVal) -> DecodeErrV {
        transaction_details_first_err(j)
    }

    fn from_json(v: &JsonValue) -> (r: Result<Self, DecodeError>) {
        let tx_hash = req_string(v, "tx_hash")?;
        let block_id = req_i64(v, "block_id")?;
        let from = req_string(v, "from")?;
        let to = req_string(v, "to")?;
        let value = req_amount(v, "value")?;
        let gas_used = req_amount(v, "gas_used")?;
        let status = req_string(v, "status")?;
        Ok(TransactionDetails { tx_hash, block_id, from, to, value, gas_used, status })
    }
}

/// A verified contract's source.
#[derive(Debug, Clone)]
pub struct ContractSourceCode {
    pub contract_address: String,
    pub source_code: String,
}

/// Whether a document carries every field `ContractSourceCode` requires.
pub open spec fn contract_source_code_conforms(j: JVal) -> bool {
    &&& str_field(j, "contract_address"@) is Some
    &&& str_field(j, "source_code"@) is Some
}

/// How a decoded `ContractSourceCode` relates to its document.
pub open spec fn contract_source_code_matches(j: JVal, t: ContractSourceCode) -> bool {
    &&& Some(t.contract_address@) == str_field(j, "contract_address"@)
    &&& Some(t.source_code@) == str_field(j, "source_code"@)
}

/// The first missing or wrongly typed field of a document for `ContractSourceCode`.
pub open spec fn contract_source_code_first_err(j: JVal) -> DecodeErrV {
    if !(str_field(j, "contract_address"@) is Some) {
        mismatch("string"@, "contract_address"@)
    } else if !(str_field(j, "source_code"@) is Some) {
        mismatch("string"@, "source_code"@)
    } else {
        arbitrary()
    }
}

impl FromJson for ContractSourceCode {
    open spec fn conforms(j: JVal) -> bool {
        contract_source_code_conforms(j)
    }

    open spec fn fields_match(j: JVal, t: Self) -> bool {
        contract_source_code_matches(j, t)
    }

    open spec fn first_err(j: JVal) -> DecodeErrV {
        contract_source_code_first_err(j)
    }

    fn from_json(v: &JsonValue) -> (r: Result<Self, DecodeError>) {
        let contract_address = req_string(v, "contract_address")?;
        let source_code = req_string(v, "source_code")?;
        Ok(ContractSourceCode { contract_address, source_code })
    }
}

/// Accumulated burn totals.
#[derive(Debug, Clone)]
pub struct BurnSummary {
    pub accumulate_burnt: String,
    pub accumulate_burnt_fees: String,
    pub accumulate_burnt_kaia: String,
    pub kip103_burnt: String,
    pub kip160_burnt: String,
}

/// Whether a document carries every field `BurnSummary` requires.
pub open spec fn burn_summary_conforms(j: JVal) -> bool {
    &&& amount_field(j, "accumulate_burnt"@) is Some
    &&& amount_field(j, "accumulate_burnt_fees"@) is Some
    &&& amount_field(j, "accumulate_burnt_kaia"@) is Some
    &&& amount_field(j, "kip103_burnt"@) is Some
    &&& amount_field(j, "kip160_burnt"@) is Some
}

/// How a decoded `BurnSummary` relates to its document.
pub open spec fn burn_summary_matches(j: JVal, t: BurnSummary) -> bool {
    &&& Some(t.accumulate_burnt@) == amount_field(j, "accumulate_burnt"@)
    &&& Some(t.accumulate_burnt_fees@) == amount_field(j, "accumulate_burnt_fees"@)
    &&& Some(t.accumulate_burnt_kaia@) == amount_field(j, "accumulate_burnt_kaia"@)
    &&& Some(t.kip103_burnt@) == amount_field(j, "kip103_burnt"@)
    &&& Some(t.kip160_burnt@) == amount_field(j, "kip160_burnt"@)
}

/// The first missing or wrongly typed field of a document for `BurnSummary`.
pub open spec fn burn_summary_first_err(j: JVal) -> DecodeErrV {
    if !(amount_field(j, "accumulate_burnt"@) is Some) {
        mismatch("string or number"@, "accumulate_burnt"@)
    } else if !(amount_field(j, "accumulate_burnt_fees"@) is Some) {
        mismatch("string or number"@, "accumulate_burnt_fees"@)
    } else if !(amount_field(j, "accumulate_burnt_kaia"@) is Some) {
        mismatch("string or number"@, "accumulate_burnt_kaia"@)
    } else if !(amount_field(j, "kip103_burnt"@) is Some) {
        mismatch("string or number"@, "kip103_burnt"@)
    } else if !(amount_field(j, "kip160_burnt"@) is Some) {
        mismatch("string or number"@, "kip160_burnt"@)
    } else {
        arbitrary()
    }
}

impl FromJson for BurnSummary {
    open spec fn conforms(j: JVal) -> bool {
        burn_summary_conforms(j)
    }

    open spec fn fields_match(j: JVal, t: Self) -> bool {
        burn_summary_matches(j, t)
    }

    open spec fn first_err(j: JVal) -> DecodeErrV {
        burn_summary_first_err(j)
    }

    fn from_json(v: &JsonValue) -> (r: Result<Self, DecodeError>) {
        let accumulate_burnt = req_amount(v, "accumulate_burnt")?;
        let accumulate_burnt_fees = req_amount(v, "accumulate_burnt_fees")?;
        let accumulate_burnt_kaia = req_amount(v, "accumulate_burnt_kaia")?;
        let kip103_burnt = req_amount(v, "kip103_burnt")?;
        let kip160_burnt = req_amount(v, "kip160_burnt")?;
        Ok(BurnSummary { accumulate_burnt, accumulate_burnt_fees, accumulate_burnt_kaia, kip103_burnt, kip160_burnt })
    }
}

/// One reward entry of a block.
#[derive(Debug, Clone)]
pub struct BlockRewardDetail {
    pub address: String,
    pub amount: String,
    pub reward_type: String,
}

/// Whether a document carries every field `BlockRewardDetail` requires.
pub open spec fn block_reward_detail_conforms(j: JVal) -> bool {
    &&& str_field(j, "address"@) is Some
    &&& amount_field(j, "amount"@) is Some
    &&& str_field(j, "reward_type"@) is Some
}

/// How a decoded `BlockRewardDetail` relates to its document.
pub open spec fn block_reward_detail_matches(j: JVal, t: BlockRewardDetail) -> bool {
    &&& Some(t.address@) == str_field(j, "address"@)
    &&& Some(t.amount@) == amount_field(j, "amount"@)
    &&& Some(t.reward_type@) == str_field(j, "reward_type"@)
}

/// The first missing or wrongly typed field of a document for `BlockRewardDetail`.
pub open spec fn block_reward_detail_first_err(j: JVal) -> DecodeErrV {
    if !(str_field(j, "address"@) is Some) {
        mismatch("string"@, "address"@)
    } else if !(amount_field(j, "amount"@) is Some) {
        mismatch("string or number"@, "amount"@)
    } else if !(str_field(j, "reward_type"@) is Some) {
        mismatch("string"@, "reward_type"@)
    } else {
        arbitrary()
    }
}

impl FromJson for BlockRewardDetail {
    open spec fn conforms(j: JVal) -> bool {
        block_reward_detail_conforms(j)
    }

    open spec fn fields_match(j: JVal, t: Self) -> bool {
        block_reward_detail_matches(j, t)
    }

    open spec fn first_err(j: JVal) -> DecodeErrV {
        block_reward_detail_first_err(j)
    }

    fn from_json(v: &JsonValue) -> (r: Result<Self, DecodeError>) {
        let address = req_string(v, "address")?;
        let amount = req_amount(v, "amount")?;
        let reward_type = req_string(v, "reward_type")?;
        Ok(BlockRewardDetail { address, amount, reward_type })
    }
}

/// The rewards of one block.
#[derive(Debug, Clone)]
pub struct BlockRewards {
    pub block_id: i64,
    pub rewards: Vec<BlockRewardDetail>,
}

/// Whether a document carries every field `BlockRewards` requires.
pub open spec fn block_rewards_conforms(j: JVal) -> bool {
    &&& int_field_in(j, "block_id"@, i64::MIN as int, i64::MAX as int)
    &&& vec_field_ok::<BlockRewardDetail>(j, "rewards"@)
}

/// How a decoded `BlockRewards` relates to its document.
pub open spec fn block_rewards_matches(j: JVal, t: BlockRewards) -> bool {
    &&& Some(t.block_id as int) == int_field(j, "block_id"@)
    &&& arr_matches::<BlockRewardDetail>(arr_field(j, "rewards"@)->0, t.rewards@)
}

/// The first missing or wrongly typed field of a document for `BlockRewards`.
pub open spec fn block_rewards_first_err(j: JVal) -> DecodeErrV {
    if !(int_field_in(j, "block_id"@, i64::MIN as int, i64::MAX as int)) {
        mismatch("integer"@, "block_id"@)
    } else if !(vec_field_ok::<BlockRewardDetail>(j, "rewards"@)) {
        vec_field_err::<BlockRewardDetail>(j, "rewards"@)
    } else {
        arbitrary()
    }
}

impl FromJson for BlockRewards {
    open spec fn conforms(j: JVal) -> bool {
        block_rewards_conforms(j)
    }

    open spec fn fields_match(j: JVal, t: Self) -> bool {
        block_rewards_matches(j, t)
    }

    open spec fn first_err(j: JVal) -> DecodeErrV {
        block_rewards_first_err(j)
    }

    fn from_json(v: &JsonValue) -> (r: Result<Self, DecodeError>) {
        let block_id = req_i64(v, "block_id")?;
        let rewards = req_vec::<BlockRewardDetail>(v, "rewards")?;
        Ok(BlockRewards { block_id, rewards })
    }
}

/// One distribution entry of a block's rewards.
#[derive(Debug, Clone)]
pub struct BlockRewardDistribution {
    pub amount: String,
    pub distribution_type: String,
}

/// Whether a document carries every field `BlockRewardDistribution` requires.
pub open spec fn block_reward_distribution_conforms(j: JVal) -> bool {
    &&& amount_field(j, "amount"@) is Some
    &&& str_field(j, "type"@) is Some
}

/// How a decoded `BlockRewardDistribution` relates to its document.
pub open spec fn block_reward_distribution_matches(j: JVal, t: BlockRewardDistribution) -> bool {
    &&& Some(t.amount@) == amount_field(j, "amount"@)
    &&& Some(t.distribution_type@) == str_field(j, "type"@)
}

/// The first missing or wrongly typed field of a document for `BlockRewardDistribution`.
pub open spec fn block_reward_distribution_first_err(j: JVal) -> DecodeErrV {
    if !(amount_field(j, "amount"@) is Some) {
        mismatch("string or number"@, "amount"@)
    } else if !(str_field(j, "type"@) is Some) {
        mismatch("string"@, "type"@)
    } else {
        arbitrary()
    }
}

impl FromJson for BlockRewardDistribution {
    open spec fn conforms(j: JVal) -> bool {
        block_reward_distribution_conforms(j)
    }

    open spec fn fields_match(j: JVal, t: Self) -> bool {
        block_reward_distribution_matches(j, t)
    }

    open spec fn first_err(j: JVal) -> DecodeErrV {
        block_reward_distribution_first_err(j)
    }

    fn from_json(v: &JsonValue) -> (r: Result<Self, DecodeError>) {
        let amount = req_amount(v, "amount")?;
        let distribution_type = req_string(v, "type")?;
        Ok(BlockRewardDistribution { amount, distribution_type })
    }
}

/// One recipient of a block's rewards.
#[derive(Debug, Clone)]
pub struct BlockRewardRecipient {
    pub address: String,
    pub amount: String,
    pub name: String,
    pub reward_type: String,
}

/// Whether a document carries every field `BlockRewardRecipient` requires.
pub open spec fn block_reward_recipient_conforms(j: JVal) -> bool {
    &&& str_field(j, "address"@) is Some
    &&& amount_field(j, "amount"@) is Some
    &&& str_field(j, "name"@) is Some
    &&& str_field(j, "type"@) is Some
}

/// How a decoded `BlockRewardRecipient` relates to its document.
pub open spec fn block_reward_recipient_matches(j: JVal, t: BlockRewardRecipient) -> bool {
    &&& Some(t.address@) == str_field(j, "address"@)
    &&& Some(t.amount@) == amount_field(j, "amount"@)
    &&& Some(t.name@) == str_field(j, "name"@)
    &&& Some(t.reward_type@) == str_field(j, "type"@)
}

/// The first missing or wrongly typed field of a document for `BlockRewardRecipient`.
pub open spec fn block_reward_recipient_first_err(j: JVal) -> DecodeErrV {
    if !(str_field(j, "address"@) is Some) {
        mismatch("string"@, "address"@)
    } else if !(amount_field(j, "amount"@) is Some) {
        mismatch("string or number"@, "amount"@)
    } else if !(str_field(j, "name"@) is Some) {
        mismatch("string"@, "name"@)
    } else if !(str_field(j, "type"@) is Some) {
        mismatch("string"@, "type"@)
    } else {
        arbitrary()
    }
}

impl FromJson for BlockRewardRecipient {
    open spec fn conforms(j: JVal) -> bool {
        block_reward_recipient_conforms(j)
    }

    open spec fn fields_match(j: JVal, t: Self) -> bool {
        block_reward_recipient_matches(j, t)
    }

    open spec fn first_err(j: JVal) -> DecodeErrV {
        block_reward_recipient_first_err(j)
    }

    fn from_json(v: &JsonValue) -> (r: Result<Self, DecodeError>) {
        let address = req_string(v, "address")?;
        let amount = req_amount(v, "amount")?;
        let name = req_string(v, "name")?;
        let reward_type = req_string(v, "type")?;
        Ok(BlockRewardRecipient { address, amount, name, reward_type })
    }
}

/// The full reward breakdown of a block.
#[derive(Debug, Clone)]
pub struct BlockRewardsResponse {
    pub burnt_fee: String,
    pub distributions: Vec<BlockRewardDistribution>,
    pub minted: String,
    pub recipients: Vec<BlockRewardRecipient>,
    pub total_fee: String,
}

/// Whether a document carries every field `BlockRewardsResponse` requires.
pub open spec fn block_rewards_response_conforms(j: JVal) -> bool {
    &&& amount_field(j, "burnt_fee"@) is Some
    &&& vec_field_ok::<BlockRewardDistribution>(j, "distributions"@)
    &&& amount_field(j, "minted"@) is Some
    &&& vec_field_ok::<BlockRewardRecipient>(j, "recipients"@)
    &&& amount_field(j, "total_fee"@) is Some
}

/// How a decoded `BlockRewardsResponse` relates to its document.
pub open spec fn block_rewards_response_matches(j: JVal, t: BlockRewardsResponse) -> bool {
    &&& Some(t.burnt_fee@) == amount_field(j, "burnt_fee"@)
    &&& arr_matches::<BlockRewardDistribution>(arr_field(j, "distributions"@)->0, t.distributions@)
    &&& Some(t.minted@) == amount_field(j, "minted"@)
    &&& arr_matches::<BlockRewardRecipient>(arr_field(j, "recipients"@)->0, t.recipients@)
    &&& Some(t.total_fee@) == amount_field(j, "total_fee"@)
}

/// The first missing or wrongly typed field of a document for `BlockRewardsResponse`.
pub open spec fn block_rewards_response_first_err(j: JVal) -> DecodeErrV {
    if !(amount_field(j, "burnt_fee"@) is Some) {
        mismatch("string or number"@, "burnt_fee"@)
    } else if !(vec_field_ok::<BlockRewardDistribution>(j, "distributions"@)) {
        vec_field_err::<BlockRewardDistribution>(j, "distributions"@)
    } else if !(amount_field(j, "minted"@) is Some) {
        mismatch("string or number"@, "minted"@)
    } else if !(vec_field_ok::<BlockRewardRecipient>(j, "recipients"@)) {
        vec_field_err::<BlockRewardRecipient>(j, "recipients"@)
    } else if !(amount_field(j, "total_fee"@) is Some) {
        mismatch("string or number"@, "total_fee"@)
    } else {
        arbitrary()
    }
}

impl FromJson for BlockRewardsResponse {
    open spec fn conforms(j: JVal) -> bool {
        block_rewards_response_conforms(j)
    }

    open spec fn fields_match(j: JVal, t: Self) -> bool {
        block_rewards_response_matches(j, t)
    }

    open spec fn first_err(j: JVal) -> DecodeErrV {
        block_rewards_response_first_err(j)
    }

    fn from_json(v: &JsonValue) -> (r: Result<Self, DecodeError>) {
        let burnt_fee = req_amount(v, "burnt_fee")?;
        let distributions = req_vec::<BlockRewardDistribution>(v, "distributions")?;
        let minted = req_amount(v, "minted")?;
        let recipients = req_vec::<BlockRewardRecipient>(v, "recipients")?;
        let total_fee = req_amount(v, "total_fee")?;
        Ok(BlockRewardsResponse { burnt_fee, distributions, minted, recipients, total_fee })
    }
}

/// An internal transaction of a block.
#[derive(Debug, Clone)]
pub struct InternalTransaction {
    pub block_id: i64,
    pub transaction_hash: String,
    pub from: String,
    pub to: String,
    pub value: String,
    pub datetime: String,
}

/// Whether a document carries every field `InternalTransaction` requires.
pub open spec fn internal_transaction_conforms(j: JVal) -> bool {
    &&& int_field_in(j, "block_id"@, i64::MIN as int, i64::MAX as int)
    &&& str_field(j, "transaction_hash"@) is Some
    &&& str_field(j, "from"@) is Some
    &&& str_field(j, "to"@) is Some
    &&& amount_field(j, "value"@) is Some
    &&& str_field(j, "datetime"@) is Some
}

/// How a decoded `InternalTransaction` relates to its document.
pub open spec fn internal_transaction_matches(j: JVal, t: InternalTransaction) -> bool {
    &&& Some(t.block_id as int) == int_field(j, "block_id"@)
    &&& Some(t.transaction_hash@) == str_field(j, "transaction_hash"@)
    &&& Some(t.from@) == str_field(j, "from"@)
    &&& Some(t.to@) == str_field(j, "to"@)
    &&& Some(t.value@) == amount_field(j, "value"@)
    &&& Some(t.datetime@) == str_field(j, "datetime"@)
}

/// The first missing or wrongly typed field of a document for `InternalTransaction`.
pub open spec fn internal_transaction_first_err(j: JVal) -> DecodeErrV {
    if !(int_field_in(j, "block_id"@, i64::MIN as int, i64::MAX as int)) {
        mismatch("integer"@, "block_id"@)
    } else if !(str_field(j, "transaction_hash"@) is Some) {
        mismatch("string"@, "transaction_hash"@)
    } else if !(str_field(j, "from"@) is Some) {
        mismatch("string"@, "from"@)
    } else if !(str_field(j, "to"@) is Some) {
        mismatch("string"@, "to"@)
    } else if !(amount_field(j, "value"@) is Some) {
        mismatch("string or number"@, "value"@)
    } else if !(str_field(j, "datetime"@) is Some) {
        mismatch("string"@, "datetime"@)
    } else {
        arbitrary()
    }
}

impl FromJson for InternalTransaction {
    open spec fn conforms(j: JVal) -> bool {
        internal_transaction_conforms(j)
    }

    open spec fn fields_match(j: JVal, t: Self) -> bool {
        internal_transaction_matches(j, t)
    }

    open spec fn first_err(j: JVal) -> DecodeErrV {
        internal_transaction_first_err(j)
    }

    fn from_json(v: &JsonValue) -> (r: Result<Self, DecodeError>) {
        let block_id = req_i64(v, "block_id")?;
        let transaction_hash = req_string(v, "transaction_hash")?;
        let from = req_string(v, "from")?;
        let to = req_string(v, "to")?;
        let value = req_amount(v, "value")?;
        let datetime = req_string(v, "datetime")?;
        Ok(InternalTransaction { block_id, transaction_hash, from, to, value, datetime })
    }
}

/// A page of internal transactions.
#[derive(Debug, Clone)]
pub struct InternalTransactionsResponse {
    pub paging: Paging,
    pub results: Vec<InternalTransaction>,
}

/// Whether a document carries every field `InternalTransactionsResponse` requires.
pub open spec fn internal_transactions_response_conforms(j: JVal) -> bool {
    &&& nested_field_ok::<Paging>(j, "paging"@)
    &&& vec_field_ok::<InternalTransaction>(j, "results"@)
}

/// How a decoded `InternalTransactionsResponse` relates to its document.
pub open spec fn internal_transactions_response_matches(j: JVal, t: InternalTransactionsResponse) -> bool {
    &&& Paging::fields_match(obj_get(j, "paging"@)->0, t.paging)
    &&& arr_matches::<InternalTransaction>(arr_field(j, "results"@)->0, t.results@)
}

/// The first missing or wrongly typed field of a document for `InternalTransactionsResponse`.
pub open spec fn internal_transactions_response_first_err(j: JVal) -> DecodeErrV {
    if !(nested_field_ok::<Paging>(j, "paging"@)) {
        nested_field_err::<Paging>(j, "paging"@)
    } else if !(vec_field_ok::<InternalTransaction>(j, "results"@)) {
        vec_field_err::<InternalTransaction>(j, "results"@)
    } else {
        arbitrary()
    }
}

impl FromJson for InternalTransactionsResponse {
    open spec fn conforms(j: JVal) -> bool {
        internal_transactions_response_conforms(j)
    }

    open spec fn fields_match(j: JVal, t: Self) -> bool {
        internal_transactions_response_matches(j, t)
    }

    open spec fn first_err(j: JVal) -> DecodeErrV {
        internal_transactions_response_first_err(j)
    }

    fn from_json(v: &JsonValue) -> (r: Result<Self, DecodeError>) {
        let paging = req_nested::<Paging>(v, "paging")?;
        let results = req_vec::<InternalTransaction>(v, "results")?;
        Ok(InternalTransactionsResponse { paging, results })
    }
}

/// One entry of an account's key history.
#[derive(Debug, Clone)]
pub struct AccountKeyHistory {
    pub address: String,
    pub key_type: String,
    pub public_key: String,
    pub created_at: String,
}

/// Whether a document carries every field `AccountKeyHistory` requires.
pub open spec fn account_key_history_conforms(j: JVal) -> bool {
    &&& str_field(j, "address"@) is Some
    &&& str_field(j, "key_type"@) is Some
    &&& str_field(j, "public_key"@) is Some
    &&& str_field(j, "created_at"@) is Some
}

/// How a decoded `AccountKeyHistory` relates to its document.
pub open spec fn account_key_history_matches(j: JVal, t: AccountKeyHistory) -> bool {
    &&& Some(t.address@) == str_field(j, "address"@)
    &&& Some(t.key_type@) == str_field(j, "key_type"@)
    &&& Some(t.public_key@) == str_field(j, "public_key"@)
    &&& Some(t.created_at@) == str_field(j, "created_at"@)
}

/// The first missing or wrongly typed field of a document for `AccountKeyHistory`.
pub open spec fn account_key_history_first_err(j: JVal) -> DecodeErrV {
    if !(str_field(j, "address"@) is Some) {
        mismatch("string"@, "address"@)
    } else if !(str_field(j, "key_type"@) is Some) {
        mismatch("string"@, "key_type"@)
    } else if !(str_field(j, "public_key"@) is Some) {
        mismatch("string"@, "public_key"@)
    } else if !(str_field(j, "created_at"@) is Some) {
        mismatch("string"@, "created_at"@)
    } else {
        arbitrary()
    }
}

impl FromJson for AccountKeyHistory {
    open spec fn conforms(j: JVal) -> bool {
        account_key_history_conforms(j)
    }

    open spec fn fields_match(j: JVal, t: Self) -> bool {
        account_key_history_matches(j, t)
    }

    open spec fn first_err(j: JVal) -> DecodeErrV {
        account_key_history_first_err(j)
    }

    fn from_json(v: &JsonValue) -> (r: Result<Self, DecodeError>) {
        let address = req_string(v, "address")?;
        let key_type = req_string(v, "key_type")?;
        let public_key = req_string(v, "public_key")?;
        let created_at = req_string(v, "created_at")?;
        Ok(AccountKeyHistory { address, key_type, public_key, created_at })
    }
}

/// A page of an account's key history.
#[derive(Debug, Clone)]
pub struct AccountKeyHistoryResponse {
    pub paging: Paging,
    pub results: Vec<AccountKeyHistory>,
}

/// Whether a document carries every field `AccountKeyHistoryResponse` requires.
pub open spec fn account_key_history_response_conforms(j: JVal) -> bool {
    &&& nested_field_ok::<Paging>(j, "paging"@)
    &&& vec_field_ok::<AccountKeyHistory>(j, "results"@)
}

/// How a decoded `AccountKeyHistoryResponse` relates to its document.
pub open spec fn account_key_history_response_matches(j: JVal, t: AccountKeyHistoryResponse) -> bool {
    &&& Paging::fields_match(obj_get(j, "paging"@)->0, t.paging)
    &&& arr_matches::<AccountKeyHistory>(arr_field(j, "results"@)->0, t.results@)
}

/// The first missing or wrongly typed field of a document for `AccountKeyHistoryResponse`.
pub open spec fn account_key_history_response_first_err(j: JVal) -> DecodeErrV {
    if !(nested_field_ok::<Paging>(j, "paging"@)) {
        nested_field_err::<Paging>(j, "paging"@)
    } else if !(vec_field_ok::<AccountKeyHistory>(j, "results"@)) {
        vec_field_err::<AccountKeyHistory>(j, "results"@)
    } else {
        arbitrary()
    }
}

impl FromJson for AccountKeyHistoryResponse {
    open spec fn conforms(j: JVal) -> bool {
        account_key_history_response_conforms(j)
    }

    open spec fn fields_match(j: JVal, t: Self) -> bool {
        account_key_history_response_matches(j, t)
    }

    open spec fn first_err(j: JVal) -> DecodeErrV {
        account_key_history_response_first_err(j)
    }

    fn from_json(v: &JsonValue) -> (r: Result<Self, DecodeError>) {
        let paging = req_nested::<Paging>(v, "paging")?;
        let results = req_vec::<AccountKeyHistory>(v, "results")?;
        Ok(AccountKeyHistoryResponse { paging, results })
    }
}

/// One row of a block listing.
#[derive(Debug, Clone)]
pub struct BlockListItem {
    pub base_fee_per_gas: String,
    pub block_id: i64,
    pub block_proposer: String,
    pub block_size: i64,
    pub burnt_fees: String,
    pub datetime: String,
    pub reward: String,
    pub total_transaction_count: i64,
}

/// Whether a document carries every field `BlockListItem` requires.
pub open spec fn block_list_item_conforms(j: JVal) -> bool {
    &&& amount_field(j, "base_fee_per_gas"@) is Some
    &&& int_field_in(j, "block_id"@, i64::MIN as int, i64::MAX as int)
    &&& str_field(j, "block_proposer"@) is Some
    &&& int_field_in(j, "block_size"@, i64::MIN as int, i64::MAX as int)
    &&& amount_field(j, "burnt_fees"@) is Some
    &&& str_field(j, "datetime"@) is Some
    &&& amount_field(j, "reward"@) is Some
    &&& int_field_in(j, "total_transaction_count"@, i64::MIN as int, i64::MAX as int)
}

/// How a decoded `BlockListItem` relates to its document.
pub open spec fn block_list_item_matches(j: JVal, t: BlockListItem) -> bool {
    &&& Some(t.base_fee_per_gas@) == amount_field(j, "base_fee_per_gas"@)
    &&& Some(t.block_id as int) == int_field(j, "block_id"@)
    &&& Some(t.block_proposer@) == str_field(j, "block_proposer"@)
    &&& Some(t.block_size as int) == int_field(j, "block_size"@)
    &&& Some(t.burnt_fees@) == amount_field(j, "burnt_fees"@)
    &&& Some(t.datetime@) == str_field(j, "datetime"@)
    &&& Some(t.reward@) == amount_field(j, "reward"@)
    &&& Some(t.total_transaction_count as int) == int_field(j, "total_transaction_count"@)
}

/// The first missing or wrongly typed field of a document for `BlockListItem`.
pub open spec fn block_list_item_first_err(j: JVal) -> DecodeErrV {
    if !(amount_field(j, "base_fee_per_gas"@) is Some) {
        mismatch("string or number"@, "base_fee_per_gas"@)
    } else if !(int_field_in(j, "block_id"@, i64::MIN as int, i64::MAX as int)) {
        mismatch("integer"@, "block_id"@)
    } else if !(str_field(j, "block_proposer"@) is Some) {
        mismatch("string"@, "block_proposer"@)
    } else if !(int_field_in(j, "block_size"@, i64::MIN as int, i64::MAX as int)) {
        mismatch("integer"@, "block_size"@)
    } else if !(amount_field(j, "burnt_fees"@) is Some) {
        mismatch("string or number"@, "burnt_fees"@)
    } else if !(str_field(j, "datetime"@) is Some) {
        mismatch("string"@, "datetime"@)
    } else if !(amount_field(j, "reward"@) is Some) {
        mismatch("string or number"@, "reward"@)
    } else if !(int_field_in(j, "total_transaction_count"@, i64::MIN as int, i64::MAX as int)) {
        mismatch("integer"@, "total_transaction_count"@)
    } else {
        arbitrary()
    }
}

impl FromJson for BlockListItem {
    open spec fn conforms(j: JVal) -> bool {
        block_list_item_conforms(j)
    }

    open spec fn fields_match(j: JVal, t: Self) -> bool {
        block_list_item_matches(j, t)
    }

    open spec fn first_err(j: JVal) -> DecodeErrV {
        block_list_item_first_err(j)
    }

    fn from_json(v: &JsonValue) -> (r: Result<Self, DecodeError>) {
        let base_fee_per_gas = req_amount(v, "base_fee_per_gas")?;
        let block_id = req_i64(v, "block_id")?;
        let block_proposer = req_string(v, "block_proposer")?;
        let block_size = req_i64(v, "block_size")?;
        let burnt_fees = req_amount(v, "burnt_fees")?;
        let datetime = req_string(v, "datetime")?;
        let reward = req_amount(v, "reward")?;
        let total_transaction_count = req_i64(v, "total_transaction_count")?;
        Ok(BlockListItem { base_fee_per_gas, block_id, block_proposer, block_size, burnt_fees, datetime, reward, total_transaction_count })
    }
}

/// A page of block rows.
#[derive(Debug, Clone)]
pub struct BlocksListResponse {
    pub paging: Paging,
    pub results: Vec<BlockListItem>,
}

/// Whether a document carries every field `BlocksListResponse` requires.
pub open spec fn blocks_list_response_conforms(j: JVal) -> bool {
    &&& nested_field_ok::<Paging>(j, "paging"@)
    &&& vec_field_ok::<BlockListItem>(j, "results"@)
}

/// How a decoded `BlocksListResponse` relates to its document.
pub open spec fn blocks_list_response_matches(j: JVal, t: BlocksListResponse) -> bool {
    &&& Paging::fields_match(obj_get(j, "paging"@)->0, t.paging)
    &&& arr_matches::<BlockListItem>(arr_field(j, "results"@)->0, t.results@)
}

/// The first missing or wrongly typed field of a document for `BlocksListResponse`.
pub open spec fn blocks_list_response_first_err(j: JVal) -> DecodeErrV {
    if !(nested_field_ok::<Paging>(j, "paging"@)) {
        nested_field_err::<Paging>(j, "paging"@)
    } else if !(vec_field_ok::<BlockListItem>(j, "results"@)) {
        vec_field_err::<BlockListItem>(j, "results"@)
    } else {
        arbitrary()
    }
}

impl FromJson for BlocksListResponse {
    open spec fn conforms(j: JVal) -> bool {
        blocks_list_response_conforms(j)
    }

    open spec fn fields_match(j: JVal, t: Self) -> bool {
        blocks_list_response_matches(j, t)
    }

    open spec fn first_err(j: JVal) -> DecodeErrV {
        blocks_list_response_first_err(j)
    }

    fn from_json(v: &JsonValue) -> (r: Result<Self, DecodeError>) {
        let paging = req_nested::<Paging>(v, "paging")?;
        let results = req_vec::<BlockListItem>(v, "results")?;
        Ok(BlocksListResponse { paging, results })
    }
}

/// Market data for the native token.
#[derive(Debug, Clone)]
pub struct KlayPrice {
    pub btc_price: String,
    pub market_cap: String,
    pub total_supply: String,
    pub usd_price: String,
    pub usd_price_changes: String,
    pub volume: String,
}

/// Whether a document carries every field `KlayPrice` requires.
pub open spec fn klay_price_conforms(j: JVal) -> bool {
    &&& amount_field(j, "btc_price"@) is Some
    &&& amount_field(j, "market_cap"@) is Some
    &&& amount_field(j, "total_supply"@) is Some
    &&& amount_field(j, "usd_price"@) is Some
    &&& amount_field(j, "usd_price_changes"@) is Some
    &&& amount_field(j, "volume"@) is Some
}

/// How a decoded `KlayPrice` relates to its document.
pub open spec fn klay_price_matches(j: JVal, t: KlayPrice) -> bool {
    &&& Some(t.btc_price@) == amount_field(j, "btc_price"@)
    &&& Some(t.market_cap@) == amount_field(j, "market_cap"@)
    &&& Some(t.total_supply@) == amount_field(j, "total_supply"@)
    &&& Some(t.usd_price@) == amount_field(j, "usd_price"@)
    &&& Some(t.usd_price_changes@) == amount_field(j, "usd_price_changes"@)
    &&& Some(t.volume@) == amount_field(j, "volume"@)
}

/// The first missing or wrongly typed field of a document for `KlayPrice`.
pub open spec fn klay_price_first_err(j: JVal) -> DecodeErrV {
    if !(amount_field(j, "btc_price"@) is Some) {
        mismatch("string or number"@, "btc_price"@)
    } else if !(amount_field(j, "market_cap"@) is Some) {
        mismatch("string or number"@, "market_cap"@)
    } else if !(amount_field(j, "total_supply"@) is Some) {
        mismatch("string or number"@, "total_supply"@)
    } else if !(amount_field(j, "usd_price"@) is Some) {
        mismatch("string or number"@, "usd_price"@)
    } else if !(amount_field(j, "usd_price_changes"@) is Some) {
        mismatch("string or number"@, "usd_price_changes"@)
    } else if !(amount_field(j, "volume"@) is Some) {
        mismatch("string or number"@, "volume"@)
    } else {
        arbitrary()
    }
}

impl FromJson for KlayPrice {
    open spec fn conforms(j: JVal) -> bool {
        klay_price_conforms(j)
    }

    open spec fn fields_match(j: JVal, t: Self) -> bool {
        klay_price_matches(j, t)
    }

    open spec fn first_err(j: JVal) -> DecodeErrV {
        klay_price_first_err(j)
    }

    fn from_json(v: &JsonValue) -> (r: Result<Self, DecodeError>) {
        let btc_price = req_amount(v, "btc_price")?;
        let market_cap = req_amount(v, "market_cap")?;
        let total_supply = req_amount(v, "total_supply")?;
        let usd_price = req_amount(v, "usd_price")?;
        let usd_price_changes = req_amount(v, "usd_price_changes")?;
        let volume = req_amount(v, "volume")?;
        Ok(KlayPrice { btc_price, market_cap, total_supply, usd_price, usd_price_changes, volume })
    }
}

/// The contract a transfer or balance belongs to.
#[derive(Debug, Clone)]
pub struct ContractInfo {
    pub contract_address: String,
    pub contract_type: String,
}

/// Whether a document carries every field `ContractInfo` requires.
pub open spec fn contract_info_conforms(j: JVal) -> bool {
    &&& str_field(j, "contract_address"@) is Some
    &&& str_field(j, "contract_type"@) is Some
}

/// How a decoded `ContractInfo` relates to its document.
pub open spec fn contract_info_matches(j: JVal, t: ContractInfo) -> bool {
    &&& Some(t.contract_address@) == str_field(j, "contract_address"@)
    &&& Some(t.contract_type@) == str_field(j, "contract_type"@)
}

/// The first missing or wrongly typed field of a document for `ContractInfo`.
pub open spec fn contract_info_first_err(j: JVal) -> DecodeErrV {
    if !(str_field(j, "contract_address"@) is Some) {
        mismatch("string"@, "contract_address"@)
    } else if !(str_field(j, "contract_type"@) is Some) {
        mismatch("string"@, "contract_type"@)
    } else {
        arbitrary()
    }
}

impl FromJson for ContractInfo {
    open spec fn conforms(j: JVal) -> bool {
        contract_info_conforms(j)
    }

    open spec fn fields_match(j: JVal, t: Self) -> bool {
        contract_info_matches(j, t)
    }

    open spec fn first_err(j: JVal) -> DecodeErrV {
        contract_info_first_err(j)
    }

    fn from_json(v: &JsonValue) -> (r: Result<Self, DecodeError>) {
        let contract_address = req_string(v, "contract_address")?;
        let contract_type = req_string(v, "contract_type")?;
        Ok(ContractInfo { contract_address, contract_type })
    }
}

/// One token balance of an account.
#[derive(Debug, Clone)]
pub struct TokenBalance {
    pub contract: ContractInfo,
    pub balance: u64,
}

/// Whether a document carries every field `TokenBalance` requires.
pub open spec fn token_balance_conforms(j: JVal) -> bool {
    &&& nested_field_ok::<ContractInfo>(j, "contract"@)
    &&& int_field_in(j, "balance"@, 0, u64::MAX as int)
}

/// How a decoded `TokenBalance` relates to its document.
pub open spec fn token_balance_matches(j: JVal, t: TokenBalance) -> bool {
    &&& ContractInfo::fields_match(obj_get(j, "contract"@)->0, t.contract)
    &&& Some(t.balance as int) == int_field(j, "balance"@)
}

/// The first missing or wrongly typed field of a document for `TokenBalance`.
pub open spec fn token_balance_first_err(j: JVal) -> DecodeErrV {
    if !(nested_field_ok::<ContractInfo>(j, "contract"@)) {
        nested_field_err::<ContractInfo>(j, "contract"@)
    } else if !(int_field_in(j, "balance"@, 0, u64::MAX as int)) {
        mismatch("unsigned integer"@, "balance"@)
    } else {
        arbitrary()
    }
}

impl FromJson for TokenBalance {
    open spec fn conforms(j: JVal) -> bool {
        token_balance_conforms(j)
    }

    open spec fn fields_match(j: JVal, t: Self) -> bool {
        token_balance_matches(j, t)
    }

    open spec fn first_err(j: JVal) -> DecodeErrV {
        token_balance_first_err(j)
    }

    fn from_json(v: &JsonValue) -> (r: Result<Self, DecodeError>) {
        let contract = req_nested::<ContractInfo>(v, "contract")?;
        let balance = req_u64(v, "balance")?;
        Ok(TokenBalance { contract, balance })
    }
}

/// Pagination metadata, camelCase form.
#[derive(Debug, Clone)]
pub struct Page {
    pub total_count: u32,
    pub current_page: u32,
    pub last: bool,
    pub total_page: u32,
}

/// Whether a document carries every field `Page` requires.
pub open spec fn page_conforms(j: JVal) -> bool {
    &&& int_field_in(j, "totalCount"@, 0, u32::MAX as int)
    &&& int_field_in(j, "currentPage"@, 0, u32::MAX as int)
    &&& bool_field(j, "last"@) is Some
    &&& int_field_in(j, "totalPage"@, 0, u32::MAX as int)
}

/// How a decoded `Page` relates to its document.
pub open spec fn page_matches(j: JVal, t: Page) -> bool {
    &&& Some(t.total_count as int) == int_field(j, "totalCount"@)
    &&& Some(t.current_page as int) == int_field(j, "currentPage"@)
    &&& Some(t.last) == bool_field(j, "last"@)
    &&& Some(t.total_page as int) == int_field(j, "totalPage"@)
}

/// The first missing or wrongly typed field of a document for `Page`.
pub open spec fn page_first_err(j: JVal) -> DecodeErrV {
    if !(int_field_in(j, "totalCount"@, 0, u32::MAX as int)) {
        mismatch("unsigned integer"@, "totalCount"@)
    } else if !(int_field_in(j, "currentPage"@, 0, u32::MAX as int)) {
        mismatch("unsigned integer"@, "currentPage"@)
    } else if !(bool_field(j, "last"@) is Some) {
        mismatch("boolean"@, "last"@)
    } else if !(int_field_in(j, "totalPage"@, 0, u32::MAX as int)) {
        mismatch("unsigned integer"@, "totalPage"@)
    } else {
        arbitrary()
    }
}

impl FromJson for Page {
    open spec fn conforms(j: JVal) -> bool {
        page_conforms(j)
    }

    open spec fn fields_match(j: JVal, t: Self) -> bool {
        page_matches(j, t)
    }

    open spec fn first_err(j: JVal) -> DecodeErrV {
        page_first_err(j)
    }

    fn from_json(v: &JsonValue) -> (r: Result<Self, DecodeError>) {
        let total_count = req_u32(v, "totalCount")?;
        let current_page = req_u32(v, "currentPage")?;
        let last = req_bool(v, "last")?;
        let total_page = req_u32(v, "totalPage")?;
        Ok(Page { total_count, current_page, last, total_page })
    }
}

/// Pagination metadata with unsigned counters.
#[derive(Debug, Clone)]
pub struct Pagings {
    pub total_count: u32,
    pub current_page: u32,
    pub last: bool,
    pub total_page: u32,
}

/// Whether a document carries every field `Pagings` requires.
pub open spec fn pagings_conforms(j: JVal) -> bool {
    &&& int_field_in(j, "total_count"@, 0, u32::MAX as int)
    &&& int_field_in(j, "current_page"@, 0, u32::MAX as int)
    &&& bool_field(j, "last"@) is Some
    &&& int_field_in(j, "total_page"@, 0, u32::MAX as int)
}

/// How a decoded `Pagings` relates to its document.
pub open spec fn pagings_matches(j: JVal, t: Pagings) -> bool {
    &&& Some(t.total_count as int) == int_field(j, "total_count"@)
    &&& Some(t.current_page as int) == int_field(j, "current_page"@)
    &&& Some(t.last) == bool_field(j, "last"@)
    &&& Some(t.total_page as int) == int_field(j, "total_page"@)
}

/// The first missing or wrongly typed field of a document for `Pagings`.
pub open spec fn pagings_first_err(j: JVal) -> DecodeErrV {
    if !(int_field_in(j, "total_count"@, 0, u32::MAX as int)) {
        mismatch("unsigned integer"@, "total_count"@)
    } else if !(int_field_in(j, "current_page"@, 0, u32::MAX as int)) {
        mismatch("unsigned integer"@, "current_page"@)
    } else if !(bool_field(j, "last"@) is Some) {
        mismatch("boolean"@, "last"@)
    } else if !(int_field_in(j, "total_page"@, 0, u32::MAX as int)) {
        mismatch("unsigned integer"@, "total_page"@)
    } else {
        arbitrary()
    }
}

impl FromJson for Pagings {
    open spec fn conforms(j: JVal) -> bool {
        pagings_conforms(j)
    }

    open spec fn fields_match(j: JVal, t: Self) -> bool {
        pagings_matches(j, t)
    }

    open spec fn first_err(j: JVal) -> DecodeErrV {
        pagings_first_err(j)
    }

    fn from_json(v: &JsonValue) -> (r: Result<Self, DecodeError>) {
        let total_count = req_u32(v, "total_count")?;
        let current_page = req_u32(v, "current_page")?;
        let last = req_bool(v, "last")?;
        let total_page = req_u32(v, "total_page")?;
        Ok(Pagings { total_count, current_page, last, total_page })
    }
}

/// One decoded parameter of an event log.
#[derive(Debug, Clone)]
pub struct EventItem {
    pub name: String,
    pub value: String,
}

/// Whether a document carries every field `EventItem` requires.
pub open spec fn event_item_conforms(j: JVal) -> bool {
    &&& str_field(j, "name"@) is Some
    &&& str_field(j, "value"@) is Some
}

/// How a decoded `EventItem` relates to its document.
pub open spec fn event_item_matches(j: JVal, t: EventItem) -> bool {
    &&& Some(t.name@) == str_field(j, "name"@)
    &&& Some(t.value@) == str_field(j, "value"@)
}

/// The first missing or wrongly typed field of a document for `EventItem`.
pub open spec fn event_item_first_err(j: JVal) -> DecodeErrV {
    if !(str_field(j, "name"@) is Some) {
        mismatch("string"@, "name"@)
    } else if !(str_field(j, "value"@) is Some) {
        mismatch("string"@, "value"@)
    } else {
        arbitrary()
    }
}

impl FromJson for EventItem {
    open spec fn conforms(j: JVal) -> bool {
        event_item_conforms(j)
    }

    open spec fn fields_match(j: JVal, t: Self) -> bool {
        event_item_matches(j, t)
    }

    open spec fn first_err(j: JVal) -> DecodeErrV {
        event_item_first_err(j)
    }

    fn from_json(v: &JsonValue) -> (r: Result<Self, DecodeError>) {
        let name = req_string(v, "name")?;
        let value = req_string(v, "value")?;
        Ok(EventItem { name, value })
    }
}

/// One event log of an account or transaction.
#[derive(Debug, Clone)]
pub struct EventLogResult {
    pub log_index: u32,
    pub contract_address: String,
    pub log_type: String,
    pub topics: Vec<String>,
    pub data: String,
    pub items: Vec<EventItem>,
    pub block_number: u64,
    pub transaction_hash: String,
    pub estimated_event_log: bool,
}

/// Whether a document carries every field `EventLogResult` requires.
pub open spec fn event_log_result_conforms(j: JVal) -> bool {
    &&& int_field_in(j, "log_index"@, 0, u32::MAX as int)
    &&& str_field(j, "contract_address"@) is Some
    &&& str_field(j, "log_type"@) is Some
    &&& vec_string_field_ok(j, "topics"@)
    &&& str_field(j, "data"@) is Some
    &&& vec_field_ok::<EventItem>(j, "items"@)
    &&& int_field_in(j, "block_number"@, 0, u64::MAX as int)
    &&& str_field(j, "transaction_hash"@) is Some
    &&& bool_field(j, "estimated_event_log"@) is Some
}

/// How a decoded `EventLogResult` relates to its document.
pub open spec fn event_log_result_matches(j: JVal, t: EventLogResult) -> bool {
    &&& Some(t.log_index as int) == int_field(j, "log_index"@)
    &&& Some(t.contract_address@) == str_field(j, "contract_address"@)
    &&& Some(t.log_type@) == str_field(j, "log_type"@)
    &&& arr_strings_match(arr_field(j, "topics"@)->0, t.topics@)
    &&& Some(t.data@) == str_field(j, "data"@)
    &&& arr_matches::<EventItem>(arr_field(j, "items"@)->0, t.items@)
    &&& Some(t.block_number as int) == int_field(j, "block_number"@)
    &&& Some(t.transaction_hash@) == str_field(j, "transaction_hash"@)
    &&& Some(t.estimated_event_log) == bool_field(j, "estimated_event_log"@)
}

/// The first missing or wrongly typed field of a document for `EventLogResult`.
pub open spec fn event_log_result_first_err(j: JVal) -> DecodeErrV {
    if !(int_field_in(j, "log_index"@, 0, u32::MAX as int)) {
        mismatch("unsigned integer"@, "log_index"@)
    } else if !(str_field(j, "contract_address"@) is Some) {
        mismatch("string"@, "contract_address"@)
    } else if !(str_field(j, "log_type"@) is Some) {
        mismatch("string"@, "log_type"@)
    } else if !(vec_string_field_ok(j, "topics"@)) {
        vec_string_field_err(j, "topics"@)
    } else if !(str_field(j, "data"@) is Some) {
        mismatch("string"@, "data"@)
    } else if !(vec_field_ok::<EventItem>(j, "items"@)) {
        vec_field_err::<EventItem>(j, "items"@)
    } else if !(int_field_in(j, "block_number"@, 0, u64::MAX as int)) {
        mismatch("unsigned integer"@, "block_number"@)
    } else if !(str_field(j, "transaction_hash"@) is Some) {
        mismatch("string"@, "transaction_hash"@)
    } else if !(bool_field(j, "estimated_event_log"@) is Some) {
        mismatch("boolean"@, "estimated_event_log"@)
    } else {
        arbitrary()
    }
}

impl FromJson for EventLogResult {
    open spec fn conforms(j: JVal) -> bool {
        event_log_result_conforms(j)
    }

    open spec fn fields_match(j: JVal, t: Self) -> bool {
        event_log_result_matches(j, t)
    }

    open spec fn first_err(j: JVal) -> DecodeErrV {
        event_log_result_first_err(j)
    }

    fn from_json(v: &JsonValue) -> (r: Result<Self, DecodeError>) {
        let log_index = req_u32(v, "log_index")?;
        let contract_address = req_string(v, "contract_address")?;
        let log_type = req_string(v, "log_type")?;
        let topics = req_vec_string(v, "topics")?;
        let data = req_string(v, "data")?;
        let items = req_vec::<EventItem>(v, "items")?;
        let block_number = req_u64(v, "block_number")?;
        let transaction_hash = req_string(v, "transaction_hash")?;
        let estimated_event_log = req_bool(v, "estimated_event_log")?;
        Ok(EventLogResult { log_index, contract_address, log_type, topics, data, items, block_number, transaction_hash, estimated_event_log })
    }
}

/// The burn record of one block.
#[derive(Debug, Clone)]
pub struct BlockBurns {
    pub block_id: i64,
    pub amount: String,
    pub datetime: String,
}

/// Whether a document carries every field `BlockBurns` requires.
pub open spec fn block_burns_conforms(j: JVal) -> bool {
    &&& int_field_in(j, "block_id"@, i64::MIN as int, i64::MAX as int)
    &&& amount_field(j, "amount"@) is Some
    &&& str_field(j, "datetime"@) is Some
}

/// How a decoded `BlockBurns` relates to its document.
pub open spec fn block_burns_matches(j: JVal, t: BlockBurns) -> bool {
    &&& Some(t.block_id as int) == int_field(j, "block_id"@)
    &&& Some(t.amount@) == amount_field(j, "amount"@)
    &&& Some(t.datetime@) == str_field(j, "datetime"@)
}

/// The first missing or wrongly typed field of a document for `BlockBurns`.
pub open spec fn block_burns_first_err(j: JVal) -> DecodeErrV {
    if !(int_field_in(j, "block_id"@, i64::MIN as int, i64::MAX as int)) {
        mismatch("integer"@, "block_id"@)
    } else if !(amount_field(j, "amount"@) is Some) {
        mismatch("string or number"@, "amount"@)
    } else if !(str_field(j, "datetime"@) is Some) {
        mismatch("string"@, "datetime"@)
    } else {
        arbitrary()
    }
}

impl FromJson for BlockBurns {
    open spec fn conforms(j: JVal) -> bool {
        block_burns_conforms(j)
    }

    open spec fn fields_match(j: JVal, t: Self) -> bool {
        block_burns_matches(j, t)
    }

    open spec fn first_err(j: JVal) -> DecodeErrV {
        block_burns_first_err(j)
    }

    fn from_json(v: &JsonValue) -> (r: Result<Self, DecodeError>) {
        let block_id = req_i64(v, "block_id")?;
        let amount = req_amount(v, "amount")?;
        let datetime = req_string(v, "datetime")?;
        Ok(BlockBurns { block_id, amount, datetime })
    }
}

/// Pagination metadata, camelCase form with unsigned counters.
#[derive(Debug, Clone)]
pub struct Pagin {
    pub total_count: u32,
    pub current_page: u32,
    pub last: bool,
    pub total_page: u32,
}

/// Whether a document carries every field `Pagin` requires.
pub open spec fn pagin_conforms(j: JVal) -> bool {
    &&& int_field_in(j, "totalCount"@, 0, u32::MAX as int)
    &&& int_field_in(j, "currentPage"@, 0, u32::MAX as int)
    &&& bool_field(j, "last"@) is Some
    &&& int_field_in(j, "totalPage"@, 0, u32::MAX as int)
}

/// How a decoded `Pagin` relates to its document.
pub open spec fn pagin_matches(j: JVal, t: Pagin) -> bool {
    &&& Some(t.total_count as int) == int_field(j, "totalCount"@)
    &&& Some(t.current_page as int) == int_field(j, "currentPage"@)
    &&& Some(t.last) == bool_field(j, "last"@)
    &&& Some(t.total_page as int) == int_field(j, "totalPage"@)
}

/// The first missing or wrongly typed field of a document for `Pagin`.
pub open spec fn pagin_first_err(j: JVal) -> DecodeErrV {
    if !(int_field_in(j, "totalCount"@, 0, u32::MAX as int)) {
        mismatch("unsigned integer"@, "totalCount"@)
    } else if !(int_field_in(j, "currentPage"@, 0, u32::MAX as int)) {
        mismatch("unsigned integer"@, "currentPage"@)
    } else if !(bool_field(j, "last"@) is Some) {
        mismatch("boolean"@, "last"@)
    } else if !(int_field_in(j, "totalPage"@, 0, u32::MAX as int)) {
        mismatch("unsigned integer"@, "totalPage"@)
    } else {
        arbitrary()
    }
}

impl FromJson for Pagin {
    open spec fn conforms(j: JVal) -> bool {
        pagin_conforms(j)
    }

    open spec fn fields_match(j: JVal, t: Self) -> bool {
        pagin_matches(j, t)
    }

    open spec fn first_err(j: JVal) -> DecodeErrV {
        pagin_first_err(j)
    }

    fn from_json(v: &JsonValue) -> (r: Result<Self, DecodeError>) {
        let total_count = req_u32(v, "totalCount")?;
        let current_page = req_u32(v, "currentPage")?;
        let last = req_bool(v, "last")?;
        let total_page = req_u32(v, "totalPage")?;
        Ok(Pagin { total_count, current_page, last, total_page })
    }
}

/// One token transfer of a transaction or account.
#[derive(Debug, Clone)]
pub struct TokenTransfer {
    pub contract: ContractInfo,
    pub block_id: u64,
    pub transaction_hash: String,
    pub fee_payer: String,
    pub transaction_index: u32,
    pub datetime: String,
    pub from: String,
    pub to: String,
    pub amount: u64,
}

/// Whether a document carries every field `TokenTransfer` requires.
pub open spec fn token_transfer_conforms(j: JVal) -> bool {
    &&& nested_field_ok::<ContractInfo>(j, "contract"@)
    &&& int_field_in(j, "blockId"@, 0, u64::MAX as int)
    &&& str_field(j, "transactionHash"@) is Some
    &&& str_field(j, "feePayer"@) is Some
    &&& int_field_in(j, "transactionIndex"@, 0, u32::MAX as int)
    &&& str_field(j, "datetime"@) is Some
    &&& str_field(j, "from"@) is Some
    &&& str_field(j, "to"@) is Some
    &&& int_field_in(j, "amount"@, 0, u64::MAX as int)
}

/// How a decoded `TokenTransfer` relates to its document.
pub open spec fn token_transfer_matches(j: JVal, t: TokenTransfer) -> bool {
    &&& ContractInfo::fields_match(obj_get(j, "contract"@)->0, t.contract)
    &&& Some(t.block_id as int) == int_field(j, "blockId"@)
    &&& Some(t.transaction_hash@) == str_field(j, "transactionHash"@)
    &&& Some(t.fee_payer@) == str_field(j, "feePayer"@)
    &&& Some(t.transaction_index as int) == int_field(j, "transactionIndex"@)
    &&& Some(t.datetime@) == str_field(j, "datetime"@)
    &&& Some(t.from@) == str_field(j, "from"@)
    &&& Some(t.to@) == str_field(j, "to"@)
    &&& Some(t.amount as int) == int_field(j, "amount"@)
}

/// The first missing or wrongly typed field of a document for `TokenTransfer`.
pub open spec fn token_transfer_first_err(j: JVal) -> DecodeErrV {
    if !(nested_field_ok::<ContractInfo>(j, "contract"@)) {
        nested_field_err::<ContractInfo>(j, "contract"@)
    } else if !(int_field_in(j, "blockId"@, 0, u64::MAX as int)) {
        mismatch("unsigned integer"@, "blockId"@)
    } else if !(str_field(j, "transactionHash"@) is Some) {
        mismatch("string"@, "transactionHash"@)
    } else if !(str_field(j, "feePayer"@) is Some) {
        mismatch("string"@, "feePayer"@)
    } else if !(int_field_in(j, "transactionIndex"@, 0, u32::MAX as int)) {
        mismatch("unsigned integer"@, "transactionIndex"@)
    } else if !(str_field(j, "datetime"@) is Some) {
        mismatch("string"@, "datetime"@)
    } else if !(str_field(j, "from"@) is Some) {
        mismatch("string"@, "from"@)
    } else if !(str_field(j, "to"@) is Some) {
        mismatch("string"@, "to"@)
    } else if !(int_field_in(j, "amount"@, 0, u64::MAX as int)) {
        mismatch("unsigned integer"@, "amount"@)
    } else {
        arbitrary()
    }
}

impl FromJson for TokenTransfer {
    open spec fn conforms(j: JVal) -> bool {
        token_transfer_conforms(j)
    }

    open spec fn fields_match(j: JVal, t: Self) -> bool {
        token_transfer_matches(j, t)
    }

    open spec fn first_err(j: JVal) -> DecodeErrV {
        token_transfer_first_err(j)
    }

    fn from_json(v: &JsonValue) -> (r: Result<Self, DecodeError>) {
        let contract = req_nested::<ContractInfo>(v, "contract")?;
        let block_id = req_u64(v, "blockId")?;
        let transaction_hash = req_string(v, "transactionHash")?;
        let fee_payer = req_string(v, "feePayer")?;
        let transaction_index = req_u32(v, "transactionIndex")?;
        let datetime = req_string(v, "datetime")?;
        let from = req_string(v, "from")?;
        let to = req_string(v, "to")?;
        let amount = req_u64(v, "amount")?;
        Ok(TokenTransfer { contract, block_id, transaction_hash, fee_payer, transaction_index, datetime, from, to, amount })
    }
}

/// One NFT balance of an account.
#[derive(Debug, Clone)]
pub struct NftBalance {
    pub contract: ContractInfo,
    pub token_id: String,
    pub token_count: u64,
}

/// Whether a document carries every field `NftBalance` requires.
pub open spec fn nft_balance_conforms(j: JVal) -> bool {
    &&& nested_field_ok::<ContractInfo>(j, "contract"@)
    &&& str_field(j, "tokenId"@) is Some
    &&& int_field_in(j, "tokenCount"@, 0, u64::MAX as int)
}

/// How a decoded `NftBalance` relates to its document.
pub open spec fn nft_balance_matches(j: JVal, t: NftBalance) -> bool {
    &&& ContractInfo::fields_match(obj_get(j, "contract"@)->0, t.contract)
    &&& Some(t.token_id@) == str_field(j, "tokenId"@)
    &&& Some(t.token_count as int) == int_field(j, "tokenCount"@)
}

/// The first missing or wrongly typed field of a document for `NftBalance`.
pub open spec fn nft_balance_first_err(j: JVal) -> DecodeErrV {
    if !(nested_field_ok::<ContractInfo>(j, "contract"@)) {
        nested_field_err::<ContractInfo>(j, "contract"@)
    } else if !(str_field(j, "tokenId"@) is Some) {
        mismatch("string"@, "tokenId"@)
    } else if !(int_field_in(j, "tokenCount"@, 0, u64::MAX as int)) {
        mismatch("unsigned integer"@, "tokenCount"@)
    } else {
        arbitrary()
    }
}

impl FromJson for NftBalance {
    open spec fn conforms(j: JVal) -> bool {
        nft_balance_conforms(j)
    }

    open spec fn fields_match(j: JVal, t: Self) -> bool {
        nft_balance_matches(j, t)
    }

    open spec fn first_err(j: JVal) -> DecodeErrV {
        nft_balance_first_err(j)
    }

    fn from_json(v: &JsonValue) -> (r: Result<Self, DecodeError>) {
        let contract = req_nested::<ContractInfo>(v, "contract")?;
        let token_id = req_string(v, "tokenId")?;
        let token_count = req_u64(v, "tokenCount")?;
        Ok(NftBalance { contract, token_id, token_count })
    }
}

/// One NFT transfer of a transaction or account.
#[derive(Debug, Clone)]
pub struct NftTransfer {
    pub contract: ContractInfo,
    pub block_id: u64,
    pub transaction_hash: String,
    pub fee_payer: String,
    pub transaction_index: u32,
    pub datetime: String,
    pub from: String,
    pub to: String,
    pub token_id: String,
    pub token_count: u64,
}

/// Whether a document carries every field `NftTransfer` requires.
pub open spec fn nft_transfer_conforms(j: JVal) -> bool {
    &&& nested_field_ok::<ContractInfo>(j, "contract"@)
    &&& int_field_in(j, "blockId"@, 0, u64::MAX as int)
    &&& str_field(j, "transactionHash"@) is Some
    &&& str_field(j, "feePayer"@) is Some
    &&& int_field_in(j, "transactionIndex"@, 0, u32::MAX as int)
    &&& str_field(j, "datetime"@) is Some
    &&& str_field(j, "from"@) is Some
    &&& str_field(j, "to"@) is Some
    &&& str_field(j, "tokenId"@) is Some
    &&& int_field_in(j, "tokenCount"@, 0, u64::MAX as int)
}

/// How a decoded `NftTransfer` relates to its document.
pub open spec fn nft_transfer_matches(j: JVal, t: NftTransfer) -> bool {
    &&& ContractInfo::fields_match(obj_get(j, "contract"@)->0, t.contract)
    &&& Some(t.block_id as int) == int_field(j, "blockId"@)
    &&& Some(t.transaction_hash@) == str_field(j, "transactionHash"@)
    &&& Some(t.fee_payer@) == str_field(j, "feePayer"@)
    &&& Some(t.transaction_index as int) == int_field(j, "transactionIndex"@)
    &&& Some(t.datetime@) == str_field(j, "datetime"@)
    &&& Some(t.from@) == str_field(j, "from"@)
    &&& Some(t.to@) == str_field(j, "to"@)
    &&& Some(t.token_id@) == str_field(j, "tokenId"@)
    &&& Some(t.token_count as int) == int_field(j, "tokenCount"@)
}

/// The first missing or wrongly typed field of a document for `NftTransfer`.
pub open spec fn nft_transfer_first_err(j: JVal) -> DecodeErrV {
    if !(nested_field_ok::<ContractInfo>(j, "contract"@)) {
        nested_field_err::<ContractInfo>(j, "contract"@)
    } else if !(int_field_in(j, "blockId"@, 0, u64::MAX as int)) {
        mismatch("unsigned integer"@, "blockId"@)
    } else if !(str_field(j, "transactionHash"@) is Some) {
        mismatch("string"@, "transactionHash"@)
    } else if !(str_field(j, "feePayer"@) is Some) {
        mismatch("string"@, "feePayer"@)
    } else if !(int_field_in(j, "transactionIndex"@, 0, u32::MAX as int)) {
        mismatch("unsigned integer"@, "transactionIndex"@)
    } else if !(str_field(j, "datetime"@) is Some) {
        mismatch("string"@, "datetime"@)
    } else if !(str_field(j, "from"@) is Some) {
        mismatch("string"@, "from"@)
    } else if !(str_field(j, "to"@) is Some) {
        mismatch("string"@, "to"@)
    } else if !(str_field(j, "tokenId"@) is Some) {
        mismatch("string"@, "tokenId"@)
    } else if !(int_field_in(j, "tokenCount"@, 0, u64::MAX as int)) {
        mismatch("unsigned integer"@, "tokenCount"@)
    } else {
        arbitrary()
    }
}

impl FromJson for NftTransfer {
    open spec fn conforms(j: JVal) -> bool {
        nft_transfer_conforms(j)
    }

    open spec fn fields_match(j: JVal, t: Self) -> bool {
        nft_transfer_matches(j, t)
    }

    open spec fn first_err(j: JVal) -> DecodeErrV {
        nft_transfer_first_err(j)
    }

    fn from_json(v: &JsonValue) -> (r: Result<Self, DecodeError>) {
        let contract = req_nested::<ContractInfo>(v, "contract")?;
        let block_id = req_u64(v, "blockId")?;
        let transaction_hash = req_string(v, "transactionHash")?;
        let fee_payer = req_string(v, "feePayer")?;
        let transaction_index = req_u32(v, "transactionIndex")?;
        let datetime = req_string(v, "datetime")?;
        let from = req_string(v, "from")?;
        let to = req_string(v, "to")?;
        let token_id = req_string(v, "tokenId")?;
        let token_count = req_u64(v, "tokenCount")?;
        Ok(NftTransfer { contract, block_id, transaction_hash, fee_payer, transaction_index, datetime, from, to, token_id, token_count })
    }
}

/// One parameter of a decoded internal transaction.
#[derive(Debug, Clone)]
pub struct TransactionParameter {
    pub param_type: String,
    pub value: String,
}

/// Whether a document carries every field `TransactionParameter` requires.
pub open spec fn transaction_parameter_conforms(j: JVal) -> bool {
    &&& str_field(j, "param_type"@) is Some
    &&& str_field(j, "value"@) is Some
}

/// How a decoded `TransactionParameter` relates to its document.
pub open spec fn transaction_parameter_matches(j: JVal, t: TransactionParameter) -> bool {
    &&& Some(t.param_type@) == str_field(j, "param_type"@)
    &&& Some(t.value@) == str_field(j, "value"@)
}

/// The first missing or wrongly typed field of a document for `TransactionParameter`.
pub open spec fn transaction_parameter_first_err(j: JVal) -> DecodeErrV {
    if !(str_field(j, "param_type"@) is Some) {
        mismatch("string"@, "param_type"@)
    } else if !(str_field(j, "value"@) is Some) {
        mismatch("string"@, "value"@)
    } else {
        arbitrary()
    }
}

impl FromJson for TransactionParameter {
    open spec fn conforms(j: JVal) -> bool {
        transaction_parameter_conforms(j)
    }

    open spec fn fields_match(j: JVal, t: Self) -> bool {
        transaction_parameter_matches(j, t)
    }

    open spec fn first_err(j: JVal) -> DecodeErrV {
        transaction_parameter_first_err(j)
    }

    fn from_json(v: &JsonValue) -> (r: Result<Self, DecodeError>) {
        let param_type = req_string(v, "param_type")?;
        let value = req_string(v, "value")?;
        Ok(TransactionParameter { param_type, value })
    }
}

/// A decoded internal transaction of a transaction.
#[derive(Debug, Clone)]
pub struct InternalTransactionEntry {
    pub signature: String,
    pub method_id: String,
    pub parameters: Vec<TransactionParameter>,
}

/// Whether a document carries every field `InternalTransactionEntry` requires.
pub open spec fn internal_transaction_entry_conforms(j: JVal) -> bool {
    &&& str_field(j, "signature"@) is Some
    &&& str_field(j, "method_id"@) is Some
    &&& vec_field_ok::<TransactionParameter>(j, "parameters"@)
}

/// How a decoded `InternalTransactionEntry` relates to its document.
pub open spec fn internal_transaction_entry_matches(j: JVal, t: InternalTransactionEntry) -> bool {
    &&& Some(t.signature@) == str_field(j, "signature"@)
    &&& Some(t.method_id@) == str_field(j, "method_id"@)
    &&& arr_matches::<TransactionParameter>(arr_field(j, "parameters"@)->0, t.parameters@)
}

/// The first missing or wrongly typed field of a document for `InternalTransactionEntry`.
pub open spec fn internal_transaction_entry_first_err(j: JVal) -> DecodeErrV {
    if !(str_field(j, "signature"@) is Some) {
        mismatch("string"@, "signature"@)
    } else if !(str_field(j, "method_id"@) is Some) {
        mismatch("string"@, "method_id"@)
    } else if !(vec_field_ok::<TransactionParameter>(j, "parameters"@)) {
        vec_field_err::<TransactionParameter>(j, "parameters"@)
    } else {
        arbitrary()
    }
}

impl FromJson for InternalTransactionEntry {
    open spec fn conforms(j: JVal) -> bool {
        internal_transaction_entry_conforms(j)
    }

    open spec fn fields_match(j: JVal, t: Self) -> bool {
        internal_transaction_entry_matches(j, t)
    }

    open spec fn first_err(j: JVal) -> DecodeErrV {
        internal_transaction_entry_first_err(j)
    }

    fn from_json(v: &JsonValue) -> (r: Result<Self, DecodeError>) {
        let signature = req_string(v, "signature")?;
        let method_id = req_string(v, "method_id")?;
        let parameters = req_vec::<TransactionParameter>(v, "parameters")?;
        Ok(InternalTransactionEntry { signature, method_id, parameters })
    }
}

/// One decoded parameter of a transaction's input data.
#[derive(Debug, Clone)]
pub struct DecodedParameter {
    pub param_type: String,
    pub name: String,
    pub value: String,
}

/// Whether a document carries every field `DecodedParameter` requires.
pub open spec fn decoded_parameter_conforms(j: JVal) -> bool {
    &&& str_field(j, "type"@) is Some
    &&& str_field(j, "name"@) is Some
    &&& str_field(j, "value"@) is Some
}

/// How a decoded `DecodedParameter` relates to its document.
pub open spec fn decoded_parameter_matches(j: JVal, t: DecodedParameter) -> bool {
    &&& Some(t.param_type@) == str_field(j, "type"@)
    &&& Some(t.name@) == str_field(j, "name"@)
    &&& Some(t.value@) == str_field(j, "value"@)
}

/// The first missing or wrongly typed field of a document for `DecodedParameter`.
pub open spec fn decoded_parameter_first_err(j: JVal) -> DecodeErrV {
    if !(str_field(j, "type"@) is Some) {
        mismatch("string"@, "type"@)
    } else if !(str_field(j, "name"@) is Some) {
        mismatch("string"@, "name"@)
    } else if !(str_field(j, "value"@) is Some) {
        mismatch("string"@, "value"@)
    } else {
        arbitrary()
    }
}

impl FromJson for DecodedParameter {
    open spec fn conforms(j: JVal) -> bool {
        decoded_parameter_conforms(j)
    }

    open spec fn fields_match(j: JVal, t: Self) -> bool {
        decoded_parameter_matches(j, t)
    }

    open spec fn first_err(j: JVal) -> DecodeErrV {
        decoded_parameter_first_err(j)
    }

    fn from_json(v: &JsonValue) -> (r: Result<Self, DecodeError>) {
        let param_type = req_string(v, "type")?;
        let name = req_string(v, "name")?;
        let value = req_string(v, "value")?;
        Ok(DecodedParameter { param_type, name, value })
    }
}

/// The decoded form of a transaction's input data.
#[derive(Debug, Clone)]
pub struct DecodedValue {
    pub signature: String,
    pub method_id: String,
    pub parameters: Vec<DecodedParameter>,
}

/// Whether a document carries every field `DecodedValue` requires.
pub open spec fn decoded_value_conforms(j: JVal) -> bool {
    &&& str_field(j, "signature"@) is Some
    &&& str_field(j, "methodId"@) is Some
    &&& vec_field_ok::<DecodedParameter>(j, "parameters"@)
}

/// How a decoded `DecodedValue` relates to its document.
pub open spec fn decoded_value_matches(j: JVal, t: DecodedValue) -> bool {
    &&& Some(t.signature@) == str_field(j, "signature"@)
    &&& Some(t.method_id@) == str_field(j, "methodId"@)
    &&& arr_matches::<DecodedParameter>(arr_field(j, "parameters"@)->0, t.parameters@)
}

/// The first missing or wrongly typed field of a document for `DecodedValue`.
pub open spec fn decoded_value_first_err(j: JVal) -> DecodeErrV {
    if !(str_field(j, "signature"@) is Some) {
        mismatch("string"@, "signature"@)
    } else if !(str_field(j, "methodId"@) is Some) {
        mismatch("string"@, "methodId"@)
    } else if !(vec_field_ok::<DecodedParameter>(j, "parameters"@)) {
        vec_field_err::<DecodedParameter>(j, "parameters"@)
    } else {
        arbitrary()
    }
}

impl FromJson for DecodedValue {
    open spec fn conforms(j: JVal) -> bool {
        decoded_value_conforms(j)
    }

    open spec fn fields_match(j: JVal, t: Self) -> bool {
        decoded_value_matches(j, t)
    }

    open spec fn first_err(j: JVal) -> DecodeErrV {
        decoded_value_first_err(j)
    }

    fn from_json(v: &JsonValue) -> (r: Result<Self, DecodeError>) {
        let signature = req_string(v, "signature")?;
        let method_id = req_string(v, "methodId")?;
        let parameters = req_vec::<DecodedParameter>(v, "parameters")?;
        Ok(DecodedValue { signature, method_id, parameters })
    }
}

/// The raw and decoded input data of a transaction.
#[derive(Debug, Clone)]
pub struct TransactionInputData {
    pub original_value: String,
    pub decoded_value: Option<DecodedValue>,
    pub utf8_value: Option<String>,
}

/// Whether a document carries every field `TransactionInputData` requires.
pub open spec fn transaction_input_data_conforms(j: JVal) -> bool {
    &&& str_field(j, "originalValue"@) is Some
    &&& opt_nested_ok::<DecodedValue>(j, "decodedValue"@)
    &&& opt_str_ok(j, "utf8Value"@)
}

/// How a decoded `TransactionInputData` relates to its document.
pub open spec fn transaction_input_data_matches(j: JVal, t: TransactionInputData) -> bool {
    &&& Some(t.original_value@) == str_field(j, "originalValue"@)
    &&& (t.decoded_value is Some <==> opt_nested_present(j, "decodedValue"@))
    &&& (t.decoded_value is Some ==> DecodedValue::fields_match(obj_get(j, "decodedValue"@)->0, t.decoded_value->0))
    &&& (match t.utf8_value { Some(s) => opt_str_val(j, "utf8Value"@) == Some(s@), None => opt_str_val(j, "utf8Value"@) is None })
}

/// The first missing or wrongly typed field of a document for `TransactionInputData`.
pub open spec fn transaction_input_data_first_err(j: JVal) -> DecodeErrV {
    if !(str_field(j, "originalValue"@) is Some) {
        mismatch("string"@, "originalValue"@)
    } else if !(opt_nested_ok::<DecodedValue>(j, "decodedValue"@)) {
        opt_nested_err::<DecodedValue>(j, "decodedValue"@)
    } else if !(opt_str_ok(j, "utf8Value"@)) {
        mismatch("string or null"@, "utf8Value"@)
    } else {
        arbitrary()
    }
}

impl FromJson for TransactionInputData {
    open spec fn conforms(j: JVal) -> bool {
        transaction_input_data_conforms(j)
    }

    open spec fn fields_match(j: JVal, t: Self) -> bool {
        transaction_input_data_matches(j, t)
    }

    open spec fn first_err(j: JVal) -> DecodeErrV {
        transaction_input_data_first_err(j)
    }

    fn from_json(v: &JsonValue) -> (r: Result<Self, DecodeError>) {
        let original_value = req_string(v, "originalValue")?;
        let decoded_value = opt_nested::<DecodedValue>(v, "decodedValue")?;
        let utf8_value = opt_string(v, "utf8Value")?;
        Ok(TransactionInputData { original_value, decoded_value, utf8_value })
    }
}
} // verus!
