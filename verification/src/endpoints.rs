//! The request URL for each endpoint.
//!
//! Every accessor of the client is a thin triple of path template,
//! envelope shape and result type; the URL construction and the
//! pagination validation for all of them live here, in front of any
//! network traffic. A builder that validates returns the validation
//! error without any request having been made.

use vstd::prelude::*;

use crate::address::Address;
use crate::network::{spec_base_url, Network};
use crate::numstr::{dec_str, dec_str_int, i64_to_dec, u64_to_dec};
use crate::pagination::{
    effective_page, effective_size, normalize, ValidationError, MAX_SIZE,
};
use crate::urls::{build, pairs_view, spec_build};

verus! {

/// A query segment of one pair, or nothing.
pub open spec fn opt_pair(name: Seq<char>, v: Option<Seq<char>>) -> Seq<(Seq<char>, Seq<char>)> {
    match v {
        Some(x) => seq![(name, x)],
        None => Seq::empty(),
    }
}

/// The `page` and `size` pair of every paginated query.
pub open spec fn page_size_query(page: u32, size: u32) -> Seq<(Seq<char>, Seq<char>)> {
    seq![("page"@, dec_str(page as nat)), ("size"@, dec_str(size as nat))]
}

/// Whether the pagination inputs pass validation.
pub open spec fn page_size_valid(page: Option<u32>, size: Option<u32>) -> bool {
    effective_page(page) >= 1 && 1 <= effective_size(size) <= MAX_SIZE
}

/// The validation error the pagination inputs raise, page checked first.
pub open spec fn page_size_error(page: Option<u32>, size: Option<u32>) -> ValidationError {
    if effective_page(page) < 1 {
        ValidationError::PageTooSmall
    } else {
        ValidationError::SizeOutOfRange
    }
}

/// Appends one query pair.
fn push_pair(q: &mut Vec<(String, String)>, k: &str, v: String)
    ensures
        pairs_view(final(q)@) =~= pairs_view(old(q)@).push((k@, v@)),
{
    q.push((k.to_owned(), v));
    proof {
        assert(pairs_view(q@) =~= pairs_view(old(q)@).push((k@, v@)));
    }
}

/// The URL of the token lookup endpoint for one token.
pub fn fungible_token_url(network: Network, token_address: &Address) -> (r: String)
    ensures
        r@ == spec_build(
            spec_base_url(network),
            "api/v1/tokens/"@ + token_address@,
            Seq::empty(),
        ),
{
    let mut path = "api/v1/tokens/".to_owned();
    path.append(token_address.as_ref());
    let q: Vec<(String, String)> = Vec::new();
    proof {
        assert(pairs_view(q@) =~= Seq::<(Seq<char>, Seq<char>)>::empty());
    }
    build(network.base_url(), path.as_str(), &q)
}

/// The URL of the latest-block endpoint.
pub fn latest_block_url(network: Network) -> (r: String)
    ensures
        r@ == spec_build(spec_base_url(network), "api/v1/blocks/latest"@, Seq::empty()),
{
    let q: Vec<(String, String)> = Vec::new();
    proof {
        assert(pairs_view(q@) =~= Seq::<(Seq<char>, Seq<char>)>::empty());
    }
    build(network.base_url(), "api/v1/blocks/latest", &q)
}

/// The URL of the network-summary endpoint.
pub fn kaia_info_url(network: Network) -> (r: String)
    ensures
        r@ == spec_build(spec_base_url(network), "api/v1/kaia"@, Seq::empty()),
{
    let q: Vec<(String, String)> = Vec::new();
    proof {
        assert(pairs_view(q@) =~= Seq::<(Seq<char>, Seq<char>)>::empty());
    }
    build(network.base_url(), "api/v1/kaia", &q)
}

/// The URL of the single-block lookup endpoint.
pub fn block_url(network: Network, block_number: i64) -> (r: String)
    ensures
        r@ == spec_build(
            spec_base_url(network),
            "api/v1/blocks"@,
            seq![("blockNumber"@, dec_str_int(block_number as int))],
        ),
{
    let mut q: Vec<(String, String)> = Vec::new();
    proof {
        assert(pairs_view(q@) =~= Seq::<(Seq<char>, Seq<char>)>::empty());
    }
    push_pair(&mut q, "blockNumber", i64_to_dec(block_number));
    proof {
        assert(pairs_view(q@) =~= seq![("blockNumber"@, dec_str_int(block_number as int))]);
    }
    build(network.base_url(), "api/v1/blocks", &q)
}

/// The URL of the transactions-of-a-block endpoint.
pub fn transactions_of_block_url(network: Network, block_number: i64) -> (r: String)
    ensures
        r@ == spec_build(
            spec_base_url(network),
            "api/v1/blocks/"@ + dec_str_int(block_number as int) + "/transactions"@,
            Seq::empty(),
        ),
{
    let mut path = "api/v1/blocks/".to_owned();
    let n = i64_to_dec(block_number);
    path.append(n.as_str());
    path.append("/transactions");
    let q: Vec<(String, String)> = Vec::new();
    proof {
        assert(pairs_view(q@) =~= Seq::<(Seq<char>, Seq<char>)>::empty());
    }
    build(network.base_url(), path.as_str(), &q)
}

/// The URL of the burns-of-a-block endpoint.
pub fn block_burns_url(network: Network, block_number: i64) -> (r: String)
    ensures
        r@ == spec_build(
            spec_base_url(network),
            "api/v1/blocks/"@ + dec_str_int(block_number as int) + "/burns"@,
            Seq::empty(),
        ),
{
    let mut path = "api/v1/blocks/".to_owned();
    let n = i64_to_dec(block_number);
    path.append(n.as_str());
    path.append("/burns");
    let q: Vec<(String, String)> = Vec::new();
    proof {
        assert(pairs_view(q@) =~= Seq::<(Seq<char>, Seq<char>)>::empty());
    }
    build(network.base_url(), path.as_str(), &q)
}

/// The URL of the rewards-of-a-block endpoint.
pub fn block_rewards_url(network: Network, block_number: i64) -> (r: String)
    ensures
        r@ == spec_build(
            spec_base_url(network),
            "api/v1/blocks/"@ + dec_str_int(block_number as int) + "/rewards"@,
            Seq::empty(),
        ),
{
    let mut path = "api/v1/blocks/".to_owned();
    let n = i64_to_dec(block_number);
    path.append(n.as_str());
    path.append("/rewards");
    let q: Vec<(String, String)> = Vec::new();
    proof {
        assert(pairs_view(q@) =~= Seq::<(Seq<char>, Seq<char>)>::empty());
    }
    build(network.base_url(), path.as_str(), &q)
}

/// The URL of the latest-block-rewards endpoint.
pub fn latest_block_rewards_url(network: Network, block_number: i64) -> (r: String)
    ensures
        r@ == spec_build(
            spec_base_url(network),
            "api/v1/blocks/latest/rewards"@,
            seq![("blockNumber"@, dec_str_int(block_number as int))],
        ),
{
    let mut q: Vec<(String, String)> = Vec::new();
    proof {
        assert(pairs_view(q@) =~= Seq::<(Seq<char>, Seq<char>)>::empty());
    }
    push_pair(&mut q, "blockNumber", i64_to_dec(block_number));
    proof {
        assert(pairs_view(q@) =~= seq![("blockNumber"@, dec_str_int(block_number as int))]);
    }
    build(network.base_url(), "api/v1/blocks/latest/rewards", &q)
}

/// The URL of the transaction lookup endpoint.
pub fn transaction_url(network: Network, transaction_hash: &str) -> (r: String)
    ensures
        r@ == spec_build(
            spec_base_url(network),
            "api/v1/transactions/"@ + transaction_hash@,
            Seq::empty(),
        ),
{
    let mut path = "api/v1/transactions/".to_owned();
    path.append(transaction_hash);
    let q: Vec<(String, String)> = Vec::new();
    proof {
        assert(pairs_view(q@) =~= Seq::<(Seq<char>, Seq<char>)>::empty());
    }
    build(network.base_url(), path.as_str(), &q)
}

/// The URL of the transaction-status endpoint.
pub fn transaction_status_url(network: Network, transaction_hash: &str) -> (r: String)
    ensures
        r@ == spec_build(
            spec_base_url(network),
            "api/v1/transactions/"@ + transaction_hash@ + "/status"@,
            Seq::empty(),
        ),
{
    let mut path = "api/v1/transactions/".to_owned();
    path.append(transaction_hash);
    path.append("/status");
    let q: Vec<(String, String)> = Vec::new();
    proof {
        assert(pairs_view(q@) =~= Seq::<(Seq<char>, Seq<char>)>::empty());
    }
    build(network.base_url(), path.as_str(), &q)
}

/// The URL of the transaction-receipt-status endpoint.
pub fn transaction_receipt_status_url(network: Network, transaction_hash: &str) -> (r: String)
    ensures
        r@ == spec_build(
            spec_base_url(network),
            "api/v1/transaction-receipts/status"@,
            seq![("transactionHash"@, transaction_hash@)],
        ),
{
    let mut q: Vec<(String, String)> = Vec::new();
    proof {
        assert(pairs_view(q@) =~= Seq::<(Seq<char>, Seq<char>)>::empty());
    }
    push_pair(&mut q, "transactionHash", transaction_hash.to_owned());
    proof {
        assert(pairs_view(q@) =~= seq![("transactionHash"@, transaction_hash@)]);
    }
    build(network.base_url(), "api/v1/transaction-receipts/status", &q)
}

/// The URL of the NFT-item lookup endpoint.
pub fn nft_item_url(network: Network, nft_address: &Address, token_id: &str) -> (r: String)
    ensures
        r@ == spec_build(
            spec_base_url(network),
            "api/v1/nfts"@,
            seq![("nftAddress"@, nft_address@), ("tokenId"@, token_id@)],
        ),
{
    let mut q: Vec<(String, String)> = Vec::new();
    proof {
        assert(pairs_view(q@) =~= Seq::<(Seq<char>, Seq<char>)>::empty());
    }
    push_pair(&mut q, "nftAddress", nft_address.as_ref().to_owned());
    push_pair(&mut q, "tokenId", token_id.to_owned());
    proof {
        assert(pairs_view(q@) =~= seq![("nftAddress"@, nft_address@), ("tokenId"@, token_id@)]);
    }
    build(network.base_url(), "api/v1/nfts", &q)
}

/// The URL of the contract-creation-code endpoint.
pub fn contract_creation_code_url(network: Network, contract_address: &Address) -> (r: String)
    ensures
        r@ == spec_build(
            spec_base_url(network),
            "api/v1/contracts/creation-code"@,
            seq![("contractAddress"@, contract_address@)],
        ),
{
    let mut q: Vec<(String, String)> = Vec::new();
    proof {
        assert(pairs_view(q@) =~= Seq::<(Seq<char>, Seq<char>)>::empty());
    }
    push_pair(&mut q, "contractAddress", contract_address.as_ref().to_owned());
    proof {
        assert(pairs_view(q@) =~= seq![("contractAddress"@, contract_address@)]);
    }
    build(network.base_url(), "api/v1/contracts/creation-code", &q)
}

/// The URL of the contract-source-code endpoint.
pub fn contract_source_code_url(network: Network, contract_address: &Address) -> (r: String)
    ensures
        r@ == spec_build(
            spec_base_url(network),
            "api/v1/contracts/source-code"@,
            seq![("contractAddress"@, contract_address@)],
        ),
{
    let mut q: Vec<(String, String)> = Vec::new();
    proof {
        assert(pairs_view(q@) =~= Seq::<(Seq<char>, Seq<char>)>::empty());
    }
    push_pair(&mut q, "contractAddress", contract_address.as_ref().to_owned());
    proof {
        assert(pairs_view(q@) =~= seq![("contractAddress"@, contract_address@)]);
    }
    build(network.base_url(), "api/v1/contracts/source-code", &q)
}

/// The URL of the account key-history endpoint for one page.
pub fn account_key_histories_url(
    network: Network,
    account_address: &str,
    page: Option<u32>,
    size: Option<u32>,
) -> (r: Result<String, ValidationError>)
    ensures
        !page_size_valid(page, size) ==> r == Err::<String, ValidationError>(
            page_size_error(page, size),
        ),
        page_size_valid(page, size) ==> r is Ok && r->Ok_0@ == spec_build(
            spec_base_url(network),
            "api/v1/accounts/"@ + account_address@ + "/key-histories"@,
            page_size_query(effective_page(page), effective_size(size)),
        ),
{
    let pr = normalize(page, size)?;
    let mut path = "api/v1/accounts/".to_owned();
    path.append(account_address);
    path.append("/key-histories");
    let mut q: Vec<(String, String)> = Vec::new();
    proof {
        assert(pairs_view(q@) =~= Seq::<(Seq<char>, Seq<char>)>::empty());
    }
    push_pair(&mut q, "page", u64_to_dec(pr.page as u64));
    push_pair(&mut q, "size", u64_to_dec(pr.size as u64));
    proof {
        assert(pairs_view(q@) =~= page_size_query(pr.page, pr.size));
    }
    Ok(build(network.base_url(), path.as_str(), &q))
}

/// The URL of the latest-block burns endpoint for one page.
pub fn latest_block_burns_url(
    network: Network,
    page: Option<u32>,
    size: Option<u32>,
) -> (r: Result<String, ValidationError>)
    ensures
        !page_size_valid(page, size) ==> r == Err::<String, ValidationError>(
            page_size_error(page, size),
        ),
        page_size_valid(page, size) ==> r is Ok && r->Ok_0@ == spec_build(
            spec_base_url(network),
            "api/v1/blocks/latest/burns"@,
            page_size_query(effective_page(page), effective_size(size)),
        ),
{
    let pr = normalize(page, size)?;
    let mut path = "api/v1/blocks/latest/burns".to_owned();
    let mut q: Vec<(String, String)> = Vec::new();
    proof {
        assert(pairs_view(q@) =~= Seq::<(Seq<char>, Seq<char>)>::empty());
    }
    push_pair(&mut q, "page", u64_to_dec(pr.page as u64));
    push_pair(&mut q, "size", u64_to_dec(pr.size as u64));
    proof {
        assert(pairs_view(q@) =~= page_size_query(pr.page, pr.size));
    }
    Ok(build(network.base_url(), path.as_str(), &q))
}

/// The URL of the internal-transactions-of-a-block endpoint for one page.
pub fn internal_transactions_of_block_url(
    network: Network,
    block_number: i64,
    page: Option<u32>,
    size: Option<u32>,
) -> (r: Result<String, ValidationError>)
    ensures
        !page_size_valid(page, size) ==> r == Err::<String, ValidationError>(
            page_size_error(page, size),
        ),
        page_size_valid(page, size) ==> r is Ok && r->Ok_0@ == spec_build(
            spec_base_url(network),
            "api/v1/blocks/"@ + dec_str_int(block_number as int) + "/internal-transactions"@,
            page_size_query(effective_page(page), effective_size(size)),
        ),
{
    let pr = normalize(page, size)?;
    let mut path = "api/v1/blocks/".to_owned();
    let n = i64_to_dec(block_number);
    path.append(n.as_str());
    path.append("/internal-transactions");
    let mut q: Vec<(String, String)> = Vec::new();
    proof {
        assert(pairs_view(q@) =~= Seq::<(Seq<char>, Seq<char>)>::empty());
    }
    push_pair(&mut q, "page", u64_to_dec(pr.page as u64));
    push_pair(&mut q, "size", u64_to_dec(pr.size as u64));
    proof {
        assert(pairs_view(q@) =~= page_size_query(pr.page, pr.size));
    }
    Ok(build(network.base_url(), path.as_str(), &q))
}

/// The URL of the KIP-17 NFT balances endpoint for one page.
pub fn account_kip17_nft_balances_url(
    network: Network,
    account_address: &Address,
    page: Option<u32>,
    size: Option<u32>,
) -> (r: Result<String, ValidationError>)
    ensures
        !page_size_valid(page, size) ==> r == Err::<String, ValidationError>(
            page_size_error(page, size),
        ),
        page_size_valid(page, size) ==> r is Ok && r->Ok_0@ == spec_build(
            spec_base_url(network),
            "api/v1/accounts/"@ + account_address@ + "/nft-balances/kip17"@,
            page_size_query(effective_page(page), effective_size(size)),
        ),
{
    let pr = normalize(page, size)?;
    let mut path = "api/v1/accounts/".to_owned();
    path.append(account_address.as_ref());
    path.append("/nft-balances/kip17");
    let mut q: Vec<(String, String)> = Vec::new();
    proof {
        assert(pairs_view(q@) =~= Seq::<(Seq<char>, Seq<char>)>::empty());
    }
    push_pair(&mut q, "page", u64_to_dec(pr.page as u64));
    push_pair(&mut q, "size", u64_to_dec(pr.size as u64));
    proof {
        assert(pairs_view(q@) =~= page_size_query(pr.page, pr.size));
    }
    Ok(build(network.base_url(), path.as_str(), &q))
}

/// The URL of the KIP-37 NFT balances endpoint for one page.
pub fn account_kip37_nft_balances_url(
    network: Network,
    account_address: &Address,
    page: Option<u32>,
    size: Option<u32>,
) -> (r: Result<String, ValidationError>)
    ensures
        !page_size_valid(page, size) ==> r == Err::<String, ValidationError>(
            page_size_error(page, size),
        ),
        page_size_valid(page, size) ==> r is Ok && r->Ok_0@ == spec_build(
            spec_base_url(network),
            "api/v1/accounts/"@ + account_address@ + "/nft-balances/kip37"@,
            page_size_query(effective_page(page), effective_size(size)),
        ),
{
    let pr = normalize(page, size)?;
    let mut path = "api/v1/accounts/".to_owned();
    path.append(account_address.as_ref());
    path.append("/nft-balances/kip37");
    let mut q: Vec<(String, String)> = Vec::new();
    proof {
        assert(pairs_view(q@) =~= Seq::<(Seq<char>, Seq<char>)>::empty());
    }
    push_pair(&mut q, "page", u64_to_dec(pr.page as u64));
    push_pair(&mut q, "size", u64_to_dec(pr.size as u64));
    proof {
        assert(pairs_view(q@) =~= page_size_query(pr.page, pr.size));
    }
    Ok(build(network.base_url(), path.as_str(), &q))
}

/// The URL of the account token balances endpoint for one page.
pub fn account_token_balances_url(
    network: Network,
    account_address: &Address,
    page: Option<u32>,
    size: Option<u32>,
) -> (r: Result<String, ValidationError>)
    ensures
        !page_size_valid(page, size) ==> r == Err::<String, ValidationError>(
            page_size_error(page, size),
        ),
        page_size_valid(page, size) ==> r is Ok && r->Ok_0@ == spec_build(
            spec_base_url(network),
            "api/v1/accounts/"@ + account_address@ + "/token-balances"@,
            page_size_query(effective_page(page), effective_size(size)),
        ),
{
    let pr = normalize(page, size)?;
    let mut path = "api/v1/accounts/".to_owned();
    path.append(account_address.as_ref());
    path.append("/token-balances");
    let mut q: Vec<(String, String)> = Vec::new();
    proof {
        assert(pairs_view(q@) =~= Seq::<(Seq<char>, Seq<char>)>::empty());
    }
    push_pair(&mut q, "page", u64_to_dec(pr.page as u64));
    push_pair(&mut q, "size", u64_to_dec(pr.size as u64));
    proof {
        assert(pairs_view(q@) =~= page_size_query(pr.page, pr.size));
    }
    Ok(build(network.base_url(), path.as_str(), &q))
}

/// The URL of the event-logs-of-a-transaction endpoint for one page of one transaction.
pub fn transaction_event_logs_url(
    network: Network,
    transaction_hash: &str,
    page: Option<u32>,
    size: Option<u32>,
    signature: Option<&str>,
) -> (r: Result<String, ValidationError>)
    ensures
        transaction_hash@.len() == 0 ==> r == Err::<String, ValidationError>(
            ValidationError::MissingTransactionHash,
        ),
        transaction_hash@.len() > 0 && !page_size_valid(page, size) ==> r == Err::<
            String,
            ValidationError,
        >(page_size_error(page, size)),
        transaction_hash@.len() > 0 && page_size_valid(page, size) ==> r is Ok && r->Ok_0@
            == spec_build(
            spec_base_url(network),
            "api/v1/transactions/"@ + transaction_hash@ + "/event-logs"@,
            page_size_query(effective_page(page), effective_size(size)) + opt_pair(
                "signature"@,
                match signature {
                    Some(g) => Some(g@),
                    None => None,
                },
            ),
        ),
{
    if transaction_hash.is_empty() {
        return Err(ValidationError::MissingTransactionHash);
    }
    let pr = normalize(page, size)?;
    let mut path = "api/v1/transactions/".to_owned();
    path.append(transaction_hash);
    path.append("/event-logs");
    let mut q: Vec<(String, String)> = Vec::new();
    proof {
        assert(pairs_view(q@) =~= Seq::<(Seq<char>, Seq<char>)>::empty());
    }
    push_pair(&mut q, "page", u64_to_dec(pr.page as u64));
    push_pair(&mut q, "size", u64_to_dec(pr.size as u64));
    if let Some(g) = signature {
        push_pair(&mut q, "signature", g.to_owned());
    }
    proof {
        assert(pairs_view(q@) =~= page_size_query(pr.page, pr.size) + opt_pair(
                "signature"@,
                match signature {
                    Some(g) => Some(g@),
                    None => None,
                },
            ));
    }
    Ok(build(network.base_url(), path.as_str(), &q))
}

/// The URL of the internal-transactions-of-a-transaction endpoint for one page of one transaction.
pub fn transaction_internal_transactions_url(
    network: Network,
    transaction_hash: &str,
    page: Option<u32>,
    size: Option<u32>,
) -> (r: Result<String, ValidationError>)
    ensures
        transaction_hash@.len() == 0 ==> r == Err::<String, ValidationError>(
            ValidationError::MissingTransactionHash,
        ),
        transaction_hash@.len() > 0 && !page_size_valid(page, size) ==> r == Err::<
            String,
            ValidationError,
        >(page_size_error(page, size)),
        transaction_hash@.len() > 0 && page_size_valid(page, size) ==> r is Ok && r->Ok_0@
            == spec_build(
            spec_base_url(network),
            "api/v1/transactions/"@ + transaction_hash@ + "/internal-transactions"@,
            page_size_query(effective_page(page), effective_size(size)),
        ),
{
    if transaction_hash.is_empty() {
        return Err(ValidationError::MissingTransactionHash);
    }
    let pr = normalize(page, size)?;
    let mut path = "api/v1/transactions/".to_owned();
    path.append(transaction_hash);
    path.append("/internal-transactions");
    let mut q: Vec<(String, String)> = Vec::new();
    proof {
        assert(pairs_view(q@) =~= Seq::<(Seq<char>, Seq<char>)>::empty());
    }
    push_pair(&mut q, "page", u64_to_dec(pr.page as u64));
    push_pair(&mut q, "size", u64_to_dec(pr.size as u64));
    proof {
        assert(pairs_view(q@) =~= page_size_query(pr.page, pr.size));
    }
    Ok(build(network.base_url(), path.as_str(), &q))
}

/// The URL of the token-transfers-of-a-transaction endpoint for one page of one transaction.
pub fn transaction_token_transfers_url(
    network: Network,
    transaction_hash: &str,
    page: Option<u32>,
    size: Option<u32>,
) -> (r: Result<String, ValidationError>)
    ensures
        transaction_hash@.len() == 0 ==> r == Err::<String, ValidationError>(
            ValidationError::MissingTransactionHash,
        ),
        transaction_hash@.len() > 0 && !page_size_valid(page, size) ==> r == Err::<
            String,
            ValidationError,
        >(page_size_error(page, size)),
        transaction_hash@.len() > 0 && page_size_valid(page, size) ==> r is Ok && r->Ok_0@
            == spec_build(
            spec_base_url(network),
            "api/v1/transactions/"@ + transaction_hash@ + "/token-transfers"@,
            page_size_query(effective_page(page), effective_size(size)),
        ),
{
    if transaction_hash.is_empty() {
        return Err(ValidationError::MissingTransactionHash);
    }
    let pr = normalize(page, size)?;
    let mut path = "api/v1/transactions/".to_owned();
    path.append(transaction_hash);
    path.append("/token-transfers");
    let mut q: Vec<(String, String)> = Vec::new();
    proof {
        assert(pairs_view(q@) =~= Seq::<(Seq<char>, Seq<char>)>::empty());
    }
    push_pair(&mut q, "page", u64_to_dec(pr.page as u64));
    push_pair(&mut q, "size", u64_to_dec(pr.size as u64));
    proof {
        assert(pairs_view(q@) =~= page_size_query(pr.page, pr.size));
    }
    Ok(build(network.base_url(), path.as_str(), &q))
}

/// The URL of the NFT-transfers-of-a-transaction endpoint for one page of one transaction.
pub fn transaction_nft_transfers_url(
    network: Network,
    transaction_hash: &str,
    page: Option<u32>,
    size: Option<u32>,
) -> (r: Result<String, ValidationError>)
    ensures
        transaction_hash@.len() == 0 ==> r == Err::<String, ValidationError>(
            ValidationError::MissingTransactionHash,
        ),
        transaction_hash@.len() > 0 && !page_size_valid(page, size) ==> r == Err::<
            String,
            ValidationError,
        >(page_size_error(page, size)),
        transaction_hash@.len() > 0 && page_size_valid(page, size) ==> r is Ok && r->Ok_0@
            == spec_build(
            spec_base_url(network),
            "api/v1/transactions/"@ + transaction_hash@ + "/nft-transfers"@,
            page_size_query(effective_page(page), effective_size(size)),
        ),
{
    if transaction_hash.is_empty() {
        return Err(ValidationError::MissingTransactionHash);
    }
    let pr = normalize(page, size)?;
    let mut path = "api/v1/transactions/".to_owned();
    path.append(transaction_hash);
    path.append("/nft-transfers");
    let mut q: Vec<(String, String)> = Vec::new();
    proof {
        assert(pairs_view(q@) =~= Seq::<(Seq<char>, Seq<char>)>::empty());
    }
    push_pair(&mut q, "page", u64_to_dec(pr.page as u64));
    push_pair(&mut q, "size", u64_to_dec(pr.size as u64));
    proof {
        assert(pairs_view(q@) =~= page_size_query(pr.page, pr.size));
    }
    Ok(build(network.base_url(), path.as_str(), &q))
}

/// The URL of the transaction-input-data endpoint.
pub fn transaction_input_data_url(network: Network, transaction_hash: &str) -> (r: Result<
    String,
    ValidationError,
>)
    ensures
        transaction_hash@.len() == 0 ==> r == Err::<String, ValidationError>(
            ValidationError::MissingTransactionHash,
        ),
        transaction_hash@.len() > 0 ==> r is Ok && r->Ok_0@ == spec_build(
            spec_base_url(network),
            "api/v1/transactions/"@ + transaction_hash@ + "/input-data"@,
            Seq::empty(),
        ),
{
    if transaction_hash.is_empty() {
        return Err(ValidationError::MissingTransactionHash);
    }
    let mut path = "api/v1/transactions/".to_owned();
    path.append(transaction_hash);
    path.append("/input-data");
    let q: Vec<(String, String)> = Vec::new();
    proof {
        assert(pairs_view(q@) =~= Seq::<(Seq<char>, Seq<char>)>::empty());
    }
    Ok(build(network.base_url(), path.as_str(), &q))
}

/// The query of the block-listing endpoint.
pub open spec fn blocks_query(
    block_number: int,
    start: Option<i64>,
    end: Option<i64>,
    page: u32,
    size: u32,
) -> Seq<(Seq<char>, Seq<char>)> {
    seq![("blockNumber"@, dec_str_int(block_number))] + opt_pair(
        "blockNumberStart"@,
        match start {
            Some(n) => Some(dec_str_int(n as int)),
            None => None,
        },
    ) + opt_pair(
        "blockNumberEnd"@,
        match end {
            Some(n) => Some(dec_str_int(n as int)),
            None => None,
        },
    ) + page_size_query(page, size)
}

/// The URL of the block-listing endpoint for one page.
pub fn blocks_url(
    network: Network,
    block_number: i64,
    block_number_start: Option<i64>,
    block_number_end: Option<i64>,
    page: Option<u32>,
    size: Option<u32>,
) -> (r: Result<String, ValidationError>)
    ensures
        !page_size_valid(page, size) ==> r == Err::<String, ValidationError>(
            page_size_error(page, size),
        ),
        page_size_valid(page, size) ==> r is Ok && r->Ok_0@ == spec_build(
            spec_base_url(network),
            "api/v1/blocks"@,
            blocks_query(
                block_number as int,
                block_number_start,
                block_number_end,
                effective_page(page),
                effective_size(size),
            ),
        ),
{
    let pr = normalize(page, size)?;
    let mut q: Vec<(String, String)> = Vec::new();
    proof {
        assert(pairs_view(q@) =~= Seq::<(Seq<char>, Seq<char>)>::empty());
    }
    push_pair(&mut q, "blockNumber", i64_to_dec(block_number));
    if let Some(n) = block_number_start {
        push_pair(&mut q, "blockNumberStart", i64_to_dec(n));
    }
    if let Some(n) = block_number_end {
        push_pair(&mut q, "blockNumberEnd", i64_to_dec(n));
    }
    push_pair(&mut q, "page", u64_to_dec(pr.page as u64));
    push_pair(&mut q, "size", u64_to_dec(pr.size as u64));
    proof {
        assert(pairs_view(q@) =~= blocks_query(
            block_number as int,
            block_number_start,
            block_number_end,
            pr.page,
            pr.size,
        ));
    }
    Ok(build(network.base_url(), "api/v1/blocks", &q))
}

/// The query of the account event-log endpoint.
pub open spec fn account_event_logs_query(
    page: u32,
    size: u32,
    signature: Option<Seq<char>>,
    start: Option<u64>,
    end: Option<u64>,
) -> Seq<(Seq<char>, Seq<char>)> {
    page_size_query(page, size) + opt_pair("signature"@, signature) + opt_pair(
        "blockNumberStart"@,
        match start {
            Some(n) => Some(dec_str(n as nat)),
            None => None,
        },
    ) + opt_pair(
        "blockNumberEnd"@,
        match end {
            Some(n) => Some(dec_str(n as nat)),
            None => None,
        },
    )
}

/// The URL of the account event-log endpoint for one page.
pub fn account_event_logs_url(
    network: Network,
    account_address: &Address,
    page: Option<u32>,
    size: Option<u32>,
    signature: Option<&str>,
    block_number_start: Option<u64>,
    block_number_end: Option<u64>,
) -> (r: Result<String, ValidationError>)
    ensures
        !page_size_valid(page, size) ==> r == Err::<String, ValidationError>(
            page_size_error(page, size),
        ),
        page_size_valid(page, size) ==> r is Ok && r->Ok_0@ == spec_build(
            spec_base_url(network),
            "api/v1/accounts/"@ + account_address@ + "/event-logs"@,
            account_event_logs_query(
                effective_page(page),
                effective_size(size),
                match signature {
                    Some(g) => Some(g@),
                    None => None,
                },
                block_number_start,
                block_number_end,
            ),
        ),
{
    let pr = normalize(page, size)?;
    let mut path = "api/v1/accounts/".to_owned();
    path.append(account_address.as_ref());
    path.append("/event-logs");
    let mut q: Vec<(String, String)> = Vec::new();
    proof {
        assert(pairs_view(q@) =~= Seq::<(Seq<char>, Seq<char>)>::empty());
    }
    push_pair(&mut q, "page", u64_to_dec(pr.page as u64));
    push_pair(&mut q, "size", u64_to_dec(pr.size as u64));
    if let Some(g) = signature {
        push_pair(&mut q, "signature", g.to_owned());
    }
    if let Some(n) = block_number_start {
        push_pair(&mut q, "blockNumberStart", u64_to_dec(n));
    }
    if let Some(n) = block_number_end {
        push_pair(&mut q, "blockNumberEnd", u64_to_dec(n));
    }
    proof {
        assert(pairs_view(q@) =~= account_event_logs_query(
            pr.page,
            pr.size,
            match signature {
                Some(g) => Some(g@),
                None => None,
            },
            block_number_start,
            block_number_end,
        ));
    }
    Ok(build(network.base_url(), path.as_str(), &q))
}

/// The query of the account NFT-transfer endpoint.
pub open spec fn account_nft_transfers_query(
    page: u32,
    size: u32,
    contract: Option<Seq<char>>,
    start: Option<u64>,
    end: Option<u64>,
) -> Seq<(Seq<char>, Seq<char>)> {
    page_size_query(page, size) + opt_pair("contractAddress"@, contract) + opt_pair(
        "blockNumberStart"@,
        match start {
            Some(n) => Some(dec_str(n as nat)),
            None => None,
        },
    ) + opt_pair(
        "blockNumberEnd"@,
        match end {
            Some(n) => Some(dec_str(n as nat)),
            None => None,
        },
    )
}

/// The URL of the account NFT-transfer endpoint for one page.
pub fn account_nft_transfers_url(
    network: Network,
    account_address: &Address,
    page: Option<u32>,
    size: Option<u32>,
    contract_address: Option<&Address>,
    block_number_start: Option<u64>,
    block_number_end: Option<u64>,
) -> (r: Result<String, ValidationError>)
    ensures
        !page_size_valid(page, size) ==> r == Err::<String, ValidationError>(
            page_size_error(page, size),
        ),
        page_size_valid(page, size) ==> r is Ok && r->Ok_0@ == spec_build(
            spec_base_url(network),
            "api/v1/accounts/"@ + account_address@ + "/nft-transfers"@,
            account_nft_transfers_query(
                effective_page(page),
                effective_size(size),
                match contract_address {
                    Some(c) => Some(c@),
                    None => None,
                },
                block_number_start,
                block_number_end,
            ),
        ),
{
    let pr = normalize(page, size)?;
    let mut path = "api/v1/accounts/".to_owned();
    path.append(account_address.as_ref());
    path.append("/nft-transfers");
    let mut q: Vec<(String, String)> = Vec::new();
    proof {
        assert(pairs_view(q@) =~= Seq::<(Seq<char>, Seq<char>)>::empty());
    }
    push_pair(&mut q, "page", u64_to_dec(pr.page as u64));
    push_pair(&mut q, "size", u64_to_dec(pr.size as u64));
    if let Some(c) = contract_address {
        push_pair(&mut q, "contractAddress", c.as_ref().to_owned());
    }
    if let Some(n) = block_number_start {
        push_pair(&mut q, "blockNumberStart", u64_to_dec(n));
    }
    if let Some(n) = block_number_end {
        push_pair(&mut q, "blockNumberEnd", u64_to_dec(n));
    }
    proof {
        assert(pairs_view(q@) =~= account_nft_transfers_query(
            pr.page,
            pr.size,
            match contract_address {
                Some(c) => Some(c@),
                None => None,
            },
            block_number_start,
            block_number_end,
        ));
    }
    Ok(build(network.base_url(), path.as_str(), &q))
}

} // verus!
