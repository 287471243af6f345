//! The query request builder: pure construction of a block-pinned,
//! method-specific read request, with the argument payload rendered
//! deterministically as JSON text.

use crate::numeric::dec_digits;
use crate::numeric::u32_to_dec;
use crate::text::append_json_escaped;
use crate::text::json_escape;
use vstd::prelude::*;

verus! {

/// An immutable block-pinned read-only call. The height is always explicit,
/// never "latest", so the result is reproducible for the same contract,
/// method, arguments and height. `args` is the JSON argument text sent to
/// the contract method.
#[derive(Debug)]
pub struct ViewCallRequest {
    pub block_height: u64,
    pub contract_id: String,
    pub method_name: String,
    pub args: String,
}

/// The argument text naming one account: `{"account_id":"..."}`.
pub open spec fn account_args(account: Seq<char>) -> Seq<char> {
    "{\"account_id\":\""@ + json_escape(account) + "\"}"@
}

/// The argument text naming one token: `{"token_id":"..."}`.
pub open spec fn token_args(token: Seq<char>) -> Seq<char> {
    "{\"token_id\":\""@ + json_escape(token) + "\"}"@
}

/// The argument text of a bounded collection query:
/// `{"account_id":"...","from_index":"0","limit":N}`. The start index is
/// always zero: only the first page of a collection is ever requested.
pub open spec fn list_args(account: Seq<char>, limit: u32) -> Seq<char> {
    "{\"account_id\":\""@ + json_escape(account) + "\",\"from_index\":\"0\",\"limit\":"@
        + dec_digits(limit as nat) + "}"@
}

/// The empty argument text `{}`.
pub open spec fn empty_args() -> Seq<char> {
    "{}"@
}

/// Pure construction of a view call from already-rendered parts.
pub fn build_view_call(block_height: u64, contract_id: String, method_name: String, args: String) -> (r:
    ViewCallRequest)
    ensures
        r.block_height == block_height,
        r.contract_id@ == contract_id@,
        r.method_name@ == method_name@,
        r.args@ == args@,
{
    ViewCallRequest { block_height, contract_id, method_name, args }
}

/// Render `{"account_id":"..."}` for one account.
fn account_args_string(account: &str) -> (r: String)
    ensures
        r@ == account_args(account@),
{
    let mut s = String::from_str("{\"account_id\":\"");
    append_json_escaped(&mut s, account);
    s.append("\"}");
    proof {
        assert(s@ =~= account_args(account@));
    }
    s
}

/// The request for a fungible-token balance of `account_id` in
/// `contract_id` at `block_height`.
pub fn build_ft_balance_request(contract_id: String, account_id: &str, block_height: u64) -> (r:
    ViewCallRequest)
    ensures
        r.block_height == block_height,
        r.contract_id@ == contract_id@,
        r.method_name@ == "ft_balance_of"@,
        r.args@ == account_args(account_id@),
{
    build_view_call(
        block_height,
        contract_id,
        String::from_str("ft_balance_of"),
        account_args_string(account_id),
    )
}

/// The request for a fungible-token contract's metadata at `block_height`.
pub fn build_ft_metadata_request(contract_id: String, block_height: u64) -> (r: ViewCallRequest)
    ensures
        r.block_height == block_height,
        r.contract_id@ == contract_id@,
        r.method_name@ == "ft_metadata"@,
        r.args@ == empty_args(),
{
    build_view_call(block_height, contract_id, String::from_str("ft_metadata"), String::from_str("{}"))
}

/// The request for a non-fungible-token contract's general metadata at
/// `block_height`.
pub fn build_nft_metadata_request(contract_id: String, block_height: u64) -> (r: ViewCallRequest)
    ensures
        r.block_height == block_height,
        r.contract_id@ == contract_id@,
        r.method_name@ == "nft_metadata"@,
        r.args@ == empty_args(),
{
    build_view_call(block_height, contract_id, String::from_str("nft_metadata"), String::from_str("{}"))
}

/// The request for how many tokens `account_id` owns in `contract_id` at
/// `block_height`.
pub fn build_nft_count_request(contract_id: String, account_id: &str, block_height: u64) -> (r:
    ViewCallRequest)
    ensures
        r.block_height == block_height,
        r.contract_id@ == contract_id@,
        r.method_name@ == "nft_supply_for_owner"@,
        r.args@ == account_args(account_id@),
{
    build_view_call(
        block_height,
        contract_id,
        String::from_str("nft_supply_for_owner"),
        account_args_string(account_id),
    )
}

/// The request for the first page of the tokens `account_id` owns in
/// `contract_id` at `block_height`: at most `limit` items, counted from the
/// start of the collection.
pub fn build_nft_list_request(
    contract_id: String,
    account_id: &str,
    block_height: u64,
    limit: u32,
) -> (r: ViewCallRequest)
    ensures
        r.block_height == block_height,
        r.contract_id@ == contract_id@,
        r.method_name@ == "nft_tokens_for_owner"@,
        r.args@ == list_args(account_id@, limit),
{
    let mut s = String::from_str("{\"account_id\":\"");
    append_json_escaped(&mut s, account_id);
    s.append("\",\"from_index\":\"0\",\"limit\":");
    let d = u32_to_dec(limit);
    s.append(d.as_str());
    s.append("}");
    proof {
        assert(s@ =~= list_args(account_id@, limit));
    }
    build_view_call(block_height, contract_id, String::from_str("nft_tokens_for_owner"), s)
}

/// A collection query always requests from the start of the collection:
/// whatever the account and the limit, the argument text carries the member
/// `"from_index":"0"`. How many items come back is then up to the contract,
/// which is asked for at most `limit` of them.
pub proof fn lemma_list_args_from_start(account: Seq<char>, limit: u32)
    ensures
        crate::text::contains_seq(list_args(account, limit), "\"from_index\":\"0\""@),
{
    reveal_strlit("\",\"from_index\":\"0\",\"limit\":");
    reveal_strlit("\"from_index\":\"0\"");
    let l1 = "{\"account_id\":\""@;
    let esc = json_escape(account);
    let l2 = "\",\"from_index\":\"0\",\"limit\":"@;
    let pat = "\"from_index\":\"0\""@;
    let s = list_args(account, limit);
    let i: int = l1.len() as int + esc.len() as int + 2;
    assert(s.subrange(i, i + pat.len()) =~= pat);
    assert(crate::text::matches_at(s, pat, i as int));
}

/// The request for one token's record in `contract_id` at `block_height`.
pub fn build_nft_token_request(contract_id: String, token_id: &str, block_height: u64) -> (r:
    ViewCallRequest)
    ensures
        r.block_height == block_height,
        r.contract_id@ == contract_id@,
        r.method_name@ == "nft_token"@,
        r.args@ == token_args(token_id@),
{
    let mut s = String::from_str("{\"token_id\":\"");
    append_json_escaped(&mut s, token_id);
    s.append("\"}");
    proof {
        assert(s@ =~= token_args(token_id@));
    }
    build_view_call(block_height, contract_id, String::from_str("nft_token"), s)
}

} // verus!
