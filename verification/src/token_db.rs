//! What the indexer writes back to, and reads from, the token and block tables.
use vstd::prelude::*;
use crate::token::{opt_bytes, opt_text, TokenData, TokenDataView};
use crate::token_rpc::spec_token_data;
use crate::abi::CallOutputView;
use crate::rpc::RpcClientErrorView;

verus! {

/// The column values written to a token's row once its metadata is known.
#[derive(Debug, Clone, PartialEq, Eq)]
pub struct TokenUpdate {
    pub cataloged: Option<bool>,
    pub name: Option<String>,
    pub symbol: Option<String>,
    pub decimals: Option<u8>,
    /// The total supply, as the 32 big-endian bytes of a `uint256`.
    pub total_supply: Option<Vec<u8>>,
    pub skip_metadata: Option<bool>,
}

/// A row update, as plain values.
pub struct TokenUpdateView {
    pub cataloged: Option<bool>,
    pub name: Option<Seq<char>>,
    pub symbol: Option<Seq<char>>,
    pub decimals: Option<u8>,
    pub total_supply: Option<Seq<u8>>,
    pub skip_metadata: Option<bool>,
}

impl View for TokenUpdate {
    type V = TokenUpdateView;

    open spec fn view(&self) -> TokenUpdateView {
        TokenUpdateView {
            cataloged: self.cataloged,
            name: opt_text(self.name),
            symbol: opt_text(self.symbol),
            decimals: self.decimals,
            total_supply: opt_bytes(self.total_supply),
            skip_metadata: self.skip_metadata,
        }
    }
}

/// The row update for a token's metadata: catalogued exactly when some of name,
/// symbol, decimals and total supply is known; those four values as they are;
/// and the skip mark.
pub open spec fn spec_token_update(data: TokenDataView) -> TokenUpdateView {
    TokenUpdateView {
        cataloged: Some(!data.is_empty()),
        name: data.name,
        symbol: data.symbol,
        decimals: data.decimals,
        total_supply: data.total_supply,
        skip_metadata: Some(data.skip_metadata),
    }
}

/// The row update for a token's metadata.
pub fn token_update(data: TokenData) -> (r: TokenUpdate)
    ensures
        r@ == spec_token_update(data@),
{
    let cataloged = Some(!data.is_empty());
    TokenUpdate {
        cataloged,
        name: data.name,
        symbol: data.symbol,
        decimals: data.decimals,
        total_supply: data.total_supply,
        skip_metadata: Some(data.skip_metadata),
    }
}

/// The row updates for a list of tokens with their metadata, in order.
pub fn token_updates<T>(tokens: Vec<(T, TokenData)>) -> (r: Vec<(T, TokenUpdate)>)
    ensures
        r.len() == tokens.len(),
        forall|i: int|
            0 <= i < r.len() ==> (#[trigger] r[i]).0 == tokens[i].0 && r[i].1@ == spec_token_update(
                tokens[i].1@,
            ),
{
    let ghost all = tokens@;
    let mut out: Vec<(T, TokenUpdate)> = Vec::new();
    for pair in it: tokens.into_iter()
        invariant
            it.seq() == all,
            out.len() == it.index(),
            forall|k: int|
                0 <= k < out.len() ==> (#[trigger] out[k]).0 == all[k].0 && out[k].1@
                    == spec_token_update(all[k].1@),
    {
        let (token, data) = pair;
        out.push((token, token_update(data)));
    }
    out
}

/// Whether a row is picked up by the query for uncatalogued tokens, which asks
/// for rows where neither `cataloged = true` nor `skip_metadata = true` holds,
/// in SQL's logic: a NULL column makes the comparison unknown, and the row is
/// not picked up.
pub open spec fn picked_as_uncataloged(cataloged: Option<bool>, skip_metadata: Option<bool>) -> bool {
    cataloged == Some(false) && skip_metadata == Some(false)
}

/// A token whose metadata was gathered from the answers of the batched calls is,
/// once its row is updated, no longer picked up as uncatalogued: it is either
/// catalogued or marked to be skipped.
pub proof fn lemma_updated_token_is_not_picked_again(
    name: Result<CallOutputView, RpcClientErrorView>,
    symbol: Result<CallOutputView, RpcClientErrorView>,
    decimals: Result<CallOutputView, RpcClientErrorView>,
    total_supply: Result<CallOutputView, RpcClientErrorView>,
    contract_uri: Result<CallOutputView, RpcClientErrorView>,
)
    ensures
        ({
            let update = spec_token_update(
                spec_token_data(name, symbol, decimals, total_supply, contract_uri),
            );
            &&& !picked_as_uncataloged(update.cataloged, update.skip_metadata)
            &&& update.cataloged == Some(!update.skip_metadata->0)
        }),
{
}

/// The number of the latest block, or 0 where the table holds none.
pub fn latest_block_number(latest: Option<i64>) -> (r: i64)
    ensures
        r == match latest {
            Some(n) => n,
            None => 0,
        },
{
    match latest {
        Some(n) => n,
        None => 0,
    }
}

/// A row update copies each metadata value from its own field, keeps the skip
/// mark, and marks the row catalogued exactly when at least one of name, symbol,
/// decimals and total supply is known.
pub proof fn lemma_update_copies_each_field(data: TokenDataView)
    ensures
        ({
            let update = spec_token_update(data);
            &&& update.name == data.name
            &&& update.symbol == data.symbol
            &&& update.decimals == data.decimals
            &&& update.total_supply == data.total_supply
            &&& update.skip_metadata == Some(data.skip_metadata)
            &&& update.cataloged == Some(
                data.name is Some || data.symbol is Some || data.decimals is Some
                    || data.total_supply is Some,
            )
        }),
{
}

} // verus!
