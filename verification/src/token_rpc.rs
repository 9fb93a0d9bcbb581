//! Token metadata from the answers of the batched calls.
//!
//! For a list of tokens, the indexer calls `name()`, `symbol()`, `decimals()`,
//! `totalSupply()` and `contractURI()` on every token contract, one batch per
//! method. The i-th answer of each batch belongs to the i-th token; an answer
//! that failed leaves its value unknown, and a token none of whose four values
//! is known is marked to be skipped from then on.
use vstd::prelude::*;
use crate::abi::{CallOutput, CallOutputView, TokenMethod};
use crate::rpc::{
    decode_batch, result_view, spec_decode_call_result, RpcClientError, RpcClientErrorView,
};
use crate::token::{opt_bytes, opt_text, TokenData, TokenDataView};

verus! {

/// The text an answer gives, if it gives one.
pub open spec fn text_of(r: Result<CallOutputView, RpcClientErrorView>) -> Option<Seq<char>> {
    match r {
        Ok(CallOutputView::Text(s)) => Some(s),
        _ => None,
    }
}

/// The `uint8` an answer gives, if it gives one.
pub open spec fn uint8_of(r: Result<CallOutputView, RpcClientErrorView>) -> Option<u8> {
    match r {
        Ok(CallOutputView::Uint8(v)) => Some(v),
        _ => None,
    }
}

/// The `uint256` an answer gives, as 32 big-endian bytes, if it gives one.
pub open spec fn uint256_of(r: Result<CallOutputView, RpcClientErrorView>) -> Option<Seq<u8>> {
    match r {
        Ok(CallOutputView::Uint256(b)) => Some(b),
        _ => None,
    }
}

/// The metadata of one token from its five answers: each known value is the
/// one its answer gives, and the token is marked to be skipped exactly when none
/// of name, symbol, decimals and total supply is known.
pub open spec fn spec_token_data(
    name: Result<CallOutputView, RpcClientErrorView>,
    symbol: Result<CallOutputView, RpcClientErrorView>,
    decimals: Result<CallOutputView, RpcClientErrorView>,
    total_supply: Result<CallOutputView, RpcClientErrorView>,
    contract_uri: Result<CallOutputView, RpcClientErrorView>,
) -> TokenDataView {
    let base = TokenDataView {
        name: text_of(name),
        symbol: text_of(symbol),
        decimals: uint8_of(decimals),
        total_supply: uint256_of(total_supply),
        contract_uri: text_of(contract_uri),
        skip_metadata: false,
    };
    TokenDataView { skip_metadata: base.is_empty(), ..base }
}

/// The decoded answers of the five batches, one vector per method, in the
/// order of the tokens.
pub struct TokenAnswers {
    pub names: Vec<Result<CallOutput, RpcClientError>>,
    pub symbols: Vec<Result<CallOutput, RpcClientError>>,
    pub decimals: Vec<Result<CallOutput, RpcClientError>>,
    pub total_supplies: Vec<Result<CallOutput, RpcClientError>>,
    pub contract_uris: Vec<Result<CallOutput, RpcClientError>>,
}

/// The raw answers of the five batches: each the returned hex string, or the
/// transport's message where the call failed.
pub struct RawTokenAnswers {
    pub names: Vec<Result<String, String>>,
    pub symbols: Vec<Result<String, String>>,
    pub decimals: Vec<Result<String, String>>,
    pub total_supplies: Vec<Result<String, String>>,
    pub contract_uris: Vec<Result<String, String>>,
}

impl TokenAnswers {
    /// How many tokens all five batches have an answer for.
    pub open spec fn spec_len(&self) -> nat {
        min_nat(
            min_nat(min_nat(self.names@.len(), self.symbols@.len()), min_nat(self.decimals@.len(), self.total_supplies@.len())),
            self.contract_uris@.len(),
        )
    }

    /// The metadata of the i-th token.
    pub open spec fn spec_data_at(&self, i: int) -> TokenDataView {
        spec_token_data(
            result_view(self.names[i]),
            result_view(self.symbols[i]),
            result_view(self.decimals[i]),
            result_view(self.total_supplies[i]),
            result_view(self.contract_uris[i]),
        )
    }
}

/// The smaller of two natural numbers.
pub open spec fn min_nat(a: nat, b: nat) -> nat {
    if a <= b { a } else { b }
}

fn min_usize(a: usize, b: usize) -> (r: usize)
    ensures
        r == min_nat(a as nat, b as nat),
{
    if a <= b { a } else { b }
}

fn text_field(r: &Result<CallOutput, RpcClientError>) -> (o: Option<String>)
    ensures
        opt_text(o) == text_of(result_view(*r)),
{
    match r {
        Ok(CallOutput::Text(s)) => Some(s.clone()),
        _ => None,
    }
}

fn uint8_field(r: &Result<CallOutput, RpcClientError>) -> (o: Option<u8>)
    ensures
        o == uint8_of(result_view(*r)),
{
    match r {
        Ok(CallOutput::Uint8(v)) => Some(*v),
        _ => None,
    }
}

fn uint256_field(r: &Result<CallOutput, RpcClientError>) -> (o: Option<Vec<u8>>)
    ensures
        opt_bytes(o) == uint256_of(result_view(*r)),
{
    match r {
        Ok(CallOutput::Uint256(b)) => Some(vstd::slice::slice_to_vec(b.as_slice())),
        _ => None,
    }
}

/// The metadata of one token from its five answers.
pub fn token_data_from_answers(
    name: &Result<CallOutput, RpcClientError>,
    symbol: &Result<CallOutput, RpcClientError>,
    decimals: &Result<CallOutput, RpcClientError>,
    total_supply: &Result<CallOutput, RpcClientError>,
    contract_uri: &Result<CallOutput, RpcClientError>,
) -> (r: TokenData)
    ensures
        r@ == spec_token_data(
            result_view(*name),
            result_view(*symbol),
            result_view(*decimals),
            result_view(*total_supply),
            result_view(*contract_uri),
        ),
{
    let mut data = TokenData {
        name: text_field(name),
        symbol: text_field(symbol),
        decimals: uint8_field(decimals),
        total_supply: uint256_field(total_supply),
        contract_uri: text_field(contract_uri),
        skip_metadata: false,
    };
    if data.is_empty() {
        data.skip_metadata = true;
    }
    data
}

/// Pairs each token with its metadata, the i-th token with the i-th answer of
/// every batch. Tokens past the shortest batch are dropped.
pub fn assemble_token_data<T>(tokens: Vec<T>, answers: &TokenAnswers) -> (r: Vec<(T, TokenData)>)
    ensures
        r.len() == min_nat(tokens@.len(), answers.spec_len()),
        forall|i: int|
            0 <= i < r.len() ==> (#[trigger] r[i]).0 == tokens[i] && r[i].1@ == answers.spec_data_at(i),
{
    let n = min_usize(
        min_usize(
            min_usize(answers.names.len(), answers.symbols.len()),
            min_usize(answers.decimals.len(), answers.total_supplies.len()),
        ),
        answers.contract_uris.len(),
    );
    let n = min_usize(tokens.len(), n);
    let mut tokens = tokens;
    tokens.truncate(n);
    let ghost kept = tokens@;
    let mut out: Vec<(T, TokenData)> = Vec::new();
    for token in it: tokens.into_iter()
        invariant
            kept.len() == n,
            it.seq() == kept,
            out.len() == it.index(),
            n <= answers.names.len(),
            n <= answers.symbols.len(),
            n <= answers.decimals.len(),
            n <= answers.total_supplies.len(),
            n <= answers.contract_uris.len(),
            forall|k: int|
                0 <= k < out.len() ==> (#[trigger] out[k]).0 == kept[k] && out[k].1@
                    == answers.spec_data_at(k),
    {
        let i = out.len();
        let data = token_data_from_answers(
            &answers.names[i],
            &answers.symbols[i],
            &answers.decimals[i],
            &answers.total_supplies[i],
            &answers.contract_uris[i],
        );
        out.push((token, data));
    }
    out
}

/// Decodes the raw answers of the five batches and pairs each token with its
/// metadata, as [`assemble_token_data`] does with the decoded answers.
pub fn get_all_token_data_from_answers<T>(tokens: Vec<T>, raw: &RawTokenAnswers) -> (r: Vec<
    (T, TokenData),
>)
    ensures
        r.len() == min_nat(
            tokens@.len(),
            min_nat(
                min_nat(min_nat(raw.names@.len(), raw.symbols@.len()), min_nat(raw.decimals@.len(), raw.total_supplies@.len())),
                raw.contract_uris@.len(),
            ),
        ),
        forall|i: int|
            0 <= i < r.len() ==> (#[trigger] r[i]).0 == tokens[i] && r[i].1@ == spec_token_data(
                spec_decode_call_result(TokenMethod::Name, result_view(raw.names[i])),
                spec_decode_call_result(TokenMethod::Symbol, result_view(raw.symbols[i])),
                spec_decode_call_result(TokenMethod::Decimals, result_view(raw.decimals[i])),
                spec_decode_call_result(TokenMethod::TotalSupply, result_view(raw.total_supplies[i])),
                spec_decode_call_result(TokenMethod::ContractUri, result_view(raw.contract_uris[i])),
            ),
{
    let answers = TokenAnswers {
        names: decode_batch(TokenMethod::Name, &raw.names),
        symbols: decode_batch(TokenMethod::Symbol, &raw.symbols),
        decimals: decode_batch(TokenMethod::Decimals, &raw.decimals),
        total_supplies: decode_batch(TokenMethod::TotalSupply, &raw.total_supplies),
        contract_uris: decode_batch(TokenMethod::ContractUri, &raw.contract_uris),
    };
    assemble_token_data(tokens, &answers)
}

/// Every assembled token is marked to be skipped exactly when none of its name,
/// symbol, decimals and total supply could be had.
pub proof fn lemma_skip_mark_is_emptiness(
    name: Result<CallOutputView, RpcClientErrorView>,
    symbol: Result<CallOutputView, RpcClientErrorView>,
    decimals: Result<CallOutputView, RpcClientErrorView>,
    total_supply: Result<CallOutputView, RpcClientErrorView>,
    contract_uri: Result<CallOutputView, RpcClientErrorView>,
)
    ensures
        ({
            let data = spec_token_data(name, symbol, decimals, total_supply, contract_uri);
            &&& data.skip_metadata == data.is_empty()
            &&& data.skip_metadata <==> (name is Err || !(name->Ok_0 is Text)) && (symbol is Err
                || !(symbol->Ok_0 is Text)) && (decimals is Err || !(decimals->Ok_0 is Uint8)) && (
            total_supply is Err || !(total_supply->Ok_0 is Uint256))
        }),
{
}

/// Each value of a token's metadata is exactly what its own answer gives, in
/// full: a text answer gives the name, symbol or contract URI, a `uint8` answer
/// the decimals, and a `uint256` answer all 32 bytes of the total supply; any
/// other answer leaves the value unknown.
pub proof fn lemma_token_data_values_come_from_their_answers(
    name: Result<CallOutputView, RpcClientErrorView>,
    symbol: Result<CallOutputView, RpcClientErrorView>,
    decimals: Result<CallOutputView, RpcClientErrorView>,
    total_supply: Result<CallOutputView, RpcClientErrorView>,
    contract_uri: Result<CallOutputView, RpcClientErrorView>,
)
    ensures
        ({
            let data = spec_token_data(name, symbol, decimals, total_supply, contract_uri);
            &&& (forall|s: Seq<char>| name == Ok::<CallOutputView, RpcClientErrorView>(CallOutputView::Text(s))
                ==> data.name == Some(s))
            &&& (!(name matches Ok(CallOutputView::Text(_))) ==> data.name is None)
            &&& (forall|s: Seq<char>| symbol == Ok::<CallOutputView, RpcClientErrorView>(CallOutputView::Text(s))
                ==> data.symbol == Some(s))
            &&& (!(symbol matches Ok(CallOutputView::Text(_))) ==> data.symbol is None)
            &&& (forall|v: u8| decimals == Ok::<CallOutputView, RpcClientErrorView>(CallOutputView::Uint8(v))
                ==> data.decimals == Some(v))
            &&& (!(decimals matches Ok(CallOutputView::Uint8(_))) ==> data.decimals is None)
            &&& (forall|b: Seq<u8>| total_supply == Ok::<CallOutputView, RpcClientErrorView>(CallOutputView::Uint256(b))
                ==> data.total_supply == Some(b))
            &&& (!(total_supply matches Ok(CallOutputView::Uint256(_))) ==> data.total_supply is None)
            &&& (forall|s: Seq<char>| contract_uri == Ok::<CallOutputView, RpcClientErrorView>(CallOutputView::Text(s))
                ==> data.contract_uri == Some(s))
            &&& (!(contract_uri matches Ok(CallOutputView::Text(_))) ==> data.contract_uri is None)
        }),
{
}

} // verus!
