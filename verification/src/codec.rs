//! The trusted boundary: envelope and payload codecs, and the fallback
//! ledger simulator.
//!
//! Everything the router takes from the chain-runtime crates crosses
//! through the items in this module.  Each wrapper makes one outside call
//! and converts between that crate's types and the router's own plain
//! values; its contract states what the outside source shows, often by
//! giving the outside result a name, since a serialization's exact bytes
//! take pages to write out but are a function of the arguments alone.

use vstd::prelude::*;

use crate::envelope::{ContractQuery, ProtocolQuery, QueryEnvelope, QueryEnvelopeV};
use crate::mock_token::{TokenQuery, TokenQueryV};
use crate::response::{DispatchError, QueryOutcome, QueryOutcomeV};

use cosmwasm_std::testing::MockQuerier;
use cosmwasm_std::{from_slice, ContractResult, QueryRequest, SystemResult, WasmQuery};
use terra_cosmwasm::{TaxCapResponse, TaxRateResponse, TerraQuery, TerraQueryWrapper, TerraRoute};

verus! {

/// The generic ledger simulator the router falls back to, held opaquely:
/// its state is the in-memory ledger it was seeded with.
#[verifier::external_body]
pub struct FallbackDelegate {
    inner: MockQuerier<TerraQueryWrapper>,
}

impl FallbackDelegate {
    /// Relies on `cosmwasm_std::testing::MockQuerier::new`: a fresh
    /// simulator holding the given balances for the given address.
    #[verifier::external_body]
    pub fn with_balances(contract_addr: &str, balances: &Vec<(String, u128)>) -> FallbackDelegate {
        let coins: Vec<cosmwasm_std::Coin> = balances
            .iter()
            .map(|p| cosmwasm_std::Coin { denom: p.0.clone(), amount: cosmwasm_std::Uint128::new(p.1) })
            .collect();
        FallbackDelegate { inner: MockQuerier::new(&[(contract_addr, coins.as_slice())]) }
    }
}

/// What decoding a request envelope yields: the decoded envelope for
/// well-formed bytes, the parse diagnostic otherwise.  Decoding is a
/// function of the bytes alone.
pub uninterp spec fn decode_envelope_spec(bytes: Seq<u8>) -> Result<QueryEnvelopeV, Seq<char>>;

/// The model of an executable decode result.
pub open spec fn decode_view(r: Result<QueryEnvelope, String>) -> Result<QueryEnvelopeV, Seq<char>> {
    match r {
        Ok(envelope) => Ok(envelope@),
        Err(error) => Err(error@),
    }
}

/// Relies on `cosmwasm_std::from_slice` deserializing a
/// `QueryRequest<TerraQueryWrapper>`: the decoded request, and the parse
/// diagnostic for malformed bytes, depend on the bytes alone.  The match
/// maps each request variant to the router's envelope, one arm each:
/// treasury tax queries, other protocol-module queries (unrecognized),
/// smart and raw contract queries, and everything else to the fallback
/// family, carrying the bytes.  In this crate version those are all the
/// contract-query sub-kinds there are, so decoding never yields the
/// unsupported contract sub-kind; dispatch still answers it for envelopes
/// built directly.
#[verifier::external_body]
pub(crate) fn decode_envelope(bytes: &Vec<u8>) -> (r: Result<QueryEnvelope, String>)
    ensures
        decode_view(r) == decode_envelope_spec(bytes@),
{
    match from_slice::<QueryRequest<TerraQueryWrapper>>(bytes.as_slice()) {
        Err(e) => Err(format!("Parsing query request: {:?}", e)),
        Ok(QueryRequest::Custom(w)) => Ok(QueryEnvelope::Protocol(match (w.route, w.query_data) {
            (TerraRoute::Treasury, TerraQuery::TaxRate {}) => ProtocolQuery::TaxRate,
            (TerraRoute::Treasury, TerraQuery::TaxCap { denom }) => ProtocolQuery::TaxCap { denom },
            _ => ProtocolQuery::Unrecognized,
        })),
        Ok(QueryRequest::Wasm(WasmQuery::Smart { contract_addr, msg })) => Ok(QueryEnvelope::Contract(ContractQuery::Smart { contract_addr, msg: msg.0 })),
        Ok(QueryRequest::Wasm(WasmQuery::Raw { contract_addr, key })) => Ok(QueryEnvelope::Contract(ContractQuery::Raw { contract_addr, key: key.0 })),
        Ok(_) => Ok(QueryEnvelope::Generic(bytes.clone())),
    }
}

/// The encoded treasury rate response for a rate held in fixed-point
/// atomics: a function of the rate alone.
pub uninterp spec fn tax_rate_encoding(rate: u64) -> Seq<u8>;

/// Relies on `cosmwasm_std::to_binary` serializing a
/// `terra_cosmwasm::TaxRateResponse`: the bytes depend on the rate alone,
/// and serializing this struct never fails.  The rate is rebuilt from its
/// atomics with `Decimal::from_ratio`, whose internal product stays far
/// below the `u128` range for every numerator that fits in a `u64`.
#[verifier::external_body]
pub(crate) fn encode_tax_rate(rate: u64) -> (r: Vec<u8>)
    ensures
        r@ == tax_rate_encoding(rate),
{
    let rate = cosmwasm_std::Decimal::from_ratio(rate, 1_000_000_000_000_000_000u128);
    cosmwasm_std::to_binary(&TaxRateResponse { rate }).unwrap().0
}

/// The encoded treasury cap response for a cap value: a function of the
/// cap alone.
pub uninterp spec fn tax_cap_encoding(cap: u128) -> Seq<u8>;

/// Relies on `cosmwasm_std::to_binary` serializing a
/// `terra_cosmwasm::TaxCapResponse`: the bytes depend on the cap alone,
/// and serializing this struct never fails.
#[verifier::external_body]
pub(crate) fn encode_tax_cap(cap: u128) -> (r: Vec<u8>)
    ensures
        r@ == tax_cap_encoding(cap),
{
    cosmwasm_std::to_binary(&TaxCapResponse { cap: cosmwasm_std::Uint128::new(cap) }).unwrap().0
}

/// What decoding a token-query payload yields: the decoded query for a
/// well-formed payload, the diagnostic otherwise.  A function of the
/// payload alone.
pub uninterp spec fn cw20_decode_spec(bytes: Seq<u8>) -> Result<TokenQueryV, Seq<char>>;

/// The model of an executable token-query decode result.
pub open spec fn token_decode_view(r: Result<TokenQuery, String>) -> Result<TokenQueryV, Seq<char>> {
    match r {
        Ok(q) => Ok(q@),
        Err(error) => Err(error@),
    }
}

/// Relies on `cosmwasm_std::from_slice` deserializing a
/// `cw20::Cw20QueryMsg`: the decoded message, and the diagnostic for
/// malformed bytes, depend on the bytes alone.  Balance and token-info
/// messages map to the fixture's query kinds, one arm each; every other
/// message kind maps to the unrecognized kind, described by its debug
/// form.
#[verifier::external_body]
pub(crate) fn decode_token_query(bytes: &Vec<u8>) -> (r: Result<TokenQuery, String>)
    ensures
        token_decode_view(r) == cw20_decode_spec(bytes@),
{
    match cosmwasm_std::from_slice::<cw20::Cw20QueryMsg>(bytes.as_slice()) {
        Err(e) => Err(format!("{}", e)),
        Ok(cw20::Cw20QueryMsg::Balance { address }) => Ok(TokenQuery::Balance { address }),
        Ok(cw20::Cw20QueryMsg::TokenInfo {}) => Ok(TokenQuery::TokenInfo),
        Ok(q) => Ok(TokenQuery::Other { desc: format!("{:?}", q) }),
    }
}

/// The encoded balance response for an amount: a function of the amount
/// alone.
pub uninterp spec fn balance_encoding(amount: u128) -> Seq<u8>;

/// Relies on `cosmwasm_std::to_binary` serializing a
/// `cw20::BalanceResponse`: the bytes depend on the amount alone, and
/// serializing this struct never fails.
#[verifier::external_body]
pub(crate) fn encode_balance(amount: u128) -> (r: Vec<u8>)
    ensures
        r@ == balance_encoding(amount),
{
    let balance = cosmwasm_std::Uint128::new(amount);
    cosmwasm_std::to_binary(&cw20::BalanceResponse { balance }).unwrap().0
}

/// The encoded token-info response for a token's metadata: a function of
/// the metadata alone.
pub uninterp spec fn token_info_encoding(
    name: Seq<char>,
    symbol: Seq<char>,
    decimals: u8,
    total_supply: u128,
) -> Seq<u8>;

/// Relies on `cosmwasm_std::to_binary` serializing a
/// `cw20::TokenInfoResponse`: the bytes depend on the metadata alone, and
/// serializing this struct never fails.
#[verifier::external_body]
pub(crate) fn encode_token_info(
    name: &String,
    symbol: &String,
    decimals: u8,
    total_supply: u128,
) -> (r: Vec<u8>)
    ensures
        r@ == token_info_encoding(name@, symbol@, decimals, total_supply),
{
    cosmwasm_std::to_binary(&cw20::TokenInfoResponse {
        name: name.clone(),
        symbol: symbol.clone(),
        decimals,
        total_supply: cosmwasm_std::Uint128::new(total_supply),
    }).unwrap().0
}

/// What the fallback ledger simulator answers for a request: a function
/// of the simulator value and the bytes.  The simulator is deterministic:
/// it reads its fixed in-memory ledger state.
pub uninterp spec fn fallback_answer(base: FallbackDelegate, bytes: Seq<u8>) -> QueryOutcomeV;

/// Relies on `cosmwasm_std::testing::MockQuerier::raw_query`: the answer
/// depends on the simulator's state and the bytes alone.  Its two-layer
/// result maps to the router's outcome one arm each: payloads and
/// application errors keep their layer, and system errors map to the
/// fallback-failure transport error, described by their display form.
#[verifier::external_body]
pub(crate) fn fallback_query(base: &FallbackDelegate, bytes: &Vec<u8>) -> (r: QueryOutcome)
    ensures
        r@ == fallback_answer(*base, bytes@),
{
    match cosmwasm_std::Querier::raw_query(&base.inner, bytes.as_slice()) {
        SystemResult::Ok(ContractResult::Ok(b)) => QueryOutcome::Success(b.0),
        SystemResult::Ok(ContractResult::Err(e)) => QueryOutcome::ContractError(e),
        SystemResult::Err(e) => QueryOutcome::SystemError(DispatchError::FallbackFailure {
            error: format!("{}", e),
        }),
    }
}

} // verus!
