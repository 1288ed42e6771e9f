//! The query router: registration, classification and dispatch.
//!
//! A `CustomMockQuerier` owns the treasury configuration, two per-address
//! handler tables (one for structured "smart" queries, one for opaque
//! "raw" queries) and the generic ledger simulator it falls back to.
//! Dispatch classifies a decoded envelope and resolves it with strict
//! first-match ordering: treasury queries go to the treasury responder,
//! contract queries to the registered handler for their address and style,
//! and everything else to the fallback simulator, verbatim.

use vstd::prelude::*;

use crate::codec::{decode_envelope, decode_envelope_spec, fallback_answer, fallback_query, FallbackDelegate};
use crate::envelope::{ContractQuery, ContractQueryV, QueryEnvelope, QueryEnvelopeV};
use crate::handler::{handler_answer_spec, Handler, HandlerV};
use crate::mock_tax::{treasury_answer_spec, MockTax, MockTaxV};
use crate::response::{outcome_of, DispatchError, DispatchErrorV, QueryOutcome, QueryOutcomeV, QueryStyle};
use crate::table::Table;

verus! {

/// The router: a treasury responder, two handler tables and a fallback.
pub struct CustomMockQuerier {
    /// The generic ledger simulator that answers everything the router
    /// does not resolve itself.
    pub base: FallbackDelegate,
    /// The treasury configuration read by protocol-module queries.
    pub tax: MockTax,
    /// Handlers for structured ("smart") contract queries, by address.
    pub wasm_smart_query_handlers: Table<Handler>,
    /// Handlers for opaque ("raw") contract queries, by address.
    pub wasm_raw_query_handlers: Table<Handler>,
}

/// Mathematical model of a `CustomMockQuerier`.  The fallback simulator is
/// opaque and carried as a value.
pub struct CustomMockQuerierV {
    pub base: FallbackDelegate,
    pub tax: MockTaxV,
    pub smart: Map<Seq<char>, HandlerV>,
    pub raw: Map<Seq<char>, HandlerV>,
}

impl View for CustomMockQuerier {
    type V = CustomMockQuerierV;

    open spec fn view(&self) -> CustomMockQuerierV {
        CustomMockQuerierV {
            base: self.base,
            tax: self.tax@,
            smart: self.wasm_smart_query_handlers@,
            raw: self.wasm_raw_query_handlers@,
        }
    }
}

/// What dispatching a contract query yields: the registered handler's
/// answer, lifted into the two-layer outcome; a transport error when no
/// handler is registered for the address in the table the style selects;
/// and a transport error for unmodeled sub-kinds.
pub open spec fn contract_answer_spec(s: CustomMockQuerierV, c: ContractQueryV) -> QueryOutcomeV {
    match c {
        ContractQueryV::Smart { contract_addr, msg } => if s.smart.contains_key(contract_addr) {
            outcome_of(handler_answer_spec(s.smart[contract_addr], msg))
        } else {
            QueryOutcomeV::SystemError(
                DispatchErrorV::HandlerNotFound { contract_addr, style: QueryStyle::Smart },
            )
        },
        ContractQueryV::Raw { contract_addr, key } => if s.raw.contains_key(contract_addr) {
            outcome_of(handler_answer_spec(s.raw[contract_addr], key))
        } else {
            QueryOutcomeV::SystemError(
                DispatchErrorV::HandlerNotFound { contract_addr, style: QueryStyle::Raw },
            )
        },
        ContractQueryV::Unsupported { kind } => QueryOutcomeV::SystemError(
            DispatchErrorV::UnsupportedRequest { kind },
        ),
    }
}

/// What dispatching a decoded envelope yields.  Every envelope reaches
/// exactly one of the three branches.
pub open spec fn dispatch_spec(s: CustomMockQuerierV, e: QueryEnvelopeV) -> QueryOutcomeV {
    match e {
        QueryEnvelopeV::Protocol(p) => treasury_answer_spec(s.tax, p),
        QueryEnvelopeV::Contract(c) => contract_answer_spec(s, c),
        QueryEnvelopeV::Generic(bytes) => fallback_answer(s.base, bytes),
    }
}

/// What dispatching raw request bytes yields: a decode failure is an
/// `InvalidRequest` transport error carrying the diagnostic and the
/// original bytes; otherwise the decoded envelope is dispatched.
pub open spec fn raw_query_spec(s: CustomMockQuerierV, bytes: Seq<u8>) -> QueryOutcomeV {
    match decode_envelope_spec(bytes) {
        Ok(e) => dispatch_spec(s, e),
        Err(error) => QueryOutcomeV::SystemError(
            DispatchErrorV::InvalidRequest { error, request: bytes },
        ),
    }
}

impl CustomMockQuerier {
    /// A router over the given fallback simulator, with the default
    /// treasury configuration and no registered handlers.
    pub fn new(base: FallbackDelegate) -> (r: CustomMockQuerier)
        ensures
            r@.base == base,
            r@.tax.rate == 0,
            r@.tax.caps == Map::<Seq<char>, u128>::empty(),
            r@.smart == Map::<Seq<char>, HandlerV>::empty(),
            r@.raw == Map::<Seq<char>, HandlerV>::empty(),
    {
        CustomMockQuerier {
            base,
            tax: MockTax::new(),
            wasm_smart_query_handlers: Table::new(),
            wasm_raw_query_handlers: Table::new(),
        }
    }

    /// Replaces the treasury configuration wholesale.
    pub fn with_tax(&mut self, tax: MockTax)
        ensures
            final(self)@.tax == tax@,
            final(self)@.base == old(self)@.base,
            final(self)@.smart == old(self)@.smart,
            final(self)@.raw == old(self)@.raw,
    {
        self.tax = tax;
    }

    /// Registers `handler` for structured queries to `address`, replacing
    /// any earlier registration.
    pub fn register_wasm_smart_query_handler(&mut self, address: &str, handler: Handler)
        ensures
            final(self)@.smart == old(self)@.smart.insert(address@, handler@),
            final(self)@.base == old(self)@.base,
            final(self)@.tax == old(self)@.tax,
            final(self)@.raw == old(self)@.raw,
    {
        self.wasm_smart_query_handlers.insert(address.to_owned(), handler);
    }

    /// Registers `handler` for opaque queries to `address`, replacing any
    /// earlier registration.
    pub fn register_wasm_raw_query_handler(&mut self, address: &str, handler: Handler)
        ensures
            final(self)@.raw == old(self)@.raw.insert(address@, handler@),
            final(self)@.base == old(self)@.base,
            final(self)@.tax == old(self)@.tax,
            final(self)@.smart == old(self)@.smart,
    {
        self.wasm_raw_query_handlers.insert(address.to_owned(), handler);
    }

    /// Dispatches one decoded envelope.
    pub fn handle_query(&self, request: &QueryEnvelope) -> (r: QueryOutcome)
        ensures
            r@ == dispatch_spec(self@, request@),
    {
        match request {
            QueryEnvelope::Protocol(p) => self.tax.answer(p),
            QueryEnvelope::Contract(c) => self.handle_contract_query(c),
            QueryEnvelope::Generic(bytes) => fallback_query(&self.base, bytes),
        }
    }

    /// Dispatches one contract query against the handler tables.
    pub fn handle_contract_query(&self, request: &ContractQuery) -> (r: QueryOutcome)
        ensures
            r@ == contract_answer_spec(self@, request@),
    {
        match request {
            ContractQuery::Smart { contract_addr, msg } => {
                match self.wasm_smart_query_handlers.get(contract_addr) {
                    Some(handler) => match handler.answer(msg) {
                        Ok(payload) => QueryOutcome::Success(payload),
                        Err(error) => QueryOutcome::ContractError(error),
                    },
                    None => QueryOutcome::SystemError(DispatchError::HandlerNotFound {
                        contract_addr: crate::handler::clone_string(contract_addr),
                        style: QueryStyle::Smart,
                    }),
                }
            },
            ContractQuery::Raw { contract_addr, key } => {
                match self.wasm_raw_query_handlers.get(contract_addr) {
                    Some(handler) => match handler.answer(key) {
                        Ok(payload) => QueryOutcome::Success(payload),
                        Err(error) => QueryOutcome::ContractError(error),
                    },
                    None => QueryOutcome::SystemError(DispatchError::HandlerNotFound {
                        contract_addr: crate::handler::clone_string(contract_addr),
                        style: QueryStyle::Raw,
                    }),
                }
            },
            ContractQuery::Unsupported { kind } => QueryOutcome::SystemError(
                DispatchError::UnsupportedRequest { kind: crate::handler::clone_string(kind) },
            ),
        }
    }

    /// Decodes raw request bytes and dispatches the envelope; malformed
    /// bytes are answered with an `InvalidRequest` transport error that
    /// carries the parse diagnostic and the original bytes.
    pub fn raw_query(&self, bin_request: &Vec<u8>) -> (r: QueryOutcome)
        ensures
            r@ == raw_query_spec(self@, bin_request@),
    {
        match decode_envelope(bin_request) {
            Ok(envelope) => self.handle_query(&envelope),
            Err(error) => QueryOutcome::SystemError(DispatchError::InvalidRequest {
                error,
                request: crate::handler::copy_bytes(bin_request),
            }),
        }
    }
}

/// Law: a structured query to an address with a registered smart handler
/// is answered exactly by that handler's answer for the payload, for any
/// payload.
pub proof fn lemma_smart_dispatch(
    s: CustomMockQuerierV,
    contract_addr: Seq<char>,
    msg: Seq<u8>,
)
    requires
        s.smart.contains_key(contract_addr),
    ensures
        dispatch_spec(
            s,
            QueryEnvelopeV::Contract(ContractQueryV::Smart { contract_addr, msg }),
        ) == outcome_of(handler_answer_spec(s.smart[contract_addr], msg)),
{
}

/// Law: an opaque-key query to an address with a registered raw handler is
/// answered exactly by that handler's answer for the key.
pub proof fn lemma_raw_dispatch(s: CustomMockQuerierV, contract_addr: Seq<char>, key: Seq<u8>)
    requires
        s.raw.contains_key(contract_addr),
    ensures
        dispatch_spec(
            s,
            QueryEnvelopeV::Contract(ContractQueryV::Raw { contract_addr, key }),
        ) == outcome_of(handler_answer_spec(s.raw[contract_addr], key)),
{
}

/// Law: registering a second handler for the same address and style
/// replaces the first; the table is as if only the newest registration had
/// happened, and dispatch uses only the newest handler.
pub proof fn lemma_register_replaces(
    s: CustomMockQuerierV,
    contract_addr: Seq<char>,
    first: HandlerV,
    second: HandlerV,
    msg: Seq<u8>,
)
    ensures
        s.smart.insert(contract_addr, first).insert(contract_addr, second) == s.smart.insert(
            contract_addr,
            second,
        ),
        dispatch_spec(
            (CustomMockQuerierV {
                smart: s.smart.insert(contract_addr, first).insert(contract_addr, second),
                ..s
            }),
            QueryEnvelopeV::Contract(ContractQueryV::Smart { contract_addr, msg }),
        ) == outcome_of(handler_answer_spec(second, msg)),
{
    assert(s.smart.insert(contract_addr, first).insert(contract_addr, second) =~= s.smart.insert(
        contract_addr,
        second,
    ));
}

/// Law: a contract query to an address with no registration in the table
/// its style selects is a `HandlerNotFound` transport error, never a
/// silent fallback.
pub proof fn lemma_missing_handler(s: CustomMockQuerierV, contract_addr: Seq<char>, payload: Seq<u8>)
    ensures
        !s.smart.contains_key(contract_addr) ==> dispatch_spec(
            s,
            QueryEnvelopeV::Contract(ContractQueryV::Smart { contract_addr, msg: payload }),
        ) == QueryOutcomeV::SystemError(
            DispatchErrorV::HandlerNotFound { contract_addr, style: QueryStyle::Smart },
        ),
        !s.raw.contains_key(contract_addr) ==> dispatch_spec(
            s,
            QueryEnvelopeV::Contract(ContractQueryV::Raw { contract_addr, key: payload }),
        ) == QueryOutcomeV::SystemError(
            DispatchErrorV::HandlerNotFound { contract_addr, style: QueryStyle::Raw },
        ),
{
}

/// Law: undecodable request bytes are answered with an `InvalidRequest`
/// error carrying the diagnostic and the original bytes, whatever the
/// router's state; the answer does not depend on that state.
pub proof fn lemma_decode_failure(
    s1: CustomMockQuerierV,
    s2: CustomMockQuerierV,
    bytes: Seq<u8>,
    error: Seq<char>,
)
    requires
        decode_envelope_spec(bytes) == Result::<QueryEnvelopeV, Seq<char>>::Err(error),
    ensures
        raw_query_spec(s1, bytes) == QueryOutcomeV::SystemError(
            DispatchErrorV::InvalidRequest { error, request: bytes },
        ),
        raw_query_spec(s1, bytes) == raw_query_spec(s2, bytes),
{
}

} // verus!
