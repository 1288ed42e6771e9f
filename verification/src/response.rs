//! The two-layer outcome of a dispatched query.
//!
//! The outer layer is the transport/classification outcome: either the
//! request reached a responder, or dispatch itself failed with a
//! `DispatchError`.  The inner layer, present only on transport success, is
//! the application-level outcome: a response payload or an application
//! error string (for example a handler-internal failure).  Callers inspect
//! the two layers independently.

use vstd::prelude::*;

verus! {

/// Which handler table a contract query is resolved against.
#[derive(Clone, Copy, PartialEq, Eq, Structural, Debug)]
pub enum QueryStyle {
    /// Structured-message queries.
    Smart,
    /// Opaque-key queries.
    Raw,
}

/// A transport-level dispatch failure.  All of these are reported as
/// values; the router never aborts.
pub enum DispatchError {
    /// The request bytes could not be decoded; carries the parse
    /// diagnostic and the original bytes.
    InvalidRequest { error: String, request: Vec<u8> },
    /// A protocol-module query outside the recognized treasury set.
    UnrecognizedProtocolQuery,
    /// No handler is registered for the target address in the table the
    /// query style selects.
    HandlerNotFound { contract_addr: String, style: QueryStyle },
    /// A structurally valid contract query of an unmodeled sub-kind.
    UnsupportedRequest { kind: String },
    /// The fallback ledger simulator reported a system-level failure.
    FallbackFailure { error: String },
}

/// The outcome of dispatching one query.
pub enum QueryOutcome {
    /// Transport success carrying an application-level response payload.
    Success(Vec<u8>),
    /// Transport success carrying an application-level error, such as a
    /// handler-internal failure.
    ContractError(String),
    /// Transport-level failure.
    SystemError(DispatchError),
}

/// Mathematical model of a `DispatchError`.
pub enum DispatchErrorV {
    InvalidRequest { error: Seq<char>, request: Seq<u8> },
    UnrecognizedProtocolQuery,
    HandlerNotFound { contract_addr: Seq<char>, style: QueryStyle },
    UnsupportedRequest { kind: Seq<char> },
    FallbackFailure { error: Seq<char> },
}

/// Mathematical model of a `QueryOutcome`.
pub enum QueryOutcomeV {
    Success(Seq<u8>),
    ContractError(Seq<char>),
    SystemError(DispatchErrorV),
}

impl View for DispatchError {
    type V = DispatchErrorV;

    open spec fn view(&self) -> DispatchErrorV {
        match self {
            DispatchError::InvalidRequest { error, request } => DispatchErrorV::InvalidRequest {
                error: error@,
                request: request@,
            },
            DispatchError::UnrecognizedProtocolQuery => DispatchErrorV::UnrecognizedProtocolQuery,
            DispatchError::HandlerNotFound { contract_addr, style } => DispatchErrorV::HandlerNotFound {
                contract_addr: contract_addr@,
                style: *style,
            },
            DispatchError::UnsupportedRequest { kind } => DispatchErrorV::UnsupportedRequest {
                kind: kind@,
            },
            DispatchError::FallbackFailure { error } => DispatchErrorV::FallbackFailure {
                error: error@,
            },
        }
    }
}

impl View for QueryOutcome {
    type V = QueryOutcomeV;

    open spec fn view(&self) -> QueryOutcomeV {
        match self {
            QueryOutcome::Success(payload) => QueryOutcomeV::Success(payload@),
            QueryOutcome::ContractError(error) => QueryOutcomeV::ContractError(error@),
            QueryOutcome::SystemError(e) => QueryOutcomeV::SystemError(e@),
        }
    }
}

/// Lifts a handler's application-level result into the two-layer outcome:
/// the transport layer succeeds either way.
pub open spec fn outcome_of(r: Result<Seq<u8>, Seq<char>>) -> QueryOutcomeV {
    match r {
        Ok(payload) => QueryOutcomeV::Success(payload),
        Err(error) => QueryOutcomeV::ContractError(error),
    }
}

} // verus!
