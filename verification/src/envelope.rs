//! The decoded query envelope: the router's own model of a wire request.
//!
//! Decoding classifies a raw request into exactly one of three families:
//! a protocol-module (treasury) query, a contract query addressed to a
//! registered handler, or a generic query that only the fallback ledger
//! simulator understands.

use vstd::prelude::*;

verus! {

/// A protocol-module query on the treasury route.
pub enum ProtocolQuery {
    /// Asks for the configured tax rate.
    TaxRate,
    /// Asks for the tax cap of one denomination.
    TaxCap { denom: String },
    /// Any protocol-module query outside the recognized set, including
    /// treasury-route variants the router does not model and queries on
    /// other protocol routes.
    Unrecognized,
}

/// A query addressed to a contract.
pub enum ContractQuery {
    /// A structured message interpreted by the target's smart handler.
    Smart { contract_addr: String, msg: Vec<u8> },
    /// An opaque lookup key interpreted by the target's raw handler.
    Raw { contract_addr: String, key: Vec<u8> },
    /// A structurally valid contract query of a sub-kind the router does
    /// not model; `kind` describes it.
    Unsupported { kind: String },
}

/// A decoded query envelope.  Exactly one variant is active and it fully
/// determines how dispatch proceeds.
pub enum QueryEnvelope {
    /// A protocol-module query.
    Protocol(ProtocolQuery),
    /// A contract query.
    Contract(ContractQuery),
    /// Anything else; carries the encoded request so the fallback ledger
    /// simulator can answer it verbatim.
    Generic(Vec<u8>),
}

/// Mathematical model of a `ProtocolQuery`.
pub enum ProtocolQueryV {
    TaxRate,
    TaxCap { denom: Seq<char> },
    Unrecognized,
}

/// Mathematical model of a `ContractQuery`.
pub enum ContractQueryV {
    Smart { contract_addr: Seq<char>, msg: Seq<u8> },
    Raw { contract_addr: Seq<char>, key: Seq<u8> },
    Unsupported { kind: Seq<char> },
}

/// Mathematical model of a `QueryEnvelope`.
pub enum QueryEnvelopeV {
    Protocol(ProtocolQueryV),
    Contract(ContractQueryV),
    Generic(Seq<u8>),
}

impl View for ProtocolQuery {
    type V = ProtocolQueryV;

    open spec fn view(&self) -> ProtocolQueryV {
        match self {
            ProtocolQuery::TaxRate => ProtocolQueryV::TaxRate,
            ProtocolQuery::TaxCap { denom } => ProtocolQueryV::TaxCap { denom: denom@ },
            ProtocolQuery::Unrecognized => ProtocolQueryV::Unrecognized,
        }
    }
}

impl View for ContractQuery {
    type V = ContractQueryV;

    open spec fn view(&self) -> ContractQueryV {
        match self {
            ContractQuery::Smart { contract_addr, msg } => ContractQueryV::Smart {
                contract_addr: contract_addr@,
                msg: msg@,
            },
            ContractQuery::Raw { contract_addr, key } => ContractQueryV::Raw {
                contract_addr: contract_addr@,
                key: key@,
            },
            ContractQuery::Unsupported { kind } => ContractQueryV::Unsupported { kind: kind@ },
        }
    }
}

impl View for QueryEnvelope {
    type V = QueryEnvelopeV;

    open spec fn view(&self) -> QueryEnvelopeV {
        match self {
            QueryEnvelope::Protocol(q) => QueryEnvelopeV::Protocol(q@),
            QueryEnvelope::Contract(q) => QueryEnvelopeV::Contract(q@),
            QueryEnvelope::Generic(bytes) => QueryEnvelopeV::Generic(bytes@),
        }
    }
}

} // verus!
