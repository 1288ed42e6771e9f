//! The treasury responder's configuration and its answering logic.
//!
//! A `MockTax` holds the simulated chain's tax parameters: one scalar rate
//! and one cap per denomination.  Test setup replaces it wholesale; during
//! dispatch it is only read.  A cap query for an unconfigured denomination
//! is answered with the zero cap — absence models "no cap set", never an
//! error.

use vstd::prelude::*;

use crate::codec::{encode_tax_cap, encode_tax_rate, tax_cap_encoding, tax_rate_encoding};
use crate::envelope::{ProtocolQuery, ProtocolQueryV};
use crate::response::{DispatchError, DispatchErrorV, QueryOutcome, QueryOutcomeV};
use crate::table::Table;

verus! {

/// The treasury configuration: a tax rate and per-denomination caps.
///
/// The rate is held in fixed-point atomics with eighteen fractional
/// digits, so a rate of five percent is `50_000_000_000_000_000`.
pub struct MockTax {
    /// The tax rate, in units of one quintillionth.
    pub rate: u64,
    /// The configured cap per denomination identifier.
    pub caps: Table<u128>,
}

/// Mathematical model of a `MockTax`.
pub struct MockTaxV {
    pub rate: u64,
    pub caps: Map<Seq<char>, u128>,
}

impl View for MockTax {
    type V = MockTaxV;

    open spec fn view(&self) -> MockTaxV {
        MockTaxV { rate: self.rate, caps: self.caps@ }
    }
}

/// The cap configured for `denom`, or zero when none is.
pub open spec fn cap_for(caps: Map<Seq<char>, u128>, denom: Seq<char>) -> u128 {
    if caps.contains_key(denom) {
        caps[denom]
    } else {
        0
    }
}

/// What the treasury responder answers: the encoded rate for a rate query,
/// the encoded (possibly default) cap for a cap query, and a transport
/// error for every protocol-module query outside the recognized set.
pub open spec fn treasury_answer_spec(tax: MockTaxV, q: ProtocolQueryV) -> QueryOutcomeV {
    match q {
        ProtocolQueryV::TaxRate => QueryOutcomeV::Success(tax_rate_encoding(tax.rate)),
        ProtocolQueryV::TaxCap { denom } => QueryOutcomeV::Success(
            tax_cap_encoding(cap_for(tax.caps, denom)),
        ),
        ProtocolQueryV::Unrecognized => QueryOutcomeV::SystemError(
            DispatchErrorV::UnrecognizedProtocolQuery,
        ),
    }
}

impl MockTax {
    /// A configuration with rate zero and no caps.
    pub fn new() -> (t: MockTax)
        ensures
            t@.rate == 0,
            t@.caps == Map::<Seq<char>, u128>::empty(),
    {
        MockTax { rate: 0, caps: Table::new() }
    }

    /// Answers one protocol-module query from this configuration.
    pub fn answer(&self, q: &ProtocolQuery) -> (r: QueryOutcome)
        ensures
            r@ == treasury_answer_spec(self@, q@),
    {
        match q {
            ProtocolQuery::TaxRate => QueryOutcome::Success(encode_tax_rate(self.rate)),
            ProtocolQuery::TaxCap { denom } => {
                let cap: u128 = match self.caps.get(denom) {
                    Some(c) => *c,
                    None => 0,
                };
                QueryOutcome::Success(encode_tax_cap(cap))
            },
            ProtocolQuery::Unrecognized => QueryOutcome::SystemError(
                DispatchError::UnrecognizedProtocolQuery,
            ),
        }
    }
}

impl Default for MockTax {
    /// The default configuration: rate zero and no caps.
    fn default() -> (t: MockTax)
        ensures
            t@.rate == 0,
            t@.caps == Map::<Seq<char>, u128>::empty(),
    {
        MockTax::new()
    }
}

/// Law: a cap query for a configured denomination is answered with exactly
/// the configured cap, and one for an unconfigured denomination with the
/// zero cap; neither is an error.
pub proof fn lemma_tax_cap_default(tax: MockTaxV, denom: Seq<char>)
    ensures
        tax.caps.contains_key(denom) ==> treasury_answer_spec(
            tax,
            ProtocolQueryV::TaxCap { denom },
        ) == QueryOutcomeV::Success(tax_cap_encoding(tax.caps[denom])),
        !tax.caps.contains_key(denom) ==> treasury_answer_spec(
            tax,
            ProtocolQueryV::TaxCap { denom },
        ) == QueryOutcomeV::Success(tax_cap_encoding(0)),
{
}

} // verus!
