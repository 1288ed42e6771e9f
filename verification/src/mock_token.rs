//! A token fixture: a convenience client built on the router's core.
//!
//! A `MockToken` owns immutable token metadata and a holder-to-balance
//! table.  Registered into the raw-handler table under its own address, it
//! decodes the opaque lookup key as a structured token query and answers
//! balance and metadata requests; a missing holder has the zero balance,
//! never an error.

use vstd::prelude::*;

use crate::codec::{
    balance_encoding, cw20_decode_spec, decode_token_query, encode_balance, encode_token_info,
    token_info_encoding,
};
use crate::handler::clone_string;
use crate::mock_querier::CustomMockQuerier;
use crate::table::{assoc_map, Table};

verus! {

/// A structured token query, as the fixture understands it.
pub enum TokenQuery {
    /// Asks for one holder's balance.
    Balance { address: String },
    /// Asks for the token's metadata.
    TokenInfo,
    /// Any other token-query message kind; `desc` describes it.
    Other { desc: String },
}

/// Mathematical model of a `TokenQuery`.
pub enum TokenQueryV {
    Balance { address: Seq<char> },
    TokenInfo,
    Other { desc: Seq<char> },
}

impl View for TokenQuery {
    type V = TokenQueryV;

    open spec fn view(&self) -> TokenQueryV {
        match self {
            TokenQuery::Balance { address } => TokenQueryV::Balance { address: address@ },
            TokenQuery::TokenInfo => TokenQueryV::TokenInfo,
            TokenQuery::Other { desc } => TokenQueryV::Other { desc: desc@ },
        }
    }
}

/// A token fixture: metadata, its own contract address, and balances.
pub struct MockToken {
    /// The token's name.
    pub name: String,
    /// The token's ticker symbol.
    pub symbol: String,
    /// The token's decimal precision.
    pub decimals: u8,
    /// The token's total supply.
    pub total_supply: u128,
    /// The contract address the fixture registers itself under.
    pub address: String,
    /// The balance of each holder address.
    pub balances: Table<u128>,
}

/// Mathematical model of a `MockToken`.
pub struct MockTokenV {
    pub name: Seq<char>,
    pub symbol: Seq<char>,
    pub decimals: u8,
    pub total_supply: u128,
    pub address: Seq<char>,
    pub balances: Map<Seq<char>, u128>,
}

impl View for MockToken {
    type V = MockTokenV;

    open spec fn view(&self) -> MockTokenV {
        MockTokenV {
            name: self.name@,
            symbol: self.symbol@,
            decimals: self.decimals,
            total_supply: self.total_supply,
            address: self.address@,
            balances: self.balances@,
        }
    }
}

/// The balance recorded for `address`, or zero when none is.
pub open spec fn balance_for(balances: Map<Seq<char>, u128>, address: Seq<char>) -> u128 {
    if balances.contains_key(address) {
        balances[address]
    } else {
        0
    }
}

/// What the fixture answers for a raw payload: the encoded balance for a
/// balance query (a missing holder has balance zero), the encoded metadata
/// for a metadata query, and an application error for an undecodable
/// payload or an unrecognized message kind.
pub open spec fn token_answer_spec(t: MockTokenV, payload: Seq<u8>) -> Result<Seq<u8>, Seq<char>> {
    match cw20_decode_spec(payload) {
        Err(error) => Err(error),
        Ok(TokenQueryV::Balance { address }) => Ok(
            balance_encoding(balance_for(t.balances, address)),
        ),
        Ok(TokenQueryV::TokenInfo) => Ok(
            token_info_encoding(t.name, t.symbol, t.decimals, t.total_supply),
        ),
        Ok(TokenQueryV::Other { desc }) => Err(desc),
    }
}

impl MockToken {
    /// A fixture with the given address, metadata and balances; later
    /// entries in `balances` shadow earlier ones for the same holder.
    pub fn new(
        address: &str,
        name: &str,
        symbol: &str,
        decimals: u8,
        total_supply: u128,
        balances: &Vec<(String, u128)>,
    ) -> (t: MockToken)
        ensures
            t@.address == address@,
            t@.name == name@,
            t@.symbol == symbol@,
            t@.decimals == decimals,
            t@.total_supply == total_supply,
            t@.balances == assoc_map(balances@),
    {
        MockToken {
            name: name.to_owned(),
            symbol: symbol.to_owned(),
            decimals,
            total_supply,
            address: address.to_owned(),
            balances: balances_to_map(balances),
        }
    }

    /// Answers one raw payload as the token fixture.
    pub fn answer(&self, payload: &Vec<u8>) -> (r: Result<Vec<u8>, String>)
        ensures
            crate::handler::answer_view(r) == token_answer_spec(self@, payload@),
    {
        match decode_token_query(payload) {
            Err(error) => Err(error),
            Ok(TokenQuery::Balance { address }) => {
                let amount: u128 = match self.balances.get(&address) {
                    Some(a) => *a,
                    None => 0,
                };
                Ok(encode_balance(amount))
            },
            Ok(TokenQuery::TokenInfo) => Ok(encode_token_info(
                &self.name,
                &self.symbol,
                self.decimals,
                self.total_supply,
            )),
            Ok(TokenQuery::Other { desc }) => Err(desc),
        }
    }

    /// A copy of this fixture with the same model.
    pub fn duplicate(&self) -> (t: MockToken)
        ensures
            t@ == self@,
    {
        MockToken {
            name: clone_string(&self.name),
            symbol: clone_string(&self.symbol),
            decimals: self.decimals,
            total_supply: self.total_supply,
            address: clone_string(&self.address),
            balances: self.balances.duplicate(),
        }
    }

    /// Wires this fixture into the raw-handler table under its own
    /// address.
    pub fn register(&self, querier: &mut CustomMockQuerier)
        ensures
            final(querier)@.raw == old(querier)@.raw.insert(
                self.address@,
                crate::handler::HandlerV::Token(self@),
            ),
            final(querier)@.smart == old(querier)@.smart,
            final(querier)@.tax == old(querier)@.tax,
            final(querier)@.base == old(querier)@.base,
    {
        querier.register_wasm_raw_query_handler(
            self.address.as_str(),
            crate::handler::Handler::Token(self.duplicate()),
        );
    }
}

impl Default for MockToken {
    /// The empty fixture: empty address and metadata, zero supply, no
    /// balances.
    fn default() -> (t: MockToken)
        ensures
            t@.address == Seq::<char>::empty(),
            t@.name == Seq::<char>::empty(),
            t@.symbol == Seq::<char>::empty(),
            t@.decimals == 0,
            t@.total_supply == 0,
            t@.balances == Map::<Seq<char>, u128>::empty(),
    {
        let empty: Vec<(String, u128)> = Vec::new();
        let t = MockToken::new("", "", "", 0, 0, &empty);
        proof {
            reveal_strlit("");
            assert(""@ =~= Seq::<char>::empty());
        }
        t
    }
}

/// Builds a balance table from a listing; later entries shadow earlier
/// ones for the same holder.
pub fn balances_to_map(balances: &Vec<(String, u128)>) -> (t: Table<u128>)
    ensures
        t@ == assoc_map(balances@),
{
    let mut t: Table<u128> = Table::new();
    let mut i: usize = 0;
    while i < balances.len()
        invariant
            i <= balances.len(),
            t@ == assoc_map(balances@.take(i as int)),
        decreases balances.len() - i,
    {
        t.insert(clone_string(&balances[i].0), balances[i].1);
        proof {
            assert(balances@.take(i as int + 1).drop_last() =~= balances@.take(i as int));
            assert(balances@.take(i as int + 1).last() == balances@[i as int]);
        }
        i = i + 1;
    }
    proof {
        assert(balances@.take(balances@.len() as int) =~= balances@);
    }
    t
}

/// Builds a token fixture and registers it in one step.
pub fn register_token(
    querier: &mut CustomMockQuerier,
    address: &str,
    name: &str,
    symbol: &str,
    decimals: u8,
    total_supply: u128,
    balances: &Vec<(String, u128)>,
)
    ensures
        final(querier)@.raw == old(querier)@.raw.insert(
            address@,
            crate::handler::HandlerV::Token(
                (MockTokenV {
                    name: name@,
                    symbol: symbol@,
                    decimals,
                    total_supply,
                    address: address@,
                    balances: assoc_map(balances@),
                }),
            ),
        ),
        final(querier)@.smart == old(querier)@.smart,
        final(querier)@.tax == old(querier)@.tax,
        final(querier)@.base == old(querier)@.base,
{
    MockToken::new(address, name, symbol, decimals, total_supply, balances).register(querier)
}

} // verus!
