use cosmwasm_std::testing::{MockQuerier, MOCK_CONTRACT_ADDR};
use cosmwasm_std::{to_binary, to_vec, Binary, Coin, Decimal, Querier, QueryRequest, Uint128, WasmQuery};
use terra_cosmwasm::{TaxCapResponse, TaxRateResponse, TerraQueryWrapper};

use mock_querier::codec::FallbackDelegate;
use mock_querier::envelope::{ContractQuery, ProtocolQuery, QueryEnvelope};
use mock_querier::handler::Handler;
use mock_querier::mock_querier::CustomMockQuerier;
use mock_querier::mock_tax::MockTax;
use mock_querier::response::{DispatchError, QueryOutcome, QueryStyle};
use mock_querier::table::Table;

fn router() -> CustomMockQuerier {
    CustomMockQuerier::new(FallbackDelegate::with_balances(MOCK_CONTRACT_ADDR, &Vec::new()))
}

#[test]
fn register_handlers() {
    let mut querier = router();
    querier.register_wasm_smart_query_handler(MOCK_CONTRACT_ADDR, Handler::Echo);
    querier.register_wasm_raw_query_handler(MOCK_CONTRACT_ADDR, Handler::Echo);

    let response = querier.handle_query(&QueryEnvelope::Contract(ContractQuery::Smart {
        contract_addr: MOCK_CONTRACT_ADDR.to_string(),
        msg: 123u128.to_be_bytes().to_vec(),
    }));
    let payload = match response {
        QueryOutcome::Success(payload) => payload,
        _ => panic!("smart query should succeed"),
    };
    let response = u128::from_be_bytes(payload.as_slice().try_into().unwrap());
    assert_eq!(response, 123u128);

    let response = querier.handle_query(&QueryEnvelope::Contract(ContractQuery::Raw {
        contract_addr: MOCK_CONTRACT_ADDR.to_string(),
        key: 123u128.to_be_bytes().to_vec(),
    }));
    let payload = match response {
        QueryOutcome::Success(payload) => payload,
        _ => panic!("raw query should succeed"),
    };
    let response = u128::from_be_bytes(payload.as_slice().try_into().unwrap());
    assert_eq!(response, 123u128);
}

#[test]
fn smart_echo_and_missing_handler() {
    let mut querier = router();
    querier.register_wasm_smart_query_handler("tokenA", Handler::Echo);

    let response = querier.handle_query(&QueryEnvelope::Contract(ContractQuery::Smart {
        contract_addr: "tokenA".to_string(),
        msg: vec![1, 2, 3],
    }));
    match response {
        QueryOutcome::Success(payload) => assert_eq!(payload, vec![1, 2, 3]),
        _ => panic!("registered smart handler should answer"),
    }

    let response = querier.handle_query(&QueryEnvelope::Contract(ContractQuery::Smart {
        contract_addr: "tokenB".to_string(),
        msg: vec![1, 2, 3],
    }));
    match response {
        QueryOutcome::SystemError(DispatchError::HandlerNotFound { contract_addr, style }) => {
            assert_eq!(contract_addr, "tokenB".to_string());
            assert_eq!(style, QueryStyle::Smart);
        }
        _ => panic!("unregistered address should be a missing-handler fault"),
    }
}

#[test]
fn raw_missing_handler() {
    let querier = router();
    let response = querier.handle_query(&QueryEnvelope::Contract(ContractQuery::Raw {
        contract_addr: "tokenB".to_string(),
        key: vec![7],
    }));
    match response {
        QueryOutcome::SystemError(DispatchError::HandlerNotFound { contract_addr, style }) => {
            assert_eq!(contract_addr, "tokenB".to_string());
            assert_eq!(style, QueryStyle::Raw);
        }
        _ => panic!("unregistered address should be a missing-handler fault"),
    }
}

#[test]
fn newest_registration_wins() {
    let mut querier = router();
    querier.register_wasm_smart_query_handler("tokenA", Handler::Echo);
    querier.register_wasm_smart_query_handler("tokenA", Handler::Fixed(vec![9, 9]));

    let response = querier.handle_query(&QueryEnvelope::Contract(ContractQuery::Smart {
        contract_addr: "tokenA".to_string(),
        msg: vec![1, 2, 3],
    }));
    match response {
        QueryOutcome::Success(payload) => assert_eq!(payload, vec![9, 9]),
        _ => panic!("newest handler should answer"),
    }
}

#[test]
fn failing_handler_is_contract_error() {
    let mut querier = router();
    querier.register_wasm_smart_query_handler("tokenA", Handler::Fail("boom".to_string()));

    let response = querier.handle_query(&QueryEnvelope::Contract(ContractQuery::Smart {
        contract_addr: "tokenA".to_string(),
        msg: vec![],
    }));
    match response {
        QueryOutcome::ContractError(error) => assert_eq!(error, "boom".to_string()),
        _ => panic!("handler failure should surface as an application error"),
    }
}

#[test]
fn tax_rate_and_caps() {
    let mut querier = router();
    let mut caps: Table<u128> = Table::new();
    caps.insert("usd".to_string(), 1000u128);
    querier.with_tax(MockTax {
        rate: 50_000_000_000_000_000u64,
        caps,
    });

    let response = querier.handle_query(&QueryEnvelope::Protocol(ProtocolQuery::TaxRate));
    let expected = to_binary(&TaxRateResponse {
        rate: Decimal::permille(50),
    })
    .unwrap();
    match response {
        QueryOutcome::Success(payload) => assert_eq!(payload, expected.0),
        _ => panic!("rate query should succeed"),
    }

    let response = querier.handle_query(&QueryEnvelope::Protocol(ProtocolQuery::TaxCap {
        denom: "usd".to_string(),
    }));
    let expected = to_binary(&TaxCapResponse {
        cap: Uint128::new(1000),
    })
    .unwrap();
    match response {
        QueryOutcome::Success(payload) => assert_eq!(payload, expected.0),
        _ => panic!("cap query should succeed"),
    }

    let response = querier.handle_query(&QueryEnvelope::Protocol(ProtocolQuery::TaxCap {
        denom: "eur".to_string(),
    }));
    let expected = to_binary(&TaxCapResponse {
        cap: Uint128::zero(),
    })
    .unwrap();
    match response {
        QueryOutcome::Success(payload) => assert_eq!(payload, expected.0),
        _ => panic!("cap query for an unconfigured denomination should succeed"),
    }
}

#[test]
fn unrecognized_protocol_query() {
    let querier = router();
    let response = querier.handle_query(&QueryEnvelope::Protocol(ProtocolQuery::Unrecognized));
    match response {
        QueryOutcome::SystemError(DispatchError::UnrecognizedProtocolQuery) => {}
        _ => panic!("unrecognized protocol queries should be transport errors"),
    }
}

#[test]
fn unsupported_contract_kind() {
    let querier = router();
    let response = querier.handle_query(&QueryEnvelope::Contract(ContractQuery::Unsupported {
        kind: "contract info".to_string(),
    }));
    match response {
        QueryOutcome::SystemError(DispatchError::UnsupportedRequest { kind }) => {
            assert_eq!(kind, "contract info".to_string());
        }
        _ => panic!("unmodeled contract sub-kinds should be unsupported-request faults"),
    }
}

#[test]
fn fallback_system_error_is_fallback_failure() {
    let querier = router();
    let response = querier.handle_query(&QueryEnvelope::Generic(vec![0xff, 0x01]));
    match response {
        QueryOutcome::SystemError(DispatchError::FallbackFailure { error }) => {
            assert!(!error.is_empty());
        }
        _ => panic!("garbage handed to the fallback should be a fallback failure"),
    }
}

#[test]
fn decode_failure_is_deterministic_invalid_request() {
    let querier = router();
    let garbage: Vec<u8> = vec![0xff, 0x00, 0x12];

    let first = querier.raw_query(&garbage);
    let second = querier.raw_query(&garbage);

    let (error1, request1) = match first {
        QueryOutcome::SystemError(DispatchError::InvalidRequest { error, request }) => {
            (error, request)
        }
        _ => panic!("garbage bytes should be an invalid-request fault"),
    };
    let (error2, request2) = match second {
        QueryOutcome::SystemError(DispatchError::InvalidRequest { error, request }) => {
            (error, request)
        }
        _ => panic!("garbage bytes should be an invalid-request fault"),
    };
    assert_eq!(request1, garbage);
    assert_eq!(request2, garbage);
    assert_eq!(error1, error2);
}

#[test]
fn wire_smart_query_reaches_handler() {
    let mut querier = router();
    querier.register_wasm_smart_query_handler("tokenA", Handler::Echo);

    let bytes = to_vec(&QueryRequest::<TerraQueryWrapper>::Wasm(WasmQuery::Smart {
        contract_addr: "tokenA".to_string(),
        msg: Binary::from(vec![4, 5, 6]),
    }))
    .unwrap();

    match querier.raw_query(&bytes) {
        QueryOutcome::Success(payload) => assert_eq!(payload, vec![4, 5, 6]),
        _ => panic!("a well-formed smart query should reach the handler"),
    }
}

#[test]
fn wire_treasury_rate_query() {
    let mut querier = router();
    let mut caps: Table<u128> = Table::new();
    caps.insert("usd".to_string(), 1000u128);
    querier.with_tax(MockTax {
        rate: 2_000_000_000_000_000_000u64,
        caps,
    });

    let bytes = to_vec(&QueryRequest::<TerraQueryWrapper>::Custom(TerraQueryWrapper {
        route: terra_cosmwasm::TerraRoute::Treasury,
        query_data: terra_cosmwasm::TerraQuery::TaxRate {},
    }))
    .unwrap();
    let expected = to_binary(&TaxRateResponse {
        rate: Decimal::percent(200),
    })
    .unwrap();

    match querier.raw_query(&bytes) {
        QueryOutcome::Success(payload) => assert_eq!(payload, expected.0),
        _ => panic!("a well-formed treasury rate query should succeed"),
    }
}

#[test]
fn fallback_answers_bank_query() {
    let coin = Coin {
        denom: "uusd".to_string(),
        amount: Uint128::new(77),
    };
    let base = MockQuerier::<TerraQueryWrapper>::new(&[(MOCK_CONTRACT_ADDR, &[coin.clone()])]);
    let delegate =
        FallbackDelegate::with_balances(MOCK_CONTRACT_ADDR, &vec![("uusd".to_string(), 77u128)]);
    let bytes = to_vec(&QueryRequest::<TerraQueryWrapper>::Bank(
        cosmwasm_std::BankQuery::Balance {
            address: MOCK_CONTRACT_ADDR.to_string(),
            denom: "uusd".to_string(),
        },
    ))
    .unwrap();

    let expected = match base.raw_query(&bytes) {
        cosmwasm_std::SystemResult::Ok(cosmwasm_std::ContractResult::Ok(b)) => b.0,
        _ => panic!("the fallback simulator should answer a bank query"),
    };

    let querier = CustomMockQuerier::new(delegate);
    match querier.raw_query(&bytes) {
        QueryOutcome::Success(payload) => assert_eq!(payload, expected),
        _ => panic!("a bank query should be delegated to the fallback verbatim"),
    }
}
