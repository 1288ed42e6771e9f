//! A query simulation router for contract tests.
//!
//! The crate intercepts serialized query requests aimed at a simulated
//! ledger runtime and resolves them deterministically: a built-in treasury
//! responder answers tax queries from an in-memory configuration,
//! caller-registered per-address handlers answer structured ("smart") and
//! opaque ("raw") contract queries, and everything else is delegated to the
//! generic ledger simulator.

pub mod codec;
pub mod envelope;
pub mod handler;
pub mod mock_querier;
pub mod mock_tax;
pub mod mock_token;
pub mod response;
pub mod table;
