//! Registered per-address handlers.
//!
//! A handler owns whatever fixture data it answers from and exposes one
//! operation: answering a request payload with an encoded response or an
//! application-level error.  Handlers are pure with respect to the
//! router's own state.

use vstd::prelude::*;

use crate::mock_token::{token_answer_spec, MockToken, MockTokenV};

verus! {

/// A per-address response callback, as a tagged variant owning its data.
pub enum Handler {
    /// Answers every payload with the payload itself.
    Echo,
    /// Answers every payload with one fixed response.
    Fixed(Vec<u8>),
    /// Fails every payload with one fixed application error.
    Fail(String),
    /// Answers token queries from a token fixture.
    Token(MockToken),
}

/// Mathematical model of a `Handler`.
pub enum HandlerV {
    Echo,
    Fixed(Seq<u8>),
    Fail(Seq<char>),
    Token(MockTokenV),
}

impl View for Handler {
    type V = HandlerV;

    open spec fn view(&self) -> HandlerV {
        match self {
            Handler::Echo => HandlerV::Echo,
            Handler::Fixed(response) => HandlerV::Fixed(response@),
            Handler::Fail(error) => HandlerV::Fail(error@),
            Handler::Token(token) => HandlerV::Token(token@),
        }
    }
}

/// What a handler answers for a payload: an encoded response, or an
/// application-level error string.
pub open spec fn handler_answer_spec(h: HandlerV, payload: Seq<u8>) -> Result<Seq<u8>, Seq<char>> {
    match h {
        HandlerV::Echo => Ok(payload),
        HandlerV::Fixed(response) => Ok(response),
        HandlerV::Fail(error) => Err(error),
        HandlerV::Token(token) => token_answer_spec(token, payload),
    }
}

/// The model of an executable handler result.
pub open spec fn answer_view(r: Result<Vec<u8>, String>) -> Result<Seq<u8>, Seq<char>> {
    match r {
        Ok(payload) => Ok(payload@),
        Err(error) => Err(error@),
    }
}

impl Handler {
    /// Answers one request payload.
    pub fn answer(&self, payload: &Vec<u8>) -> (r: Result<Vec<u8>, String>)
        ensures
            answer_view(r) == handler_answer_spec(self@, payload@),
    {
        match self {
            Handler::Echo => Ok(copy_bytes(payload)),
            Handler::Fixed(response) => Ok(copy_bytes(response)),
            Handler::Fail(error) => Err(clone_string(error)),
            Handler::Token(token) => token.answer(payload),
        }
    }
}

/// A byte-for-byte copy of `bytes`.
pub fn copy_bytes(bytes: &Vec<u8>) -> (r: Vec<u8>)
    ensures
        r@ == bytes@,
{
    let mut out: Vec<u8> = Vec::new();
    let mut i: usize = 0;
    while i < bytes.len()
        invariant
            i <= bytes.len(),
            out@ == bytes@.take(i as int),
        decreases bytes.len() - i,
    {
        out.push(bytes[i]);
        proof {
            assert(out@ =~= bytes@.take(i as int + 1));
        }
        i = i + 1;
    }
    proof {
        assert(bytes@.take(bytes@.len() as int) =~= bytes@);
    }
    out
}

/// A copy of `s` with the same characters.
pub fn clone_string(s: &String) -> (r: String)
    ensures
        r@ == s@,
{
    s.clone()
}

} // verus!
