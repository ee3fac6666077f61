//! The tools' inputs and what the server answers with.
use vstd::prelude::*;
use vstd::string::*;
use crate::types::{BackendError, error_message};

verus! {

/// The input of the tools that take one id.
#[derive(Debug)]
pub struct IdInput {
    pub id: String,
}

/// The input of `list_transactions`.
#[derive(Debug)]
pub struct ListTransactionsInput {
    pub account_id: String,
    pub from: String,
    pub to: String,
    pub limit: u32,
}

/// The input of `search_transactions`.
#[derive(Debug)]
pub struct SearchInput {
    pub query: String,
    pub limit: u32,
}

/// The input of `list_institutions`.
#[derive(Debug)]
pub struct ListInstitutionsInput {
    pub country: Option<String>,
    pub limit: u32,
}

/// The input of `list_payments`.
#[derive(Debug)]
pub struct ListPaymentsInput {
    pub limit: u32,
}

/// The input of `get_statement`.
#[derive(Debug)]
pub struct StatementInput {
    pub account_id: String,
    pub from: String,
    pub to: String,
}

/// How many institutions and payments are listed when no limit is given.
pub fn d20() -> (r: u32)
    ensures
        r == 20,
{
    20
}

/// How many transactions are listed or searched when no limit is given.
pub fn d50() -> (r: u32)
    ensures
        r == 50,
{
    50
}

/// The currency of a payment when none is given.
pub fn d_usd() -> (r: String)
    ensures
        r@ == "USD"@,
{
    "USD".to_owned()
}

/// What a tool answers when its backend fails: `Error: {message}`.
pub fn error_text(e: &BackendError) -> (r: String)
    ensures
        r@ == "Error: "@ + error_message(*e),
{
    let mut r = "Error: ".to_owned();
    r.append(e.message().as_str());
    r
}

/// The outcome of a health check.
#[derive(Debug)]
pub struct HealthReport {
    pub healthy: bool,
    pub message: Option<String>,
    pub latency_ms: Option<u64>,
}

/// The report of a health check that listed the accounts of the backend
/// `name`: healthy when the listing succeeded.
pub open spec fn health_of(name: Seq<char>, outcome: Result<(), BackendError>) -> (bool, Seq<char>, Option<u64>) {
    match outcome {
        Ok(()) => (true, name + " connected"@, Some(1)),
        Err(e) => (false, name + ": "@ + error_message(e), None),
    }
}

/// The health of the backend `name` from the outcome of listing its
/// accounts.
pub fn health_report(name: &str, outcome: &Result<(), BackendError>) -> (r: HealthReport)
    ensures
        (r.healthy, r.message.unwrap()@, r.latency_ms) == health_of(name@, *outcome),
        r.message is Some,
{
    match outcome {
        Ok(()) => {
            let mut m = name.to_owned();
            m.append(" connected");
            HealthReport { healthy: true, message: Some(m), latency_ms: Some(1) }
        },
        Err(e) => {
            let mut m = name.to_owned();
            m.append(": ");
            m.append(e.message().as_str());
            HealthReport { healthy: false, message: Some(m), latency_ms: None }
        },
    }
}

} // verus!
