//! Paystack's API as the service uses it: the records its answers carry, the
//! endpoints, and how an answer's envelope is unwrapped.
use vstd::prelude::*;
use crate::error::AppError;

verus! {

pub struct ResolvedAccount {
    pub account_number: String,
    pub account_name: String,
    pub bank_id: i64,
}

pub struct Bank {
    pub name: String,
    pub code: String,
    pub country: String,
    pub currency: String,
    pub bank_type: String,
    pub active: bool,
}

pub struct Subaccount {
    pub subaccount_code: String,
    pub id: i64,
    pub business_name: String,
    pub account_number: String,
    pub bank: String,
}

pub struct TransactionInit {
    pub authorization_url: String,
    pub access_code: String,
    pub reference: String,
}

/// A transaction as Paystack reports it when verifying it.
pub struct TransactionStatus {
    pub reference: String,
    pub amount: i64,
    pub status: String,
    pub gateway_response: String,
    pub paid_at: Option<String>,
    pub fees: Option<i64>,
}

/// The URL of an endpoint: the base URL followed by the path.
pub fn endpoint(base_url: &str, path: &str) -> (r: String)
    ensures
        r@ == base_url@ + path@,
{
    let mut s = String::from_str(base_url);
    s.append(path);
    s
}

/// The URL that verifies the transaction with `reference`.
pub fn verify_transaction_url(base_url: &str, reference: &str) -> (r: String)
    ensures
        r@ == base_url@ + "/transaction/verify/"@ + reference@,
{
    let mut s = String::from_str(base_url);
    s.append("/transaction/verify/");
    s.append(reference);
    s
}

/// Unwraps an answer that must carry data: a refused answer yields Paystack's
/// message, an accepted one without data an error of its own.
pub fn unwrap_response<T>(status: bool, message: String, data: Option<T>) -> (r: Result<T, AppError>)
    ensures
        !status ==> (r matches Err(AppError::Paystack(m)) && m@ == message@),
        status && data is None ==> (r matches Err(AppError::Paystack(m)) && m@
            == "empty response data"@),
        status && data is Some ==> r == Ok::<T, AppError>(data->0),
{
    if !status {
        return Err(AppError::Paystack(message));
    }
    match data {
        Some(d) => Ok(d),
        None => Err(AppError::Paystack(String::from_str("empty response data"))),
    }
}

/// Unwraps an answer carrying a list: a refused answer yields Paystack's message,
/// an accepted one without data the empty list.
pub fn unwrap_list<T>(status: bool, message: String, data: Option<Vec<T>>) -> (r: Result<
    Vec<T>,
    AppError,
>)
    ensures
        !status ==> (r matches Err(AppError::Paystack(m)) && m@ == message@),
        status ==> (r matches Ok(v) && v@ == match data {
            Some(d) => d@,
            None => Seq::empty(),
        }),
{
    if !status {
        return Err(AppError::Paystack(message));
    }
    match data {
        Some(d) => Ok(d),
        None => Ok(Vec::new()),
    }
}

} // verus!
