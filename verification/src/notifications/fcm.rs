//! Push messages through Firebase Cloud Messaging: where they are sent and how a
//! reply is read.
use vstd::prelude::*;
use crate::error::AppError;
use crate::text::{contains, decimal, decimal_string, str_contains};

verus! {

/// The address messages of a Firebase project are sent to.
pub open spec fn send_url(project_id: Seq<char>) -> Seq<char> {
    "https://fcm.googleapis.com/v1/projects/"@ + project_id + "/messages:send"@
}

pub fn fcm_send_url(project_id: &str) -> (r: String)
    ensures
        r@ == send_url(project_id@),
{
    let mut s = String::from_str("https://fcm.googleapis.com/v1/projects/");
    s.append(project_id);
    s.append("/messages:send");
    s
}

/// The reason phrase the `http` crate gives a status code.
pub uninterp spec fn status_reason(code: u16) -> Option<Seq<char>>;

/// Calls `StatusCode::canonical_reason` (http crate, through hyper) on a valid
/// status code. The phrase is named; the contract claims nothing else of it.
#[verifier::external_body]
fn canonical_reason(code: u16) -> (r: Option<&'static str>)
    requires
        100 <= code <= 999,
    ensures
        match r {
            Some(s) => status_reason(code) == Some(s@),
            None => status_reason(code) is None,
        },
{
    hyper::StatusCode::from_u16(code).ok().and_then(|s| s.canonical_reason())
}

/// How the `http` crate writes a status code: its number and reason phrase.
pub open spec fn status_display(code: u16) -> Seq<char> {
    decimal(code as nat) + " "@ + match status_reason(code) {
        Some(p) => p,
        None => "<unknown status code>"@,
    }
}

pub fn status_text(code: u16) -> (r: String)
    requires
        100 <= code <= 999,
    ensures
        r@ == status_display(code),
{
    let mut s = decimal_string(code as u64);
    s.append(" ");
    match canonical_reason(code) {
        Some(p) => s.append(p),
        None => s.append("<unknown status code>"),
    }
    s
}

/// What a reply to a push message means: delivered (`Ok(true)`), the device's
/// token is no longer valid (`Ok(false)`), or a failure.
pub open spec fn reply_outcome(status: u16, body: Seq<char>) -> Option<bool> {
    if 200 <= status < 300 {
        Some(true)
    } else if status == 400 || contains(body, "UNREGISTERED"@) || contains(body, "INVALID_ARGUMENT"@) {
        Some(false)
    } else {
        None
    }
}

/// Reads Firebase's reply to a push message: a 2xx status is a delivery; a 400,
/// or a body naming an unregistered token or an invalid argument, marks the
/// token invalid; anything else fails with the status and body.
pub fn read_push_reply(status: u16, body: &str) -> (r: Result<bool, AppError>)
    requires
        100 <= status <= 999,
    ensures
        match reply_outcome(status, body@) {
            Some(b) => r == Ok::<bool, AppError>(b),
            None => r matches Err(AppError::Internal(m)) && m@ == "fcm token error: "@
                + status_display(status) + ":"@ + body@,
        },
{
    if 200 <= status && status < 300 {
        return Ok(true);
    }
    if status == 400 || str_contains(body, "UNREGISTERED") || str_contains(body, "INVALID_ARGUMENT") {
        return Ok(false);
    }
    let mut m = String::from_str("fcm token error: ");
    let st = status_text(status);
    m.append(st.as_str());
    m.append(":");
    m.append(body);
    Err(AppError::Internal(m))
}

/// Whether a device's token is switched off after a push: only when the reply
/// said the token is invalid.
pub fn deactivates_token(r: &Result<bool, AppError>) -> (b: bool)
    ensures
        b == (*r matches Ok(false)),
{
    match r {
        Ok(false) => true,
        _ => false,
    }
}

} // verus!
