//! Codes: when a new one is made, and what it looks like.
//!
//! A code is made for an account and an e-mail address. It starts as new, becomes sent
//! once the mail has left, and used once it was verified. While the latest code of an
//! account and address is not used and younger than five minutes, no new one is made.

use crate::service::error::{ServiceError, ServiceErrorView};
use crate::text::{decimal, decimal_text};
use vstd::prelude::*;
use vstd::string::StringExecFns;

verus! {

/// The status of a code that waits for its mail.
pub const STATUS_NEW: i16 = 0;

/// The status of a code whose mail was sent.
pub const STATUS_SENT: i16 = 1;

/// The status of a code that was verified.
pub const STATUS_USED: i16 = 2;

/// The seconds for which a code stands in the way of a new one.
pub const REUSE_SECONDS: i64 = 300;

/// The least number that a code can be.
pub const CODE_LOW: u32 = 100000;

/// The number that every code is below.
pub const CODE_HIGH: u32 = 999999;

/// A code as it is stored. Times are seconds since the Unix epoch.
#[derive(Debug, Clone, PartialEq, Eq)]
pub struct BindCode {
    pub id: i32,
    pub account: String,
    pub email: String,
    pub code: String,
    pub status: i16,
    pub created_at: i64,
    pub updated_at: Option<i64>,
}

/// The pattern that an e-mail address has to match.
pub const EMAIL_PATTERN: &'static str =
    "^([a-z0-9_+]([a-z0-9_+.]*[a-z0-9_+])?)@([a-z0-9]+([\\-\\.]{1}[a-z0-9]+)*\\.[a-z]{2,6})";

/// Whether a text holds a match of a pattern, as the `regex` crate decides it; `None`
/// where the crate does not take the pattern.
pub uninterp spec fn regex_match(pattern: Seq<char>, text: Seq<char>) -> Option<bool>;

/// Compiles the pattern with `regex::Regex::new` and asks `Regex::is_match` whether the
/// text holds a match of it. The result is a function of the pattern and the text
/// alone, which is all that is claimed: `None` where `Regex::new` returns an error.
#[verifier::external_body]
fn match_pattern(pattern: &str, text: &str) -> (r: Option<bool>)
    ensures
        r == regex_match(pattern@, text@),
{
    match regex::Regex::new(pattern) {
        Ok(compiled) => Some(compiled.is_match(text)),
        Err(_) => None,
    }
}

/// Whether a text is an e-mail address that a code can be sent to.
pub open spec fn valid_email(email: Seq<char>) -> bool {
    regex_match(EMAIL_PATTERN@, email) == Some(true)
}

/// Whether a text is an e-mail address that a code can be sent to.
pub fn is_valid_email(email: &str) -> (r: bool)
    ensures
        r == valid_email(email@),
{
    match match_pattern(EMAIL_PATTERN, email) {
        Some(hit) => hit,
        None => false,
    }
}

/// The first step of a request for a code, from what the pattern said of the address:
/// on a match the latest code is looked up, else the request ends with an error.
pub fn first_step(matched: Option<bool>) -> (r: CodeAction)
    ensures
        if matched == Some(true) {
            r == CodeAction::FetchLatest
        } else {
            r matches CodeAction::Finish(Err(e)) && e@ == ServiceErrorView::InvalidRequest(
                "invalid email"@,
            )
        },
{
    match matched {
        Some(true) => CodeAction::FetchLatest,
        _ => CodeAction::Finish(
            Err(ServiceError::InvalidRequest(String::from_str("invalid email"))),
        ),
    }
}

/// The step after the lookup, from the latest code, the time, and a number for a new
/// code: a pending code ends the request with success; else the number, written in
/// decimal, is the code to store.
pub fn lookup_step(latest: Option<BindCode>, now: i64, number: u32) -> (r: CodeAction)
    ensures
        if latest matches Some(code) && is_pending(code.status, code.created_at, now) {
            r matches CodeAction::Finish(Ok(text)) && text@ == "Success"@
        } else {
            r matches CodeAction::Store(code) && code@ == decimal_text(number as nat)
        },
{
    let pending = match &latest {
        Some(code) => code.status < STATUS_USED && code.created_at as i128 + REUSE_SECONDS as i128
            > now as i128,
        None => false,
    };
    if pending {
        CodeAction::Finish(Ok(success()))
    } else {
        CodeAction::Store(code_text(number))
    }
}

/// Whether a code stands in the way of a new one at a time: it is not used, and
/// younger than five minutes.
pub open spec fn is_pending(status: i16, created_at: i64, now: i64) -> bool {
    status < STATUS_USED && created_at + REUSE_SECONDS > now
}

/// A number in the range of the codes, from `rand::thread_rng` and `Rng::gen_range`.
/// Claimed is the range alone: the least code is possible, the upper bound is not.
#[verifier::external_body]
fn random_code() -> (r: u32)
    ensures
        CODE_LOW <= r < CODE_HIGH,
{
    rand::Rng::gen_range(&mut rand::thread_rng(), CODE_LOW..CODE_HIGH)
}

/// Whether a text is a code: a number of the range of the codes, in decimal.
pub open spec fn is_code_text(text: Seq<char>) -> bool {
    exists|n: nat| CODE_LOW <= n < CODE_HIGH && text == #[trigger] decimal_text(n)
}

/// The text of a code.
pub fn code_text(number: u32) -> (r: String)
    ensures
        r@ == decimal_text(number as nat),
{
    decimal(number as u64)
}

/// Makes a new code.
pub fn new_code() -> (r: String)
    ensures
        is_code_text(r@),
{
    code_text(random_code())
}

/// What is told to the caller once a code is on its way.
pub fn success() -> (r: String)
    ensures
        r@ == "Success"@,
{
    String::from_str("Success")
}

/// What came back from the work that a step asked for.
#[derive(Debug, Clone, PartialEq, Eq)]
pub enum CodeEvent {
    /// Nothing yet: the request has just come in.
    Start,
    /// The latest code of the account and address, if there is one, and the time.
    Latest(Option<BindCode>, i64),
    /// The new code was stored.
    Stored,
    /// The store failed. The text says how.
    Failed(String),
}

/// What is to be done next.
#[derive(Debug, PartialEq, Eq)]
pub enum CodeAction {
    /// Look up the latest code of the account and address, and read the clock.
    FetchLatest,
    /// Store this code as new.
    Store(String),
    /// Tell the caller.
    Finish(Result<String, ServiceError>),
}

/// Whether an action follows from an event, for a request that names an e-mail
/// address. An address that is not valid ends the request at once. A pending code ends
/// it with success and without a new code; else a new code is to be stored, and the
/// request ends with success once it is.
pub open spec fn code_step(email: Seq<char>, event: CodeEvent, action: CodeAction) -> bool {
    match event {
        CodeEvent::Start => if valid_email(email) {
            action == CodeAction::FetchLatest
        } else {
            action matches CodeAction::Finish(Err(e)) && e@ == ServiceErrorView::InvalidRequest(
                "invalid email"@,
            )
        },
        CodeEvent::Latest(latest, now) => if latest matches Some(code) && is_pending(
            code.status,
            code.created_at,
            now,
        ) {
            action matches CodeAction::Finish(Ok(text)) && text@ == "Success"@
        } else {
            action matches CodeAction::Store(code) && is_code_text(code@)
        },
        CodeEvent::Stored => action matches CodeAction::Finish(Ok(text)) && text@ == "Success"@,
        CodeEvent::Failed(reason) => action matches CodeAction::Finish(Err(e)) && e@
            == ServiceErrorView::DatabaseError(reason@),
    }
}

/// Decides the next step of a request for a code.
pub fn generate_code(email: &str, event: CodeEvent) -> (r: CodeAction)
    ensures
        code_step(email@, event, r),
{
    match event {
        CodeEvent::Start => first_step(match_pattern(EMAIL_PATTERN, email)),
        CodeEvent::Latest(latest, now) => lookup_step(latest, now, random_code()),
        CodeEvent::Stored => CodeAction::Finish(Ok(success())),
        CodeEvent::Failed(reason) => CodeAction::Finish(Err(ServiceError::DatabaseError(reason))),
    }
}

} // verus!
