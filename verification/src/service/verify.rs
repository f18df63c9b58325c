//! Verification of a code that came back.
//!
//! A code can be verified once its mail was sent, for six minutes from its making. The
//! caller gets a signature over the binding, and the code becomes used.

use crate::service::code::BindCode;
use crate::service::error::{ServiceError, ServiceErrorView};
use vstd::prelude::*;
use vstd::string::{StringExecFns, StringSliceAdditionalSpecFns};

verus! {

/// The seconds for which a code can be verified.
pub const VERIFY_SECONDS: i64 = 360;

/// Whether a code can no longer be verified at a time.
pub open spec fn is_expired(created_at: i64, now: i64) -> bool {
    created_at + VERIFY_SECONDS < now
}

/// The Keccak-256 digest of bytes, as `ethers_core::utils::keccak256` computes it.
pub uninterp spec fn keccak256_digest(bytes: Seq<u8>) -> Seq<u8>;

/// Calls `ethers_core::utils::keccak256` on the bytes. Claimed is that the digest is a
/// function of the bytes alone; which function it is, is the crate's to say.
#[verifier::external_body]
fn keccak256(bytes: &[u8]) -> (r: [u8; 32])
    ensures
        r@ == keccak256_digest(bytes@),
{
    ethers_core::utils::keccak256(bytes)
}

/// The digest under which the guardian contract knows an e-mail address: Keccak-256 of
/// the bytes of the address.
pub fn email_digest(email: &str) -> (r: [u8; 32])
    ensures
        r@ == keccak256_digest(email.spec_bytes()),
{
    keccak256(email.as_bytes())
}

/// The text of a signature as the caller gets it: `0x` before the hexadecimal digits.
pub open spec fn signature_text(hex: Seq<char>) -> Seq<char> {
    "0x"@ + hex
}

/// What came back from the work that a step asked for.
#[derive(Debug, Clone, PartialEq, Eq)]
pub enum VerifyEvent {
    /// Nothing yet: the request has just come in.
    Start,
    /// The latest sent code that matches the request, if there is one, and the time.
    Latest(Option<BindCode>, i64),
    /// The signature over the binding, in hexadecimal.
    Signed(String),
    /// No signature could be made. The text says why.
    SignFailed(String),
    /// The code was marked as used; the signature is handed back.
    Marked(String),
    /// The store failed. The text says how.
    Failed(String),
}

/// What is to be done next.
#[derive(Debug, PartialEq, Eq)]
pub enum VerifyAction {
    /// Look up the latest sent code that matches the request, and read the clock.
    FetchSent,
    /// Sign the binding of the account to the address with this digest.
    Sign([u8; 32]),
    /// Mark the code as used, and hand this signature back.
    MarkUsed(String),
    /// Tell the caller.
    Finish(Result<String, ServiceError>),
}

/// Whether an action follows from an event, for a request that names an e-mail
/// address. A request without a sent code, or with one that is expired, ends with an
/// error. Else the binding is signed, the code is marked as used, and the request ends
/// with the signature.
pub open spec fn verify_step(email: Seq<u8>, event: VerifyEvent, action: VerifyAction) -> bool {
    match event {
        VerifyEvent::Start => action == VerifyAction::FetchSent,
        VerifyEvent::Latest(latest, now) => if latest matches Some(code) && !is_expired(
            code.created_at,
            now,
        ) {
            action matches VerifyAction::Sign(digest) && digest@ == keccak256_digest(email)
        } else {
            action matches VerifyAction::Finish(Err(e)) && e@ == ServiceErrorView::InvalidRequest(
                "error code"@,
            )
        },
        VerifyEvent::Signed(hex) => action matches VerifyAction::MarkUsed(kept) && kept@ == hex@,
        VerifyEvent::SignFailed(reason) => action matches VerifyAction::Finish(Err(e)) && e@
            == ServiceErrorView::InvalidRequest(reason@),
        VerifyEvent::Marked(hex) => action matches VerifyAction::Finish(Ok(text)) && text@
            == signature_text(hex@),
        VerifyEvent::Failed(reason) => action matches VerifyAction::Finish(Err(e)) && e@
            == ServiceErrorView::DatabaseError(reason@),
    }
}

/// Decides the next step of a request to verify a code.
pub fn verify_code(email: &str, event: VerifyEvent) -> (r: VerifyAction)
    ensures
        verify_step(email.spec_bytes(), event, r),
{
    match event {
        VerifyEvent::Start => VerifyAction::FetchSent,
        VerifyEvent::Latest(latest, now) => {
            let live = match &latest {
                Some(code) => !(code.created_at as i128 + (VERIFY_SECONDS as i128) < now as i128),
                None => false,
            };
            if live {
                VerifyAction::Sign(email_digest(email))
            } else {
                VerifyAction::Finish(
                    Err(ServiceError::InvalidRequest(String::from_str("error code"))),
                )
            }
        },
        VerifyEvent::Signed(hex) => VerifyAction::MarkUsed(hex),
        VerifyEvent::SignFailed(reason) => VerifyAction::Finish(
            Err(ServiceError::InvalidRequest(reason)),
        ),
        VerifyEvent::Marked(hex) => {
            let text = String::from_str("0x").concat(hex.as_str());
            VerifyAction::Finish(Ok(text))
        },
        VerifyEvent::Failed(reason) => VerifyAction::Finish(
            Err(ServiceError::DatabaseError(reason)),
        ),
    }
}

} // verus!
