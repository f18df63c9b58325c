//! The mail that carries a code.

use vstd::prelude::*;
use vstd::string::StringExecFns;

verus! {

/// The most codes that one round of mails takes.
pub const MAILS_PER_ROUND: u32 = 100;

/// What the subject of every mail starts with.
pub const SUBJECT_HEAD: &'static str = "ioPay AA Wallet Verification Code - ";

/// The letter up to the code.
pub const LETTER_HEAD: &'static str =
    "Dear User,\n\nI hope this message finds you well. We are writing to provide you with an important piece of information regarding your ioPay AA Wallet.\n\nYour unique verification code is: \n";

/// The letter after the code.
pub const LETTER_TAIL: &'static str =
    "\n\nThis code is essential for the verification process of your wallet and should be entered in the required field to proceed.\n\nWe strongly advise you to keep this code confidential. It is crucial to the security of your wallet and should not be shared with anyone under any circumstances. Your privacy and security are our top priorities, and we want to ensure that your wallet remains secure at all times.\n\nPlease remember to store this code in a safe and secure place where only you can access it. If you suspect that your code has been compromised, please contact our support team immediately.\n\nThank you for your attention to this matter. We appreciate your cooperation in maintaining the security of your ioPay AA Wallet.\n\nBest Regards,\nioPay Team";

/// The subject of the mail for a code.
pub open spec fn subject_text(code: Seq<char>) -> Seq<char> {
    SUBJECT_HEAD@ + code
}

/// The body of the mail for a code: the code on a line of its own between the two
/// parts of the letter.
pub open spec fn body_text(code: Seq<char>) -> Seq<char> {
    LETTER_HEAD@ + code + LETTER_TAIL@
}

/// Writes the subject of the mail for a code.
pub fn mail_subject(code: &str) -> (r: String)
    ensures
        r@ == subject_text(code@),
{
    String::from_str(SUBJECT_HEAD).concat(code)
}

/// Writes the body of the mail for a code.
pub fn mail_body(code: &str) -> (r: String)
    ensures
        r@ == body_text(code@),
{
    String::from_str(LETTER_HEAD).concat(code).concat(LETTER_TAIL)
}

} // verus!
