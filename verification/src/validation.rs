//! The checks that a request has to pass before it is handed to the core.
use vstd::prelude::*;
use crate::post::{NewPost, Request};

verus! {

/// Whether a text is a syntactically valid email address, as the `validator`
/// crate judges it (the rule of the HTML5 specification, with length limits
/// on both parts and internationalised domains).
pub uninterp spec fn is_email(address: Seq<char>) -> bool;

/// The fewest characters that a post's content may have.
pub const MIN_CONTENT_LENGTH: u64 = 1;

/// `validator::ValidateEmail::validate_email` on a `&str`: the answer
/// depends on the text alone, and `is_email` is the name for it.
#[verifier::external_body]
fn validate_email(address: &str) -> (valid: bool)
    ensures
        valid == is_email(address@),
{
    validator::ValidateEmail::validate_email(&address)
}

/// `validator::ValidateLength::validate_length` on a `str`, with a lower
/// bound only: whether the text has at least `min` characters.
#[verifier::external_body]
fn validate_length(text: &str, min: u64) -> (valid: bool)
    ensures
        valid == (text@.len() >= min),
{
    validator::ValidateLength::validate_length(text, Some(min), None, None)
}

/// The fields of a request that were found wanting. At least one is.
#[derive(Clone, Copy, Debug, PartialEq, Eq)]
pub struct ValidationError {
    /// The content is shorter than a post may be.
    pub content: bool,
    /// The email is not a valid address.
    pub email: bool,
}

/// What the core may be asked to write.
pub open spec fn acceptable(request: Request) -> bool {
    request.content.len() >= MIN_CONTENT_LENGTH && is_email(request.email)
}

/// What the two checks add up to.
pub open spec fn judged(content_ok: bool, email_ok: bool) -> Result<(), ValidationError> {
    if content_ok && email_ok {
        Ok(())
    } else {
        Err(ValidationError { content: !content_ok, email: !email_ok })
    }
}

/// Turns the answers of the two checks into a verdict that names every
/// field that failed.
pub fn verdict(content_ok: bool, email_ok: bool) -> (checked: Result<(), ValidationError>)
    ensures
        checked == judged(content_ok, email_ok),
{
    if content_ok && email_ok {
        Ok(())
    } else {
        Err(ValidationError { content: !content_ok, email: !email_ok })
    }
}

/// Checks a request: the content must not be empty and the email must be a
/// valid address. Both fields are always checked, so that the error names
/// all that is wrong.
pub fn validate(request: &NewPost) -> (checked: Result<(), ValidationError>)
    ensures
        checked == judged(
            request@.content.len() >= MIN_CONTENT_LENGTH,
            is_email(request@.email),
        ),
        checked is Ok <==> acceptable(request@),
{
    let content_ok = validate_length(request.content.as_str(), MIN_CONTENT_LENGTH);
    let email_ok = validate_email(request.email.as_str());
    verdict(content_ok, email_ok)
}

} // verus!
