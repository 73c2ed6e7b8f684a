//! Subscriber-email validation.
//!
//! An address is accepted when it passes the HTML5 email-syntax check:
//! a local part, an `@`, and a plausible domain. The check itself comes
//! from an outside validator; this module pins down the facts the rest
//! of the library needs.

use validator::ValidateEmail;
use vstd::prelude::*;
use vstd::string::StringExecFns;

verus! {

/// Whether a string passes the HTML5 email-syntax check (a local part
/// matching the spec's grammar, an `@`, and a well-formed domain).
pub uninterp spec fn is_valid_email(s: Seq<char>) -> bool;

/// Relies on `validator::ValidateEmail::validate_email`: the verdict
/// depends on the characters alone; an empty string and a string
/// without `@` are rejected before any further syntax check.
#[verifier::external_body]
fn email_is_valid(s: &String) -> (r: bool)
    ensures
        r == is_valid_email(s@),
        s@.len() == 0 ==> !r,
        !s@.contains('@') ==> !r,
{
    ValidateEmail::validate_email(s)
}

/// An email address that passed validation.
#[derive(Debug)]
pub struct SubscriberEmail(String);

impl View for SubscriberEmail {
    type V = Seq<char>;

    closed spec fn view(&self) -> Seq<char> {
        self.0@
    }
}

impl SubscriberEmail {
    /// Accepts the string exactly when it is a syntactically valid email
    /// address; otherwise reports it back inside a diagnostic message.
    pub fn parse(value: String) -> (r: Result<SubscriberEmail, String>)
        ensures
            r is Ok <==> is_valid_email(value@),
            r is Ok ==> r->Ok_0@ == value@,
            r is Err ==> r->Err_0@ == value@ + " is not a valid email"@,
    {
        if email_is_valid(&value) {
            Ok(SubscriberEmail(value))
        } else {
            let mut message = value;
            message.append(" is not a valid email");
            Err(message)
        }
    }

    pub fn as_str(&self) -> (r: &str)
        ensures
            r@ == self@,
    {
        self.0.as_str()
    }
}

} // verus!
