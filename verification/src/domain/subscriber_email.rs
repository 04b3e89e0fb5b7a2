//! The email address of a subscriber.

use crate::domain::validation_error::{Rule, ValidationError, ValueKind};
use vstd::prelude::*;

verus! {

/// Whether a text is an email address as HTML5 defines a valid one, with
/// the length limits of RFC 5321 on its two parts.
pub uninterp spec fn email_grammar_accepts(s: Seq<char>) -> bool;

/// Checks `s` with `validator::validate_email`, whose verdict depends on the
/// text alone.
#[verifier::external_body]
fn is_email_address(s: &str) -> (ok: bool)
    ensures
        ok == email_grammar_accepts(s@),
{
    validator::validate_email(s)
}

/// A subscriber's email address: a text that passed `parse`.
#[derive(Debug)]
pub struct SubscriberEmail {
    text: String,
}

impl View for SubscriberEmail {
    type V = Seq<char>;

    closed spec fn view(&self) -> Seq<char> {
        self.text@
    }
}

impl SubscriberEmail {
    /// The text is an email address.
    #[verifier::type_invariant]
    spec fn well_formed(self) -> bool {
        email_grammar_accepts(self.text@)
    }

    /// Accepts `s` exactly when the email grammar accepts it.
    pub fn parse(s: String) -> (res: Result<SubscriberEmail, ValidationError>)
        ensures
            res is Ok <==> email_grammar_accepts(s@),
            res matches Ok(email) ==> email@ == s@,
            res matches Err(e) ==> {
                &&& e.kind == ValueKind::Email
                &&& e.rule == Rule::NotAnAddress
                &&& e.input matches Some(input) && input@ == s@
            },
    {
        if is_email_address(s.as_str()) {
            Ok(SubscriberEmail { text: s })
        } else {
            Err(ValidationError { kind: ValueKind::Email, rule: Rule::NotAnAddress, input: Some(s) })
        }
    }
}

impl AsRef<str> for SubscriberEmail {
    /// The text of the address.
    fn as_ref(&self) -> (text: &str)
        ensures
            text@ == self@,
            email_grammar_accepts(text@),
    {
        proof {
            use_type_invariant(self);
        }
        self.text.as_str()
    }
}

} // verus!
