//! What the subscription route computes from a submitted form.

use crate::domain::new_subscriber::NewSubscriber;
use crate::domain::subscriber_email::{email_grammar_accepts, SubscriberEmail};
use crate::domain::subscriber_name::{is_valid_name, name_violation, SubscriberName};
use crate::domain::subscriber_token::SubscriberToken;
use crate::domain::validation_error::{Rule, ValidationError, ValueKind};
use vstd::prelude::*;
use vstd::string::StringExecFns;

verus! {

/// The fields of the subscription form, as submitted.
#[derive(Debug)]
pub struct FormData {
    email: String,
    name: String,
}

impl FormData {
    /// The form with these two fields.
    pub fn new(email: String, name: String) -> (form: FormData)
        ensures
            form.email_text() == email@,
            form.name_text() == name@,
    {
        FormData { email, name }
    }

    /// The submitted email.
    pub closed spec fn email_text(self) -> Seq<char> {
        self.email@
    }

    /// The submitted name.
    pub closed spec fn name_text(self) -> Seq<char> {
        self.name@
    }
}

impl TryFrom<FormData> for NewSubscriber {
    type Error = ValidationError;

    /// Validates the name, then the email, and reports the first of the two
    /// that is rejected.
    fn try_from(value: FormData) -> (res: Result<NewSubscriber, ValidationError>)
        ensures
            res is Ok <==> is_valid_name(value.name_text()) && email_grammar_accepts(
                value.email_text(),
            ),
            res matches Ok(subscriber) ==> subscriber.name@ == value.name_text()
                && subscriber.email@ == value.email_text(),
            res matches Err(e) ==> if !is_valid_name(value.name_text()) {
                &&& e.kind == ValueKind::Name
                &&& Some(e.rule) == name_violation(value.name_text())
                &&& e.input matches Some(input) && input@ == value.name_text()
            } else {
                &&& e.kind == ValueKind::Email
                &&& e.rule == Rule::NotAnAddress
                &&& e.input matches Some(input) && input@ == value.email_text()
            },
    {
        let name = match SubscriberName::parse(value.name) {
            Ok(name) => name,
            Err(e) => {
                return Err(e);
            },
        };
        let email = match SubscriberEmail::parse(value.email) {
            Ok(email) => email,
            Err(e) => {
                return Err(e);
            },
        };
        Ok(NewSubscriber { email, name })
    }
}

impl vstd::std_specs::convert::TryFromSpecImpl<FormData> for NewSubscriber {
    /// The conversion is specified by the contract of `try_from` itself.
    open spec fn obeys_try_from_spec() -> bool {
        false
    }

    open spec fn try_from_spec(v: FormData) -> Result<NewSubscriber, ValidationError> {
        arbitrary()
    }
}

/// The link that confirms a subscription.
pub open spec fn confirmation_link_text(base_url: Seq<char>, token: Seq<char>) -> Seq<char> {
    base_url + "/subscriptions/confirm?subscription_token="@ + token
}

/// The link that a new subscriber follows to confirm: the confirmation
/// route under `base_url`, with the token as its query.
pub fn confirmation_link(base_url: &str, subscription_token: &SubscriberToken) -> (link: String)
    ensures
        link@ == confirmation_link_text(base_url@, subscription_token@),
{
    let mut link = String::from_str(base_url);
    link.append("/subscriptions/confirm?subscription_token=");
    link.append(subscription_token.as_ref());
    link
}

} // verus!
