//! A password that a user asks to change to.

use crate::domain::validation_error::{Rule, ValidationError, ValueKind};
use crate::text::{blank, grapheme_count, grapheme_len, is_blank};
use secrecy::{ExposeSecret, Secret};
use vstd::prelude::*;

verus! {

/// The fewest grapheme clusters a password may have.
pub const MIN_PASSWORD_GRAPHEMES: usize = 12;

/// The most grapheme clusters a password may have.
pub const MAX_PASSWORD_GRAPHEMES: usize = 128;

/// A text kept in a `secrecy::Secret`, which wipes it from memory when it is
/// dropped and leaves it out of `Debug` output.
#[verifier::external_body]
#[derive(Debug)]
pub struct SecretText {
    inner: Secret<String>,
}

/// The text that a secret keeps.
pub uninterp spec fn secret_text(secret: SecretText) -> Seq<char>;

/// Wraps `text` with `Secret::new`, which stores the value it is given.
#[verifier::external_body]
fn seal(text: String) -> (secret: SecretText)
    ensures
        secret_text(secret) == text@,
{
    SecretText { inner: Secret::new(text) }
}

/// Borrows the text with `ExposeSecret::expose_secret`, which hands out a
/// reference to the stored value.
#[verifier::external_body]
fn unseal(secret: &SecretText) -> (text: &str)
    ensures
        text@ == secret_text(*secret),
{
    secret.inner.expose_secret().as_str()
}

/// Copies a secret with `Secret::clone`, which clones the stored value into
/// a new secret.
#[verifier::external_body]
fn duplicate(secret: &SecretText) -> (copy: SecretText)
    ensures
        secret_text(copy) == secret_text(*secret),
{
    SecretText { inner: secret.inner.clone() }
}

impl View for SecretText {
    type V = Seq<char>;

    open spec fn view(&self) -> Seq<char> {
        secret_text(*self)
    }
}

impl SecretText {
    /// Takes `text` into a secret.
    pub fn new(text: String) -> (secret: SecretText)
        ensures
            secret@ == text@,
    {
        seal(text)
    }

    /// The text, for the one who has to read it.
    pub fn expose(&self) -> (text: &str)
        ensures
            text@ == self@,
    {
        unseal(self)
    }
}

impl Clone for SecretText {
    fn clone(&self) -> (copy: SecretText)
        ensures
            copy@ == self@,
    {
        duplicate(self)
    }
}

/// The first rule that `s` breaks as a password, if it breaks one.
pub open spec fn password_violation(s: Seq<char>) -> Option<Rule> {
    if is_blank(s) {
        Some(Rule::Blank)
    } else if grapheme_count(s) < MIN_PASSWORD_GRAPHEMES {
        Some(Rule::TooShort)
    } else if grapheme_count(s) > MAX_PASSWORD_GRAPHEMES {
        Some(Rule::TooLong)
    } else {
        None
    }
}

/// A password is 12 to 128 grapheme clusters and not blank.
pub open spec fn is_valid_password(s: Seq<char>) -> bool {
    &&& MIN_PASSWORD_GRAPHEMES <= grapheme_count(s) <= MAX_PASSWORD_GRAPHEMES
    &&& !is_blank(s)
}

/// A new password: a secret that passed `parse`.
#[derive(Debug)]
pub struct NewPassword {
    secret: SecretText,
}

impl View for NewPassword {
    type V = Seq<char>;

    closed spec fn view(&self) -> Seq<char> {
        self.secret@
    }
}

impl NewPassword {
    /// The secret holds a valid password.
    #[verifier::type_invariant]
    spec fn well_formed(self) -> bool {
        is_valid_password(self.secret@)
    }

    /// Accepts `s` as a password if it has 12 to 128 grapheme clusters and
    /// is not blank; otherwise reports the first rule that `s` breaks, in
    /// the order blank, too short, too long. The error never holds the
    /// secret.
    pub fn parse(s: SecretText) -> (res: Result<NewPassword, ValidationError>)
        ensures
            res is Ok <==> is_valid_password(s@),
            res matches Ok(password) ==> password@ == s@,
            res matches Err(e) ==> {
                &&& e.kind == ValueKind::Password
                &&& Some(e.rule) == password_violation(s@)
                &&& e.input is None
            },
    {
        let text = s.expose();
        let graphemes = grapheme_len(text);
        let rule = if blank(text) {
            Some(Rule::Blank)
        } else if graphemes < MIN_PASSWORD_GRAPHEMES {
            Some(Rule::TooShort)
        } else if graphemes > MAX_PASSWORD_GRAPHEMES {
            Some(Rule::TooLong)
        } else {
            None
        };
        match rule {
            Some(rule) => Err(ValidationError { kind: ValueKind::Password, rule, input: None }),
            None => Ok(NewPassword { secret: s }),
        }
    }
}

impl AsRef<SecretText> for NewPassword {
    /// The secret that holds the password.
    fn as_ref(&self) -> (secret: &SecretText)
        ensures
            secret@ == self@,
            is_valid_password(secret@),
    {
        proof {
            use_type_invariant(self);
        }
        &self.secret
    }
}

impl Clone for NewPassword {
    fn clone(&self) -> (copy: NewPassword)
        ensures
            copy@ == self@,
    {
        proof {
            use_type_invariant(self);
        }
        NewPassword { secret: self.secret.clone() }
    }
}

} // verus!
