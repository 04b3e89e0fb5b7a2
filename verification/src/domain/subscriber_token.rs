//! The opaque token that confirms a subscription.

use crate::domain::validation_error::{Rule, ValidationError, ValueKind};
use crate::text::{
    all_alphanumeric, blank, every, grapheme_count, grapheme_len, is_alphanumeric, is_blank,
    is_printable_ascii, is_white_space, only_alphanumeric,
};
use rand::rngs::ThreadRng;
use rand::Rng;
use vstd::prelude::*;

verus! {

/// The number of characters of a token.
pub const TOKEN_LENGTH: usize = 25;

/// A token is exactly 25 characters, each an ASCII letter or digit.
pub open spec fn is_token_text(s: Seq<char>) -> bool {
    &&& s.len() == TOKEN_LENGTH
    &&& all_alphanumeric(s)
}

/// The first rule that `s` breaks as a token, if it breaks one.
pub open spec fn token_violation(s: Seq<char>) -> Option<Rule> {
    if is_blank(s) {
        Some(Rule::Blank)
    } else if !all_alphanumeric(s) {
        Some(Rule::ForbiddenCharacter)
    } else if s.len() != TOKEN_LENGTH {
        Some(Rule::WrongLength)
    } else {
        None
    }
}

/// A text breaks no rule exactly when it is a token text.
pub proof fn lemma_token_text_breaks_no_rule(s: Seq<char>)
    ensures
        is_token_text(s) <==> token_violation(s) is None,
{
    if is_token_text(s) && is_blank(s) {
        let alnum = |c: char| is_alphanumeric(c);
        let space = |c: char| is_white_space(c);
        assert(alnum(s[0]));
        assert(space(s[0]));
    }
}

/// Letters and digits are printable ASCII.
pub proof fn lemma_alphanumeric_is_printable(s: Seq<char>)
    requires
        all_alphanumeric(s),
    ensures
        every(s, |c: char| is_printable_ascii(c)),
{
    let alnum = |c: char| is_alphanumeric(c);
    let printable = |c: char| is_printable_ascii(c);
    assert forall|i: int| 0 <= i < s.len() implies #[trigger] printable(s[i]) by {
        assert(alnum(s[i]));
    }
}

/// `rand::rngs::ThreadRng`, the handle to a thread's random number
/// generator; nothing is known of what is inside.
#[verifier::external_type_specification]
#[verifier::external_body]
pub struct ExThreadRng(ThreadRng);

/// `rand::thread_rng` hands out the generator of the current thread, which
/// the operating system seeds; it panics where the system gives no seed.
/// Nothing is claimed of the handle.
pub assume_specification[ rand::thread_rng ]() -> (rng: ThreadRng);

/// Draws one byte with `Rng::sample` from the distribution `Alphanumeric`,
/// which yields the ASCII letters and digits and nothing else.
#[verifier::external_body]
fn sample_alphanumeric(rng: &mut ThreadRng) -> (b: u8)
    ensures
        is_alphanumeric(b as char),
{
    rng.sample(rand::distributions::Alphanumeric)
}

/// Generates a random case-sensitive token text of 25 letters and digits.
pub fn generate_subscription_token() -> (token: String)
    ensures
        is_token_text(token@),
{
    let mut rng = rand::thread_rng();
    let mut token = String::new();
    for i in 0..TOKEN_LENGTH
        invariant
            token@.len() == i,
            all_alphanumeric(token@),
    {
        let b = sample_alphanumeric(&mut rng);
        proof {
            crate::text::lemma_every_push(token@, b as char, |c: char| is_alphanumeric(c));
        }
        token.push(b as char);
    }
    token
}

/// A subscription token: a text that passed `parse`, or a generated one.
#[derive(Debug)]
pub struct SubscriberToken {
    text: String,
}

impl View for SubscriberToken {
    type V = Seq<char>;

    closed spec fn view(&self) -> Seq<char> {
        self.text@
    }
}

impl SubscriberToken {
    /// The text is a token text.
    #[verifier::type_invariant]
    spec fn well_formed(self) -> bool {
        is_token_text(self.text@)
    }

    /// Accepts `s` as a token if it is 25 grapheme clusters, each an ASCII
    /// letter or digit; otherwise reports the first rule that `s` breaks,
    /// in the order blank, forbidden character, wrong length.
    pub fn parse(s: String) -> (res: Result<SubscriberToken, ValidationError>)
        ensures
            res is Ok <==> is_token_text(s@),
            res is Ok <==> grapheme_count(s@) == TOKEN_LENGTH && all_alphanumeric(s@),
            res matches Ok(token) ==> token@ == s@,
            res matches Err(e) ==> {
                &&& e.kind == ValueKind::Token
                &&& Some(e.rule) == token_violation(s@)
                &&& e.input matches Some(input) && input@ == s@
            },
    {
        let graphemes = grapheme_len(s.as_str());
        let rule = if blank(s.as_str()) {
            Some(Rule::Blank)
        } else if !only_alphanumeric(s.as_str()) {
            Some(Rule::ForbiddenCharacter)
        } else if graphemes != TOKEN_LENGTH {
            Some(Rule::WrongLength)
        } else {
            None
        };
        proof {
            lemma_token_text_breaks_no_rule(s@);
            if all_alphanumeric(s@) {
                lemma_alphanumeric_is_printable(s@);
            }
        }
        match rule {
            Some(rule) => Err(ValidationError { kind: ValueKind::Token, rule, input: Some(s) }),
            None => Ok(SubscriberToken { text: s }),
        }
    }

    /// A fresh random token.
    pub fn new() -> (token: SubscriberToken)
        ensures
            is_token_text(token@),
    {
        SubscriberToken { text: generate_subscription_token() }
    }
}

impl AsRef<str> for SubscriberToken {
    /// The text of the token.
    fn as_ref(&self) -> (text: &str)
        ensures
            text@ == self@,
            is_token_text(text@),
    {
        proof {
            use_type_invariant(self);
        }
        self.text.as_str()
    }
}

impl Default for SubscriberToken {
    fn default() -> (token: SubscriberToken)
        ensures
            is_token_text(token@),
    {
        SubscriberToken::new()
    }
}

} // verus!
