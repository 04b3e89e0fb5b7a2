//! The display name of a subscriber.

use crate::domain::validation_error::{Rule, ValidationError, ValueKind};
use crate::text::{blank, every, grapheme_count, grapheme_len, is_blank, lemma_every_push};
use vstd::prelude::*;

verus! {

/// The most grapheme clusters a name may have.
pub const MAX_NAME_GRAPHEMES: usize = 256;

/// The characters that no name may hold.
pub open spec fn is_forbidden_in_name(c: char) -> bool {
    ||| c == '/'
    ||| c == '('
    ||| c == ')'
    ||| c == '"'
    ||| c == '<'
    ||| c == '>'
    ||| c == '\\'
    ||| c == '{'
    ||| c == '}'
}

/// Whether some character of `s` is forbidden in a name.
pub open spec fn has_forbidden_character(s: Seq<char>) -> bool {
    !every(s, |c: char| !is_forbidden_in_name(c))
}

/// The first rule that `s` breaks as a name, if it breaks one.
pub open spec fn name_violation(s: Seq<char>) -> Option<Rule> {
    if is_blank(s) {
        Some(Rule::Blank)
    } else if grapheme_count(s) > MAX_NAME_GRAPHEMES {
        Some(Rule::TooLong)
    } else if has_forbidden_character(s) {
        Some(Rule::ForbiddenCharacter)
    } else {
        None
    }
}

/// A name is 1 to 256 grapheme clusters, not blank, free of forbidden characters.
pub open spec fn is_valid_name(s: Seq<char>) -> bool {
    &&& 1 <= grapheme_count(s) <= MAX_NAME_GRAPHEMES
    &&& !is_blank(s)
    &&& !has_forbidden_character(s)
}

fn forbidden_in_name(c: char) -> (b: bool)
    ensures
        b == is_forbidden_in_name(c),
{
    c == '/' || c == '(' || c == ')' || c == '"' || c == '<' || c == '>' || c == '\\' || c == '{'
        || c == '}'
}

fn contains_forbidden_character(s: &str) -> (found: bool)
    ensures
        found == has_forbidden_character(s@),
{
    broadcast use vstd::string::axiom_spec_iter;

    let mut found = false;
    for c in it: s.chars()
        invariant
            it.seq() == s@,
            found == has_forbidden_character(s@.take(it.index())),
    {
        proof {
            assert(s@.take(it.index() + 1) == s@.take(it.index()).push(c));
            lemma_every_push(s@.take(it.index()), c, |c: char| !is_forbidden_in_name(c));
        }
        if forbidden_in_name(c) {
            found = true;
        }
    }
    assert(s@.take(s@.len() as int) == s@);
    found
}

/// A subscriber's display name: a text that passed `parse`.
#[derive(Debug)]
pub struct SubscriberName {
    text: String,
}

impl View for SubscriberName {
    type V = Seq<char>;

    closed spec fn view(&self) -> Seq<char> {
        self.text@
    }
}

impl SubscriberName {
    /// The text is a valid name.
    #[verifier::type_invariant]
    spec fn well_formed(self) -> bool {
        is_valid_name(self.text@)
    }

    /// Accepts `s` as a name if it has 1 to 256 grapheme clusters, is not
    /// blank and holds none of `/ ( ) " < > \ { }`; otherwise reports the
    /// first rule that `s` breaks, in the order blank, too long, forbidden
    /// character.
    pub fn parse(s: String) -> (res: Result<SubscriberName, ValidationError>)
        ensures
            res is Ok <==> is_valid_name(s@),
            res matches Ok(name) ==> name@ == s@,
            res matches Err(e) ==> {
                &&& e.kind == ValueKind::Name
                &&& Some(e.rule) == name_violation(s@)
                &&& e.input matches Some(input) && input@ == s@
            },
    {
        let rule = if blank(s.as_str()) {
            Some(Rule::Blank)
        } else if grapheme_len(s.as_str()) > MAX_NAME_GRAPHEMES {
            Some(Rule::TooLong)
        } else if contains_forbidden_character(s.as_str()) {
            Some(Rule::ForbiddenCharacter)
        } else {
            None
        };
        match rule {
            Some(rule) => Err(ValidationError { kind: ValueKind::Name, rule, input: Some(s) }),
            None => Ok(SubscriberName { text: s }),
        }
    }
}

impl AsRef<str> for SubscriberName {
    /// The text of the name.
    fn as_ref(&self) -> (text: &str)
        ensures
            text@ == self@,
            is_valid_name(text@),
    {
        proof {
            use_type_invariant(self);
        }
        self.text.as_str()
    }
}

} // verus!
