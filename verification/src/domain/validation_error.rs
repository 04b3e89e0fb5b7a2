//! The error that every validated value type reports for a rejected input.

use vstd::prelude::*;
use vstd::string::StringExecFns;

verus! {

/// The value type that rejected an input.
#[derive(Debug, Clone, Copy, PartialEq, Eq, Structural)]
pub enum ValueKind {
    Name,
    Email,
    Token,
    Password,
}

/// The rule that a rejected input broke.
#[derive(Debug, Clone, Copy, PartialEq, Eq, Structural)]
pub enum Rule {
    /// The input is empty or holds white space only.
    Blank,
    /// The input has fewer grapheme clusters than the type asks for.
    TooShort,
    /// The input has more grapheme clusters than the type allows.
    TooLong,
    /// The input does not have the one length the type asks for.
    WrongLength,
    /// The input holds a character that the type excludes.
    ForbiddenCharacter,
    /// The input is not an email address.
    NotAnAddress,
}

/// Why a raw input was rejected: by which type, for which rule, and the
/// input itself unless it is a secret.
#[derive(Debug, Clone, PartialEq, Eq)]
pub struct ValidationError {
    pub kind: ValueKind,
    pub rule: Rule,
    pub input: Option<String>,
}

/// An error as a mathematical value.
pub ghost struct ValidationErrorView {
    pub kind: ValueKind,
    pub rule: Rule,
    pub input: Option<Seq<char>>,
}

impl View for ValidationError {
    type V = ValidationErrorView;

    open spec fn view(&self) -> ValidationErrorView {
        ValidationErrorView {
            kind: self.kind,
            rule: self.rule,
            input: match self.input {
                Some(s) => Some(s@),
                None => None,
            },
        }
    }
}

/// How a message refers to the offending input: by the input itself, or by
/// the word `Input` where the error keeps none.
pub open spec fn input_text(input: Option<Seq<char>>) -> Seq<char> {
    match input {
        Some(s) => s,
        None => "Input"@,
    }
}

/// The part of a message that names the type.
pub open spec fn kind_text(kind: ValueKind) -> Seq<char> {
    match kind {
        ValueKind::Name => " is not a valid subscriber name: "@,
        ValueKind::Email => " is not a valid subscriber email: "@,
        ValueKind::Token => " is not a valid subscriber token: "@,
        ValueKind::Password => " is not a valid password: "@,
    }
}

/// The part of a message that names the rule.
pub open spec fn rule_text(rule: Rule) -> Seq<char> {
    match rule {
        Rule::Blank => "it is empty or blank."@,
        Rule::TooShort => "it is too short."@,
        Rule::TooLong => "it is too long."@,
        Rule::WrongLength => "it has the wrong length."@,
        Rule::ForbiddenCharacter => "it holds a forbidden character."@,
        Rule::NotAnAddress => "it is not an email address."@,
    }
}

impl ValidationErrorView {
    /// The message of the error: the input, the type and the rule.
    pub open spec fn message_text(self) -> Seq<char> {
        input_text(self.input) + kind_text(self.kind) + rule_text(self.rule)
    }
}

impl ValidationError {
    /// A description that names the offending input and the rule it broke.
    pub fn message(&self) -> (msg: String)
        ensures
            msg@ == self@.message_text(),
    {
        let mut msg = match &self.input {
            Some(s) => s.clone(),
            None => String::from_str("Input"),
        };
        match self.kind {
            ValueKind::Name => msg.append(" is not a valid subscriber name: "),
            ValueKind::Email => msg.append(" is not a valid subscriber email: "),
            ValueKind::Token => msg.append(" is not a valid subscriber token: "),
            ValueKind::Password => msg.append(" is not a valid password: "),
        }
        match self.rule {
            Rule::Blank => msg.append("it is empty or blank."),
            Rule::TooShort => msg.append("it is too short."),
            Rule::TooLong => msg.append("it is too long."),
            Rule::WrongLength => msg.append("it has the wrong length."),
            Rule::ForbiddenCharacter => msg.append("it holds a forbidden character."),
            Rule::NotAnAddress => msg.append("it is not an email address."),
        }
        msg
    }
}

} // verus!
