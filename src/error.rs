use vstd::prelude::*;
use vstd::string::StringExecFns;

use crate::token::{token_description, Token};

verus! {

/// The three ways a grammar rule can fail, plus failures of the tokenizer.
#[derive(Clone, Copy, Debug, PartialEq, Eq, Structural)]
pub enum ErrorKind {
    /// The stream ran out where a token was required.
    NeedMoreTokens,
    /// A token was present but of the wrong kind for its position.
    UnexpectedToken,
    /// The input is well formed but asks for something the dialect does not offer.
    Unsupported,
    /// The source text holds something that is no token.
    InvalidText,
}

/// A failure of the tokenizer or of a grammar rule.
#[derive(Clone, Debug, PartialEq)]
pub struct ParsingError {
    pub kind: ErrorKind,
    pub message: String,
}

impl ParsingError {
    pub fn new(kind: ErrorKind, message: &str) -> (r: ParsingError)
        ensures
            r.kind == kind,
            r.message@ == message@,
    {
        ParsingError { kind, message: message.to_owned() }
    }
}

/// What a grammar rule reports when it fails: the kind of failure and its
/// message.
pub struct Fault {
    pub kind: ErrorKind,
    pub message: Seq<char>,
}

/// The failure for a token that is missing, with its code.
pub open spec fn starved(message: Seq<char>) -> Fault {
    Fault { kind: ErrorKind::NeedMoreTokens, message }
}

/// The failure for token `t` where `expected` was wanted; the message names
/// both.
pub open spec fn mismatch(expected: Seq<char>, t: Token) -> Fault {
    Fault {
        kind: ErrorKind::UnexpectedToken,
        message: expected + ". but your input word is '"@ + token_description(t) + "'"@,
    }
}

/// The failure for input that the dialect does not offer.
pub open spec fn rejected(message: Seq<char>) -> Fault {
    Fault { kind: ErrorKind::Unsupported, message }
}

/// The failure for text that is no token.
pub open spec fn unreadable(message: Seq<char>) -> Fault {
    Fault { kind: ErrorKind::InvalidText, message }
}

/// Whether an error is the failure `f`.
pub open spec fn is_fault(e: ParsingError, f: Fault) -> bool {
    e.kind == f.kind && e.message@ == f.message
}

/// An error for a token that is missing.
pub(crate) fn need_more(message: &str) -> (r: ParsingError)
    ensures
        is_fault(r, starved(message@)),
{
    ParsingError::new(ErrorKind::NeedMoreTokens, message)
}

/// An error for token `t` where `expected` was wanted.
pub(crate) fn unexpected(expected: &str, t: &Token) -> (r: ParsingError)
    ensures
        is_fault(r, mismatch(expected@, *t)),
{
    let mut message = String::from_str(expected);
    message.append(". but your input word is '");
    let name = t.describe();
    message.append(name.as_str());
    message.append("'");
    ParsingError { kind: ErrorKind::UnexpectedToken, message }
}

/// An error for input that the dialect does not offer.
pub(crate) fn unsupported(message: &str) -> (r: ParsingError)
    ensures
        is_fault(r, rejected(message@)),
{
    ParsingError::new(ErrorKind::Unsupported, message)
}

} // verus!
