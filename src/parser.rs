use std::collections::VecDeque;

use vstd::prelude::*;

use crate::error::{is_fault, Fault, ParsingError};
use crate::token::Token;

verus! {

broadcast use vstd::std_specs::vecdeque::group_vec_dequeue_axioms;

/// Recursive-descent parser over a stream of tokens that it owns.
///
/// The front of `tokens` is the next token to be read. Lookahead is done by
/// reading tokens and handing them back in reverse order.
#[derive(Debug)]
pub struct Parser {
    pub current_token: Token,
    pub tokens: VecDeque<Token>,
}

/// Whether an executable result agrees with the result the grammar gives: the
/// same value, or an error of the same kind.
pub open spec fn agrees<T: View>(r: Result<T, ParsingError>, s: Result<T::V, Fault>) -> bool {
    match (r, s) {
        (Ok(x), Ok(v)) => x@ == v,
        (Err(e), Err(f)) => is_fault(e, f),
        _ => false,
    }
}

impl Parser {
    /// A parser over the given tokens.
    pub fn with_tokens(tokens: VecDeque<Token>) -> (r: Parser)
        ensures
            r.tokens@ == tokens@,
            r.current_token == Token::EOF,
    {
        Parser { current_token: Token::EOF, tokens }
    }

    /// Whether a token is left on the stream.
    pub fn has_next_token(&self) -> (r: bool)
        ensures
            r == (self.tokens@.len() > 0),
    {
        self.tokens.len() > 0
    }

    /// Removes and returns the front token.
    pub fn get_next_token(&mut self) -> (t: Token)
        requires
            old(self).tokens@.len() > 0,
        ensures
            t == old(self).tokens@[0],
            final(self).tokens@ == old(self).tokens@.drop_first(),
    {
        match self.tokens.pop_front() {
            Some(t) => t,
            None => Token::EOF,
        }
    }

    /// Puts a token back at the front, so that it is read next.
    pub fn unget_next_token(&mut self, t: Token)
        ensures
            final(self).tokens@ == seq![t] + old(self).tokens@,
    {
        self.tokens.push_front(t);
    }
}

} // verus!
