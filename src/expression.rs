use vstd::prelude::*;
use vstd::string::StringExecFns;

use crate::context::ParserContext;
use crate::error::{unexpected, ErrorKind, ParsingError};
use crate::grammar::{expression, expression_from, fragment_text, parenthesized};
use crate::parser::{agrees, Parser};
use crate::text::{boolean_to_text, integer_to_text};
use crate::token::Token;

verus! {

impl Parser {
    /// Reads an expression and gives back its text.
    ///
    /// The expression ends before a `)`, a `,` or any token that is no part of
    /// an expression; that token stays on the stream.
    pub fn parse_expression(&mut self, context: ParserContext) -> (r: Result<String, ParsingError>)
        ensures
            agrees(r, expression(old(self).tokens@).0),
            final(self).tokens@ == expression(old(self).tokens@).1,
            final(self).tokens@.len() <= old(self).tokens@.len(),
        decreases old(self).tokens@.len(), 2int,
    {
        if !self.has_next_token() {
            return Err(ParsingError::new(ErrorKind::NeedMoreTokens, "E0201 need more tokens"));
        }
        let mut text = String::new();
        proof {
            reveal_strlit("NOT");
            reveal_strlit("NULL");
        }
        while self.has_next_token()
            invariant
                expression_from(self.tokens@, text@) == expression(old(self).tokens@),
                self.tokens@.len() <= old(self).tokens@.len(),
            decreases self.tokens@.len(),
        {
            let ghost before = self.tokens@;
            let current_token = self.get_next_token();
            match current_token {
                Token::Operator(operator) => {
                    text.append(operator.symbol());
                },
                Token::Not => {
                    text.append("NOT");
                },
                Token::Integer(integer) => {
                    let digits = integer_to_text(integer);
                    text.append(digits.as_str());
                },
                Token::Float(float) => {
                    text.append(float.as_str());
                },
                Token::String(string) => {
                    text.append(string.as_str());
                },
                Token::Boolean(boolean) => {
                    text.append(boolean_to_text(boolean));
                },
                Token::Null => {
                    text.append("NULL");
                },
                Token::LeftParentheses => {
                    if !self.has_next_token() {
                        return Err(
                            ParsingError::new(ErrorKind::NeedMoreTokens, "E0214 need more tokens"),
                        );
                    }
                    let second_token = self.get_next_token();
                    if let Token::Select = second_token {
                        return Err(
                            ParsingError::new(
                                ErrorKind::Unsupported,
                                "Select not supported in expression",
                            ),
                        );
                    }
                    self.unget_next_token(second_token);
                    self.unget_next_token(current_token);
                    assert(self.tokens@ =~= before);
                    let inner = self.parse_parentheses_expression(context.copy());
                    match inner {
                        Ok(inner) => {
                            text.append(inner.as_str());
                        },
                        Err(e) => {
                            return Err(e);
                        },
                    }
                },
                Token::RightParentheses => {
                    self.unget_next_token(current_token);
                    assert(self.tokens@ =~= before);
                    return Ok(text);
                },
                Token::Comma => {
                    self.unget_next_token(current_token);
                    assert(self.tokens@ =~= before);
                    return Ok(text);
                },
                _ => {
                    self.unget_next_token(current_token);
                    assert(self.tokens@ =~= before);
                    return Ok(text);
                },
            }
        }
        Ok(text)
    }

    /// Reads `'(' expression ')'` and gives back its text, parentheses included.
    pub fn parse_parentheses_expression(&mut self, context: ParserContext) -> (r: Result<
        String,
        ParsingError,
    >)
        ensures
            agrees(r, parenthesized(old(self).tokens@).0),
            final(self).tokens@ == parenthesized(old(self).tokens@).1,
            final(self).tokens@.len() < old(self).tokens@.len() || old(self).tokens@.len() == 0,
        decreases old(self).tokens@.len(), 1int,
    {
        let context = context.set_in_parentheses(true);
        if !self.has_next_token() {
            return Err(ParsingError::new(ErrorKind::NeedMoreTokens, "E0203 need more tokens"));
        }
        let current_token = self.get_next_token();
        if !matches!(current_token, Token::LeftParentheses) {
            return Err(unexpected("expected left parentheses", &current_token));
        }
        if !self.has_next_token() {
            return Err(ParsingError::new(ErrorKind::NeedMoreTokens, "E0204 need more tokens"));
        }
        let inner = self.parse_expression(context);
        let inner = match inner {
            Ok(inner) => inner,
            Err(e) => {
                return Err(e);
            },
        };
        if !self.has_next_token() {
            return Err(ParsingError::new(ErrorKind::NeedMoreTokens, "E0205 need more tokens"));
        }
        let current_token = self.get_next_token();
        if let Token::RightParentheses = current_token {
            proof {
                reveal_strlit("(");
                reveal_strlit(")");
            }
            let mut text = String::from_str("(");
            text.append(inner.as_str());
            text.append(")");
            assert(text@ =~= seq!['('] + inner@ + seq![')']);
            Ok(text)
        } else {
            Err(unexpected("expected right parentheses", &current_token))
        }
    }
}

} // verus!
