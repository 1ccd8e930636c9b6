use vstd::prelude::*;
use vstd::string::StringExecFns;

use crate::ast::{Column, ColumnView, DataType, TableName};
use crate::context::{opt_text, ParserContext};
use crate::error::{need_more, unexpected, unsupported, ErrorKind, ParsingError};
use crate::grammar::{
    column_from, data_type, data_type_rest, identifier, if_exists, if_not_exists, table_column,
    table_name, varchar_length,
};
use crate::parser::{agrees, Parser};
use crate::text::{text_eq, to_upper};
use crate::token::Token;

verus! {

impl Parser {
    /// Reads a bare identifier.
    pub fn parse_identifier(&mut self) -> (r: Result<String, ParsingError>)
        ensures
            agrees(r, identifier(old(self).tokens@).0),
            final(self).tokens@ == identifier(old(self).tokens@).1,
            final(self).tokens@.len() <= old(self).tokens@.len(),
    {
        if !self.has_next_token() {
            return Err(need_more("E0011 need more tokens"));
        }
        let current_token = self.get_next_token();
        if let Token::Identifier(name) = current_token {
            Ok(name)
        } else {
            Err(unexpected("E0032 expected identifier", &current_token))
        }
    }

    /// Reads `Identifier ['.' Identifier]`; an unqualified name takes the
    /// context's default database.
    pub fn parse_table_name(&mut self, context: ParserContext) -> (r: Result<TableName, ParsingError>)
        ensures
            agrees(r, table_name(old(self).tokens@, opt_text(context.default_database)).0),
            final(self).tokens@ == table_name(old(self).tokens@, opt_text(context.default_database)).1,
            final(self).tokens@.len() <= old(self).tokens@.len(),
    {
        if !self.has_next_token() {
            return Err(need_more("E0010 need more tokens"));
        }
        let current_token = self.get_next_token();
        let first = if let Token::Identifier(name) = current_token {
            name
        } else {
            return Err(unexpected("E0030 expected identifier", &current_token));
        };
        if !self.has_next_token() {
            return Ok(TableName::new(context.default_database, first));
        }
        let current_token = self.get_next_token();
        if let Token::Period = current_token {
            if !self.has_next_token() {
                return Err(need_more("E0012 need more tokens"));
            }
            let current_token = self.get_next_token();
            if let Token::Identifier(second) = current_token {
                Ok(TableName::new(Some(first), second))
            } else {
                Err(unexpected("E0031 expected identifier", &current_token))
            }
        } else {
            self.unget_next_token(current_token);
            assert(self.tokens@ =~= old(self).tokens@.drop_first());
            Ok(TableName::new(context.default_database, first))
        }
    }

    fn parse_varchar_length(&mut self) -> (r: Result<DataType, ParsingError>)
        ensures
            agrees(r, varchar_length(old(self).tokens@).0),
            final(self).tokens@ == varchar_length(old(self).tokens@).1,
            final(self).tokens@.len() <= old(self).tokens@.len(),
    {
        if !self.has_next_token() {
            return Err(need_more("E0007 need more tokens"));
        }
        let current_token = self.get_next_token();
        if !matches!(current_token, Token::LeftParentheses) {
            return Err(unexpected("expected '('", &current_token));
        }
        if !self.has_next_token() {
            return Err(need_more("E0008 need more tokens"));
        }
        let current_token = self.get_next_token();
        if let Token::Integer(length) = current_token {
            if !self.has_next_token() {
                return Err(need_more("E0009 need more tokens"));
            }
            let current_token = self.get_next_token();
            if !matches!(current_token, Token::RightParentheses) {
                return Err(unexpected("expected ')'", &current_token));
            }
            Ok(DataType::Varchar(length))
        } else {
            Err(unexpected("expected integer number", &current_token))
        }
    }

    /// Finishes a data type whose name `word`, put in upper case, is `upper`.
    pub fn parse_data_type_rest(&mut self, upper: &str, word: &str) -> (r: Result<
        DataType,
        ParsingError,
    >)
        ensures
            agrees(r, data_type_rest(upper@, word@, old(self).tokens@).0),
            final(self).tokens@ == data_type_rest(upper@, word@, old(self).tokens@).1,
            final(self).tokens@.len() <= old(self).tokens@.len(),
    {
        if text_eq(upper, "INTEGER") || text_eq(upper, "INT") {
            Ok(DataType::Int)
        } else if text_eq(upper, "FLOAT") {
            Ok(DataType::Float)
        } else if text_eq(upper, "BOOLEAN") || text_eq(upper, "BOOL") {
            Ok(DataType::Boolean)
        } else if text_eq(upper, "VARCHAR") {
            self.parse_varchar_length()
        } else {
            let mut message = String::from_str("unknown data type '");
            message.append(word);
            message.append("'");
            Err(ParsingError { kind: ErrorKind::Unsupported, message })
        }
    }

    /// Reads a data type: `INTEGER`, `INT`, `FLOAT`, `BOOLEAN`, `BOOL`, or
    /// `VARCHAR(n)`, the name in any case.
    pub fn parse_data_type(&mut self) -> (r: Result<DataType, ParsingError>)
        ensures
            agrees(r, data_type(old(self).tokens@).0),
            final(self).tokens@ == data_type(old(self).tokens@).1,
            final(self).tokens@.len() <= old(self).tokens@.len(),
    {
        if !self.has_next_token() {
            return Err(need_more("E0006 need more tokens"));
        }
        let current_token = self.get_next_token();
        if let Token::Identifier(word) = current_token {
            let upper = to_upper(word.as_str());
            self.parse_data_type_rest(upper.as_str(), word.as_str())
        } else {
            Err(unexpected("E0029 expected identifier", &current_token))
        }
    }
}

/// The column that the modifiers read so far describe.
spec fn accumulated(
    name: Seq<char>,
    data_type: DataType,
    primary_key: bool,
    not_null: bool,
    comment: Option<String>,
    default: Option<String>,
) -> ColumnView {
    ColumnView {
        name,
        data_type,
        comment: opt_text(comment),
        default: opt_text(default),
        not_null,
        primary_key,
    }
}

impl Parser {
    /// Reads one column definition: a name, a data type, and modifiers in any
    /// order (`PRIMARY KEY`, `NOT NULL`, `NULL`, `COMMENT 'text'`; other tokens
    /// are passed over). `DEFAULT` is not supported and fails. A `,` ends the
    /// column and is consumed; a `)` ends it and stays on the stream.
    pub fn parse_table_column(&mut self) -> (r: Result<Column, ParsingError>)
        ensures
            agrees(r, table_column(old(self).tokens@).0),
            final(self).tokens@ == table_column(old(self).tokens@).1,
            final(self).tokens@.len() < old(self).tokens@.len() || old(self).tokens@.len() == 0,
    {
        if !self.has_next_token() {
            return Err(need_more("E0001 need more tokens"));
        }
        let current_token = self.get_next_token();
        let name = if let Token::Identifier(name) = current_token {
            name
        } else {
            return Err(unexpected("E0028 expected identifier", &current_token));
        };
        let data_type = match self.parse_data_type() {
            Ok(data_type) => data_type,
            Err(e) => {
                return Err(e);
            },
        };
        let mut primary_key = false;
        let mut not_null = false;
        let mut comment: Option<String> = None;
        let mut default: Option<String> = None;
        let ghost name_view = name@;
        loop
            invariant_except_break
                column_from(self.tokens@, accumulated(name_view, data_type, primary_key, not_null, comment, default))
                    == table_column(old(self).tokens@),
            invariant
                self.tokens@.len() < old(self).tokens@.len(),
            ensures
                table_column(old(self).tokens@) == (
                    Ok::<ColumnView, crate::error::Fault>(accumulated(name_view, data_type, primary_key, not_null, comment, default)),
                    self.tokens@,
                ),
            decreases self.tokens@.len(),
        {
            let ghost before = self.tokens@;
            if !self.has_next_token() {
                break;
            }
            let current_token = self.get_next_token();
            match current_token {
                Token::Comma => {
                    break;
                },
                Token::RightParentheses => {
                    self.unget_next_token(current_token);
                    assert(self.tokens@ =~= before);
                    break;
                },
                Token::Primary => {
                    if !self.has_next_token() {
                        return Err(need_more("E0003 need more tokens"));
                    }
                    let current_token = self.get_next_token();
                    if let Token::Key = current_token {
                        primary_key = true;
                        not_null = true;
                    } else {
                        return Err(unexpected("expected 'PRIMARY KEY'", &current_token));
                    }
                },
                Token::Not => {
                    if !self.has_next_token() {
                        return Err(need_more("E0004 need more tokens"));
                    }
                    let current_token = self.get_next_token();
                    if let Token::Null = current_token {
                        not_null = true;
                    } else {
                        return Err(unexpected("expected 'NOT NULL'", &current_token));
                    }
                },
                Token::Null => {
                    not_null = false;
                },
                Token::Comment => {
                    if !self.has_next_token() {
                        return Err(need_more("E0005 need more tokens"));
                    }
                    let current_token = self.get_next_token();
                    if let Token::String(text) = current_token {
                        comment = Some(text);
                    } else {
                        return Err(unexpected("expected comment string", &current_token));
                    }
                },
                Token::Default => {
                    return Err(unsupported("not supported yet"));
                },
                _ => {},
            }
        }
        Ok(Column { name, data_type, comment, default, not_null, primary_key })
    }
}

impl Parser {
    /// Consumes `IF NOT EXISTS` where it stands and says whether it did.
    pub fn has_if_not_exists(&mut self) -> (r: Result<bool, ParsingError>)
        ensures
            agrees(r, if_not_exists(old(self).tokens@).0),
            final(self).tokens@ == if_not_exists(old(self).tokens@).1,
            final(self).tokens@.len() <= old(self).tokens@.len(),
    {
        if !self.has_next_token() {
            return Err(need_more("E0013 need more tokens"));
        }
        let current_token = self.get_next_token();
        if let Token::If = current_token {
            if !self.has_next_token() {
                return Err(need_more("E0014 need more tokens"));
            }
            let current_token = self.get_next_token();
            if let Token::Not = current_token {
                if !self.has_next_token() {
                    return Err(need_more("E0015 need more tokens"));
                }
                let current_token = self.get_next_token();
                if let Token::Exists = current_token {
                    Ok(true)
                } else {
                    Err(unexpected("expected keyword is 'exists'", &current_token))
                }
            } else {
                Err(unexpected("expected keyword is 'not'", &current_token))
            }
        } else {
            self.unget_next_token(current_token);
            assert(self.tokens@ =~= old(self).tokens@);
            Ok(false)
        }
    }

    /// Consumes `IF EXISTS` where it stands and says whether it did.
    pub fn has_if_exists(&mut self) -> (r: Result<bool, ParsingError>)
        ensures
            agrees(r, if_exists(old(self).tokens@).0),
            final(self).tokens@ == if_exists(old(self).tokens@).1,
            final(self).tokens@.len() <= old(self).tokens@.len(),
    {
        if !self.has_next_token() {
            return Err(need_more("E0016 need more tokens"));
        }
        let current_token = self.get_next_token();
        if let Token::If = current_token {
            if !self.has_next_token() {
                return Err(need_more("E0017 need more tokens"));
            }
            let current_token = self.get_next_token();
            if let Token::Exists = current_token {
                Ok(true)
            } else {
                Err(unexpected("expected keyword is 'exists'", &current_token))
            }
        } else {
            self.unget_next_token(current_token);
            assert(self.tokens@ =~= old(self).tokens@);
            Ok(false)
        }
    }

    /// Whether the stream starts with `(` `SELECT`; the stream is left as it was.
    pub fn _next_token_is_subquery(&mut self) -> (r: bool)
        ensures
            final(self).tokens@ == old(self).tokens@,
            r == (old(self).tokens@.len() >= 2 && old(self).tokens@[0] is LeftParentheses
                && old(self).tokens@[1] is Select),
    {
        if !self.has_next_token() {
            return false;
        }
        let current_token = self.get_next_token();
        if let Token::LeftParentheses = current_token {
            if !self.has_next_token() {
                self.unget_next_token(current_token);
                assert(self.tokens@ =~= old(self).tokens@);
                return false;
            }
            let second_token = self.get_next_token();
            let found = matches!(second_token, Token::Select);
            self.unget_next_token(second_token);
            self.unget_next_token(current_token);
            assert(self.tokens@ =~= old(self).tokens@);
            found
        } else {
            self.unget_next_token(current_token);
            assert(self.tokens@ =~= old(self).tokens@);
            false
        }
    }

    /// Whether the next token is `COLUMN`; the stream is left as it was.
    pub fn next_token_is_column(&mut self) -> (r: bool)
        ensures
            final(self).tokens@ == old(self).tokens@,
            r == (old(self).tokens@.len() >= 1 && old(self).tokens@[0] is Column),
    {
        if !self.has_next_token() {
            return false;
        }
        let current_token = self.get_next_token();
        let found = matches!(current_token, Token::Column);
        self.unget_next_token(current_token);
        assert(self.tokens@ =~= old(self).tokens@);
        found
    }

    /// Whether the stream starts with `NOT NULL`; the stream is left as it was.
    pub fn next_token_is_not_null(&mut self) -> (r: bool)
        ensures
            final(self).tokens@ == old(self).tokens@,
            r == (old(self).tokens@.len() >= 2 && old(self).tokens@[0] is Not
                && old(self).tokens@[1] is Null),
    {
        if !self.has_next_token() {
            return false;
        }
        let first_token = self.get_next_token();
        if let Token::Not = first_token {
            if !self.has_next_token() {
                self.unget_next_token(first_token);
                assert(self.tokens@ =~= old(self).tokens@);
                return false;
            }
            let second_token = self.get_next_token();
            let found = matches!(second_token, Token::Null);
            self.unget_next_token(second_token);
            self.unget_next_token(first_token);
            assert(self.tokens@ =~= old(self).tokens@);
            found
        } else {
            self.unget_next_token(first_token);
            assert(self.tokens@ =~= old(self).tokens@);
            false
        }
    }

    /// Whether the stream starts with `DATA TYPE`; the stream is left as it was.
    pub fn next_token_is_data_type(&mut self) -> (r: bool)
        ensures
            final(self).tokens@ == old(self).tokens@,
            r == (old(self).tokens@.len() >= 2 && old(self).tokens@[0] is Data
                && old(self).tokens@[1] is Type),
    {
        if !self.has_next_token() {
            return false;
        }
        let first_token = self.get_next_token();
        if let Token::Data = first_token {
            if !self.has_next_token() {
                self.unget_next_token(first_token);
                assert(self.tokens@ =~= old(self).tokens@);
                return false;
            }
            let second_token = self.get_next_token();
            let found = matches!(second_token, Token::Type);
            self.unget_next_token(second_token);
            self.unget_next_token(first_token);
            assert(self.tokens@ =~= old(self).tokens@);
            found
        } else {
            self.unget_next_token(first_token);
            assert(self.tokens@ =~= old(self).tokens@);
            false
        }
    }

    /// Whether the next token is `DEFAULT`; the stream is left as it was.
    pub fn next_token_is_default(&mut self) -> (r: bool)
        ensures
            final(self).tokens@ == old(self).tokens@,
            r == (old(self).tokens@.len() >= 1 && old(self).tokens@[0] is Default),
    {
        if !self.has_next_token() {
            return false;
        }
        let current_token = self.get_next_token();
        let found = matches!(current_token, Token::Default);
        self.unget_next_token(current_token);
        assert(self.tokens@ =~= old(self).tokens@);
        found
    }
}

} // verus!
