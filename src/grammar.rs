use vstd::prelude::*;

use crate::ast::{ColumnView, DataType, StatementView, TableNameView};
use crate::error::{mismatch, rejected, starved, Fault};
use crate::text::{boolean_text, integer_text, upper_of};
use crate::token::Token;

verus! {

/// What a grammar rule yields on a stream: its result and the tokens left.
pub type Step<T> = (Result<T, Fault>, Seq<Token>);

/// A bare identifier.
pub open spec fn identifier(ts: Seq<Token>) -> Step<Seq<char>> {
    if ts.len() == 0 {
        (Err(starved("E0011 need more tokens"@)), ts)
    } else {
        match ts[0] {
            Token::Identifier(s) => (Ok(s@), ts.drop_first()),
            _ => (Err(mismatch("E0032 expected identifier"@, ts[0])), ts.drop_first()),
        }
    }
}

/// `Identifier ['.' Identifier]`: a table name, qualified by its database or
/// taking the default one.
pub open spec fn table_name(ts: Seq<Token>, default_database: Option<Seq<char>>) -> Step<TableNameView> {
    if ts.len() == 0 {
        (Err(starved("E0010 need more tokens"@)), ts)
    } else {
        match ts[0] {
            Token::Identifier(first) => {
                let rest = ts.drop_first();
                if rest.len() > 0 && rest[0] is Period {
                    let rest = rest.drop_first();
                    if rest.len() == 0 {
                        (Err(starved("E0012 need more tokens"@)), rest)
                    } else {
                        match rest[0] {
                            Token::Identifier(second) => (
                                Ok(TableNameView { database: Some(first@), name: second@ }),
                                rest.drop_first(),
                            ),
                            _ => (Err(mismatch("E0031 expected identifier"@, rest[0])), rest.drop_first()),
                        }
                    }
                } else {
                    (Ok(TableNameView { database: default_database, name: first@ }), rest)
                }
            },
            _ => (Err(mismatch("E0030 expected identifier"@, ts[0])), ts.drop_first()),
        }
    }
}

/// `'(' Integer ')'`: the length bound of a `VARCHAR`.
pub open spec fn varchar_length(ts: Seq<Token>) -> Step<DataType> {
    if ts.len() == 0 {
        (Err(starved("E0007 need more tokens"@)), ts)
    } else if !(ts[0] is LeftParentheses) {
        (Err(mismatch("expected '('"@, ts[0])), ts.drop_first())
    } else {
        let ts = ts.drop_first();
        if ts.len() == 0 {
            (Err(starved("E0008 need more tokens"@)), ts)
        } else {
            match ts[0] {
                Token::Integer(n) => {
                    let ts = ts.drop_first();
                    if ts.len() == 0 {
                        (Err(starved("E0009 need more tokens"@)), ts)
                    } else if ts[0] is RightParentheses {
                        (Ok(DataType::Varchar(n)), ts.drop_first())
                    } else {
                        (Err(mismatch("expected ')'"@, ts[0])), ts.drop_first())
                    }
                },
                _ => (Err(mismatch("expected integer number"@, ts[0])), ts.drop_first()),
            }
        }
    }
}

/// The rest of a data type, once its name `word` has been read and put in
/// upper case as `upper`.
pub open spec fn data_type_rest(upper: Seq<char>, word: Seq<char>, ts: Seq<Token>) -> Step<DataType> {
    if upper == "INTEGER"@ || upper == "INT"@ {
        (Ok(DataType::Int), ts)
    } else if upper == "FLOAT"@ {
        (Ok(DataType::Float), ts)
    } else if upper == "BOOLEAN"@ || upper == "BOOL"@ {
        (Ok(DataType::Boolean), ts)
    } else if upper == "VARCHAR"@ {
        varchar_length(ts)
    } else {
        (Err(rejected("unknown data type '"@ + word + "'"@)), ts)
    }
}

/// A data type: a type name, in any case, and for `VARCHAR` its length.
pub open spec fn data_type(ts: Seq<Token>) -> Step<DataType> {
    if ts.len() == 0 {
        (Err(starved("E0006 need more tokens"@)), ts)
    } else {
        match ts[0] {
            Token::Identifier(name) => data_type_rest(upper_of(name@), name@, ts.drop_first()),
            _ => (Err(mismatch("E0029 expected identifier"@, ts[0])), ts.drop_first()),
        }
    }
}

/// The text that a token contributes to an expression, where it is a plain
/// fragment: an operator, a literal, `NOT` or `NULL`.
pub open spec fn fragment_text(t: Token) -> Option<Seq<char>> {
    match t {
        Token::Operator(o) => Some(o.spec_symbol()),
        Token::Not => Some("NOT"@),
        Token::Integer(n) => Some(integer_text(n as int)),
        Token::Float(s) => Some(s@),
        Token::String(s) => Some(s@),
        Token::Boolean(b) => Some(boolean_text(b)),
        Token::Null => Some("NULL"@),
        _ => None,
    }
}

/// An expression: at least one token must be on the stream.
pub open spec fn expression(ts: Seq<Token>) -> Step<Seq<char>>
    decreases ts.len(), 2int,
{
    if ts.len() == 0 {
        (Err(starved("E0201 need more tokens"@)), ts)
    } else {
        expression_from(ts, Seq::empty())
    }
}

/// The rest of an expression whose text so far is `acc`.
///
/// Fragments are joined as they come; `(` opens a parenthesised
/// sub-expression unless `SELECT` follows it; `)`, `,` and any other token
/// end the expression and stay on the stream.
pub open spec fn expression_from(ts: Seq<Token>, acc: Seq<char>) -> Step<Seq<char>>
    decreases ts.len(), 1int,
{
    if ts.len() == 0 {
        (Ok(acc), ts)
    } else if fragment_text(ts[0]) is Some {
        expression_from(ts.drop_first(), acc + fragment_text(ts[0])->Some_0)
    } else {
        match ts[0] {
            Token::LeftParentheses => {
                let rest = ts.drop_first();
                if rest.len() == 0 {
                    (Err(starved("E0214 need more tokens"@)), rest)
                } else if rest[0] is Select {
                    (Err(rejected("Select not supported in expression"@)), rest.drop_first())
                } else {
                    let (inner, after) = parenthesized(ts);
                    match inner {
                        Err(e) => (Err(e), after),
                        Ok(text) => if after.len() < ts.len() {
                            expression_from(after, acc + text)
                        } else {
                            (Ok(acc + text), after)
                        },
                    }
                }
            },
            Token::RightParentheses => (Ok(acc), ts),
            Token::Comma => (Ok(acc), ts),
            _ => (Ok(acc), ts),
        }
    }
}

/// `'(' expression ')'`, whose text keeps its parentheses.
pub open spec fn parenthesized(ts: Seq<Token>) -> Step<Seq<char>>
    decreases ts.len(), 0int,
{
    if ts.len() == 0 {
        (Err(starved("E0203 need more tokens"@)), ts)
    } else if !(ts[0] is LeftParentheses) {
        (Err(mismatch("expected left parentheses"@, ts[0])), ts.drop_first())
    } else {
        let rest = ts.drop_first();
        if rest.len() == 0 {
            (Err(starved("E0204 need more tokens"@)), rest)
        } else {
        let (inner, after) = expression(rest);
        match inner {
            Err(e) => (Err(e), after),
            Ok(text) => if after.len() == 0 {
                (Err(starved("E0205 need more tokens"@)), after)
            } else if after[0] is RightParentheses {
                (Ok(seq!['('] + text + seq![')']), after.drop_first())
            } else {
                (Err(mismatch("expected right parentheses"@, after[0])), after.drop_first())
            },
        }
    }
        }
}

/// The modifiers of a column definition, applied to `acc` until a `,`
/// (consumed), a `)` (left on the stream) or the end of the stream. `DEFAULT`
/// is not supported and fails; tokens that are no modifier are passed over.
pub open spec fn column_from(ts: Seq<Token>, acc: ColumnView) -> Step<ColumnView>
    decreases ts.len(),
{
    if ts.len() == 0 {
        (Ok(acc), ts)
    } else {
        let rest = ts.drop_first();
        match ts[0] {
            Token::Comma => (Ok(acc), rest),
            Token::RightParentheses => (Ok(acc), ts),
            Token::Primary => if rest.len() == 0 {
                (Err(starved("E0003 need more tokens"@)), rest)
            } else if rest[0] is Key {
                column_from(rest.drop_first(), ColumnView { primary_key: true, not_null: true, ..acc })
            } else {
                (Err(mismatch("expected 'PRIMARY KEY'"@, rest[0])), rest.drop_first())
            },
            Token::Not => if rest.len() == 0 {
                (Err(starved("E0004 need more tokens"@)), rest)
            } else if rest[0] is Null {
                column_from(rest.drop_first(), ColumnView { not_null: true, ..acc })
            } else {
                (Err(mismatch("expected 'NOT NULL'"@, rest[0])), rest.drop_first())
            },
            Token::Null => column_from(rest, ColumnView { not_null: false, ..acc }),
            Token::Comment => if rest.len() == 0 {
                (Err(starved("E0005 need more tokens"@)), rest)
            } else {
                match rest[0] {
                    Token::String(c) => column_from(
                        rest.drop_first(),
                        ColumnView { comment: Some(c@), ..acc },
                    ),
                    _ => (Err(mismatch("expected comment string"@, rest[0])), rest.drop_first()),
                }
            },
            Token::Default => (Err(rejected("not supported yet"@)), rest),
            _ => column_from(rest, acc),
        }
    }
}

/// A column definition: a name, a data type, then modifiers in any order.
pub open spec fn table_column(ts: Seq<Token>) -> Step<ColumnView> {
    if ts.len() == 0 {
        (Err(starved("E0001 need more tokens"@)), ts)
    } else {
        match ts[0] {
            Token::Identifier(name) => {
                let (dt, rest) = data_type(ts.drop_first());
                match dt {
                    Err(e) => (Err(e), rest),
                    Ok(dt) => column_from(
                        rest,
                        ColumnView {
                            name: name@,
                            data_type: dt,
                            comment: None,
                            default: None,
                            not_null: false,
                            primary_key: false,
                        },
                    ),
                }
            },
            _ => (Err(mismatch("E0028 expected identifier"@, ts[0])), ts.drop_first()),
        }
    }
}

/// `IF NOT EXISTS`, consumed where it stands; any other first token is left
/// on the stream.
pub open spec fn if_not_exists(ts: Seq<Token>) -> Step<bool> {
    if ts.len() == 0 {
        (Err(starved("E0013 need more tokens"@)), ts)
    } else if !(ts[0] is If) {
        (Ok(false), ts)
    } else {
        let ts = ts.drop_first();
        if ts.len() == 0 {
            (Err(starved("E0014 need more tokens"@)), ts)
        } else if !(ts[0] is Not) {
            (Err(mismatch("expected keyword is 'not'"@, ts[0])), ts.drop_first())
        } else {
            let ts = ts.drop_first();
            if ts.len() == 0 {
                (Err(starved("E0015 need more tokens"@)), ts)
            } else if ts[0] is Exists {
                (Ok(true), ts.drop_first())
            } else {
                (Err(mismatch("expected keyword is 'exists'"@, ts[0])), ts.drop_first())
            }
        }
    }
}

/// `IF EXISTS`, consumed where it stands; any other first token is left on the
/// stream.
pub open spec fn if_exists(ts: Seq<Token>) -> Step<bool> {
    if ts.len() == 0 {
        (Err(starved("E0016 need more tokens"@)), ts)
    } else if !(ts[0] is If) {
        (Ok(false), ts)
    } else {
        let ts = ts.drop_first();
        if ts.len() == 0 {
            (Err(starved("E0017 need more tokens"@)), ts)
        } else if ts[0] is Exists {
            (Ok(true), ts.drop_first())
        } else {
            (Err(mismatch("expected keyword is 'exists'"@, ts[0])), ts.drop_first())
        }
    }
}

/// Column definitions after `(`, added to `acc`, up to the `)` that closes the
/// list, which stays on the stream.
pub open spec fn column_list(ts: Seq<Token>, acc: Seq<ColumnView>) -> Step<Seq<ColumnView>>
    decreases ts.len(),
{
    if ts.len() == 0 {
        (Err(starved("E0018 need more tokens"@)), ts)
    } else if ts[0] is RightParentheses {
        (Ok(acc), ts)
    } else {
        let (column, rest) = table_column(ts);
        match column {
            Err(e) => (Err(e), rest),
            Ok(column) => if rest.len() < ts.len() {
                column_list(rest, acc.push(column))
            } else {
                (Err(starved("E0018 need more tokens"@)), rest)
            },
        }
    }
}

/// The rest of `CREATE TABLE`: `[IF NOT EXISTS] table '(' columns ')'`.
pub open spec fn create_table(ts: Seq<Token>, default_database: Option<Seq<char>>) -> Step<
    StatementView,
> {
    let (flag, ts) = if_not_exists(ts);
    match flag {
        Err(e) => (Err(e), ts),
        Ok(flag) => {
            let (table, ts) = table_name(ts, default_database);
            match table {
                Err(e) => (Err(e), ts),
                Ok(table) => if ts.len() == 0 {
                    (Err(starved("E0019 need more tokens"@)), ts)
                } else if !(ts[0] is LeftParentheses) {
                    (Err(mismatch("expected '('"@, ts[0])), ts.drop_first())
                } else {
                    let (columns, ts) = column_list(ts.drop_first(), Seq::empty());
                    match columns {
                        Err(e) => (Err(e), ts),
                        Ok(columns) => if ts.len() == 0 {
                            (Err(starved("E0020 need more tokens"@)), ts)
                        } else if ts[0] is RightParentheses {
                            (
                                Ok(
                                    StatementView::CreateTable {
                                        table,
                                        columns,
                                        if_not_exists: flag,
                                    },
                                ),
                                ts.drop_first(),
                            )
                        } else {
                            (Err(mismatch("expected ')'"@, ts[0])), ts.drop_first())
                        },
                    }
                },
            }
        },
    }
}

/// The rest of `CREATE DATABASE`: `[IF NOT EXISTS] name`.
pub open spec fn create_database(ts: Seq<Token>) -> Step<StatementView> {
    let (flag, ts) = if_not_exists(ts);
    match flag {
        Err(e) => (Err(e), ts),
        Ok(flag) => {
            let (name, ts) = identifier(ts);
            match name {
                Err(e) => (Err(e), ts),
                Ok(name) => (Ok(StatementView::CreateDatabase { name, if_not_exists: flag }), ts),
            }
        },
    }
}

/// Names after `(`: `Identifier {',' Identifier} ')'`, the `)` consumed.
pub open spec fn name_list(ts: Seq<Token>, acc: Seq<Seq<char>>) -> Step<Seq<Seq<char>>>
    decreases ts.len(),
{
    let (name, rest) = identifier(ts);
    match name {
        Err(e) => (Err(e), rest),
        Ok(name) => if rest.len() == 0 {
            (Err(starved("E0026 need more tokens"@)), rest)
        } else {
            match rest[0] {
                Token::Comma => name_list(rest.drop_first(), acc.push(name)),
                Token::RightParentheses => (Ok(acc.push(name)), rest.drop_first()),
                _ => (Err(mismatch("expected ',' or ')'"@, rest[0])), rest.drop_first()),
            }
        },
    }
}

/// The rest of `CREATE INDEX`: `name ON table '(' names ')'`.
pub open spec fn create_index(ts: Seq<Token>, default_database: Option<Seq<char>>) -> Step<
    StatementView,
> {
    let (name, ts) = identifier(ts);
    match name {
        Err(e) => (Err(e), ts),
        Ok(name) => if ts.len() == 0 {
            (Err(starved("E0027 need more tokens"@)), ts)
        } else if !(ts[0] is On) {
            (Err(mismatch("expected ON"@, ts[0])), ts.drop_first())
        } else {
            let (table, ts) = table_name(ts.drop_first(), default_database);
            match table {
                Err(e) => (Err(e), ts),
                Ok(table) => if ts.len() == 0 {
                    (Err(starved("E0033 need more tokens"@)), ts)
                } else if !(ts[0] is LeftParentheses) {
                    (Err(mismatch("expected '('"@, ts[0])), ts.drop_first())
                } else {
                    let (columns, ts) = name_list(ts.drop_first(), Seq::empty());
                    match columns {
                        Err(e) => (Err(e), ts),
                        Ok(columns) => (Ok(StatementView::CreateIndex { name, table, columns }), ts),
                    }
                },
            }
        },
    }
}

/// What follows `CREATE`.
pub open spec fn create_query(ts: Seq<Token>, default_database: Option<Seq<char>>) -> Step<
    StatementView,
> {
    if ts.len() == 0 {
        (Err(starved("E0021 need more tokens"@)), ts)
    } else {
        match ts[0] {
            Token::Database => create_database(ts.drop_first()),
            Token::Table => create_table(ts.drop_first(), default_database),
            Token::Index => create_index(ts.drop_first(), default_database),
            _ => (Err(mismatch("expected DATABASE, TABLE or INDEX after CREATE"@, ts[0])), ts.drop_first()),
        }
    }
}

/// What follows `DROP`: `DATABASE [IF EXISTS] name` or `TABLE [IF EXISTS] table`.
pub open spec fn drop_query(ts: Seq<Token>, default_database: Option<Seq<char>>) -> Step<
    StatementView,
> {
    if ts.len() == 0 {
        (Err(starved("E0022 need more tokens"@)), ts)
    } else {
        match ts[0] {
            Token::Database => {
                let (flag, ts) = if_exists(ts.drop_first());
                match flag {
                    Err(e) => (Err(e), ts),
                    Ok(flag) => {
                        let (name, ts) = identifier(ts);
                        match name {
                            Err(e) => (Err(e), ts),
                            Ok(name) => (
                                Ok(StatementView::DropDatabase { name, if_exists: flag }),
                                ts,
                            ),
                        }
                    },
                }
            },
            Token::Table => {
                let (flag, ts) = if_exists(ts.drop_first());
                match flag {
                    Err(e) => (Err(e), ts),
                    Ok(flag) => {
                        let (table, ts) = table_name(ts, default_database);
                        match table {
                            Err(e) => (Err(e), ts),
                            Ok(table) => (
                                Ok(StatementView::DropTable { table, if_exists: flag }),
                                ts,
                            ),
                        }
                    },
                }
            },
            _ => (Err(mismatch("expected DATABASE or TABLE after DROP"@, ts[0])), ts.drop_first()),
        }
    }
}

/// `RENAME TO name`.
pub open spec fn rename_to(ts: Seq<Token>) -> Step<Seq<char>> {
    if ts.len() == 0 {
        (Err(starved("E0023 need more tokens"@)), ts)
    } else if !(ts[0] is Rename) {
        (Err(mismatch("expected RENAME"@, ts[0])), ts.drop_first())
    } else {
        let ts = ts.drop_first();
        if ts.len() == 0 {
            (Err(starved("E0024 need more tokens"@)), ts)
        } else if !(ts[0] is To) {
            (Err(mismatch("expected TO"@, ts[0])), ts.drop_first())
        } else {
            identifier(ts.drop_first())
        }
    }
}

/// What follows `ALTER`: `DATABASE name RENAME TO name` or
/// `TABLE table RENAME TO name`.
pub open spec fn alter_query(ts: Seq<Token>, default_database: Option<Seq<char>>) -> Step<
    StatementView,
> {
    if ts.len() == 0 {
        (Err(starved("E0025 need more tokens"@)), ts)
    } else {
        match ts[0] {
            Token::Database => {
                let (name, ts) = identifier(ts.drop_first());
                match name {
                    Err(e) => (Err(e), ts),
                    Ok(name) => {
                        let (new_name, ts) = rename_to(ts);
                        match new_name {
                            Err(e) => (Err(e), ts),
                            Ok(new_name) => (Ok(StatementView::AlterDatabase { name, new_name }), ts),
                        }
                    },
                }
            },
            Token::Table => {
                let (table, ts) = table_name(ts.drop_first(), default_database);
                match table {
                    Err(e) => (Err(e), ts),
                    Ok(table) => {
                        let (new_name, ts) = rename_to(ts);
                        match new_name {
                            Err(e) => (Err(e), ts),
                            Ok(new_name) => (Ok(StatementView::AlterTable { table, new_name }), ts),
                        }
                    },
                }
            },
            _ => (Err(mismatch("expected DATABASE or TABLE after ALTER"@, ts[0])), ts.drop_first()),
        }
    }
}

/// The statements of a whole stream: a statement that fails is dropped and
/// reading goes on where its rule stopped; tokens that start no statement
/// are passed over; the end-of-stream token ends the reading.
pub open spec fn statements(ts: Seq<Token>, default_database: Option<Seq<char>>) -> Seq<
    StatementView,
>
    decreases ts.len(),
{
    if ts.len() == 0 {
        Seq::empty()
    } else {
        let rest = ts.drop_first();
        let handled = match ts[0] {
            Token::Create => Some(create_query(rest, default_database)),
            Token::Alter => Some(alter_query(rest, default_database)),
            Token::Drop => Some(drop_query(rest, default_database)),
            _ => None,
        };
        if ts[0] is EOF {
            Seq::empty()
        } else {
            match handled {
                None => statements(rest, default_database),
                Some((r, after)) => if after.len() < ts.len() {
                    match r {
                        Ok(s) => seq![s] + statements(after, default_database),
                        Err(_) => statements(after, default_database),
                    }
                } else {
                    Seq::empty()
                },
            }
        }
    }
}

/// The tokens that reading every statement of `ts` leaves: those after the
/// first end-of-stream token met between statements, or none.
pub open spec fn statements_rest(ts: Seq<Token>, default_database: Option<Seq<char>>) -> Seq<Token>
    decreases ts.len(),
{
    if ts.len() == 0 {
        ts
    } else {
        let rest = ts.drop_first();
        let handled = match ts[0] {
            Token::Create => Some(create_query(rest, default_database)),
            Token::Alter => Some(alter_query(rest, default_database)),
            Token::Drop => Some(drop_query(rest, default_database)),
            _ => None,
        };
        if ts[0] is EOF {
            rest
        } else {
            match handled {
                None => statements_rest(rest, default_database),
                Some((_, after)) => if after.len() < ts.len() {
                    statements_rest(after, default_database)
                } else {
                    after
                },
            }
        }
    }
}

} // verus!
