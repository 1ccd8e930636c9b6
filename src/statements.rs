use vstd::prelude::*;

use crate::ast::{
    columns_view, names_view, statements_view, CreateIndexQuery, AlterDatabaseQuery, AlterTableQuery, Column,
    CreateDatabaseQuery, CreateTableQuery, DDLStatement, DropDatabaseQuery, DropTableQuery,
    SQLStatement,
};
use crate::context::{opt_text, ParserContext};
use crate::error::{is_fault, need_more, unexpected, Fault, ParsingError};
use crate::grammar::{
    alter_query, column_list, create_database, create_index, name_list, create_query, create_table, drop_query, rename_to,
    statements, statements_rest,
};
use crate::parser::{agrees, Parser};
use crate::token::Token;

verus! {

impl Parser {
    /// Reads column definitions up to the `)` that closes the list, and leaves
    /// that `)` on the stream.
    pub fn parse_column_list(&mut self) -> (r: Result<Vec<Column>, ParsingError>)
        ensures
            match (r, column_list(old(self).tokens@, Seq::empty()).0) {
                (Ok(v), Ok(s)) => columns_view(v@) == s,
                (Err(e), Err(f)) => is_fault(e, f),
                _ => false,
            },
            final(self).tokens@ == column_list(old(self).tokens@, Seq::empty()).1,
            final(self).tokens@.len() <= old(self).tokens@.len(),
            r is Ok ==> final(self).tokens@.len() > 0 && final(self).tokens@[0] is RightParentheses,
    {
        let mut columns: Vec<Column> = Vec::new();
        assert(columns_view(columns@) =~= Seq::empty());
        loop
            invariant_except_break
                column_list(self.tokens@, columns_view(columns@)) == column_list(
                    old(self).tokens@,
                    Seq::empty(),
                ),
            invariant
                self.tokens@.len() <= old(self).tokens@.len(),
            ensures
                column_list(old(self).tokens@, Seq::empty()) == (
                    Ok::<Seq<_>, Fault>(columns_view(columns@)),
                    self.tokens@,
                ),
                self.tokens@.len() > 0 && self.tokens@[0] is RightParentheses,
            decreases self.tokens@.len(),
        {
            let ghost before = self.tokens@;
            if !self.has_next_token() {
                return Err(need_more("E0018 need more tokens"));
            }
            let current_token = self.get_next_token();
            if let Token::RightParentheses = current_token {
                self.unget_next_token(current_token);
                assert(self.tokens@ =~= before);
                break;
            }
            self.unget_next_token(current_token);
            assert(self.tokens@ =~= before);
            let column = match self.parse_table_column() {
                Ok(column) => column,
                Err(e) => {
                    return Err(e);
                },
            };
            let ghost old_columns = columns@;
            columns.push(column);
            assert(columns_view(columns@) =~= columns_view(old_columns).push(column@));
        }
        Ok(columns)
    }
}

impl Parser {
    fn handle_create_table(&mut self, context: ParserContext) -> (r: Result<
        SQLStatement,
        ParsingError,
    >)
        ensures
            agrees(r, create_table(old(self).tokens@, opt_text(context.default_database)).0),
            final(self).tokens@ == create_table(
                old(self).tokens@,
                opt_text(context.default_database),
            ).1,
            final(self).tokens@.len() <= old(self).tokens@.len(),
    {
        let if_not_exists = match self.has_if_not_exists() {
            Ok(flag) => flag,
            Err(e) => {
                return Err(e);
            },
        };
        let table = match self.parse_table_name(context) {
            Ok(table) => table,
            Err(e) => {
                return Err(e);
            },
        };
        if !self.has_next_token() {
            return Err(need_more("E0019 need more tokens"));
        }
        let current_token = self.get_next_token();
        if !matches!(current_token, Token::LeftParentheses) {
            return Err(unexpected("expected '('", &current_token));
        }
        let columns = match self.parse_column_list() {
            Ok(columns) => columns,
            Err(e) => {
                return Err(e);
            },
        };
        if !self.has_next_token() {
            return Err(need_more("E0020 need more tokens"));
        }
        let current_token = self.get_next_token();
        if let Token::RightParentheses = current_token {
            let query = CreateTableQuery { table, columns, if_not_exists };
            Ok(SQLStatement::DDL(DDLStatement::CreateTableQuery(query)))
        } else {
            Err(unexpected("expected ')'", &current_token))
        }
    }

    fn handle_create_database(&mut self) -> (r: Result<SQLStatement, ParsingError>)
        ensures
            agrees(r, create_database(old(self).tokens@).0),
            final(self).tokens@ == create_database(old(self).tokens@).1,
            final(self).tokens@.len() <= old(self).tokens@.len(),
    {
        let if_not_exists = match self.has_if_not_exists() {
            Ok(flag) => flag,
            Err(e) => {
                return Err(e);
            },
        };
        let database_name = match self.parse_identifier() {
            Ok(name) => name,
            Err(e) => {
                return Err(e);
            },
        };
        let query = CreateDatabaseQuery { database_name, if_not_exists };
        Ok(SQLStatement::DDL(DDLStatement::CreateDatabaseQuery(query)))
    }

    /// Reads names up to and including the `)` that closes the list.
    pub fn parse_name_list(&mut self) -> (r: Result<Vec<String>, ParsingError>)
        ensures
            match (r, name_list(old(self).tokens@, Seq::empty()).0) {
                (Ok(v), Ok(s)) => names_view(v@) == s,
                (Err(e), Err(f)) => is_fault(e, f),
                _ => false,
            },
            final(self).tokens@ == name_list(old(self).tokens@, Seq::empty()).1,
            final(self).tokens@.len() <= old(self).tokens@.len(),
    {
        let mut names: Vec<String> = Vec::new();
        assert(names_view(names@) =~= Seq::empty());
        loop
            invariant
                name_list(self.tokens@, names_view(names@)) == name_list(
                    old(self).tokens@,
                    Seq::empty(),
                ),
                self.tokens@.len() <= old(self).tokens@.len(),
            decreases self.tokens@.len(),
        {
            let name = match self.parse_identifier() {
                Ok(name) => name,
                Err(e) => {
                    return Err(e);
                },
            };
            let ghost done = names_view(names@);
            names.push(name);
            assert(names_view(names@) =~= done.push(name@));
            if !self.has_next_token() {
                return Err(need_more("E0026 need more tokens"));
            }
            let current_token = self.get_next_token();
            match current_token {
                Token::Comma => {},
                Token::RightParentheses => {
                    return Ok(names);
                },
                _ => {
                    return Err(unexpected("expected ',' or ')'", &current_token));
                },
            }
        }
    }

    fn handle_create_index(&mut self, context: ParserContext) -> (r: Result<
        SQLStatement,
        ParsingError,
    >)
        ensures
            agrees(r, create_index(old(self).tokens@, opt_text(context.default_database)).0),
            final(self).tokens@ == create_index(
                old(self).tokens@,
                opt_text(context.default_database),
            ).1,
            final(self).tokens@.len() <= old(self).tokens@.len(),
    {
        let index_name = match self.parse_identifier() {
            Ok(name) => name,
            Err(e) => {
                return Err(e);
            },
        };
        if !self.has_next_token() {
            return Err(need_more("E0027 need more tokens"));
        }
        let current_token = self.get_next_token();
        if !matches!(current_token, Token::On) {
            return Err(unexpected("expected ON", &current_token));
        }
        let table = match self.parse_table_name(context) {
            Ok(table) => table,
            Err(e) => {
                return Err(e);
            },
        };
        if !self.has_next_token() {
            return Err(need_more("E0033 need more tokens"));
        }
        let current_token = self.get_next_token();
        if !matches!(current_token, Token::LeftParentheses) {
            return Err(unexpected("expected '('", &current_token));
        }
        let columns = match self.parse_name_list() {
            Ok(columns) => columns,
            Err(e) => {
                return Err(e);
            },
        };
        let query = CreateIndexQuery { index_name, table, columns };
        Ok(SQLStatement::DDL(DDLStatement::CreateIndexQuery(query)))
    }

    /// Reads what follows `CREATE`: a database, table or index definition.
    pub fn handle_create_query(&mut self, context: ParserContext) -> (r: Result<
        SQLStatement,
        ParsingError,
    >)
        ensures
            agrees(r, create_query(old(self).tokens@, opt_text(context.default_database)).0),
            final(self).tokens@ == create_query(
                old(self).tokens@,
                opt_text(context.default_database),
            ).1,
            final(self).tokens@.len() <= old(self).tokens@.len(),
    {
        if !self.has_next_token() {
            return Err(need_more("E0021 need more tokens"));
        }
        let current_token = self.get_next_token();
        match current_token {
            Token::Database => self.handle_create_database(),
            Token::Table => self.handle_create_table(context),
            Token::Index => self.handle_create_index(context),
            _ => Err(unexpected("expected DATABASE, TABLE or INDEX after CREATE", &current_token)),
        }
    }

    /// Reads what follows `DROP`: a database or a table, each with an optional
    /// `IF EXISTS`.
    pub fn handle_drop_query(&mut self, context: ParserContext) -> (r: Result<
        SQLStatement,
        ParsingError,
    >)
        ensures
            agrees(r, drop_query(old(self).tokens@, opt_text(context.default_database)).0),
            final(self).tokens@ == drop_query(
                old(self).tokens@,
                opt_text(context.default_database),
            ).1,
            final(self).tokens@.len() <= old(self).tokens@.len(),
    {
        if !self.has_next_token() {
            return Err(need_more("E0022 need more tokens"));
        }
        let current_token = self.get_next_token();
        match current_token {
            Token::Database => {
                let if_exists = match self.has_if_exists() {
                    Ok(flag) => flag,
                    Err(e) => {
                        return Err(e);
                    },
                };
                let database_name = match self.parse_identifier() {
                    Ok(name) => name,
                    Err(e) => {
                        return Err(e);
                    },
                };
                let query = DropDatabaseQuery { database_name, if_exists };
                Ok(SQLStatement::DDL(DDLStatement::DropDatabaseQuery(query)))
            },
            Token::Table => {
                let if_exists = match self.has_if_exists() {
                    Ok(flag) => flag,
                    Err(e) => {
                        return Err(e);
                    },
                };
                let table = match self.parse_table_name(context) {
                    Ok(table) => table,
                    Err(e) => {
                        return Err(e);
                    },
                };
                let query = DropTableQuery { table, if_exists };
                Ok(SQLStatement::DDL(DDLStatement::DropTableQuery(query)))
            },
            _ => Err(unexpected("expected DATABASE or TABLE after DROP", &current_token)),
        }
    }

    fn parse_rename_to(&mut self) -> (r: Result<String, ParsingError>)
        ensures
            agrees(r, rename_to(old(self).tokens@).0),
            final(self).tokens@ == rename_to(old(self).tokens@).1,
            final(self).tokens@.len() <= old(self).tokens@.len(),
    {
        if !self.has_next_token() {
            return Err(need_more("E0023 need more tokens"));
        }
        let current_token = self.get_next_token();
        if !matches!(current_token, Token::Rename) {
            return Err(unexpected("expected RENAME", &current_token));
        }
        if !self.has_next_token() {
            return Err(need_more("E0024 need more tokens"));
        }
        let current_token = self.get_next_token();
        if !matches!(current_token, Token::To) {
            return Err(unexpected("expected TO", &current_token));
        }
        self.parse_identifier()
    }

    /// Reads what follows `ALTER`: the renaming of a database or a table.
    pub fn handle_alter_query(&mut self, context: ParserContext) -> (r: Result<
        SQLStatement,
        ParsingError,
    >)
        ensures
            agrees(r, alter_query(old(self).tokens@, opt_text(context.default_database)).0),
            final(self).tokens@ == alter_query(
                old(self).tokens@,
                opt_text(context.default_database),
            ).1,
            final(self).tokens@.len() <= old(self).tokens@.len(),
    {
        if !self.has_next_token() {
            return Err(need_more("E0025 need more tokens"));
        }
        let current_token = self.get_next_token();
        match current_token {
            Token::Database => {
                let database_name = match self.parse_identifier() {
                    Ok(name) => name,
                    Err(e) => {
                        return Err(e);
                    },
                };
                let new_name = match self.parse_rename_to() {
                    Ok(name) => name,
                    Err(e) => {
                        return Err(e);
                    },
                };
                let query = AlterDatabaseQuery { database_name, new_name };
                Ok(SQLStatement::DDL(DDLStatement::AlterDatabase(query)))
            },
            Token::Table => {
                let table = match self.parse_table_name(context) {
                    Ok(table) => table,
                    Err(e) => {
                        return Err(e);
                    },
                };
                let new_name = match self.parse_rename_to() {
                    Ok(name) => name,
                    Err(e) => {
                        return Err(e);
                    },
                };
                let query = AlterTableQuery { table, new_name };
                Ok(SQLStatement::DDL(DDLStatement::AlterTableQuery(query)))
            },
            _ => Err(unexpected("expected DATABASE or TABLE after ALTER", &current_token)),
        }
    }

    /// Reads every statement of the stream. A statement that fails to parse
    /// is dropped and reading goes on after it; tokens that start no
    /// statement are skipped; the end-of-stream token ends the reading.
    pub fn parse(&mut self, context: ParserContext) -> (r: Result<Vec<SQLStatement>, ParsingError>)
        ensures
            r is Ok,
            statements_view(r->Ok_0@) == statements(
                old(self).tokens@,
                opt_text(context.default_database),
            ),
            final(self).tokens@ == statements_rest(
                old(self).tokens@,
                opt_text(context.default_database),
            ),
    {
        let mut statements_read: Vec<SQLStatement> = Vec::new();
        let ghost db = opt_text(context.default_database);
        assert(statements_view(statements_read@) =~= Seq::empty());
        loop
            invariant_except_break
                statements_view(statements_read@) + statements(self.tokens@, db) == statements(
                    old(self).tokens@,
                    db,
                ),
                statements_rest(self.tokens@, db) == statements_rest(old(self).tokens@, db),
            invariant
                db == opt_text(context.default_database),
            ensures
                statements_view(statements_read@) == statements(old(self).tokens@, db),
                self.tokens@ == statements_rest(old(self).tokens@, db),
            decreases self.tokens@.len(),
        {
            let ghost done = statements_view(statements_read@);
            if !self.has_next_token() {
                assert(done + Seq::<crate::ast::StatementView>::empty() =~= done);
                break;
            }
            let current_token = self.get_next_token();
            let handled = match current_token {
                Token::EOF => {
                    assert(done + Seq::<crate::ast::StatementView>::empty() =~= done);
                    break;
                },
                Token::Create => self.handle_create_query(context.copy()),
                Token::Alter => self.handle_alter_query(context.copy()),
                Token::Drop => self.handle_drop_query(context.copy()),
                _ => {
                    continue;
                },
            };
            if let Ok(query) = handled {
                statements_read.push(query);
                assert(statements_view(statements_read@) =~= done.push(query@));
                assert(done.push(query@) + statements(self.tokens@, db) =~= done + (seq![query@]
                    + statements(self.tokens@, db)));
            }
        }
        Ok(statements_read)
    }
}

} // verus!
