use vstd::prelude::*;

use crate::context::opt_text;

verus! {

/// Column types that the dialect knows.
#[derive(Clone, Copy, Debug, PartialEq, Eq, Structural)]
pub enum DataType {
    Int,
    Float,
    Boolean,
    /// A string of at most the given number of characters.
    Varchar(i64),
}

impl View for DataType {
    type V = DataType;

    open spec fn view(&self) -> DataType {
        *self
    }
}

/// A table, with the database it belongs to where one is known.
#[derive(Clone, Debug, PartialEq, Eq)]
pub struct TableName {
    pub database_name: Option<String>,
    pub table_name: String,
}

pub struct TableNameView {
    pub database: Option<Seq<char>>,
    pub name: Seq<char>,
}

impl View for TableName {
    type V = TableNameView;

    open spec fn view(&self) -> TableNameView {
        TableNameView { database: opt_text(self.database_name), name: self.table_name@ }
    }
}

impl TableName {
    pub fn new(database_name: Option<String>, table_name: String) -> (r: TableName)
        ensures
            r@ == (TableNameView { database: opt_text(database_name), name: table_name@ }),
    {
        TableName { database_name, table_name }
    }
}

/// One column of a table definition.
#[derive(Clone, Debug, PartialEq, Eq)]
pub struct Column {
    pub name: String,
    pub data_type: DataType,
    pub comment: Option<String>,
    pub default: Option<String>,
    pub not_null: bool,
    pub primary_key: bool,
}

pub struct ColumnView {
    pub name: Seq<char>,
    pub data_type: DataType,
    pub comment: Option<Seq<char>>,
    pub default: Option<Seq<char>>,
    pub not_null: bool,
    pub primary_key: bool,
}

impl View for Column {
    type V = ColumnView;

    open spec fn view(&self) -> ColumnView {
        ColumnView {
            name: self.name@,
            data_type: self.data_type,
            comment: opt_text(self.comment),
            default: opt_text(self.default),
            not_null: self.not_null,
            primary_key: self.primary_key,
        }
    }
}

/// The views of a list of columns.
pub open spec fn columns_view(columns: Seq<Column>) -> Seq<ColumnView> {
    columns.map_values(|c: Column| c@)
}

/// `CREATE DATABASE [IF NOT EXISTS] name`
#[derive(Clone, Debug, PartialEq, Eq)]
pub struct CreateDatabaseQuery {
    pub database_name: String,
    pub if_not_exists: bool,
}

/// `ALTER DATABASE name RENAME TO new_name`
#[derive(Clone, Debug, PartialEq, Eq)]
pub struct AlterDatabaseQuery {
    pub database_name: String,
    pub new_name: String,
}

/// `DROP DATABASE [IF EXISTS] name`
#[derive(Clone, Debug, PartialEq, Eq)]
pub struct DropDatabaseQuery {
    pub database_name: String,
    pub if_exists: bool,
}

/// `CREATE TABLE [IF NOT EXISTS] table ( column, ... )`
#[derive(Clone, Debug, PartialEq, Eq)]
pub struct CreateTableQuery {
    pub table: TableName,
    pub columns: Vec<Column>,
    pub if_not_exists: bool,
}

/// `ALTER TABLE table RENAME TO new_name`
#[derive(Clone, Debug, PartialEq, Eq)]
pub struct AlterTableQuery {
    pub table: TableName,
    pub new_name: String,
}

/// `DROP TABLE [IF EXISTS] table`
#[derive(Clone, Debug, PartialEq, Eq)]
pub struct DropTableQuery {
    pub table: TableName,
    pub if_exists: bool,
}

/// `CREATE INDEX name ON table ( column, ... )`
#[derive(Clone, Debug, PartialEq, Eq)]
pub struct CreateIndexQuery {
    pub index_name: String,
    pub table: TableName,
    pub columns: Vec<String>,
}

/// The views of a list of names.
pub open spec fn names_view(names: Seq<String>) -> Seq<Seq<char>> {
    names.map_values(|s: String| s@)
}

/// A data definition statement.
#[derive(Clone, Debug, PartialEq, Eq)]
pub enum DDLStatement {
    CreateDatabaseQuery(CreateDatabaseQuery),
    AlterDatabase(AlterDatabaseQuery),
    DropDatabaseQuery(DropDatabaseQuery),
    CreateTableQuery(CreateTableQuery),
    AlterTableQuery(AlterTableQuery),
    DropTableQuery(DropTableQuery),
    CreateIndexQuery(CreateIndexQuery),
}

/// A statement of the dialect.
#[derive(Clone, Debug, PartialEq, Eq)]
pub enum SQLStatement {
    DDL(DDLStatement),
}

/// What a statement says, with its names as character sequences.
pub enum StatementView {
    CreateDatabase { name: Seq<char>, if_not_exists: bool },
    AlterDatabase { name: Seq<char>, new_name: Seq<char> },
    DropDatabase { name: Seq<char>, if_exists: bool },
    CreateTable { table: TableNameView, columns: Seq<ColumnView>, if_not_exists: bool },
    AlterTable { table: TableNameView, new_name: Seq<char> },
    DropTable { table: TableNameView, if_exists: bool },
    CreateIndex { name: Seq<char>, table: TableNameView, columns: Seq<Seq<char>> },
}

impl View for DDLStatement {
    type V = StatementView;

    open spec fn view(&self) -> StatementView {
        match self {
            DDLStatement::CreateDatabaseQuery(q) => StatementView::CreateDatabase {
                name: q.database_name@,
                if_not_exists: q.if_not_exists,
            },
            DDLStatement::AlterDatabase(q) => StatementView::AlterDatabase {
                name: q.database_name@,
                new_name: q.new_name@,
            },
            DDLStatement::DropDatabaseQuery(q) => StatementView::DropDatabase {
                name: q.database_name@,
                if_exists: q.if_exists,
            },
            DDLStatement::CreateTableQuery(q) => StatementView::CreateTable {
                table: q.table@,
                columns: columns_view(q.columns@),
                if_not_exists: q.if_not_exists,
            },
            DDLStatement::AlterTableQuery(q) => StatementView::AlterTable {
                table: q.table@,
                new_name: q.new_name@,
            },
            DDLStatement::DropTableQuery(q) => StatementView::DropTable {
                table: q.table@,
                if_exists: q.if_exists,
            },
            DDLStatement::CreateIndexQuery(q) => StatementView::CreateIndex {
                name: q.index_name@,
                table: q.table@,
                columns: names_view(q.columns@),
            },
        }
    }
}

impl View for SQLStatement {
    type V = StatementView;

    open spec fn view(&self) -> StatementView {
        match self {
            SQLStatement::DDL(d) => d@,
        }
    }
}

/// The views of a list of statements.
pub open spec fn statements_view(statements: Seq<SQLStatement>) -> Seq<StatementView> {
    statements.map_values(|s: SQLStatement| s@)
}

/// How rows of a table are visited.
#[derive(Clone, Debug, PartialEq, Eq)]
pub enum ScanType {
    FullScan,
}

/// The plan of a `DELETE FROM` statement.
#[derive(Clone, Debug, PartialEq, Eq)]
pub struct DeleteFromPlan {
    pub table_name: TableName,
    pub alias: Option<String>,
    pub scan: ScanType,
}

/// The plan of an `UPDATE` statement.
#[derive(Clone, Debug, PartialEq, Eq)]
pub struct UpdateFromPlan {
    pub table_name: TableName,
    pub alias: Option<String>,
    pub scan: ScanType,
}

} // verus!
