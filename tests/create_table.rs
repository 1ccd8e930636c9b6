use rrdb::ast::{Column, CreateTableQuery, DDLStatement, DataType, SQLStatement, TableName};
use rrdb::context::ParserContext;
use rrdb::parser::Parser;

fn column(name: &str, data_type: DataType, primary_key: bool, not_null: bool, default: Option<&str>) -> Column {
    Column {
        name: name.to_owned(),
        data_type,
        comment: None,
        default: default.map(|d| d.to_owned()),
        not_null,
        primary_key,
    }
}

fn person_table(columns: Vec<Column>) -> SQLStatement {
    SQLStatement::DDL(DDLStatement::CreateTableQuery(CreateTableQuery {
        table: TableName::new(Some("test_db".to_owned()), "person".to_owned()),
        columns,
        if_not_exists: false,
    }))
}

#[test]
pub fn create_table() {
    let text = r#"
        CREATE TABLE "test_db".person
        (
            id INTEGER PRIMARY KEY,
            name varchar(100),
            age INTEGER
        );
    "#
    .to_owned();

    let mut parser = Parser::new(text).unwrap();

    let expected = person_table(vec![
        column("id", DataType::Int, true, true, None),
        column("name", DataType::Varchar(100), false, false, None),
        column("age", DataType::Int, false, false, None),
    ]);

    assert_eq!(parser.parse(ParserContext::default()).unwrap(), vec![expected]);
}

#[test]
pub fn create_table_2() {
    let text = r#"
        CREATE TABLE "test_db".person
        (
            id INTEGER PRIMARY KEY,
            name varchar(100) NOT NULL,
            age INTEGER NULL
        );
    "#
    .to_owned();

    let mut parser = Parser::new(text).unwrap();

    let expected = person_table(vec![
        column("id", DataType::Int, true, true, None),
        column("name", DataType::Varchar(100), false, true, None),
        column("age", DataType::Int, false, false, None),
    ]);

    assert_eq!(parser.parse(ParserContext::default()).unwrap(), vec![expected]);
}

#[test]
pub fn create_table_3() {
    let text = r#"
        CREATE TABLE "test_db".person
        (
            id INTEGER PRIMARY KEY DEFAULT 0,
            name varchar(100) NOT NULL DEFAULT 'test',
            age INTEGER NULL DEFAULT 0
        );
    "#
    .to_owned();

    let mut parser = Parser::new(text).unwrap();

    // DEFAULT is not supported yet: the statement fails and is dropped.
    assert_eq!(parser.parse(ParserContext::default()).unwrap(), vec![]);
}
