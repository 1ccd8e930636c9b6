use std::collections::VecDeque;

use rrdb::ast::{
    AlterTableQuery, Column, CreateDatabaseQuery, CreateIndexQuery, DDLStatement, DataType, DropTableQuery,
    SQLStatement, TableName,
};
use rrdb::context::ParserContext;
use rrdb::error::ErrorKind;
use rrdb::lexer::string_to_tokens;
use rrdb::parser::Parser;
use rrdb::text::integer_to_text;
use rrdb::token::{Operator, Token};

fn parser_of(tokens: Vec<Token>) -> Parser {
    Parser::with_tokens(VecDeque::from(tokens))
}

fn ident(s: &str) -> Token {
    Token::Identifier(s.to_owned())
}

fn parse_text(text: &str) -> Vec<SQLStatement> {
    Parser::new(text.to_owned()).unwrap().parse(ParserContext::default()).unwrap()
}

#[test]
fn restore_then_consume_gives_same_token() {
    let mut parser = parser_of(vec![ident("a"), Token::Comma]);
    let t = parser.get_next_token();
    parser.unget_next_token(t.clone());
    assert!(parser.has_next_token());
    assert_eq!(parser.get_next_token(), t);
    assert_eq!(parser.get_next_token(), Token::Comma);
    assert!(!parser.has_next_token());
}

#[test]
fn parsing_twice_gives_same_statements() {
    let text = "CREATE TABLE t (a INT, b BOOL); DROP TABLE IF EXISTS t;";
    assert_eq!(parse_text(text), parse_text(text));
}

#[test]
fn qualified_table_name() {
    let mut parser = parser_of(vec![ident("db"), Token::Period, ident("tbl")]);
    let name = parser.parse_table_name(ParserContext::default()).unwrap();
    assert_eq!(name, TableName::new(Some("db".to_owned()), "tbl".to_owned()));
}

#[test]
fn unqualified_table_name_takes_default_database() {
    let mut parser = parser_of(vec![ident("tbl"), Token::Comma]);
    let context = ParserContext::default().set_default_database("d".to_owned());
    let name = parser.parse_table_name(context).unwrap();
    assert_eq!(name, TableName::new(Some("d".to_owned()), "tbl".to_owned()));
    assert_eq!(parser.get_next_token(), Token::Comma);
}

#[test]
fn unqualified_table_name_without_default() {
    let mut parser = parser_of(vec![ident("tbl")]);
    let name = parser.parse_table_name(ParserContext::default()).unwrap();
    assert_eq!(name, TableName::new(None, "tbl".to_owned()));
}

#[test]
fn column_modifiers_in_any_order() {
    let pk = vec![Token::Primary, Token::Key];
    let nn = vec![Token::Not, Token::Null];
    let cm = vec![Token::Comment, Token::String("note".to_owned())];
    let orders = vec![
        vec![pk.clone(), nn.clone(), cm.clone()],
        vec![cm.clone(), pk.clone(), nn.clone()],
        vec![nn.clone(), cm.clone(), pk.clone()],
    ];
    let mut results = Vec::new();
    for order in orders {
        let mut tokens = vec![ident("id"), ident("int")];
        for m in order {
            tokens.extend(m);
        }
        tokens.push(Token::Comma);
        results.push(parser_of(tokens).parse_table_column().unwrap());
    }
    let expected = Column {
        name: "id".to_owned(),
        data_type: DataType::Int,
        comment: Some("note".to_owned()),
        default: None,
        not_null: true,
        primary_key: true,
    };
    for r in results {
        assert_eq!(r, expected);
    }
}

#[test]
fn column_list_leaves_closing_parenthesis() {
    let tokens = string_to_tokens("a INT, b VARCHAR(3) NOT NULL)").unwrap();
    let mut parser = parser_of(tokens);
    let columns = parser.parse_column_list().unwrap();
    assert_eq!(columns.len(), 2);
    assert_eq!(columns[1].data_type, DataType::Varchar(3));
    assert_eq!(parser.get_next_token(), Token::RightParentheses);
}

#[test]
fn stray_tokens_after_statement_are_skipped() {
    let text = "CREATE TABLE \"test_db\".person ( id INTEGER PRIMARY KEY, name varchar(100), age INTEGER ););";
    assert_eq!(parse_text(text).len(), 1);
}

#[test]
fn varchar_without_parenthesis_is_grammar_violation() {
    let mut parser = parser_of(vec![ident("VARCHAR"), Token::Integer(100)]);
    let e = parser.parse_data_type().unwrap_err();
    assert_eq!(e.kind, ErrorKind::UnexpectedToken);
    assert!(e.message.contains("'('"));
}

#[test]
fn empty_input_gives_no_statements() {
    assert_eq!(parse_text(""), Vec::<SQLStatement>::new());
}

#[test]
fn missing_token_is_starvation() {
    let mut parser = parser_of(vec![]);
    let e = parser.parse_table_name(ParserContext::default()).unwrap_err();
    assert_eq!(e.kind, ErrorKind::NeedMoreTokens);
}

#[test]
fn unknown_data_type_is_unsupported() {
    let mut parser = parser_of(vec![ident("text")]);
    let e = parser.parse_data_type().unwrap_err();
    assert_eq!(e.kind, ErrorKind::Unsupported);
}

#[test]
fn data_type_names_in_any_case() {
    for (word, expected) in [("int", DataType::Int), ("Float", DataType::Float), ("bool", DataType::Boolean), ("BOOLEAN", DataType::Boolean)] {
        let mut parser = parser_of(vec![ident(word)]);
        assert_eq!(parser.parse_data_type().unwrap(), expected);
    }
}

#[test]
fn bad_character_is_invalid_text() {
    let e = Parser::new("CREATE #".to_owned()).unwrap_err();
    assert_eq!(e.kind, ErrorKind::InvalidText);
}

#[test]
fn subquery_in_expression_is_unsupported() {
    let mut parser = parser_of(vec![Token::LeftParentheses, Token::Select, ident("a")]);
    let e = parser.parse_expression(ParserContext::default()).unwrap_err();
    assert_eq!(e.kind, ErrorKind::Unsupported);
}

#[test]
fn expression_text_with_parentheses() {
    let tokens = vec![
        Token::LeftParentheses,
        Token::Integer(1),
        Token::Operator(Operator::Plus),
        Token::Integer(-2),
        Token::RightParentheses,
        Token::Operator(Operator::Multiply),
        Token::Boolean(true),
        Token::Comma,
    ];
    let mut parser = parser_of(tokens);
    assert_eq!(parser.parse_expression(ParserContext::default()).unwrap(), "(1+-2)*true");
    assert_eq!(parser.get_next_token(), Token::Comma);
}

#[test]
fn integer_text_extremes() {
    assert_eq!(integer_to_text(0), "0");
    assert_eq!(integer_to_text(1234), "1234");
    assert_eq!(integer_to_text(i64::MIN), "-9223372036854775808");
}

#[test]
fn primary_key_implies_not_null() {
    let mut parser = parser_of(vec![ident("id"), ident("INT"), Token::Primary, Token::Key]);
    let c = parser.parse_table_column().unwrap();
    assert!(c.primary_key);
    assert!(c.not_null);
}

#[test]
fn primary_without_key_fails() {
    let mut parser = parser_of(vec![ident("id"), ident("INT"), Token::Primary, Token::Null]);
    assert_eq!(parser.parse_table_column().unwrap_err().kind, ErrorKind::UnexpectedToken);
}

#[test]
fn other_statements() {
    let statements = parse_text(
        "create database if not exists shop; alter table shop.items rename to goods; drop table if exists items;",
    );
    assert_eq!(
        statements,
        vec![
            SQLStatement::DDL(DDLStatement::CreateDatabaseQuery(CreateDatabaseQuery {
                database_name: "shop".to_owned(),
                if_not_exists: true,
            })),
            SQLStatement::DDL(DDLStatement::AlterTableQuery(AlterTableQuery {
                table: TableName::new(Some("shop".to_owned()), "items".to_owned()),
                new_name: "goods".to_owned(),
            })),
            SQLStatement::DDL(DDLStatement::DropTableQuery(DropTableQuery {
                table: TableName::new(None, "items".to_owned()),
                if_exists: true,
            })),
        ]
    );
}

#[test]
fn failed_statement_is_dropped_and_parsing_resumes() {
    let statements = parse_text("CREATE TABLE t (a TEXT); CREATE DATABASE d;");
    assert_eq!(statements.len(), 1);
}

#[test]
fn peeks_leave_stream_unchanged() {
    let mut parser = parser_of(vec![Token::Not, Token::Null]);
    assert!(parser.next_token_is_not_null());
    assert!(!parser.next_token_is_default());
    assert!(!parser.next_token_is_column());
    assert!(!parser.next_token_is_data_type());
    assert!(!parser._next_token_is_subquery());
    assert_eq!(parser.get_next_token(), Token::Not);
}

#[test]
fn create_index_statement() {
    let statements = parse_text("CREATE INDEX idx ON db.people (last, first);");
    assert_eq!(
        statements,
        vec![SQLStatement::DDL(DDLStatement::CreateIndexQuery(CreateIndexQuery {
            index_name: "idx".to_owned(),
            table: TableName::new(Some("db".to_owned()), "people".to_owned()),
            columns: vec!["last".to_owned(), "first".to_owned()],
        }))]
    );
}

#[test]
fn tokenizer_splits_words_literals_and_operators() {
    let tokens = string_to_tokens("Create tAbLe x.y (a varchar(3) <= 'hi' 1.50, \"Q\" <> 7)").unwrap();
    assert_eq!(
        tokens,
        vec![
            Token::Create,
            Token::Table,
            ident("x"),
            Token::Period,
            ident("y"),
            Token::LeftParentheses,
            ident("a"),
            ident("varchar"),
            Token::LeftParentheses,
            Token::Integer(3),
            Token::RightParentheses,
            Token::Operator(Operator::LessOrEqual),
            Token::String("hi".to_owned()),
            Token::Float("1.50".to_owned()),
            Token::Comma,
            ident("Q"),
            Token::Operator(Operator::NotEqual),
            Token::Integer(7),
            Token::RightParentheses,
            Token::EOF,
        ]
    );
}

#[test]
fn tokenizer_rejects_out_of_range_integer_and_open_quote() {
    assert_eq!(string_to_tokens("9223372036854775808").unwrap_err().kind, ErrorKind::InvalidText);
    assert_eq!(string_to_tokens("9223372036854775807").unwrap(), vec![Token::Integer(i64::MAX), Token::EOF]);
    assert_eq!(string_to_tokens("'abc").unwrap_err().kind, ErrorKind::InvalidText);
}

#[test]
fn default_clause_is_unsupported() {
    let mut parser = parser_of(vec![ident("id"), ident("INT"), Token::Default, Token::Integer(0), Token::Comma]);
    let e = parser.parse_table_column().unwrap_err();
    assert_eq!(e.kind, ErrorKind::Unsupported);
    assert_eq!(e.message, "not supported yet");
}

#[test]
fn expression_leaves_unrecognised_token() {
    let mut parser = parser_of(vec![Token::Integer(1), Token::SemiColon, Token::Comma]);
    assert_eq!(parser.parse_expression(ParserContext::default()).unwrap(), "1");
    assert_eq!(parser.get_next_token(), Token::SemiColon);
}

#[test]
fn error_messages_name_code_and_token() {
    let mut parser = parser_of(vec![Token::Integer(5)]);
    assert_eq!(
        parser.parse_table_column().unwrap_err().message,
        "E0028 expected identifier. but your input word is 'Integer(5)'"
    );
    let mut parser = parser_of(vec![ident("VARCHAR"), Token::Integer(100)]);
    assert_eq!(
        parser.parse_data_type().unwrap_err().message,
        "expected '('. but your input word is 'Integer(100)'"
    );
    let mut parser = parser_of(vec![ident("text")]);
    assert_eq!(parser.parse_data_type().unwrap_err().message, "unknown data type 'text'");
    let mut parser = parser_of(vec![]);
    assert_eq!(parser.parse_table_column().unwrap_err().message, "E0001 need more tokens");
    let mut parser = parser_of(vec![Token::LeftParentheses, Token::Select]);
    assert_eq!(
        parser.parse_expression(ParserContext::default()).unwrap_err().message,
        "Select not supported in expression"
    );
}

#[test]
fn parse_stops_at_end_of_stream_token() {
    let mut parser = parser_of(vec![Token::SemiColon, Token::EOF, Token::Create, Token::Comma]);
    assert_eq!(parser.parse(ParserContext::default()).unwrap(), vec![]);
    assert_eq!(parser.get_next_token(), Token::Create);
    assert_eq!(parser.get_next_token(), Token::Comma);
    assert!(!parser.has_next_token());
}

#[test]
fn new_parser_starts_at_end_of_stream_marker() {
    let parser = Parser::new("drop table t".to_owned()).unwrap();
    assert_eq!(parser.current_token, Token::EOF);
    assert_eq!(parser_of(vec![]).current_token, Token::EOF);
}
