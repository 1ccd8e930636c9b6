use vstd::prelude::*;
use vstd::string::StringExecFns;

use crate::text::{boolean_text, boolean_to_text, integer_text, integer_to_text};

verus! {

/// Binary and comparison operators that the tokenizer recognises.
#[derive(Clone, Copy, Debug, PartialEq, Eq, Structural)]
pub enum Operator {
    Plus,
    Minus,
    Multiply,
    Divide,
    Modulo,
    Equal,
    NotEqual,
    Less,
    LessOrEqual,
    Greater,
    GreaterOrEqual,
    And,
    Or,
}

impl Operator {
    /// The surface form of the operator.
    pub open spec fn spec_symbol(self) -> Seq<char> {
        match self {
            Operator::Plus => seq!['+'],
            Operator::Minus => seq!['-'],
            Operator::Multiply => seq!['*'],
            Operator::Divide => seq!['/'],
            Operator::Modulo => seq!['%'],
            Operator::Equal => seq!['='],
            Operator::NotEqual => seq!['!', '='],
            Operator::Less => seq!['<'],
            Operator::LessOrEqual => seq!['<', '='],
            Operator::Greater => seq!['>'],
            Operator::GreaterOrEqual => seq!['>', '='],
            Operator::And => seq!['A', 'N', 'D'],
            Operator::Or => seq!['O', 'R'],
        }
    }

    pub fn symbol(&self) -> (r: &'static str)
        ensures
            r@ == self.spec_symbol(),
    {
        let r = match self {
            Operator::Plus => "+",
            Operator::Minus => "-",
            Operator::Multiply => "*",
            Operator::Divide => "/",
            Operator::Modulo => "%",
            Operator::Equal => "=",
            Operator::NotEqual => "!=",
            Operator::Less => "<",
            Operator::LessOrEqual => "<=",
            Operator::Greater => ">",
            Operator::GreaterOrEqual => ">=",
            Operator::And => "AND",
            Operator::Or => "OR",
        };
        proof {
            reveal_strlit("+");
            reveal_strlit("-");
            reveal_strlit("*");
            reveal_strlit("/");
            reveal_strlit("%");
            reveal_strlit("=");
            reveal_strlit("!=");
            reveal_strlit("<");
            reveal_strlit("<=");
            reveal_strlit(">");
            reveal_strlit(">=");
            reveal_strlit("AND");
            reveal_strlit("OR");
        }
        r
    }
}

} // verus!

verus! {

/// One lexical unit of the SQL dialect.
///
/// Keywords are their own variants; a float literal is held as the text it was
/// written with.
#[derive(Clone, Debug, PartialEq)]
pub enum Token {
    EOF,
    Identifier(String),
    Integer(i64),
    Float(String),
    String(String),
    Boolean(bool),
    Operator(Operator),
    Period,
    Comma,
    LeftParentheses,
    RightParentheses,
    SemiColon,
    Create,
    Alter,
    Drop,
    Database,
    Table,
    Index,
    On,
    Rename,
    To,
    Primary,
    Key,
    Not,
    Null,
    Default,
    Comment,
    If,
    Exists,
    Column,
    Data,
    Type,
    Select,
}

/// How a token is named in error messages.
pub open spec fn token_description(t: Token) -> Seq<char> {
    match t {
        Token::Identifier(s) => "Identifier("@ + s@ + ")"@,
        Token::Integer(n) => "Integer("@ + integer_text(n as int) + ")"@,
        Token::Float(s) => "Float("@ + s@ + ")"@,
        Token::String(s) => "String("@ + s@ + ")"@,
        Token::Boolean(b) => "Boolean("@ + boolean_text(b) + ")"@,
        Token::Operator(o) => "Operator("@ + o.spec_symbol() + ")"@,
        Token::EOF => "EOF"@,
        Token::Period => "Period"@,
        Token::Comma => "Comma"@,
        Token::LeftParentheses => "LeftParentheses"@,
        Token::RightParentheses => "RightParentheses"@,
        Token::SemiColon => "SemiColon"@,
        Token::Create => "Create"@,
        Token::Alter => "Alter"@,
        Token::Drop => "Drop"@,
        Token::Database => "Database"@,
        Token::Table => "Table"@,
        Token::Index => "Index"@,
        Token::On => "On"@,
        Token::Rename => "Rename"@,
        Token::To => "To"@,
        Token::Primary => "Primary"@,
        Token::Key => "Key"@,
        Token::Not => "Not"@,
        Token::Null => "Null"@,
        Token::Default => "Default"@,
        Token::Comment => "Comment"@,
        Token::If => "If"@,
        Token::Exists => "Exists"@,
        Token::Column => "Column"@,
        Token::Data => "Data"@,
        Token::Type => "Type"@,
        Token::Select => "Select"@,
    }
}

fn wrapped(opening: &str, inner: &str) -> (r: String)
    ensures
        r@ == opening@ + inner@ + ")"@,
{
    let mut r = String::from_str(opening);
    r.append(inner);
    r.append(")");
    r
}

impl Token {
    /// The name of the token in error messages.
    pub fn describe(&self) -> (r: String)
        ensures
            r@ == token_description(*self),
    {
        match self {
            Token::Identifier(s) => wrapped("Identifier(", s.as_str()),
            Token::Integer(n) => {
                let digits = integer_to_text(*n);
                wrapped("Integer(", digits.as_str())
            },
            Token::Float(s) => wrapped("Float(", s.as_str()),
            Token::String(s) => wrapped("String(", s.as_str()),
            Token::Boolean(b) => wrapped("Boolean(", boolean_to_text(*b)),
            Token::Operator(o) => wrapped("Operator(", o.symbol()),
            Token::EOF => String::from_str("EOF"),
            Token::Period => String::from_str("Period"),
            Token::Comma => String::from_str("Comma"),
            Token::LeftParentheses => String::from_str("LeftParentheses"),
            Token::RightParentheses => String::from_str("RightParentheses"),
            Token::SemiColon => String::from_str("SemiColon"),
            Token::Create => String::from_str("Create"),
            Token::Alter => String::from_str("Alter"),
            Token::Drop => String::from_str("Drop"),
            Token::Database => String::from_str("Database"),
            Token::Table => String::from_str("Table"),
            Token::Index => String::from_str("Index"),
            Token::On => String::from_str("On"),
            Token::Rename => String::from_str("Rename"),
            Token::To => String::from_str("To"),
            Token::Primary => String::from_str("Primary"),
            Token::Key => String::from_str("Key"),
            Token::Not => String::from_str("Not"),
            Token::Null => String::from_str("Null"),
            Token::Default => String::from_str("Default"),
            Token::Comment => String::from_str("Comment"),
            Token::If => String::from_str("If"),
            Token::Exists => String::from_str("Exists"),
            Token::Column => String::from_str("Column"),
            Token::Data => String::from_str("Data"),
            Token::Type => String::from_str("Type"),
            Token::Select => String::from_str("Select"),
        }
    }
}

} // verus!
