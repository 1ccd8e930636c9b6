//! A recursive-descent parser for a small SQL data definition dialect.
//!
//! Tokens are read from a stream that supports handing tokens back, which
//! gives the grammar rules unbounded lookahead. Every rule is specified by a
//! function of the token sequence in `grammar`, and proved to follow it.

pub mod ast;
pub mod context;
pub mod error;
pub mod expression;
pub mod grammar;
pub mod laws;
pub mod lexer;
pub mod parser;
pub mod rules;
pub mod statements;
pub mod text;
pub mod token;
