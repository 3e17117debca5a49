//! A parser for a small SQL dialect: `SELECT` and `CREATE TABLE` statements.
//! Text is split into tokens, expressions are parsed by operator
//! precedence, and statements by recursive descent; every step is checked
//! against the grammar in [`grammar`].
pub mod text;
pub mod token;
pub mod tokenizer;
pub mod statement;
pub mod grammar;
pub mod parser;
pub mod laws;

pub use crate::parser::{build_statement, Parser};
pub use crate::statement::{
    BinaryOperator, Constraint, DBType, Expression, Statement, TableColumn, UnaryOperator,
};
pub use crate::token::{Keyword, Token};
pub use crate::tokenizer::Tokenizer;
