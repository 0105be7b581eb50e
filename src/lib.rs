//! A small expression language: a scanner that turns source text into
//! tokens, a precedence-climbing parser that builds expression trees, tree
//! printers, and the evaluation rules of the language's operators.

pub mod text;
pub mod token_type;
pub mod token;
pub mod scanner;
pub mod ast;
pub mod error;
pub mod parser;
pub mod visitor;
pub mod ast_printer;
pub mod expression;
pub mod rpn_printer;
pub mod object;
pub mod interpreter;
pub mod logger;
