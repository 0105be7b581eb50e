use vstd::prelude::*;
use vstd::string::*;
use crate::token::Token;

verus! {

/// The value that a literal in the source denotes. A number is kept as
/// the decimal text it was written with.
#[derive(Debug, PartialEq, Clone)]
pub enum LiteralType {
    String(String),
    Number(String),
    Bool(bool),
    Nil,
}

/// An expression tree. Each node owns its children.
#[derive(Debug, PartialEq)]
pub enum Expr {
    Binary { left: Box<Expr>, right: Box<Expr>, operator: Token },
    Grouping { expr: Box<Expr> },
    Literal { value: LiteralType },
    Unary { right: Box<Expr>, operator: Token },
    Ternary { condition: Box<Expr>, left: Box<Expr>, right: Box<Expr> },
}

/// The text a literal is shown as.
pub open spec fn literal_text(v: LiteralType) -> Seq<char> {
    match v {
        LiteralType::String(s) => s@,
        LiteralType::Number(s) => s@,
        LiteralType::Bool(b) => if b { "true"@ } else { "false"@ },
        LiteralType::Nil => "nil"@,
    }
}

impl LiteralType {
    /// A copy of this value.
    pub fn copy(&self) -> (r: LiteralType)
        ensures
            r == *self,
    {
        match self {
            LiteralType::String(s) => LiteralType::String(s.clone()),
            LiteralType::Number(s) => LiteralType::Number(s.clone()),
            LiteralType::Bool(b) => LiteralType::Bool(*b),
            LiteralType::Nil => LiteralType::Nil,
        }
    }

    /// The text this value is shown as: a string as it is, a number as
    /// written, `true` or `false`, and `nil`.
    pub fn to_string(&self) -> (r: String)
        ensures
            r@ == literal_text(*self),
    {
        match self {
            LiteralType::String(s) => s.clone(),
            LiteralType::Number(s) => s.clone(),
            LiteralType::Bool(b) => if *b {
                String::from_str("true")
            } else {
                String::from_str("false")
            },
            LiteralType::Nil => String::from_str("nil"),
        }
    }
}

} // verus!
