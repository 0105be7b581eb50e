use vstd::prelude::*;
use crate::ast::LiteralType;
use crate::error::RakiError;
use crate::object::{
    Evaluation, NumericOp, Object, ObjectView, Outcome, add_rule, equal_rule, fails_at_runtime,
    not_equal_rule, numeric_rule, outcome,
};
use crate::token::Token;
use crate::token_type::TokenType;

verus! {

/// The value a literal denotes; a number is given as its decimal text.
pub open spec fn literal_value(v: LiteralType) -> ObjectView<Seq<char>> {
    match v {
        LiteralType::String(s) => ObjectView::String(s@),
        LiteralType::Number(t) => ObjectView::Number(t@),
        LiteralType::Bool(b) => ObjectView::Boolean(b),
        LiteralType::Nil => ObjectView::Nil,
    }
}

/// A prefix operator applied to a value: `-` negates a number, `!` negates
/// a boolean and turns `nil` into `false`.
pub open spec fn unary_rule<N>(k: TokenType, v: ObjectView<N>) -> Outcome<N> {
    if k == TokenType::Minus {
        match v {
            ObjectView::Number(n) => Outcome::Negate(n),
            _ => Outcome::Fails,
        }
    } else if k == TokenType::Bang {
        match v {
            ObjectView::Boolean(b) => Outcome::Done(ObjectView::Boolean(!b)),
            ObjectView::Nil => Outcome::Done(ObjectView::Boolean(false)),
            _ => Outcome::Fails,
        }
    } else {
        Outcome::Done(ObjectView::Nil)
    }
}

/// An infix operator applied to two values, both already evaluated.
pub open spec fn binary_rule<N>(k: TokenType, l: ObjectView<N>, r: ObjectView<N>) -> Outcome<N> {
    if k == TokenType::Plus {
        add_rule(l, r)
    } else if k == TokenType::Minus {
        numeric_rule(NumericOp::Sub, l, r)
    } else if k == TokenType::Star {
        numeric_rule(NumericOp::Mul, l, r)
    } else if k == TokenType::Slash {
        numeric_rule(NumericOp::Div, l, r)
    } else if k == TokenType::Greater {
        numeric_rule(NumericOp::Greater, l, r)
    } else if k == TokenType::GreaterEqual {
        numeric_rule(NumericOp::GreaterEqual, l, r)
    } else if k == TokenType::Less {
        numeric_rule(NumericOp::Less, l, r)
    } else if k == TokenType::LessEqual {
        numeric_rule(NumericOp::LessEqual, l, r)
    } else if k == TokenType::EqualEqual {
        equal_rule(l, r)
    } else if k == TokenType::BangEqual {
        not_equal_rule(l, r)
    } else {
        Outcome::Done(ObjectView::Nil)
    }
}

/// The branch a conditional takes: the left one on `true`, the right one
/// on `false`; any other condition is a runtime error.
pub open spec fn branch_rule<N>(c: ObjectView<N>) -> Option<bool> {
    match c {
        ObjectView::Boolean(b) => Some(b),
        _ => None,
    }
}

/// The evaluation rules of each kind of tree node. Evaluating a tree
/// applies them bottom-up: operands first, left before right, and of a
/// conditional only the branch it takes.
pub struct Interpreter {}

impl Interpreter {
    /// The runtime error.
    pub fn error(&self) -> (r: RakiError)
        ensures
            r == (RakiError::Runtime {  }),
    {
        RakiError::Runtime {  }
    }

    /// The value of a literal, a number given as its decimal text.
    pub fn visit_literal_expr(&self, lit: &LiteralType) -> (r: Object<String>)
        ensures
            (match r {
                Object::Number(t) => ObjectView::Number(t@),
                Object::String(s) => ObjectView::String(s@),
                Object::Boolean(b) => ObjectView::Boolean(b),
                Object::Nil => ObjectView::Nil,
            }) == literal_value(*lit),
    {
        match lit {
            LiteralType::String(s) => Object::String(s.clone()),
            LiteralType::Number(t) => Object::Number(t.clone()),
            LiteralType::Bool(b) => Object::Boolean(*b),
            LiteralType::Nil => Object::Nil,
        }
    }

    /// Applies the prefix `operator` to the value of its operand.
    pub fn visit_unary_expr<N>(&self, operator: &Token, right: Object<N>) -> (r: Result<
        Evaluation<N>,
        RakiError,
    >)
        ensures
            outcome(r) == unary_rule(operator.kind, right@),
            fails_at_runtime(r),
    {
        if operator.kind == TokenType::Minus {
            match right {
                Object::Number(n) => Ok(Evaluation::Negate(n)),
                _ => Err(self.error()),
            }
        } else if operator.kind == TokenType::Bang {
            match right {
                Object::Boolean(b) => Ok(Evaluation::Done(Object::Boolean(!b))),
                Object::Nil => Ok(Evaluation::Done(Object::Boolean(false))),
                _ => Err(self.error()),
            }
        } else {
            Ok(Evaluation::Done(Object::Nil))
        }
    }

    /// Applies the infix `operator` to the values of its two operands.
    pub fn visit_binary_expr<N>(&self, operator: &Token, left: Object<N>, right: Object<N>) -> (r:
        Result<Evaluation<N>, RakiError>)
        ensures
            outcome(r) == binary_rule(operator.kind, left@, right@),
            fails_at_runtime(r),
    {
        match operator.kind {
            TokenType::Plus => left.add(right),
            TokenType::Minus => left.numeric(NumericOp::Sub, right),
            TokenType::Star => left.numeric(NumericOp::Mul, right),
            TokenType::Slash => left.numeric(NumericOp::Div, right),
            TokenType::Greater => left.numeric(NumericOp::Greater, right),
            TokenType::GreaterEqual => left.numeric(NumericOp::GreaterEqual, right),
            TokenType::Less => left.numeric(NumericOp::Less, right),
            TokenType::LessEqual => left.numeric(NumericOp::LessEqual, right),
            TokenType::EqualEqual => Ok(left.equals(right)),
            TokenType::BangEqual => Ok(left.not_equals(right)),
            _ => Ok(Evaluation::Done(Object::Nil)),
        }
    }

    /// Which branch of a conditional to evaluate, given the value of its
    /// condition: `true` for the left one, `false` for the right one.
    pub fn visit_ternary_expr<N>(&self, condition: &Object<N>) -> (r: Result<bool, RakiError>)
        ensures
            (match r {
                Ok(b) => Some(b),
                Err(_) => None,
            }) == branch_rule(condition@),
            fails_at_runtime(r),
    {
        match condition {
            Object::Boolean(b) => Ok(*b),
            _ => Err(self.error()),
        }
    }
}

} // verus!
