use vstd::prelude::*;
use crate::ast::Expr;

verus! {

/// An operation over expression trees, one result per tree.
pub trait Visitor<R> {
    fn visit_expr(&self, expr: &Expr) -> R;
}

} // verus!
