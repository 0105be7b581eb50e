use vstd::prelude::*;
use vstd::string::*;
use crate::ast::{Expr, literal_text};
use crate::visitor::Visitor;

verus! {

/// The postfix form of a tree: operands first, then the operator, all
/// separated by single spaces.
pub open spec fn rpn_text(e: Expr) -> Seq<char>
    decreases e,
{
    match e {
        Expr::Binary { left, right, operator } => rpn_text(*left) + " "@ + rpn_text(*right) + " "@
            + operator.lexeme@,
        Expr::Grouping { expr } => rpn_text(*expr) + " "@ + "group"@,
        Expr::Literal { value } => literal_text(value),
        Expr::Unary { right, operator } => rpn_text(*right) + " "@ + operator.lexeme@,
        Expr::Ternary { condition, left, right } => rpn_text(*condition) + " "@ + rpn_text(*left)
            + " "@ + rpn_text(*right) + " "@ + "ternary"@,
    }
}

/// Prints trees in reverse Polish notation, as in `1 - 2 *`.
pub struct RpnPrinter;

impl RpnPrinter {
    pub fn visit_expr(&self, e: &Expr) -> (r: String)
        ensures
            r@ == rpn_text(*e),
        decreases e,
    {
        match e {
            Expr::Binary { left, right, operator } => {
                let mut res = self.visit_expr(left);
                res.append(" ");
                res.append(self.visit_expr(right).as_str());
                res.append(" ");
                res.append(operator.lexeme.as_str());
                res
            },
            Expr::Grouping { expr } => {
                let mut res = self.visit_expr(expr);
                res.append(" ");
                res.append("group");
                res
            },
            Expr::Literal { value } => value.to_string(),
            Expr::Unary { right, operator } => {
                let mut res = self.visit_expr(right);
                res.append(" ");
                res.append(operator.lexeme.as_str());
                res
            },
            Expr::Ternary { condition, left, right } => {
                let mut res = self.visit_expr(condition);
                res.append(" ");
                res.append(self.visit_expr(left).as_str());
                res.append(" ");
                res.append(self.visit_expr(right).as_str());
                res.append(" ");
                res.append("ternary");
                res
            },
        }
    }
}

impl Visitor<String> for RpnPrinter {
    fn visit_expr(&self, e: &Expr) -> String {
        RpnPrinter::visit_expr(self, e)
    }
}

} // verus!
