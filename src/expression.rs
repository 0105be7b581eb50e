use vstd::prelude::*;
use vstd::string::*;
use crate::ast::{Expr, literal_text};
use crate::visitor::Visitor;

verus! {

/// The compact parenthesized form of a tree: each operator node is written
/// `(name` followed directly by its children and `)`.
pub open spec fn compact_text(e: Expr) -> Seq<char>
    decreases e,
{
    match e {
        Expr::Binary { left, right, operator } => "("@ + operator.lexeme@ + compact_text(*left)
            + compact_text(*right) + ")"@,
        Expr::Grouping { expr } => "("@ + "group "@ + compact_text(*expr) + ")"@,
        Expr::Literal { value } => literal_text(value),
        Expr::Unary { right, operator } => "("@ + operator.lexeme@ + compact_text(*right) + ")"@,
        Expr::Ternary { condition, left, right } => "("@ + "ternary "@ + compact_text(*condition)
            + compact_text(*left) + compact_text(*right) + ")"@,
    }
}

/// Prints trees in compact parenthesized form, as in `(*(-1)2)`.
pub struct AstPrinter;

impl AstPrinter {
    pub fn visit_expr(&self, e: &Expr) -> (r: String)
        ensures
            r@ == compact_text(*e),
        decreases e, 0nat,
    {
        match e {
            Expr::Binary { left, right, operator } => {
                let mut res = String::from_str("(");
                res.append(operator.lexeme.as_str());
                self.push_part(&mut res, left);
                self.push_part(&mut res, right);
                res.append(")");
                res
            },
            Expr::Grouping { expr } => {
                let mut res = String::from_str("(");
                res.append("group ");
                self.push_part(&mut res, expr);
                res.append(")");
                res
            },
            Expr::Literal { value } => value.to_string(),
            Expr::Unary { right, operator } => {
                let mut res = String::from_str("(");
                res.append(operator.lexeme.as_str());
                self.push_part(&mut res, right);
                res.append(")");
                res
            },
            Expr::Ternary { condition, left, right } => {
                let mut res = String::from_str("(");
                res.append("ternary ");
                self.push_part(&mut res, condition);
                self.push_part(&mut res, left);
                self.push_part(&mut res, right);
                res.append(")");
                res
            },
        }
    }

    fn push_part(&self, res: &mut String, e: &Expr)
        ensures
            final(res)@ == old(res)@ + compact_text(*e),
        decreases e, 1nat,
    {
        let part = self.visit_expr(e);
        res.append(part.as_str());
    }
}

impl Visitor<String> for AstPrinter {
    fn visit_expr(&self, e: &Expr) -> String {
        AstPrinter::visit_expr(self, e)
    }
}

} // verus!
