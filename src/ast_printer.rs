use vstd::prelude::*;
use vstd::string::*;
use crate::ast::{Expr, LiteralType, literal_text};
use crate::token::Token;
use crate::visitor::Visitor;

verus! {

/// The fully parenthesized form of a tree: each operator node is written
/// `( name child child )`, with a space after every part.
pub open spec fn ast_text(e: Expr) -> Seq<char>
    decreases e,
{
    match e {
        Expr::Binary { left, right, operator } => "( "@ + operator.lexeme@ + " "@ + ast_text(*left)
            + " "@ + ast_text(*right) + " "@ + ")"@,
        Expr::Grouping { expr } => "( "@ + "group"@ + " "@ + ast_text(*expr) + " "@ + ")"@,
        Expr::Literal { value } => literal_text(value),
        Expr::Unary { right, operator } => "( "@ + operator.lexeme@ + " "@ + ast_text(*right) + " "@
            + ")"@,
        Expr::Ternary { condition, left, right } => "( "@ + "ternary"@ + " "@ + ast_text(*condition)
            + " "@ + ast_text(*left) + " "@ + ast_text(*right) + " "@ + ")"@,
    }
}

/// Each kind of node prints as its operator's lexeme (or its name) followed
/// by its operands in their order, each printed the same way.
pub proof fn lemma_printed_forms(c: Expr, l: Expr, r: Expr, operator: Token, value: LiteralType)
    ensures
        ast_text(Expr::Binary { left: Box::new(l), right: Box::new(r), operator }) == "( "@
            + operator.lexeme@ + " "@ + ast_text(l) + " "@ + ast_text(r) + " "@ + ")"@,
        ast_text(Expr::Unary { right: Box::new(r), operator }) == "( "@ + operator.lexeme@ + " "@
            + ast_text(r) + " "@ + ")"@,
        ast_text(Expr::Grouping { expr: Box::new(c) }) == "( "@ + "group"@ + " "@ + ast_text(c) + " "@
            + ")"@,
        ast_text(Expr::Ternary { condition: Box::new(c), left: Box::new(l), right: Box::new(r) })
            == "( "@ + "ternary"@ + " "@ + ast_text(c) + " "@ + ast_text(l) + " "@ + ast_text(r) + " "@
            + ")"@,
        ast_text(Expr::Literal { value }) == literal_text(value),
{
}

/// Prints trees in parenthesized prefix form, as in `( * ( - 1 ) 2 )`.
pub struct AstPrinter;

impl AstPrinter {
    pub fn visit_expr(&self, e: &Expr) -> (r: String)
        ensures
            r@ == ast_text(*e),
        decreases e, 0nat,
    {
        match e {
            Expr::Binary { left, right, operator } => {
                let mut res = self.open(operator.lexeme.as_str());
                self.push_part(&mut res, left);
                self.push_part(&mut res, right);
                res.append(")");
                res
            },
            Expr::Grouping { expr } => {
                let mut res = self.open("group");
                self.push_part(&mut res, expr);
                res.append(")");
                res
            },
            Expr::Literal { value } => value.to_string(),
            Expr::Unary { right, operator } => {
                let mut res = self.open(operator.lexeme.as_str());
                self.push_part(&mut res, right);
                res.append(")");
                res
            },
            Expr::Ternary { condition, left, right } => {
                let mut res = self.open("ternary");
                self.push_part(&mut res, condition);
                self.push_part(&mut res, left);
                self.push_part(&mut res, right);
                res.append(")");
                res
            },
        }
    }

    fn open(&self, name: &str) -> (r: String)
        ensures
            r@ == "( "@ + name@ + " "@,
    {
        let mut res = String::from_str("( ");
        res.append(name);
        res.append(" ");
        res
    }

    fn push_part(&self, res: &mut String, e: &Expr)
        ensures
            final(res)@ == old(res)@ + ast_text(*e) + " "@,
        decreases e, 1nat,
    {
        let part = self.visit_expr(e);
        res.append(part.as_str());
        res.append(" ");
    }
}

impl Visitor<String> for AstPrinter {
    fn visit_expr(&self, e: &Expr) -> String {
        AstPrinter::visit_expr(self, e)
    }
}

} // verus!
