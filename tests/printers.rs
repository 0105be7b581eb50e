use raki::ast::{Expr, LiteralType};
use raki::ast_printer;
use raki::expression;
use raki::rpn_printer::RpnPrinter;
use raki::token::Token;
use raki::token_type::TokenType;
use raki::visitor::Visitor;

fn op(kind: TokenType, lexeme: &str) -> Token {
    Token { kind, lexeme: lexeme.to_string(), literal: String::new(), line: 0 }
}

fn number(text: &str) -> Box<Expr> {
    Box::new(Expr::Literal { value: LiteralType::Number(text.to_string()) })
}

fn sample() -> Expr {
    Expr::Binary {
        left: Box::new(Expr::Unary {
            right: Box::new(Expr::Literal { value: LiteralType::Number(123.to_string()) }),
            operator: Token {
                kind: TokenType::Minus,
                lexeme: "-".to_string(),
                literal: String::new(),
                line: 0,
            },
        }),
        right: Box::new(Expr::Grouping {
            expr: Box::new(Expr::Literal { value: LiteralType::Number(45.67f32.to_string()) }),
        }),
        operator: (Token { kind: TokenType::Star, lexeme: "*".to_string(), literal: String::new(), line: 0 }),
    }
}

#[test]
fn ast_printer_printer_prints() {
    let expression = sample();
    let printer = ast_printer::AstPrinter {};
    assert_eq!(printer.visit_expr(&expression), "( * ( - 123 ) ( group 45.67 ) )".to_string());
}

#[test]
fn expression_printer_prints() {
    let expression = sample();
    let printer = expression::AstPrinter {};
    assert_eq!(printer.visit_expr(&expression), "(*(-123)(group 45.67))".to_string());
}

#[test]
fn rpn_printer_printer_prints() {
    let expression = sample();
    let printer = RpnPrinter {};
    assert_eq!(printer.visit_expr(&expression), "123 - 45.67 group *".to_string());
}

#[test]
fn every_node_kind_prints_operator_and_operands_in_order() {
    let ternary = Expr::Ternary {
        condition: Box::new(Expr::Literal { value: LiteralType::Bool(true) }),
        left: Box::new(Expr::Literal { value: LiteralType::String("a".to_string()) }),
        right: Box::new(Expr::Binary { left: number("1"), right: number("2"), operator: op(TokenType::Slash, "/") }),
    };
    let printer = ast_printer::AstPrinter {};
    assert_eq!(printer.visit_expr(&ternary), "( ternary true a ( / 1 2 ) )");
    let unary = Expr::Unary { right: Box::new(Expr::Literal { value: LiteralType::Nil }), operator: op(TokenType::Bang, "!") };
    assert_eq!(printer.visit_expr(&unary), "( ! nil )");
    let grouping = Expr::Grouping { expr: number("7") };
    assert_eq!(printer.visit_expr(&grouping), "( group 7 )");
    assert_eq!(printer.visit_expr(&Expr::Literal { value: LiteralType::Bool(false) }), "false");
    assert_eq!(RpnPrinter {}.visit_expr(&ternary), "true a 1 2 / ternary");
    assert_eq!(expression::AstPrinter {}.visit_expr(&ternary), "(ternary truea(/12))");
}

#[test]
fn printers_work_through_the_visitor_trait() {
    let expression = sample();
    let printers: Vec<Box<dyn Visitor<String>>> =
        vec![Box::new(ast_printer::AstPrinter {}), Box::new(RpnPrinter {})];
    let texts: Vec<String> = printers.iter().map(|p| p.visit_expr(&expression)).collect();
    assert_eq!(texts, vec!["( * ( - 123 ) ( group 45.67 ) )".to_string(), "123 - 45.67 group *".to_string()]);
}
