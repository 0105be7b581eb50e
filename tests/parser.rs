use raki::ast::{Expr, LiteralType};
use raki::ast_printer::AstPrinter;
use raki::error::RakiError;
use raki::logger::raki_log;
use raki::parser::Parser;
use raki::scanner::Scanner;

fn parse(source: &str) -> (Vec<Expr>, Vec<RakiError>) {
    let mut scanner = Scanner::new(source.to_string());
    let mut parser = Parser::new(scanner.scan_tokens());
    let exprs = parser.parse();
    let errors = parser.get_errors();
    (exprs, errors)
}

fn printed(source: &str) -> Vec<String> {
    let printer = AstPrinter {};
    parse(source).0.iter().map(|e| printer.visit_expr(e)).collect()
}

fn syntax(line: u32, at: &str, message: &str) -> RakiError {
    RakiError::Syntax { line, at: at.to_string(), message: message.to_string() }
}

#[test]
fn handles_equality_operator() {
    let mut scanner = Scanner::new("1 == 10".to_string());
    let mut parser = Parser::new(scanner.scan_tokens());
    let ast_printer = AstPrinter {};
    let exprs = parser.parse();
    assert_eq!(ast_printer.visit_expr(&exprs[0]), "( == 1 10 )");
}

#[test]
fn handles_comparison_operator() {
    let mut scanner = Scanner::new("1 > 10".to_string());
    let mut parser = Parser::new(scanner.scan_tokens());
    let ast_printer = AstPrinter {};
    let exprs = parser.parse();
    assert_eq!(ast_printer.visit_expr(&exprs[0]), "( > 1 10 )");
}

#[test]
fn handles_comma_operator() {
    let mut scanner = Scanner::new("123 - 45, 48 + 25, 82 + 102".to_string());
    let mut parser = Parser::new(scanner.scan_tokens());
    let ast_printer = AstPrinter {};
    let exprs = parser.parse();
    assert_eq!(ast_printer.visit_expr(&exprs[0]), "( + 82 102 )");
}

#[test]
fn subtraction_prints_in_prefix_form() {
    assert_eq!(printed("123 - 45"), vec!["( - 123 45 )".to_string()]);
}

#[test]
fn comma_keeps_only_the_last_operand() {
    assert_eq!(printed("123 - 45, 48 + 25, 82 + 102"), vec!["( + 82 102 )".to_string()]);
}

#[test]
fn ternary_parses_condition_and_branches() {
    assert_eq!(printed("1 > 2 ? 3 : 4"), vec!["( ternary ( > 1 2 ) 3 4 )".to_string()]);
}

#[test]
fn ternary_is_right_associative() {
    assert_eq!(
        printed("true ? 1 : false ? 2 : 3"),
        vec!["( ternary true 1 ( ternary false 2 3 ) )".to_string()]
    );
}

#[test]
fn precedence_and_left_associativity() {
    assert_eq!(printed("1 + 2 * 3 - 4"), vec!["( - ( + 1 ( * 2 3 ) ) 4 )".to_string()]);
    assert_eq!(printed("8 / 4 / 2"), vec!["( / ( / 8 4 ) 2 )".to_string()]);
    assert_eq!(printed("1 < 2 == true"), vec!["( == ( < 1 2 ) true )".to_string()]);
    assert_eq!(printed("-(1 + 2) * !nil"), vec!["( * ( - ( group ( + 1 2 ) ) ) ( ! nil ) )".to_string()]);
    assert_eq!(printed("\"a\" + \"b\""), vec!["( + a b )".to_string()]);
}

#[test]
fn missing_operand_is_reported_at_end() {
    let (exprs, errors) = parse("1 +");
    assert!(exprs.is_empty());
    assert_eq!(errors, vec![syntax(1, "at end", "Expect expression.")]);
}

#[test]
fn missing_closing_paren_is_reported() {
    let (exprs, errors) = parse("(1 + 2 3");
    assert!(exprs.is_empty());
    assert_eq!(errors, vec![syntax(1, "at 3", "Expect ')' after expression.")]);
}

#[test]
fn missing_colon_is_reported() {
    let (_, errors) = parse("true ? 1 2");
    assert_eq!(errors[0], syntax(1, "at 2", "Expect ':' after ternary operator"));
}

#[test]
fn parsing_resumes_after_a_semicolon() {
    let (exprs, errors) = parse("1 + ;; 2 * 3");
    assert_eq!(errors, vec![syntax(1, "at ;", "Expect expression.")]);
    let printer = AstPrinter {};
    let texts: Vec<String> = exprs.iter().map(|e| printer.visit_expr(e)).collect();
    assert_eq!(texts, vec!["( * 2 3 )".to_string()]);
}

#[test]
fn parsing_resumes_before_a_statement_keyword() {
    let (exprs, errors) = parse(") ) print 5");
    assert_eq!(errors, vec![syntax(1, "at )", "Expect expression.")]);
    let printer = AstPrinter {};
    let texts: Vec<String> = exprs.iter().map(|e| printer.visit_expr(e)).collect();
    assert_eq!(texts, vec!["5".to_string()]);
}

#[test]
fn consecutive_expressions_skip_one_token_between() {
    let (exprs, errors) = parse("1; 2");
    assert!(errors.is_empty());
    let printer = AstPrinter {};
    let texts: Vec<String> = exprs.iter().map(|e| printer.visit_expr(e)).collect();
    assert_eq!(texts, vec!["1".to_string(), "2".to_string()]);
}

#[test]
fn parsing_twice_gives_the_same_trees() {
    let (a, ea) = parse("1 > 2 ? \"x\" : (3, 4)");
    let (b, eb) = parse("1 > 2 ? \"x\" : (3, 4)");
    assert_eq!(a, b);
    assert_eq!(ea, eb);
    let mut scanner = Scanner::new("1 +".to_string());
    let mut parser = Parser::new(scanner.scan_tokens());
    let first = parser.parse();
    let first_errors = parser.get_errors();
    let second = parser.parse();
    assert_eq!(first, second);
    assert_eq!(first_errors, parser.get_errors());
}

#[test]
fn literals_parse_to_their_values() {
    let (exprs, _) = parse("\"hi\"");
    assert_eq!(exprs[0], Expr::Literal { value: LiteralType::String("hi".to_string()) });
    let (exprs, _) = parse("12.5");
    assert_eq!(exprs[0], Expr::Literal { value: LiteralType::Number("12.5".to_string()) });
    let (exprs, _) = parse("false");
    assert_eq!(exprs[0], Expr::Literal { value: LiteralType::Bool(false) });
}

#[test]
fn log_lines_of_errors() {
    assert_eq!(
        raki_log(&syntax(12, "at end", "Expect expression.")),
        Some("Syntax error on line 12, at end: Expect expression.".to_string())
    );
    assert_eq!(
        raki_log(&RakiError::Scanner("bad".to_string())),
        Some("Parser error => bad".to_string())
    );
    assert_eq!(raki_log(&RakiError::Runtime {}), None);
}
