use raki::scanner::Scanner;
use raki::token_type::TokenType;

fn scan(source: &str) -> (Vec<raki::token::Token>, Vec<String>) {
    let mut scanner = Scanner::new(String::from(source));
    let tokens = scanner.scan_tokens();
    let errors = scanner.get_errors();
    (tokens, errors)
}

#[test]
fn scans_single_char_token_types() {
    let mut scanner = Scanner::new(String::from("()}+-"));
    let tokens = scanner.scan_tokens();

    assert_eq!(tokens[0].kind, TokenType::LeftParen);
    assert_eq!(tokens[1].kind, TokenType::RightParen);
    assert_eq!(tokens[2].kind, TokenType::RightBrace);
    assert_eq!(tokens[3].kind, TokenType::Plus);
    assert_eq!(tokens[4].kind, TokenType::Minus);
    assert_eq!(tokens[5].kind, TokenType::Eof);
}

#[test]
fn scans_single_char_token_lexemes() {
    let mut scanner = Scanner::new(String::from("()}+-"));
    let tokens = scanner.scan_tokens();

    assert_eq!(tokens[0].lexeme, "(");
    assert_eq!(tokens[1].lexeme, ")");
    assert_eq!(tokens[2].lexeme, "}");
    assert_eq!(tokens[3].lexeme, "+");
    assert_eq!(tokens[4].lexeme, "-");
    assert_eq!(tokens[5].lexeme, "");
}

#[test]
fn handles_unexpected_tokens() {
    let mut scanner = Scanner::new(String::from("(@+%"));
    let tokens = scanner.scan_tokens();
    let errors = scanner.get_errors();

    assert_eq!(tokens[0].kind, TokenType::LeftParen);
    assert_eq!(tokens[1].kind, TokenType::Plus);
    assert_eq!(errors[0], String::from("unexpected token: @, at line: 1"));
    assert_eq!(errors[1], String::from("unexpected token: %, at line: 1"));
}

#[test]
fn scans_variable_length_token_types() {
    let mut scanner = Scanner::new(String::from("(==)=}!="));
    let tokens = scanner.scan_tokens();
    let errors = scanner.get_errors();

    assert_eq!(tokens[0].kind, TokenType::LeftParen);
    assert_eq!(tokens[1].kind, TokenType::EqualEqual);
    assert_eq!(tokens[2].kind, TokenType::RightParen);
    assert_eq!(tokens[3].kind, TokenType::Equal);
    assert_eq!(tokens[4].kind, TokenType::RightBrace);
    assert_eq!(tokens[5].kind, TokenType::BangEqual);
    assert_eq!(tokens[6].kind, TokenType::Eof);
    assert_eq!(errors.len(), 0);
}

#[test]
fn scans_comments() {
    let mut scanner = Scanner::new(String::from("(//}{==ab"));
    let tokens = scanner.scan_tokens();
    let errors = scanner.get_errors();

    assert_eq!(tokens[0].kind, TokenType::LeftParen);
    assert_eq!(tokens[1].kind, TokenType::Eof);
    assert_eq!(tokens.len(), 2);
    assert_eq!(errors.len(), 0);
}

#[test]
fn ignores_whitespaces() {
    let mut scanner = Scanner::new(String::from("(  != "));
    let tokens = scanner.scan_tokens();
    let errors = scanner.get_errors();

    assert_eq!(tokens[0].kind, TokenType::LeftParen);
    assert_eq!(tokens[1].kind, TokenType::BangEqual);
    assert_eq!(tokens[2].kind, TokenType::Eof);
    assert_eq!(tokens.len(), 3);
    assert_eq!(errors.len(), 0);
}

#[test]
fn scans_string_tokens() {
    let mut scanner = Scanner::new(String::from("(\"abc\" !="));
    let tokens = scanner.scan_tokens();
    let errors = scanner.get_errors();

    assert_eq!(tokens[0].kind, TokenType::LeftParen);

    assert_eq!(tokens[1].kind, TokenType::String);
    assert_eq!(tokens[1].lexeme, "\"abc\"");
    assert_eq!(tokens[1].literal, "abc");

    assert_eq!(tokens[2].kind, TokenType::BangEqual);
    assert_eq!(tokens[3].kind, TokenType::Eof);
    assert_eq!(tokens.len(), 4);
    assert_eq!(errors.len(), 0);
}

#[test]
fn catches_unterminated_string_literals() {
    let mut scanner = Scanner::new(String::from("(\"abc !="));
    let _ = scanner.scan_tokens();
    let errors = scanner.get_errors();

    assert_eq!(errors.len(), 1);
    assert_eq!(errors[0], format!("uneterminated string literal at line: {}", 1).to_string());
}

#[test]
fn scans_number_literals() {
    let mut scanner = Scanner::new(String::from("(123 45"));
    let tokens = scanner.scan_tokens();
    let errors = scanner.get_errors();

    assert_eq!(tokens[0].kind, TokenType::LeftParen);

    assert_eq!(tokens[1].kind, TokenType::Number);
    assert_eq!(tokens[1].literal, String::from("123"));

    assert_eq!(tokens[2].kind, TokenType::Number);
    assert_eq!(tokens[2].literal, String::from("45"));

    assert_eq!(tokens[3].kind, TokenType::Eof);
    assert_eq!(errors.len(), 0);
}

#[test]
fn scans_decimal_number_literals() {
    let mut scanner = Scanner::new(String::from("(123.45"));
    let tokens = scanner.scan_tokens();
    let errors = scanner.get_errors();

    assert_eq!(tokens[0].kind, TokenType::LeftParen);

    assert_eq!(tokens[1].kind, TokenType::Number);
    assert_eq!(tokens[1].literal, String::from("123.45"));

    assert_eq!(tokens[2].kind, TokenType::Eof);
    assert_eq!(errors.len(), 0);
}

#[test]
fn ignores_bad_decimals() {
    let mut scanner = Scanner::new(String::from("(123. .45"));
    let tokens = scanner.scan_tokens();
    let errors = scanner.get_errors();

    assert_eq!(tokens[0].kind, TokenType::LeftParen);

    assert_eq!(tokens[1].kind, TokenType::Number);
    assert_eq!(tokens[1].literal, String::from("123"));

    assert_eq!(tokens[2].kind, TokenType::Dot);
    assert_eq!(tokens[3].kind, TokenType::Dot);

    assert_eq!(tokens[4].kind, TokenType::Number);
    assert_eq!(tokens[4].literal, String::from("45"));

    assert_eq!(tokens[5].kind, TokenType::Eof);
    assert_eq!(errors.len(), 0);
}

#[test]
fn scans_identifier_literals() {
    let mut scanner = Scanner::new(String::from("and or for"));
    let tokens = scanner.scan_tokens();
    let errors = scanner.get_errors();

    assert_eq!(tokens[0].kind, TokenType::And);
    assert_eq!(tokens[0].literal, "and");

    assert_eq!(tokens[1].kind, TokenType::Or);
    assert_eq!(tokens[1].literal, "or");

    assert_eq!(tokens[2].kind, TokenType::For);
    assert_eq!(tokens[2].literal, "for");

    assert_eq!(tokens[3].kind, TokenType::Eof);
    assert_eq!(errors.len(), 0);
}

#[test]
fn valid_source_has_one_eof_and_no_errors() {
    let (tokens, errors) = scan("(1 + 2.5) * \"x\"\n >= foo ? true : nil;");
    assert!(errors.is_empty());
    assert_eq!(tokens.iter().filter(|t| t.kind == TokenType::Eof).count(), 1);
    assert_eq!(tokens.last().unwrap().kind, TokenType::Eof);
    assert_eq!(tokens.last().unwrap().line, 2);
}

#[test]
fn single_char_kinds_and_lexemes() {
    let (tokens, errors) = scan("()}+-");
    let kinds: Vec<TokenType> = tokens.iter().map(|t| t.kind).collect();
    assert_eq!(
        kinds,
        vec![
            TokenType::LeftParen,
            TokenType::RightParen,
            TokenType::RightBrace,
            TokenType::Plus,
            TokenType::Minus,
            TokenType::Eof
        ]
    );
    let lexemes: Vec<&str> = tokens.iter().map(|t| t.lexeme.as_str()).collect();
    assert_eq!(lexemes, vec!["(", ")", "}", "+", "-", ""]);
    assert!(errors.is_empty());
}

#[test]
fn unexpected_characters_are_listed_in_order() {
    let (tokens, errors) = scan("(@+%");
    assert_eq!(
        errors,
        vec![
            String::from("unexpected token: @, at line: 1"),
            String::from("unexpected token: %, at line: 1")
        ]
    );
    let kinds: Vec<TokenType> = tokens.iter().map(|t| t.kind).collect();
    assert_eq!(kinds, vec![TokenType::LeftParen, TokenType::Plus, TokenType::Eof]);
}

#[test]
fn string_literal_then_bang_equal() {
    let (tokens, errors) = scan("(\"abc\" !=");
    assert_eq!(tokens[1].kind, TokenType::String);
    assert_eq!(tokens[1].lexeme, "\"abc\"");
    assert_eq!(tokens[1].literal, "abc");
    assert_eq!(tokens[2].kind, TokenType::BangEqual);
    assert_eq!(tokens[3].kind, TokenType::Eof);
    assert!(errors.is_empty());
}

#[test]
fn unterminated_string_gives_one_error_and_no_token() {
    let (tokens, errors) = scan("(\"abc !=");
    assert_eq!(errors, vec![String::from("uneterminated string literal at line: 1")]);
    let kinds: Vec<TokenType> = tokens.iter().map(|t| t.kind).collect();
    assert_eq!(kinds, vec![TokenType::LeftParen, TokenType::Eof]);
}

#[test]
fn unterminated_string_reports_its_last_line() {
    let (_, errors) = scan("\"a\nb\nc");
    assert_eq!(errors, vec![String::from("uneterminated string literal at line: 3")]);
}

#[test]
fn newlines_count_lines_in_strings_and_after_comments() {
    let (tokens, errors) = scan("1 // note\n\"a\nb\" @\n+");
    assert_eq!(tokens[0].line, 1);
    assert_eq!(tokens[1].kind, TokenType::String);
    assert_eq!(tokens[1].literal, "a\nb");
    assert_eq!(tokens[1].line, 3);
    assert_eq!(errors, vec![String::from("unexpected token: @, at line: 3")]);
    assert_eq!(tokens[2].kind, TokenType::Plus);
    assert_eq!(tokens[2].line, 4);
    assert_eq!(tokens[3].kind, TokenType::Eof);
    assert_eq!(tokens[3].line, 4);
}

#[test]
fn number_takes_one_fractional_part() {
    let (tokens, _) = scan("1.5 12.3.4");
    assert_eq!(tokens[0].literal, "1.5");
    assert_eq!(tokens[1].literal, "12.3");
    assert_eq!(tokens[2].kind, TokenType::Dot);
    assert_eq!(tokens[3].literal, "4");
}

#[test]
fn words_are_keywords_or_identifiers() {
    let (tokens, _) = scan("while whiles nil x");
    assert_eq!(tokens[0].kind, TokenType::While);
    assert_eq!(tokens[1].kind, TokenType::Identifier);
    assert_eq!(tokens[1].lexeme, "whiles");
    assert_eq!(tokens[2].kind, TokenType::Nil);
    assert_eq!(tokens[3].kind, TokenType::Identifier);
}

#[test]
fn two_character_operators() {
    let (tokens, _) = scan("<= < >= > == = != ! /");
    let kinds: Vec<TokenType> = tokens.iter().map(|t| t.kind).collect();
    assert_eq!(
        kinds,
        vec![
            TokenType::LessEqual,
            TokenType::Less,
            TokenType::GreaterEqual,
            TokenType::Greater,
            TokenType::EqualEqual,
            TokenType::Equal,
            TokenType::BangEqual,
            TokenType::Bang,
            TokenType::Slash,
            TokenType::Eof
        ]
    );
}

#[test]
fn empty_source_gives_only_eof() {
    let (tokens, errors) = scan("");
    assert_eq!(tokens.len(), 1);
    assert_eq!(tokens[0].kind, TokenType::Eof);
    assert_eq!(tokens[0].line, 1);
    assert!(errors.is_empty());
}

#[test]
fn scanning_twice_gives_the_same_tokens() {
    let mut scanner = Scanner::new(String::from("1 + @ \"s\""));
    let first = scanner.scan_tokens();
    let first_errors = scanner.get_errors();
    let second = scanner.scan_tokens();
    let second_errors = scanner.get_errors();
    assert_eq!(first, second);
    assert_eq!(first_errors, second_errors);
    assert_eq!(first, scan("1 + @ \"s\"").0);
}

#[test]
fn char_classes() {
    assert_eq!(TokenType::from_char('?'), Some(TokenType::QuestionMark));
    assert_eq!(TokenType::from_char(':'), Some(TokenType::DoubleDot));
    assert_eq!(TokenType::from_char('7'), Some(TokenType::Number));
    assert_eq!(TokenType::from_char('q'), Some(TokenType::Identifier));
    assert_eq!(TokenType::from_char('\t'), Some(TokenType::Ignore));
    assert_eq!(TokenType::from_char('#'), None);
    assert_eq!(TokenType::Slash.get_extension('/'), Some(TokenType::DoubleSlash));
    assert_eq!(TokenType::Plus.get_extension('='), None);
    assert_eq!(TokenType::Identifier.get_identifier("class"), Some(TokenType::Class));
    assert_eq!(TokenType::Identifier.get_identifier("classy"), None);
    assert_eq!(TokenType::GreaterEqual.as_str(), "GreaterEqual");
}
