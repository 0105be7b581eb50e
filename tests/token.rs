use raki::text::decimal_string;
use raki::token::Token;
use raki::token_type::TokenType;

#[test]
fn test_token_serialization() {
    let tok = Token {
        kind: TokenType::Bang,
        lexeme: String::from("lexeme"),
        literal: "literal".to_owned(),
        line: 23,
    };
    assert_eq!(tok.to_string(), "Bang lexeme literal")
}

#[test]
fn decimal_text_of_line_numbers() {
    assert_eq!(decimal_string(0), "0");
    assert_eq!(decimal_string(7), "7");
    assert_eq!(decimal_string(40213), "40213");
    assert_eq!(decimal_string(u32::MAX), "4294967295");
}
