use vstd::prelude::*;
use crate::text::same_text;

verus! {

/// The lexical categories of the language.
#[derive(Debug, PartialEq, Eq, Clone, Copy, Structural)]
pub enum TokenType {
    // Single character tokens
    LeftParen,
    RightParen,
    LeftBrace,
    RightBrace,
    Comma,
    Dot,
    Minus,
    Plus,
    Semicolon,
    Slash,
    Star,
    QuestionMark,
    DoubleDot,
    // One or two character tokens
    Bang,
    BangEqual,
    Equal,
    EqualEqual,
    Greater,
    GreaterEqual,
    Less,
    LessEqual,
    DoubleSlash,
    // Literals
    Identifier,
    String,
    Number,
    // Keywords
    And,
    Class,
    Else,
    False,
    Fun,
    For,
    If,
    Nil,
    Or,
    Print,
    Return,
    Super,
    This,
    True,
    Var,
    While,
    Eof,
    // Skippable whitespace
    Ignore,
}

pub open spec fn is_digit(c: char) -> bool {
    '0' <= c <= '9'
}

pub open spec fn is_alpha(c: char) -> bool {
    ('a' <= c <= 'z') || ('A' <= c <= 'Z')
}

/// Whitespace that separates tokens; a newline also ends a line.
pub open spec fn is_blank(c: char) -> bool {
    c == ' ' || c == '\r' || c == '\t' || c == '\n'
}

/// The category that a lexeme starting with `c` falls into, if any.
pub open spec fn kind_of_char(c: char) -> Option<TokenType> {
    if c == '(' {
        Some(TokenType::LeftParen)
    } else if c == ')' {
        Some(TokenType::RightParen)
    } else if c == '{' {
        Some(TokenType::LeftBrace)
    } else if c == '}' {
        Some(TokenType::RightBrace)
    } else if c == ',' {
        Some(TokenType::Comma)
    } else if c == '.' {
        Some(TokenType::Dot)
    } else if c == '-' {
        Some(TokenType::Minus)
    } else if c == '+' {
        Some(TokenType::Plus)
    } else if c == ';' {
        Some(TokenType::Semicolon)
    } else if c == '/' {
        Some(TokenType::Slash)
    } else if c == '*' {
        Some(TokenType::Star)
    } else if c == '!' {
        Some(TokenType::Bang)
    } else if c == '=' {
        Some(TokenType::Equal)
    } else if c == '<' {
        Some(TokenType::Less)
    } else if c == '>' {
        Some(TokenType::Greater)
    } else if c == '"' {
        Some(TokenType::String)
    } else if c == '?' {
        Some(TokenType::QuestionMark)
    } else if c == ':' {
        Some(TokenType::DoubleDot)
    } else if is_digit(c) {
        Some(TokenType::Number)
    } else if is_alpha(c) {
        Some(TokenType::Identifier)
    } else if is_blank(c) {
        Some(TokenType::Ignore)
    } else {
        None
    }
}

/// The two-character token that `first` followed by `c` forms, if any.
pub open spec fn extension_of(first: TokenType, c: char) -> Option<TokenType> {
    match first {
        TokenType::Bang => if c == '=' { Some(TokenType::BangEqual) } else { None },
        TokenType::Equal => if c == '=' { Some(TokenType::EqualEqual) } else { None },
        TokenType::Greater => if c == '=' { Some(TokenType::GreaterEqual) } else { None },
        TokenType::Less => if c == '=' { Some(TokenType::LessEqual) } else { None },
        TokenType::Slash => if c == '/' { Some(TokenType::DoubleSlash) } else { None },
        _ => None,
    }
}

/// The reserved word spelled by `s`, if any.
pub open spec fn keyword_of(s: Seq<char>) -> Option<TokenType> {
    if s == "and"@ {
        Some(TokenType::And)
    } else if s == "class"@ {
        Some(TokenType::Class)
    } else if s == "else"@ {
        Some(TokenType::Else)
    } else if s == "false"@ {
        Some(TokenType::False)
    } else if s == "fun"@ {
        Some(TokenType::Fun)
    } else if s == "for"@ {
        Some(TokenType::For)
    } else if s == "if"@ {
        Some(TokenType::If)
    } else if s == "nil"@ {
        Some(TokenType::Nil)
    } else if s == "or"@ {
        Some(TokenType::Or)
    } else if s == "print"@ {
        Some(TokenType::Print)
    } else if s == "return"@ {
        Some(TokenType::Return)
    } else if s == "super"@ {
        Some(TokenType::Super)
    } else if s == "this"@ {
        Some(TokenType::This)
    } else if s == "true"@ {
        Some(TokenType::True)
    } else if s == "var"@ {
        Some(TokenType::Var)
    } else if s == "while"@ {
        Some(TokenType::While)
    } else {
        None
    }
}

/// The name of a token category, as it is shown in token listings.
pub open spec fn kind_name(t: TokenType) -> Seq<char> {
    match t {
        TokenType::LeftParen => "LeftParen"@,
        TokenType::RightParen => "RightParen"@,
        TokenType::LeftBrace => "LeftBrace"@,
        TokenType::RightBrace => "RightBrace"@,
        TokenType::Comma => "Comma"@,
        TokenType::Dot => "Dot"@,
        TokenType::Minus => "Minus"@,
        TokenType::Plus => "Plus"@,
        TokenType::Semicolon => "Semicolon"@,
        TokenType::Slash => "Slash"@,
        TokenType::Star => "Star"@,
        TokenType::QuestionMark => "QuestionMark"@,
        TokenType::DoubleDot => "DoubleDot"@,
        TokenType::Bang => "Bang"@,
        TokenType::BangEqual => "BangEqual"@,
        TokenType::Equal => "Equal"@,
        TokenType::EqualEqual => "EqualEqual"@,
        TokenType::Greater => "Greater"@,
        TokenType::GreaterEqual => "GreaterEqual"@,
        TokenType::Less => "Less"@,
        TokenType::LessEqual => "LessEqual"@,
        TokenType::DoubleSlash => "DoubleSlash"@,
        TokenType::Identifier => "Identifier"@,
        TokenType::String => "String"@,
        TokenType::Number => "Number"@,
        TokenType::And => "And"@,
        TokenType::Class => "Class"@,
        TokenType::Else => "Else"@,
        TokenType::False => "False"@,
        TokenType::Fun => "Fun"@,
        TokenType::For => "For"@,
        TokenType::If => "If"@,
        TokenType::Nil => "Nil"@,
        TokenType::Or => "Or"@,
        TokenType::Print => "Print"@,
        TokenType::Return => "Return"@,
        TokenType::Super => "Super"@,
        TokenType::This => "This"@,
        TokenType::True => "True"@,
        TokenType::Var => "Var"@,
        TokenType::While => "While"@,
        TokenType::Eof => "Eof"@,
        TokenType::Ignore => "Ignore"@,
    }
}
impl TokenType {
    /// The category's name.
    pub fn as_str(&self) -> (r: &'static str)
        ensures
            r@ == kind_name(*self),
    {
        match self {
            TokenType::LeftParen => "LeftParen",
            TokenType::RightParen => "RightParen",
            TokenType::LeftBrace => "LeftBrace",
            TokenType::RightBrace => "RightBrace",
            TokenType::Comma => "Comma",
            TokenType::Dot => "Dot",
            TokenType::Minus => "Minus",
            TokenType::Plus => "Plus",
            TokenType::Semicolon => "Semicolon",
            TokenType::Slash => "Slash",
            TokenType::Star => "Star",
            TokenType::QuestionMark => "QuestionMark",
            TokenType::DoubleDot => "DoubleDot",
            TokenType::Bang => "Bang",
            TokenType::BangEqual => "BangEqual",
            TokenType::Equal => "Equal",
            TokenType::EqualEqual => "EqualEqual",
            TokenType::Greater => "Greater",
            TokenType::GreaterEqual => "GreaterEqual",
            TokenType::Less => "Less",
            TokenType::LessEqual => "LessEqual",
            TokenType::DoubleSlash => "DoubleSlash",
            TokenType::Identifier => "Identifier",
            TokenType::String => "String",
            TokenType::Number => "Number",
            TokenType::And => "And",
            TokenType::Class => "Class",
            TokenType::Else => "Else",
            TokenType::False => "False",
            TokenType::Fun => "Fun",
            TokenType::For => "For",
            TokenType::If => "If",
            TokenType::Nil => "Nil",
            TokenType::Or => "Or",
            TokenType::Print => "Print",
            TokenType::Return => "Return",
            TokenType::Super => "Super",
            TokenType::This => "This",
            TokenType::True => "True",
            TokenType::Var => "Var",
            TokenType::While => "While",
            TokenType::Eof => "Eof",
            TokenType::Ignore => "Ignore",
        }
    }
}

impl TokenType {
    /// Classifies the first character of a lexeme.
    pub fn from_char(c: char) -> (r: Option<TokenType>)
        ensures
            r == kind_of_char(c),
    {
        match c {
            '(' => Some(TokenType::LeftParen),
            ')' => Some(TokenType::RightParen),
            '{' => Some(TokenType::LeftBrace),
            '}' => Some(TokenType::RightBrace),
            ',' => Some(TokenType::Comma),
            '.' => Some(TokenType::Dot),
            '-' => Some(TokenType::Minus),
            '+' => Some(TokenType::Plus),
            ';' => Some(TokenType::Semicolon),
            '/' => Some(TokenType::Slash),
            '*' => Some(TokenType::Star),
            '!' => Some(TokenType::Bang),
            '=' => Some(TokenType::Equal),
            '<' => Some(TokenType::Less),
            '>' => Some(TokenType::Greater),
            '"' => Some(TokenType::String),
            '?' => Some(TokenType::QuestionMark),
            ':' => Some(TokenType::DoubleDot),
            '0'..='9' => Some(TokenType::Number),
            'a'..='z' | 'A'..='Z' => Some(TokenType::Identifier),
            ' ' | '\r' | '\t' | '\n' => Some(TokenType::Ignore),
            _ => None,
        }
    }

    /// The reserved word that `s` spells, if any.
    pub fn get_identifier(&self, s: &str) -> (r: Option<TokenType>)
        ensures
            r == keyword_of(s@),
    {
        if same_text(s, "and") {
            Some(TokenType::And)
        } else if same_text(s, "class") {
            Some(TokenType::Class)
        } else if same_text(s, "else") {
            Some(TokenType::Else)
        } else if same_text(s, "false") {
            Some(TokenType::False)
        } else if same_text(s, "fun") {
            Some(TokenType::Fun)
        } else if same_text(s, "for") {
            Some(TokenType::For)
        } else if same_text(s, "if") {
            Some(TokenType::If)
        } else if same_text(s, "nil") {
            Some(TokenType::Nil)
        } else if same_text(s, "or") {
            Some(TokenType::Or)
        } else if same_text(s, "print") {
            Some(TokenType::Print)
        } else if same_text(s, "return") {
            Some(TokenType::Return)
        } else if same_text(s, "super") {
            Some(TokenType::Super)
        } else if same_text(s, "this") {
            Some(TokenType::This)
        } else if same_text(s, "true") {
            Some(TokenType::True)
        } else if same_text(s, "var") {
            Some(TokenType::Var)
        } else if same_text(s, "while") {
            Some(TokenType::While)
        } else {
            None
        }
    }

    /// The two-character token that this one forms when followed by `c`.
    pub fn get_extension(&self, c: char) -> (r: Option<TokenType>)
        ensures
            r == extension_of(*self, c),
    {
        match *self {
            TokenType::Bang => if c == '=' { Some(TokenType::BangEqual) } else { None },
            TokenType::Equal => if c == '=' { Some(TokenType::EqualEqual) } else { None },
            TokenType::Greater => if c == '=' { Some(TokenType::GreaterEqual) } else { None },
            TokenType::Less => if c == '=' { Some(TokenType::LessEqual) } else { None },
            TokenType::Slash => if c == '/' { Some(TokenType::DoubleSlash) } else { None },
            _ => None,
        }
    }
}

} // verus!
