use vstd::prelude::*;
use vstd::string::*;
use crate::token_type::{TokenType, kind_name};

verus! {

/// A lexeme of the source together with its category, the value it
/// denotes as text, and the line it ends on.
#[derive(Debug, PartialEq, Clone)]
pub struct Token {
    pub kind: TokenType,
    pub lexeme: String,
    pub literal: String,
    pub line: u32,
}

/// What a token holds, as mathematical values.
pub struct TokenView {
    pub kind: TokenType,
    pub lexeme: Seq<char>,
    pub literal: Seq<char>,
    pub line: nat,
}

impl View for Token {
    type V = TokenView;

    open spec fn view(&self) -> TokenView {
        TokenView {
            kind: self.kind,
            lexeme: self.lexeme@,
            literal: self.literal@,
            line: self.line as nat,
        }
    }
}

/// The views of a sequence of tokens.
pub open spec fn token_views(ts: Seq<Token>) -> Seq<TokenView> {
    ts.map_values(|t: Token| t@)
}

/// The one-line listing of a token: its category, lexeme and literal.
pub open spec fn token_listing(t: TokenView) -> Seq<char> {
    kind_name(t.kind) + " "@ + t.lexeme + " "@ + t.literal
}

impl Token {
    /// A copy of this token.
    pub fn copy(&self) -> (r: Token)
        ensures
            r == *self,
    {
        Token {
            kind: self.kind,
            lexeme: self.lexeme.clone(),
            literal: self.literal.clone(),
            line: self.line,
        }
    }

    /// The token's listing, as in "Bang ! !".
    pub fn to_string(&self) -> (r: String)
        ensures
            r@ == token_listing(self@),
    {
        let mut s = String::from_str(self.kind.as_str());
        s.append(" ");
        s.append(self.lexeme.as_str());
        s.append(" ");
        s.append(self.literal.as_str());
        s
    }
}

} // verus!
