use vstd::prelude::*;
use vstd::string::*;
use crate::ast::{Expr, LiteralType};
use crate::error::{RakiError, RakiErrorView};
use crate::token::Token;
use crate::scanner::{scan_errors_of, scan_tokens_of};
use crate::token_type::TokenType;

verus! {

/// A token sequence the parser can walk: it ends with the end-of-input
/// token.
pub open spec fn ends_with_eof(ts: Seq<Token>) -> bool {
    ts.len() > 0 && ts.last().kind == TokenType::Eof
}

/// The outcome of parsing one production: the tree or the error, and the
/// position parsing stopped at.
pub struct Parsed {
    pub result: Result<Expr, RakiErrorView>,
    pub pos: int,
}

pub open spec fn result_view(r: Result<Expr, RakiError>) -> Result<Expr, RakiErrorView> {
    match r {
        Ok(e) => Ok(e),
        Err(e) => Err(e@),
    }
}

/// The syntax error reported at token `t`.
pub open spec fn error_at(t: Token, message: Seq<char>) -> RakiErrorView {
    RakiErrorView::Syntax {
        line: t.line as nat,
        at: if t.kind == TokenType::Eof { "at end"@ } else { "at "@ + t.lexeme@ },
        message,
    }
}

/// Whether `k` is an operator of binary precedence level `level`: 4 is
/// equality, 3 comparison, 2 addition and 1 multiplication.
pub open spec fn binary_operator(level: nat, k: TokenType) -> bool {
    if level == 4 {
        k == TokenType::BangEqual || k == TokenType::EqualEqual
    } else if level == 3 {
        k == TokenType::Greater || k == TokenType::GreaterEqual || k == TokenType::Less || k
            == TokenType::LessEqual
    } else if level == 2 {
        k == TokenType::Plus || k == TokenType::Minus
    } else {
        k == TokenType::Star || k == TokenType::Slash
    }
}

/// Whether a position returned by a sub-production lies in `[from, len)`.
pub open spec fn within(ts: Seq<Token>, from: int, q: int) -> bool {
    from <= q < ts.len()
}

// The productions below are total functions of a position. The guards
// named `within` keep each recursion's measure plain: a sub-production
// never moves backward and never leaves the sequence, as the contracts of
// the parser's methods show for every position they reach.

/// expression -> comma
pub open spec fn p_expression(ts: Seq<Token>, p: int) -> Parsed
    decreases ts.len() - p, 13int,
{
    if 0 <= p < ts.len() {
        p_comma(ts, p)
    } else {
        Parsed { result: Err(RakiErrorView::Runtime), pos: p }
    }
}

/// comma -> ternary ( "," expression )?, whose value is the last operand
pub open spec fn p_comma(ts: Seq<Token>, p: int) -> Parsed
    decreases ts.len() - p, 12int,
{
    if 0 <= p < ts.len() {
        let t = p_ternary(ts, p);
        match t.result {
            Ok(_) => if within(ts, p, t.pos) && ts[t.pos].kind == TokenType::Comma {
                p_expression(ts, t.pos + 1)
            } else {
                t
            },
            Err(_) => t,
        }
    } else {
        Parsed { result: Err(RakiErrorView::Runtime), pos: p }
    }
}

/// ternary -> binary4 ( "?" expression ":" ternary )?
pub open spec fn p_ternary(ts: Seq<Token>, p: int) -> Parsed
    decreases ts.len() - p, 11int,
{
    if 0 <= p < ts.len() {
        let c = p_binary(ts, p, 4);
        match c.result {
            Ok(condition) => if within(ts, p, c.pos) && ts[c.pos].kind == TokenType::QuestionMark {
                let l = p_expression(ts, c.pos + 1);
                match l.result {
                    Ok(left) => if !within(ts, c.pos + 1, l.pos) {
                        l
                    } else if ts[l.pos].kind == TokenType::DoubleDot {
                        let r = p_ternary(ts, l.pos + 1);
                        match r.result {
                            Ok(right) => Parsed {
                                result: Ok(
                                    Expr::Ternary {
                                        condition: Box::new(condition),
                                        left: Box::new(left),
                                        right: Box::new(right),
                                    },
                                ),
                                pos: r.pos,
                            },
                            Err(_) => r,
                        }
                    } else {
                        Parsed {
                            result: Err(error_at(ts[l.pos], "Expect ':' after ternary operator"@)),
                            pos: l.pos,
                        }
                    },
                    Err(_) => l,
                }
            } else {
                c
            },
            Err(_) => c,
        }
    } else {
        Parsed { result: Err(RakiErrorView::Runtime), pos: p }
    }
}

/// The operand of a binary level: the next tighter level, or a unary
/// expression below multiplication.
pub open spec fn p_operand(ts: Seq<Token>, p: int, level: nat) -> Parsed
    decreases ts.len() - p, 2 * level + 1,
{
    if 0 <= p < ts.len() && 1 <= level <= 4 {
        if level == 1 {
            p_unary(ts, p)
        } else {
            p_binary(ts, p, (level - 1) as nat)
        }
    } else {
        Parsed { result: Err(RakiErrorView::Runtime), pos: p }
    }
}

/// binary(level) -> operand ( op operand )*, folded to the left
pub open spec fn p_binary(ts: Seq<Token>, p: int, level: nat) -> Parsed
    decreases ts.len() - p, 2 * level + 2,
{
    if 0 <= p < ts.len() && 1 <= level <= 4 {
        let first = p_operand(ts, p, level);
        match first.result {
            Ok(e) => if within(ts, p, first.pos) {
                p_binary_rest(ts, first.pos, level, e)
            } else {
                first
            },
            Err(_) => first,
        }
    } else {
        Parsed { result: Err(RakiErrorView::Runtime), pos: p }
    }
}

/// The rest of a binary level from position `p`, after the tree `left`.
pub open spec fn p_binary_rest(ts: Seq<Token>, p: int, level: nat, left: Expr) -> Parsed
    decreases ts.len() - p, 2 * level + 1,
{
    if 0 <= p < ts.len() && 1 <= level <= 4 {
        if binary_operator(level, ts[p].kind) {
            let right = p_operand(ts, p + 1, level);
            match right.result {
                Ok(r) => if within(ts, p + 1, right.pos) {
                    p_binary_rest(
                        ts,
                        right.pos,
                        level,
                        Expr::Binary { left: Box::new(left), right: Box::new(r), operator: ts[p] },
                    )
                } else {
                    right
                },
                Err(_) => right,
            }
        } else {
            Parsed { result: Ok(left), pos: p }
        }
    } else {
        Parsed { result: Err(RakiErrorView::Runtime), pos: p }
    }
}

/// unary -> ( "!" | "-" ) unary | primary
pub open spec fn p_unary(ts: Seq<Token>, p: int) -> Parsed
    decreases ts.len() - p, 1int,
{
    if 0 <= p < ts.len() {
        if ts[p].kind == TokenType::Bang || ts[p].kind == TokenType::Minus {
            let r = p_unary(ts, p + 1);
            match r.result {
                Ok(right) => Parsed {
                    result: Ok(Expr::Unary { right: Box::new(right), operator: ts[p] }),
                    pos: r.pos,
                },
                Err(_) => r,
            }
        } else {
            p_primary(ts, p)
        }
    } else {
        Parsed { result: Err(RakiErrorView::Runtime), pos: p }
    }
}

/// primary -> NUMBER | STRING | "true" | "false" | "nil" | "(" expression ")"
pub open spec fn p_primary(ts: Seq<Token>, p: int) -> Parsed
    decreases ts.len() - p, 0int,
{
    if 0 <= p < ts.len() {
        let t = ts[p];
        if t.kind == TokenType::False {
            Parsed { result: Ok(Expr::Literal { value: LiteralType::Bool(false) }), pos: p + 1 }
        } else if t.kind == TokenType::True {
            Parsed { result: Ok(Expr::Literal { value: LiteralType::Bool(true) }), pos: p + 1 }
        } else if t.kind == TokenType::Nil {
            Parsed { result: Ok(Expr::Literal { value: LiteralType::Nil }), pos: p + 1 }
        } else if t.kind == TokenType::Number {
            Parsed { result: Ok(Expr::Literal { value: LiteralType::Number(t.literal) }), pos: p + 1 }
        } else if t.kind == TokenType::String {
            Parsed { result: Ok(Expr::Literal { value: LiteralType::String(t.literal) }), pos: p + 1 }
        } else if t.kind == TokenType::LeftParen {
            let e = p_expression(ts, p + 1);
            match e.result {
                Ok(inner) => if !within(ts, p + 1, e.pos) {
                    e
                } else if ts[e.pos].kind == TokenType::RightParen {
                    Parsed { result: Ok(Expr::Grouping { expr: Box::new(inner) }), pos: e.pos + 1 }
                } else {
                    Parsed {
                        result: Err(error_at(ts[e.pos], "Expect ')' after expression."@)),
                        pos: e.pos,
                    }
                },
                Err(_) => e,
            }
        } else {
            Parsed { result: Err(error_at(t, "Expect expression."@)), pos: p }
        }
    } else {
        Parsed { result: Err(RakiErrorView::Runtime), pos: p }
    }
}

/// Whether a token of kind `k` begins a statement.
pub open spec fn starts_statement(k: TokenType) -> bool {
    k == TokenType::Class || k == TokenType::Fun || k == TokenType::Var || k == TokenType::For || k
        == TokenType::If || k == TokenType::While || k == TokenType::Print || k == TokenType::Return
}

/// Where skipping tokens from `p` stops: at the end of input, just after a
/// `;`, or before a token that begins a statement.
pub open spec fn sync_from(ts: Seq<Token>, p: int) -> int
    decreases ts.len() - p,
{
    if 0 < p < ts.len() && ts[p].kind != TokenType::Eof && ts[p - 1].kind != TokenType::Semicolon
        && !starts_statement(ts[p].kind) {
        sync_from(ts, p + 1)
    } else {
        p
    }
}

/// One step forward, except at the end of input.
pub open spec fn step_from(ts: Seq<Token>, p: int) -> int {
    if ts[p].kind == TokenType::Eof {
        p
    } else {
        p + 1
    }
}

/// Where parsing resumes after a syntax error at `p`.
pub open spec fn synchronize_from(ts: Seq<Token>, p: int) -> int {
    sync_from(ts, step_from(ts, p))
}

/// The trees and the syntax errors of the top-level expressions from `p`.
pub struct ParseOutcome {
    pub exprs: Seq<Expr>,
    pub errors: Seq<RakiErrorView>,
}

pub open spec fn parse_from(ts: Seq<Token>, p: int) -> ParseOutcome
    decreases ts.len() - p,
{
    if 0 <= p < ts.len() {
        let r = p_expression(ts, p);
        let (here, err, q) = match r.result {
            Ok(e) => (seq![e], Seq::empty(), r.pos),
            Err(x) => (Seq::empty(), seq![x], synchronize_from(ts, r.pos)),
        };
        if !within(ts, p, q) || ts[q].kind == TokenType::Eof {
            ParseOutcome { exprs: here, errors: err }
        } else {
            let rest = parse_from(ts, q + 1);
            ParseOutcome { exprs: here + rest.exprs, errors: err + rest.errors }
        }
    } else {
        ParseOutcome { exprs: Seq::empty(), errors: Seq::empty() }
    }
}

/// The top-level expressions of a token sequence, with the syntax errors
/// met on the way.
pub open spec fn parse_tokens(ts: Seq<Token>) -> ParseOutcome {
    parse_from(ts, 0)
}

/// Scanning and parsing hold no hidden state: scanning one text twice gives
/// the same tokens and errors, and parsing one token sequence twice gives
/// the same trees and errors.
pub proof fn lemma_front_end_repeatable(a: Seq<char>, b: Seq<char>, ts: Seq<Token>, us: Seq<Token>)
    requires
        a == b,
        ts == us,
    ensures
        scan_tokens_of(a) == scan_tokens_of(b),
        scan_errors_of(a) == scan_errors_of(b),
        parse_tokens(ts) == parse_tokens(us),
{
}

/// A recursive-descent parser over a token sequence that ends with the
/// end-of-input token.
pub struct Parser {
    tokens: Vec<Token>,
    current: usize,
    errors: Vec<RakiError>,
}

pub open spec fn error_views(v: Seq<RakiError>) -> Seq<RakiErrorView> {
    v.map_values(|e: RakiError| e@)
}

impl Parser {
    /// The tokens being parsed.
    pub closed spec fn token_seq(&self) -> Seq<Token> {
        self.tokens@
    }

    /// The syntax errors met by the last parse.
    pub closed spec fn error_seq(&self) -> Seq<RakiErrorView> {
        error_views(self.errors@)
    }

    pub closed spec fn wf(&self) -> bool {
        ends_with_eof(self.tokens@) && self.current < self.tokens@.len()
    }

    /// A parser over `tokens`, which must end with the end-of-input token.
    pub fn new(tokens: Vec<Token>) -> (r: Parser)
        requires
            ends_with_eof(tokens@),
        ensures
            r.wf(),
            r.token_seq() == tokens@,
            r.error_seq() == Seq::<RakiErrorView>::empty(),
    {
        let r = Parser { tokens, current: 0, errors: Vec::new() };
        assert(r.error_seq() =~= Seq::<RakiErrorView>::empty());
        r
    }

    /// Parses every top-level expression, from the first token to the end.
    /// A syntax error ends the expression it occurs in; parsing resumes at
    /// the next safe point. The errors met are kept for `get_errors`.
    pub fn parse(&mut self) -> (r: Vec<Expr>)
        requires
            old(self).wf(),
        ensures
            final(self).wf(),
            final(self).token_seq() == old(self).token_seq(),
            r@ == parse_tokens(old(self).token_seq()).exprs,
            final(self).error_seq() == parse_tokens(old(self).token_seq()).errors,
    {
        let ghost ts = self.tokens@;
        self.current = 0;
        self.errors = Vec::new();
        let mut exprs: Vec<Expr> = Vec::new();
        proof {
            assert(self.error_seq() =~= Seq::<RakiErrorView>::empty());
            assert(exprs@ =~= Seq::<Expr>::empty());
        }
        loop
            invariant_except_break
                exprs@ + parse_from(ts, self.current as int).exprs == parse_from(ts, 0).exprs,
                self.error_seq() + parse_from(ts, self.current as int).errors == parse_from(
                    ts,
                    0,
                ).errors,
            invariant
                self.wf(),
                self.tokens@ == ts,
            ensures
                self.wf(),
                self.tokens@ == ts,
                exprs@ == parse_from(ts, 0).exprs,
                self.error_seq() == parse_from(ts, 0).errors,
            decreases ts.len() - self.current,
        {
            let ghost p = self.current as int;
            let ghost before = exprs@;
            let ghost errs_before = self.error_seq();
            let r = self.expression();
            let ghost here: Seq<Expr>;
            let ghost err: Seq<RakiErrorView>;
            match r {
                Ok(e) => {
                    exprs.push(e);
                    proof {
                        here = seq![e];
                        err = Seq::empty();
                    }
                },
                Err(x) => {
                    proof {
                        here = Seq::empty();
                        err = seq![x@];
                    }
                    self.errors.push(x);
                    self.synchronize();
                },
            }
            proof {
                assert(exprs@ =~= before + here);
                assert(self.error_seq() =~= errs_before + err);
            }
            if self.is_eof() {
                proof {
                    assert(exprs@ =~= before + parse_from(ts, p).exprs);
                    assert(self.error_seq() =~= errs_before + parse_from(ts, p).errors);
                }
                break;
            }
            let ghost q = self.current as int;
            self.advance();
            proof {
                let rest = parse_from(ts, q + 1);
                assert(parse_from(ts, p).exprs == here + rest.exprs);
                assert(before + (here + rest.exprs) =~= (before + here) + rest.exprs);
                assert(errs_before + (err + rest.errors) =~= (errs_before + err) + rest.errors);
            }
        }
        exprs
    }

    /// The syntax errors that the last parse met, in order.
    pub fn get_errors(&self) -> (r: Vec<RakiError>)
        ensures
            error_views(r@) == self.error_seq(),
    {
        let mut r: Vec<RakiError> = Vec::new();
        let mut i: usize = 0;
        while i < self.errors.len()
            invariant
                i <= self.errors@.len(),
                r@ == self.errors@.subrange(0, i as int),
            decreases self.errors@.len() - i,
        {
            r.push(self.errors[i].copy());
            proof {
                assert(r@ =~= self.errors@.subrange(0, i + 1));
            }
            i = i + 1;
        }
        assert(self.errors@.subrange(0, i as int) =~= self.errors@);
        r
    }

    fn expression(&mut self) -> (r: Result<Expr, RakiError>)
        requires
            old(self).wf(),
        ensures
            final(self).wf(),
            final(self).tokens == old(self).tokens,
            final(self).errors == old(self).errors,
            final(self).current >= old(self).current,
            ({
                let s = p_expression(old(self).tokens@, old(self).current as int);
                result_view(r) == s.result && final(self).current == s.pos
            }),
        decreases old(self).tokens@.len() - old(self).current, 13int,
    {
        self.comma()
    }

    fn comma(&mut self) -> (r: Result<Expr, RakiError>)
        requires
            old(self).wf(),
        ensures
            final(self).wf(),
            final(self).tokens == old(self).tokens,
            final(self).errors == old(self).errors,
            final(self).current >= old(self).current,
            ({
                let s = p_comma(old(self).tokens@, old(self).current as int);
                result_view(r) == s.result && final(self).current == s.pos
            }),
        decreases old(self).tokens@.len() - old(self).current, 12int,
    {
        let expr = self.ternary();
        match expr {
            Ok(e) => {
                if self.peek().kind == TokenType::Comma {
                    self.advance();
                    self.expression()
                } else {
                    Ok(e)
                }
            },
            Err(x) => Err(x),
        }
    }

    fn ternary(&mut self) -> (r: Result<Expr, RakiError>)
        requires
            old(self).wf(),
        ensures
            final(self).wf(),
            final(self).tokens == old(self).tokens,
            final(self).errors == old(self).errors,
            final(self).current >= old(self).current,
            ({
                let s = p_ternary(old(self).tokens@, old(self).current as int);
                result_view(r) == s.result && final(self).current == s.pos
            }),
        decreases old(self).tokens@.len() - old(self).current, 11int,
    {
        let condition = match self.binary(4) {
            Ok(c) => c,
            Err(x) => return Err(x),
        };
        if self.peek().kind != TokenType::QuestionMark {
            return Ok(condition);
        }
        self.advance();
        let left = match self.expression() {
            Ok(l) => l,
            Err(x) => return Err(x),
        };
        if self.peek().kind != TokenType::DoubleDot {
            return Err(self.error(self.peek(), "Expect ':' after ternary operator"));
        }
        self.advance();
        let right = match self.ternary() {
            Ok(r) => r,
            Err(x) => return Err(x),
        };
        Ok(Expr::Ternary { condition: Box::new(condition), left: Box::new(left), right: Box::new(right) })
    }

    fn is_binary_operator(&self, level: u8) -> (r: bool)
        requires
            self.wf(),
        ensures
            r == binary_operator(level as nat, self.tokens@[self.current as int].kind),
    {
        let k = self.peek().kind;
        if level == 4 {
            k == TokenType::BangEqual || k == TokenType::EqualEqual
        } else if level == 3 {
            k == TokenType::Greater || k == TokenType::GreaterEqual || k == TokenType::Less || k
                == TokenType::LessEqual
        } else if level == 2 {
            k == TokenType::Plus || k == TokenType::Minus
        } else {
            k == TokenType::Star || k == TokenType::Slash
        }
    }

    fn operand(&mut self, level: u8) -> (r: Result<Expr, RakiError>)
        requires
            old(self).wf(),
            1 <= level <= 4,
        ensures
            final(self).wf(),
            final(self).tokens == old(self).tokens,
            final(self).errors == old(self).errors,
            final(self).current >= old(self).current,
            ({
                let s = p_operand(old(self).tokens@, old(self).current as int, level as nat);
                result_view(r) == s.result && final(self).current == s.pos
            }),
        decreases old(self).tokens@.len() - old(self).current, 2 * level + 1,
    {
        if level == 1 {
            self.unary()
        } else {
            self.binary(level - 1)
        }
    }

    /// Parses one binary level: equality (4), comparison (3), addition (2)
    /// or multiplication (1), folding its operators to the left.
    fn binary(&mut self, level: u8) -> (r: Result<Expr, RakiError>)
        requires
            old(self).wf(),
            1 <= level <= 4,
        ensures
            final(self).wf(),
            final(self).tokens == old(self).tokens,
            final(self).errors == old(self).errors,
            final(self).current >= old(self).current,
            ({
                let s = p_binary(old(self).tokens@, old(self).current as int, level as nat);
                result_view(r) == s.result && final(self).current == s.pos
            }),
        decreases old(self).tokens@.len() - old(self).current, 2 * level + 2,
    {
        let ghost ts = self.tokens@;
        let ghost p = self.current as int;
        let mut expr = match self.operand(level) {
            Ok(e) => e,
            Err(x) => return Err(x),
        };
        while self.is_binary_operator(level)
            invariant
                self.wf(),
                self.tokens == old(self).tokens,
                self.errors == old(self).errors,
                self.current >= p,
                p == old(self).current,
                ts == self.tokens@,
                1 <= level <= 4,
                p_binary(ts, p, level as nat) == p_binary_rest(ts, self.current as int, level as nat, expr),
            decreases ts.len() - self.current,
        {
            let ghost q = self.current as int;
            let operator = self.peek().copy();
            self.advance();
            let right = match self.operand(level) {
                Ok(r) => r,
                Err(x) => return Err(x),
            };
            expr = Expr::Binary { left: Box::new(expr), right: Box::new(right), operator };
        }
        Ok(expr)
    }

    fn unary(&mut self) -> (r: Result<Expr, RakiError>)
        requires
            old(self).wf(),
        ensures
            final(self).wf(),
            final(self).tokens == old(self).tokens,
            final(self).errors == old(self).errors,
            final(self).current >= old(self).current,
            ({
                let s = p_unary(old(self).tokens@, old(self).current as int);
                result_view(r) == s.result && final(self).current == s.pos
            }),
        decreases old(self).tokens@.len() - old(self).current, 1int,
    {
        let k = self.peek().kind;
        if k == TokenType::Bang || k == TokenType::Minus {
            let operator = self.peek().copy();
            self.advance();
            match self.unary() {
                Ok(right) => Ok(Expr::Unary { right: Box::new(right), operator }),
                Err(x) => Err(x),
            }
        } else {
            self.primary()
        }
    }

    fn primary(&mut self) -> (r: Result<Expr, RakiError>)
        requires
            old(self).wf(),
        ensures
            final(self).wf(),
            final(self).tokens == old(self).tokens,
            final(self).errors == old(self).errors,
            final(self).current >= old(self).current,
            ({
                let s = p_primary(old(self).tokens@, old(self).current as int);
                result_view(r) == s.result && final(self).current == s.pos
            }),
        decreases old(self).tokens@.len() - old(self).current, 0int,
    {
        let k = self.peek().kind;
        if k == TokenType::False {
            self.advance();
            Ok(Expr::Literal { value: LiteralType::Bool(false) })
        } else if k == TokenType::True {
            self.advance();
            Ok(Expr::Literal { value: LiteralType::Bool(true) })
        } else if k == TokenType::Nil {
            self.advance();
            Ok(Expr::Literal { value: LiteralType::Nil })
        } else if k == TokenType::Number {
            let text = self.peek().literal.clone();
            self.advance();
            Ok(Expr::Literal { value: LiteralType::Number(text) })
        } else if k == TokenType::String {
            let text = self.peek().literal.clone();
            self.advance();
            Ok(Expr::Literal { value: LiteralType::String(text) })
        } else if k == TokenType::LeftParen {
            self.advance();
            let inner = match self.expression() {
                Ok(e) => e,
                Err(x) => return Err(x),
            };
            if self.peek().kind != TokenType::RightParen {
                return Err(self.error(self.peek(), "Expect ')' after expression."));
            }
            self.advance();
            Ok(Expr::Grouping { expr: Box::new(inner) })
        } else {
            Err(self.error(self.peek(), "Expect expression."))
        }
    }

    /// Skips tokens after a syntax error: past the erroring token, then up
    /// to just after a `;`, to a token that begins a statement, or to the
    /// end of input.
    fn synchronize(&mut self)
        requires
            old(self).wf(),
        ensures
            final(self).wf(),
            final(self).tokens == old(self).tokens,
            final(self).errors == old(self).errors,
            final(self).current == synchronize_from(old(self).tokens@, old(self).current as int),
            final(self).current >= old(self).current,
    {
        let ghost ts = self.tokens@;
        self.advance();
        while !self.is_eof()
            invariant
                self.wf(),
                self.tokens == old(self).tokens,
                self.errors == old(self).errors,
                ts == self.tokens@,
                self.current > 0 || ts[self.current as int].kind == TokenType::Eof,
                self.current >= old(self).current,
                sync_from(ts, self.current as int) == synchronize_from(ts, old(self).current as int),
            decreases ts.len() - self.current,
        {
            if self.previous().kind == TokenType::Semicolon {
                return;
            }
            let k = self.peek().kind;
            if k == TokenType::Class || k == TokenType::Fun || k == TokenType::Var || k
                == TokenType::For || k == TokenType::If || k == TokenType::While || k
                == TokenType::Print || k == TokenType::Return {
                return;
            }
            self.advance();
        }
    }

    fn is_eof(&self) -> (r: bool)
        requires
            self.wf(),
        ensures
            r == (self.tokens@[self.current as int].kind == TokenType::Eof),
    {
        self.peek().kind == TokenType::Eof
    }

    /// Moves one token forward, except at the end of input.
    fn advance(&mut self)
        requires
            old(self).wf(),
        ensures
            final(self).wf(),
            final(self).tokens == old(self).tokens,
            final(self).errors == old(self).errors,
            final(self).current == step_from(old(self).tokens@, old(self).current as int),
    {
        let n = self.tokens.len();
        if !self.is_eof() {
            assert(self.current + 1 < n);
            self.current = self.current + 1;
        }
    }

    fn peek(&self) -> (r: &Token)
        requires
            self.wf(),
        ensures
            *r == self.tokens@[self.current as int],
    {
        &self.tokens[self.current]
    }

    fn previous(&self) -> (r: &Token)
        requires
            self.wf(),
            self.current > 0,
        ensures
            *r == self.tokens@[self.current - 1],
    {
        &self.tokens[self.current - 1]
    }

    /// The syntax error reported at `token`.
    fn error(&self, token: &Token, message: &str) -> (r: RakiError)
        ensures
            r@ == error_at(*token, message@),
    {
        let at = if token.kind == TokenType::Eof {
            String::from_str("at end")
        } else {
            let mut a = String::from_str("at ");
            a.append(token.lexeme.as_str());
            a
        };
        RakiError::Syntax { line: token.line, at, message: String::from_str(message) }
    }
}

} // verus!
