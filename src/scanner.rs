use vstd::prelude::*;
use vstd::string::*;
use crate::text::{decimal, decimal_string};
use crate::token::{Token, TokenView, token_views};
use crate::token_type::{
    TokenType, extension_of, is_alpha, is_digit, keyword_of, kind_of_char,
};

verus! {

broadcast use vstd::string::is_ascii_spec_bytes;

/// The first index at or after `i` that does not hold a digit.
pub open spec fn digits_end(s: Seq<char>, i: int) -> int
    decreases s.len() - i,
{
    if 0 <= i < s.len() && is_digit(s[i]) {
        digits_end(s, i + 1)
    } else {
        i
    }
}

/// The first index at or after `i` that does not hold a letter.
pub open spec fn alpha_end(s: Seq<char>, i: int) -> int
    decreases s.len() - i,
{
    if 0 <= i < s.len() && is_alpha(s[i]) {
        alpha_end(s, i + 1)
    } else {
        i
    }
}

/// The first index at or after `i` that holds `c`, or the length of `s`.
pub open spec fn find_char(s: Seq<char>, i: int, c: char) -> int
    decreases s.len() - i,
{
    if 0 <= i < s.len() && s[i] != c {
        find_char(s, i + 1, c)
    } else {
        i
    }
}

/// How many newlines `s` holds from `i` up to, not including, `j`.
pub open spec fn newlines(s: Seq<char>, i: int, j: int) -> nat
    decreases j - i,
{
    if i < j {
        newlines(s, i, j - 1) + if s[j - 1] == '\n' { 1nat } else { 0nat }
    } else {
        0
    }
}

/// The end of the number literal that starts at `i`: its digits, then a
/// fractional part if a dot is followed by a digit.
pub open spec fn number_end(s: Seq<char>, i: int) -> int {
    let d = digits_end(s, i + 1);
    if d + 1 < s.len() && s[d] == '.' && is_digit(s[d + 1]) {
        digits_end(s, d + 1)
    } else {
        d
    }
}

/// The error for a character that begins no token.
pub open spec fn unexpected_message(c: char, line: nat) -> Seq<char> {
    "unexpected token: "@ + seq![c] + ", at line: "@ + decimal(line)
}

/// The error for a string literal without its closing quote.
pub open spec fn unterminated_message(line: nat) -> Seq<char> {
    "uneterminated string literal at line: "@ + decimal(line)
}

/// The outcome of scanning one lexeme: where scanning resumes, the line
/// there, and the token or the error it produced.
pub struct LexStep {
    pub next: int,
    pub line: nat,
    pub token: Option<TokenView>,
    pub error: Option<Seq<char>>,
}

/// A step that emits a token and resumes at `next`.
pub open spec fn emit(next: int, line: nat, kind: TokenType, lexeme: Seq<char>, literal: Seq<char>) -> LexStep {
    LexStep {
        next,
        line,
        token: Some(TokenView { kind, lexeme, literal, line }),
        error: None,
    }
}

/// Scans the lexeme that starts at index `i` on line `line`.
pub open spec fn lex_step(s: Seq<char>, i: int, line: nat) -> LexStep {
    let c = s[i];
    match kind_of_char(c) {
        None => LexStep { next: i + 1, line, token: None, error: Some(unexpected_message(c, line)) },
        Some(k) => if k == TokenType::String {
            let close = find_char(s, i + 1, '"');
            let l = line + newlines(s, i + 1, close);
            if close >= s.len() {
                LexStep { next: s.len() as int, line: l, token: None, error: Some(unterminated_message(l)) }
            } else {
                emit(close + 1, l, k, s.subrange(i, close + 1), s.subrange(i + 1, close))
            }
        } else if k == TokenType::Number {
            let e = number_end(s, i);
            emit(e, line, k, s.subrange(i, e), s.subrange(i, e))
        } else if k == TokenType::Identifier {
            let e = alpha_end(s, i + 1);
            let word = s.subrange(i, e);
            let kind = match keyword_of(word) {
                Some(w) => w,
                None => k,
            };
            emit(e, line, kind, word, word)
        } else if k == TokenType::Ignore {
            LexStep { next: i + 1, line: if c == '\n' { line + 1 } else { line }, token: None, error: None }
        } else if i + 1 < s.len() && extension_of(k, s[i + 1]) is Some {
            let e = extension_of(k, s[i + 1])->0;
            if e == TokenType::DoubleSlash {
                LexStep { next: find_char(s, i + 2, '\n'), line, token: None, error: None }
            } else {
                emit(i + 2, line, e, s.subrange(i, i + 2), s.subrange(i, i + 2))
            }
        } else {
            emit(i + 1, line, k, s.subrange(i, i + 1), s.subrange(i, i + 1))
        },
    }
}

/// The value of `o`, if any, as a sequence of length zero or one.
pub open spec fn optional<T>(o: Option<T>) -> Seq<T> {
    match o {
        Some(x) => seq![x],
        None => Seq::empty(),
    }
}

/// What scanning from index `i` on line `line` to the end of `s` yields.
pub struct Lexed {
    pub tokens: Seq<TokenView>,
    pub errors: Seq<Seq<char>>,
    pub line: nat,
}

/// Every step moves forward; the guard on `st.next` only makes the
/// recursion's measure plain.
pub open spec fn lex_from(s: Seq<char>, i: int, line: nat) -> Lexed
    decreases s.len() - i,
{
    if 0 <= i < s.len() {
        let st = lex_step(s, i, line);
        if i < st.next <= s.len() {
            let rest = lex_from(s, st.next, st.line);
            Lexed {
                tokens: optional(st.token) + rest.tokens,
                errors: optional(st.error) + rest.errors,
                line: rest.line,
            }
        } else {
            Lexed { tokens: Seq::empty(), errors: Seq::empty(), line }
        }
    } else {
        Lexed { tokens: Seq::empty(), errors: Seq::empty(), line }
    }
}

/// The end-of-input token on line `line`.
pub open spec fn eof_token(line: nat) -> TokenView {
    TokenView { kind: TokenType::Eof, lexeme: Seq::empty(), literal: Seq::empty(), line }
}

/// The tokens of `s`, ending with the end-of-input token.
pub open spec fn scan_tokens_of(s: Seq<char>) -> Seq<TokenView> {
    let r = lex_from(s, 0, 1);
    r.tokens.push(eof_token(r.line))
}

/// The lexical error messages of `s`, in the order they occur.
pub open spec fn scan_errors_of(s: Seq<char>) -> Seq<Seq<char>> {
    lex_from(s, 0, 1).errors
}

/// The texts of a sequence of strings.
pub open spec fn texts(v: Seq<String>) -> Seq<Seq<char>> {
    v.map_values(|e: String| e@)
}

/// Whether the text from index `i` on is made of whitespace and complete
/// tokens only: no stray character, no unterminated string, no comment.
pub open spec fn valid_from(s: Seq<char>, i: int) -> bool
    decreases s.len() - i,
{
    if i < 0 || i >= s.len() {
        true
    } else if s[i] == '"' {
        let close = find_char(s, i + 1, '"');
        i < close < s.len() && valid_from(s, close + 1)
    } else if s[i] == '/' && i + 1 < s.len() && s[i + 1] == '/' {
        false
    } else {
        kind_of_char(s[i]) is Some && valid_from(s, i + 1)
    }
}

/// A whole text made of whitespace and complete tokens only.
pub open spec fn valid_source(s: Seq<char>) -> bool {
    valid_from(s, 0)
}

proof fn lemma_digits_end(s: Seq<char>, i: int)
    requires
        0 <= i <= s.len(),
    ensures
        i <= digits_end(s, i) <= s.len(),
        forall|k: int| i <= k < digits_end(s, i) ==> is_digit(#[trigger] s[k]),
    decreases s.len() - i,
{
    if i < s.len() && is_digit(s[i]) {
        lemma_digits_end(s, i + 1);
    }
}

proof fn lemma_alpha_end(s: Seq<char>, i: int)
    requires
        0 <= i <= s.len(),
    ensures
        i <= alpha_end(s, i) <= s.len(),
        forall|k: int| i <= k < alpha_end(s, i) ==> is_alpha(#[trigger] s[k]),
    decreases s.len() - i,
{
    if i < s.len() && is_alpha(s[i]) {
        lemma_alpha_end(s, i + 1);
    }
}

proof fn lemma_find_char(s: Seq<char>, i: int, c: char)
    requires
        0 <= i <= s.len(),
    ensures
        i <= find_char(s, i, c) <= s.len(),
    decreases s.len() - i,
{
    if i < s.len() && s[i] != c {
        lemma_find_char(s, i + 1, c);
    }
}

/// Characters that are neither quotes nor slashes keep a valid text valid
/// past them.
proof fn lemma_valid_skip(s: Seq<char>, i: int, j: int)
    requires
        0 <= i <= j <= s.len(),
        valid_from(s, i),
        forall|k: int| i <= k < j ==> #[trigger] s[k] != '"' && s[k] != '/',
    ensures
        valid_from(s, j),
    decreases j - i,
{
    if i < j {
        lemma_valid_skip(s, i + 1, j);
    }
}

/// Scanning a valid text from `i` records no error and no end-of-input
/// token.
proof fn lemma_valid_lex(s: Seq<char>, i: int, line: nat)
    requires
        0 <= i <= s.len(),
        valid_from(s, i),
    ensures
        lex_from(s, i, line).errors == Seq::<Seq<char>>::empty(),
        forall|k: int|
            0 <= k < lex_from(s, i, line).tokens.len() ==> #[trigger] lex_from(s, i, line).tokens[k].kind
                != TokenType::Eof,
    decreases s.len() - i,
{
    if i < s.len() {
        let c = s[i];
        let st = lex_step(s, i, line);
        let k = kind_of_char(c)->0;
        if k == TokenType::String {
            lemma_find_char(s, i + 1, '"');
        } else if k == TokenType::Number {
            lemma_digits_end(s, i + 1);
            let d = digits_end(s, i + 1);
            if d + 1 < s.len() && s[d] == '.' && is_digit(s[d + 1]) {
                lemma_digits_end(s, d + 1);
            }
            lemma_valid_skip(s, i, st.next);
        } else if k == TokenType::Identifier {
            lemma_alpha_end(s, i + 1);
            lemma_valid_skip(s, i, st.next);
        } else if k == TokenType::Ignore {
        } else if i + 1 < s.len() && extension_of(k, s[i + 1]) is Some {
            lemma_valid_skip(s, i, i + 2);
        }
        if i < st.next <= s.len() {
            lemma_valid_lex(s, st.next, st.line);
            let rest = lex_from(s, st.next, st.line);
            assert(lex_from(s, i, line).errors =~= optional(st.error) + rest.errors);
            assert(lex_from(s, i, line).tokens == optional(st.token) + rest.tokens);
        }
    }
}

/// A text made of whitespace and valid tokens only scans without errors,
/// and its tokens end with the one and only end-of-input token.
pub proof fn lemma_valid_source_scans_cleanly(s: Seq<char>)
    requires
        valid_source(s),
    ensures
        scan_errors_of(s) == Seq::<Seq<char>>::empty(),
        scan_tokens_of(s).last().kind == TokenType::Eof,
        forall|k: int|
            0 <= k < scan_tokens_of(s).len() - 1 ==> #[trigger] scan_tokens_of(s)[k].kind != TokenType::Eof,
{
    lemma_valid_lex(s, 0, 1);
}

/// Turns source text into tokens. Only ASCII text is supported.
pub struct Scanner {
    source: String,
    errors: Vec<String>,
    start: usize,
    current: usize,
    line: u32,
}

fn is_digit_char(c: char) -> (r: bool)
    ensures
        r == is_digit(c),
{
    '0' <= c && c <= '9'
}

fn is_alpha_char(c: char) -> (r: bool)
    ensures
        r == is_alpha(c),
{
    ('a' <= c && c <= 'z') || ('A' <= c && c <= 'Z')
}

impl Scanner {
    /// The source text being scanned.
    pub closed spec fn text(&self) -> Seq<char> {
        self.source@
    }

    /// The errors recorded by the last scan.
    pub closed spec fn error_texts(&self) -> Seq<Seq<char>> {
        texts(self.errors@)
    }

    pub closed spec fn wf(&self) -> bool {
        &&& self.source.is_ascii()
        &&& self.source@.len() < u32::MAX
        &&& self.start <= self.current <= self.source@.len()
        &&& 1 <= self.line <= 1 + self.current
    }

    /// A scanner over `source`, which must be ASCII text. Lines are counted
    /// in a `u32`, so the text is shorter than `u32::MAX` characters.
    pub fn new(source: String) -> (r: Scanner)
        requires
            source.is_ascii(),
            source@.len() < u32::MAX,
        ensures
            r.wf(),
            r.text() == source@,
            r.error_texts() == Seq::<Seq<char>>::empty(),
    {
        Scanner { source, errors: Vec::new(), start: 0, current: 0, line: 1 }
    }

    fn is_eof(&self) -> (r: bool)
        requires
            self.wf(),
        ensures
            r == (self.current >= self.source@.len()),
    {
        self.current >= self.len()
    }

    fn len(&self) -> (r: usize)
        requires
            self.wf(),
        ensures
            r == self.source@.len(),
    {
        let s = self.source.as_str();
        proof {
            assert(vstd::string::is_ascii(s));
        }
        s.len()
    }

    fn char_at(&self, i: usize) -> (c: char)
        requires
            self.wf(),
            i < self.source@.len(),
        ensures
            c == self.source@[i as int],
    {
        self.source.as_str().get_ascii(i) as char
    }

    fn advance(&mut self) -> (c: char)
        requires
            old(self).wf(),
            old(self).current < old(self).source@.len(),
        ensures
            c == old(self).source@[old(self).current as int],
            *final(self) == (Scanner { current: (old(self).current + 1) as usize, ..*old(self) }),
    {
        let c = self.char_at(self.current);
        self.current = self.current + 1;
        c
    }

    fn eat_digits(&mut self)
        requires
            old(self).wf(),
        ensures
            final(self).current >= old(self).current,
            final(self).wf(),
            *final(self) == (Scanner { current: final(self).current, ..*old(self) }),
            final(self).current == digits_end(old(self).source@, old(self).current as int),
    {
        let ghost c0 = self.current as int;
        while is_digit_char(self.peek())
            invariant
                self.wf(),
                self.source == old(self).source,
                self.errors == old(self).errors,
                self.start == old(self).start,
                self.line == old(self).line,
                c0 <= self.current,
                digits_end(self.source@, c0) == digits_end(self.source@, self.current as int),
            decreases self.source@.len() - self.current,
        {
            self.advance();
        }
    }

    /// Moves the cursor past the rest of a number literal.
    fn eat_number(&mut self)
        requires
            old(self).wf(),
            old(self).start + 1 == old(self).current,
        ensures
            final(self).current >= old(self).current,
            final(self).wf(),
            *final(self) == (Scanner { current: final(self).current, ..*old(self) }),
            final(self).current == number_end(old(self).source@, old(self).start as int),
    {
        self.eat_digits();
        if self.peek() == '.' && is_digit_char(self.peek_next()) {
            self.advance();
            self.eat_digits();
        }
    }

    /// Moves the cursor past the rest of a word.
    fn eat_identifier(&mut self)
        requires
            old(self).wf(),
        ensures
            final(self).current >= old(self).current,
            final(self).wf(),
            *final(self) == (Scanner { current: final(self).current, ..*old(self) }),
            final(self).current == alpha_end(old(self).source@, old(self).current as int),
    {
        let ghost c0 = self.current as int;
        while is_alpha_char(self.peek())
            invariant
                self.wf(),
                self.source == old(self).source,
                self.errors == old(self).errors,
                self.start == old(self).start,
                self.line == old(self).line,
                c0 <= self.current,
                alpha_end(self.source@, c0) == alpha_end(self.source@, self.current as int),
            decreases self.source@.len() - self.current,
        {
            self.advance();
        }
    }

    /// Moves the cursor to the end of the line.
    fn eat_comment(&mut self)
        requires
            old(self).wf(),
        ensures
            final(self).current >= old(self).current,
            final(self).wf(),
            *final(self) == (Scanner { current: final(self).current, ..*old(self) }),
            final(self).current == find_char(old(self).source@, old(self).current as int, '\n'),
    {
        let ghost c0 = self.current as int;
        while !self.is_eof() && self.peek() != '\n'
            invariant
                self.wf(),
                self.source == old(self).source,
                self.errors == old(self).errors,
                self.start == old(self).start,
                self.line == old(self).line,
                c0 <= self.current,
                find_char(self.source@, c0, '\n') == find_char(self.source@, self.current as int, '\n'),
            decreases self.source@.len() - self.current,
        {
            self.advance();
        }
    }

    /// Moves the cursor past the closing quote of a string literal, counting
    /// the lines it spans. Without a closing quote, records an error and
    /// stops at the end of the text; returns whether the quote was found.
    fn eat_string(&mut self) -> (closed: bool)
        requires
            old(self).wf(),
        ensures
            ({
                let s = old(self).source@;
                let close = find_char(s, old(self).current as int, '"');
                let l = (old(self).line + newlines(s, old(self).current as int, close)) as nat;
                &&& final(self).wf()
                &&& final(self).source == old(self).source
                &&& final(self).start == old(self).start
                &&& final(self).line == l
                &&& closed == (close < s.len())
                &&& closed ==> final(self).current == close + 1
                &&& closed ==> close >= old(self).current
                &&& closed ==> final(self).errors == old(self).errors
                &&& !closed ==> final(self).current == s.len()
                &&& !closed ==> final(self).error_texts() == old(self).error_texts().push(unterminated_message(l))
            }),
    {
        let ghost c0 = self.current as int;
        while !self.is_eof() && self.peek() != '"'
            invariant
                self.wf(),
                self.source == old(self).source,
                self.errors == old(self).errors,
                self.start == old(self).start,
                c0 <= self.current,
                find_char(self.source@, c0, '"') == find_char(self.source@, self.current as int, '"'),
                self.line == old(self).line + newlines(self.source@, c0, self.current as int),
            decreases self.source@.len() - self.current,
        {
            let c = self.advance();
            if c == '\n' {
                self.line = self.line + 1;
            }
        }
        if self.is_eof() {
            let mut m = String::from_str("uneterminated string literal at line: ");
            let l = decimal_string(self.line);
            m.append(l.as_str());
            self.errors.push(m);
            proof {
                assert(texts(self.errors@) =~= texts(old(self).errors@).push(m@));
            }
            return false;
        }
        self.advance();
        true
    }

    /// Records an unexpected character, the one just consumed.
    fn unexpected(&mut self)
        requires
            old(self).wf(),
            old(self).current > 0,
        ensures
            *final(self) == (Scanner { errors: final(self).errors, ..*old(self) }),
            final(self).error_texts() == old(self).error_texts().push(
                unexpected_message(old(self).source@[old(self).current - 1], old(self).line as nat),
            ),
    {
        let ghost s = self.source@;
        let ghost i = self.current - 1;
        let mut m = String::from_str("unexpected token: ");
        m.append(self.source.as_str().substring_ascii(self.current - 1, self.current));
        m.append(", at line: ");
        let l = decimal_string(self.line);
        m.append(l.as_str());
        proof {
            assert(s.subrange(i, i + 1) =~= seq![s[i]]);
        }
        self.errors.push(m);
        proof {
            assert(texts(self.errors@) =~= texts(old(self).errors@).push(m@));
        }
    }

    /// The text from the start of the current lexeme up to the cursor.
    fn lexeme(&self) -> (r: &str)
        requires
            self.wf(),
        ensures
            r@ == self.source@.subrange(self.start as int, self.current as int),
    {
        self.source.as_str().substring_ascii(self.start, self.current)
    }

    /// Appends a token of category `kind` for the current lexeme.
    fn add_token(&self, kind: TokenType, tokens: &mut Vec<Token>)
        requires
            self.wf(),
            kind == TokenType::String ==> self.start + 2 <= self.current,
        ensures
            ({
                let s = self.source@;
                let lexeme = s.subrange(self.start as int, self.current as int);
                let literal = if kind == TokenType::String {
                    s.subrange(self.start + 1, self.current - 1)
                } else {
                    lexeme
                };
                token_views(final(tokens)@) == token_views(old(tokens)@).push(
                    TokenView { kind, lexeme, literal, line: self.line as nat },
                )
            }),
    {
        let lexeme = self.lexeme();
        let literal = if kind == TokenType::String {
            self.source.as_str().substring_ascii(self.start + 1, self.current - 1)
        } else {
            lexeme
        };
        tokens.push(
            Token {
                kind,
                lexeme: String::from_str(lexeme),
                literal: String::from_str(literal),
                line: self.line,
            },
        );
        proof {
            let t = tokens@[tokens@.len() - 1];
            assert(token_views(tokens@) =~= token_views(old(tokens)@).push(t@));
        }
    }

    /// Scans the lexeme that starts at the cursor.
    fn scan_token(&mut self, tokens: &mut Vec<Token>)
        requires
            old(self).wf(),
            old(self).current < old(self).source@.len(),
        ensures
            ({
                let st = lex_step(old(self).source@, old(self).current as int, old(self).line as nat);
                &&& final(self).wf()
                &&& final(self).source == old(self).source
                &&& final(self).current == st.next
                &&& final(self).current > old(self).current
                &&& final(self).line == st.line
                &&& token_views(final(tokens)@) == token_views(old(tokens)@) + optional(st.token)
                &&& final(self).error_texts() == old(self).error_texts() + optional(st.error)
            }),
    {
        let ghost s = self.source@;
        let ghost i = self.current as int;
        self.start = self.current;
        let c = self.advance();
        let kind = match TokenType::from_char(c) {
            Some(k) => k,
            None => {
                self.unexpected();
                proof {
                    assert(self.error_texts() =~= old(self).error_texts() + optional(
                        lex_step(s, i, old(self).line as nat).error,
                    ));
                    assert(token_views(tokens@) =~= token_views(old(tokens)@) + Seq::empty());
                }
                return;
            },
        };
        match kind {
            TokenType::String => {
                if self.eat_string() {
                    self.add_token(TokenType::String, tokens);
                    proof {
                        assert(self.error_texts() =~= old(self).error_texts() + Seq::empty());
                    }
                } else {
                    proof {
                        assert(token_views(tokens@) =~= token_views(old(tokens)@) + Seq::empty());
                    }
                }
                return;
            },
            TokenType::Number => {
                self.eat_number();
                self.add_token(TokenType::Number, tokens);
                proof {
                    assert(self.error_texts() =~= old(self).error_texts() + Seq::empty());
                }
                return;
            },
            TokenType::Identifier => {
                self.eat_identifier();
                let word = self.lexeme();
                let k = match kind.get_identifier(word) {
                    Some(w) => w,
                    None => TokenType::Identifier,
                };
                self.add_token(k, tokens);
                proof {
                    assert(self.error_texts() =~= old(self).error_texts() + Seq::empty());
                }
                return;
            },
            TokenType::Ignore => {
                if c == '\n' {
                    self.line = self.line + 1;
                }
                proof {
                    assert(self.error_texts() =~= old(self).error_texts() + Seq::empty());
                    assert(token_views(tokens@) =~= token_views(old(tokens)@) + Seq::empty());
                }
                return;
            },
            _ => {},
        }
        proof {
            assert(self.error_texts() =~= old(self).error_texts() + Seq::empty());
        }
        if self.is_eof() {
            self.add_token(kind, tokens);
            return;
        }
        let nc = self.peek();
        match kind.get_extension(nc) {
            Some(e) => {
                self.advance();
                if e == TokenType::DoubleSlash {
                    self.eat_comment();
                    proof {
                        assert(token_views(tokens@) =~= token_views(old(tokens)@) + Seq::empty());
                    }
                    return;
                }
                self.add_token(e, tokens);
            },
            None => {
                self.add_token(kind, tokens);
            },
        }
    }

    /// Scans the whole text from its beginning, and returns its tokens,
    /// ending with the end-of-input token. The errors found are kept for
    /// `get_errors`.
    pub fn scan_tokens(&mut self) -> (r: Vec<Token>)
        requires
            old(self).wf(),
        ensures
            final(self).wf(),
            final(self).text() == old(self).text(),
            token_views(r@) == scan_tokens_of(old(self).text()),
            final(self).error_texts() == scan_errors_of(old(self).text()),
    {
        let ghost s = self.source@;
        self.errors = Vec::new();
        self.start = 0;
        self.current = 0;
        self.line = 1;
        let mut tokens: Vec<Token> = Vec::new();
        proof {
            assert(token_views(tokens@) =~= Seq::<TokenView>::empty());
            assert(self.error_texts() =~= Seq::<Seq<char>>::empty());
        }
        while !self.is_eof()
            invariant
                self.wf(),
                self.source@ == s,
                token_views(tokens@) + lex_from(s, self.current as int, self.line as nat).tokens
                    == lex_from(s, 0, 1).tokens,
                self.error_texts() + lex_from(s, self.current as int, self.line as nat).errors
                    == lex_from(s, 0, 1).errors,
                lex_from(s, self.current as int, self.line as nat).line == lex_from(s, 0, 1).line,
            decreases s.len() - self.current,
        {
            let ghost before = token_views(tokens@);
            let ghost errs_before = self.error_texts();
            let ghost i = self.current as int;
            let ghost line = self.line as nat;
            self.scan_token(&mut tokens);
            proof {
                let st = lex_step(s, i, line);
                let rest = lex_from(s, st.next, st.line);
                assert(lex_from(s, i, line).tokens == optional(st.token) + rest.tokens);
                assert(before + (optional(st.token) + rest.tokens) =~= (before + optional(st.token))
                    + rest.tokens);
                assert(errs_before + (optional(st.error) + rest.errors) =~= (errs_before + optional(
                    st.error,
                )) + rest.errors);
            }
        }
        let ghost fin = lex_from(s, self.current as int, self.line as nat);
        assert(token_views(tokens@) =~= token_views(tokens@) + fin.tokens);
        assert(self.error_texts() =~= self.error_texts() + fin.errors);
        tokens.push(Token { kind: TokenType::Eof, lexeme: String::new(), literal: String::new(), line: self.line });
        proof {
            let t = tokens@[tokens@.len() - 1];
            assert(token_views(tokens@) =~= lex_from(s, 0, 1).tokens.push(t@));
        }
        tokens
    }

    /// The lexical errors that the last scan found, in order.
    pub fn get_errors(&self) -> (r: Vec<String>)
        ensures
            texts(r@) == self.error_texts(),
    {
        let mut r: Vec<String> = Vec::new();
        let mut i: usize = 0;
        while i < self.errors.len()
            invariant
                i <= self.errors@.len(),
                texts(r@) == texts(self.errors@.subrange(0, i as int)),
            decreases self.errors@.len() - i,
        {
            let ghost before = r@;
            let e = self.errors[i].clone();
            r.push(e);
            proof {
                let x = self.errors@[i as int];
                assert(self.errors@.subrange(0, i + 1) =~= self.errors@.subrange(0, i as int).push(x));
                assert(texts(r@) =~= texts(before).push(x@));
                assert(texts(self.errors@.subrange(0, i as int).push(x)) =~= texts(
                    self.errors@.subrange(0, i as int),
                ).push(x@));
            }
            i = i + 1;
        }
        assert(self.errors@.subrange(0, i as int) =~= self.errors@);
        r
    }

    fn peek(&self) -> (c: char)
        requires
            self.wf(),
        ensures
            c == if self.current < self.source@.len() { self.source@[self.current as int] } else { '\0' },
    {
        if self.current < self.len() {
            self.char_at(self.current)
        } else {
            '\0'
        }
    }

    fn peek_next(&self) -> (c: char)
        requires
            self.wf(),
        ensures
            c == if self.current + 1 < self.source@.len() {
                self.source@[self.current + 1]
            } else {
                '\0'
            },
    {
        if self.current + 1 < self.len() {
            self.char_at(self.current + 1)
        } else {
            '\0'
        }
    }
}

} // verus!
