//! The scanner: source bytes to tokens, one token per call.
//!
//! Two properties of the token stream are stated on `scan_token` itself:
//! the tokens tile the source (each token's span starts where the skipped
//! whitespace and comments after the previous token end, and ends at the
//! scanner's position), so concatenating the spans in order reconstructs
//! the source minus whitespace and comments; and the line number never
//! decreases from one token to the next.

use vstd::prelude::*;
use vstd::string::StrSliceExecFns;
use vstd::string::StringSliceAdditionalSpecFns;
use crate::token::Token;
use crate::token::TokenType;

verus! {

/// Space, tab, carriage return or newline.
pub open spec fn is_ws_byte(b: u8) -> bool {
    b == 0x20 || b == 0x09 || b == 0x0D || b == 0x0A
}

/// Byte `j` may be skipped when scanning resumes at `from`: it is
/// whitespace, or it sits in a comment opened by a `#` at or after
/// `from` with no newline in between.
pub open spec fn skippable_at(src: Seq<u8>, from: int, j: int) -> bool {
    ||| is_ws_byte(src[j])
    ||| exists|k: int|
        {
            &&& from <= k <= j
            &&& src[k] == 0x23u8
            &&& forall|l: int| k < l <= j ==> src[l] != 0x0Au8
        }
}

pub open spec fn is_alpha_byte(b: u8) -> bool {
    (0x41 <= b <= 0x5A) || (0x61 <= b <= 0x7A) || b == 0x5F
}

pub open spec fn is_digit_byte(b: u8) -> bool {
    0x30 <= b <= 0x39
}

/// The token kinds an identifier-shaped lexeme can scan to: a plain
/// identifier or one of the keywords.
pub open spec fn is_word_kind(t: TokenType) -> bool {
    ||| t == TokenType::Identifier
    ||| t == TokenType::If
    ||| t == TokenType::Else
    ||| t == TokenType::While
    ||| t == TokenType::True
    ||| t == TokenType::False
    ||| t == TokenType::FN
    ||| t == TokenType::Return
    ||| t == TokenType::Puts
}

/// Single-lookahead scanner over the source bytes.
#[derive(Debug, Clone)]
pub struct Scanner {
    pub code: Vec<u8>,
    pub start: usize,
    pub current: usize,
    pub line: usize,
}

impl Scanner {
    pub open spec fn wf(self) -> bool {
        &&& self.start <= self.code.len()
        &&& self.current <= self.code.len()
        &&& self.code.len() == self.code@.len()
        &&& self.line >= 1
    }

    pub fn new(code: &str, _debug_mode: bool) -> (r: Scanner)
        ensures
            r.code@ == code.spec_bytes(),
            r.wf(),
            r.current == 0,
            r.line == 1,
    {
        Scanner { code: code.as_bytes_vec(), start: 0, current: 0, line: 1 }
    }

    /// The byte at the scanner's position, or 0 at the end.
    pub fn peek(&self) -> (r: u8)
        requires
            self.wf(),
        ensures
            r == if self.current < self.code@.len() {
                self.code@[self.current as int]
            } else {
                0u8
            },
    {
        if self.current < self.code.len() {
            self.code[self.current]
        } else {
            0
        }
    }

    /// The byte one past the scanner's position, or 0 at the end.
    pub fn peek_next(&self) -> (r: u8)
        requires
            self.wf(),
        ensures
            r == if self.current + 1 < self.code@.len() {
                self.code@[self.current + 1]
            } else {
                0u8
            },
    {
        if self.current < self.code.len() && self.current + 1 < self.code.len() {
            self.code[self.current + 1]
        } else {
            0
        }
    }

    /// Consumes and returns the byte at the scanner's position; at the
    /// end it returns 0 and stays put.
    pub fn advance(&mut self) -> (r: u8)
        requires
            old(self).wf(),
        ensures
            final(self).wf(),
            final(self).code == old(self).code,
            final(self).start == old(self).start,
            final(self).line == old(self).line,
            old(self).current < old(self).code@.len() ==> {
                &&& final(self).current == old(self).current + 1
                &&& r == old(self).code@[old(self).current as int]
            },
            old(self).current >= old(self).code@.len() ==> final(self).current == old(
                self,
            ).current && r == 0u8,
    {
        if self.current < self.code.len() {
            let c = self.code[self.current];
            self.current = self.current + 1;
            c
        } else {
            0
        }
    }

    /// True when the byte at the scanner's position is `c`.
    pub fn matches(&self, c: u8) -> (r: bool)
        requires
            self.wf(),
        ensures
            r == (self.current < self.code@.len() && self.code@[self.current as int] == c),
    {
        self.current < self.code.len() && self.code[self.current] == c
    }

    /// True when the byte at the position is an ASCII digit.
    fn at_digit(&self) -> (r: bool)
        requires
            self.wf(),
        ensures
            r == (self.current < self.code@.len() && is_digit_byte(
                self.code@[self.current as int],
            )),
    {
        self.current < self.code.len() && 0x30 <= self.code[self.current] && self.code[self.current]
            <= 0x39
    }

    /// True when the byte at the position may continue an identifier.
    fn at_ident_part(&self) -> (r: bool)
        requires
            self.wf(),
        ensures
            r == (self.current < self.code@.len() && (is_alpha_byte(self.code@[self.current as int])
                || is_digit_byte(self.code@[self.current as int]))),
    {
        if self.current >= self.code.len() {
            return false;
        }
        let b = self.code[self.current];
        (0x41 <= b && b <= 0x5A) || (0x61 <= b && b <= 0x7A) || b == 0x5F || (0x30 <= b && b
            <= 0x39)
    }

    fn is_at_end(&self) -> (r: bool)
        ensures
            r == (self.current >= self.code@.len()),
    {
        self.current >= self.code.len()
    }

    /// Copies `self.code[a..b]` out as the captured text of a token.
    fn capture(&self, a: usize, b: usize) -> (r: Vec<u8>)
        requires
            a <= b <= self.code@.len(),
        ensures
            r@ == self.code@.subrange(a as int, b as int),
    {
        let mut out: Vec<u8> = Vec::new();
        let mut i = a;
        while i < b
            invariant
                a <= i <= b <= self.code@.len(),
                out@ == self.code@.subrange(a as int, i as int),
            decreases b - i,
        {
            out.push(self.code[i]);
            i = i + 1;
        }
        proof {
            assert(out@ =~= self.code@.subrange(a as int, b as int));
        }
        out
    }

    /// An ERROR token carrying `message`, spanning the current lexeme.
    pub fn err_token(&self, message: &str) -> (r: Token)
        ensures
            r.token_type == TokenType::ERROR,
            r.lexeme.start == self.start,
            r.lexeme.end == self.current,
            r.line == self.line,
    {
        Token::text_token(TokenType::ERROR, (self.start, self.current), message.as_bytes_vec(), self.line)
    }

    /// A token without captured text, spanning the current lexeme.
    pub fn basic_token(&self, token_type: TokenType) -> (r: Token)
        ensures
            r.token_type == token_type,
            r.lexeme.start == self.start,
            r.lexeme.end == self.current,
            r.lexeme.txt is None,
            r.line == self.line,
    {
        Token::basic_token(token_type, (self.start, self.current), self.line)
    }

    /// A token that captures `lextext`, spanning the current lexeme.
    pub fn text_token(&self, token_type: TokenType, lextext: Vec<u8>) -> (r: Token)
        ensures
            r.token_type == token_type,
            r.lexeme.start == self.start,
            r.lexeme.end == self.current,
            r.lexeme.txt == Some(lextext),
            r.line == self.line,
    {
        Token::text_token(token_type, (self.start, self.current), lextext, self.line)
    }

    /// True when scanning should skip the byte at the position: it is
    /// whitespace or it opens a comment.
    fn at_skippable(&self) -> (r: bool)
        requires
            self.wf(),
        ensures
            r == (self.current < self.code@.len() && (is_ws_byte(self.code@[self.current as int])
                || self.code@[self.current as int] == 0x23u8)),
    {
        if self.current >= self.code.len() {
            return false;
        }
        let b = self.code[self.current];
        b == 0x20 || b == 0x09 || b == 0x0D || b == 0x0A || b == 0x23
    }

    /// Skips whitespace and `#` comments, counting newlines.
    fn skip_whitespace(&mut self)
        requires
            old(self).wf(),
        ensures
            final(self).wf(),
            final(self).code == old(self).code,
            final(self).start == old(self).start,
            old(self).current <= final(self).current <= final(self).code@.len(),
            final(self).line >= old(self).line,
            forall|j: int|
                old(self).current <= j < final(self).current ==> skippable_at(
                    final(self).code@,
                    old(self).current as int,
                    j,
                ),
            final(self).current < final(self).code@.len() ==> !is_ws_byte(
                final(self).code@[final(self).current as int],
            ) && final(self).code@[final(self).current as int] != 0x23u8,
    {
        let ghost from = self.current as int;
        while self.at_skippable()
            invariant
                self.wf(),
                self.code == old(self).code,
                self.start == old(self).start,
                from == old(self).current,
                old(self).current <= self.current <= self.code@.len(),
                self.line >= old(self).line,
                forall|j: int| from <= j < self.current ==> skippable_at(self.code@, from, j),
            decreases self.code@.len() - self.current,
        {
            let b = self.code[self.current];
            if b == 0x0A {
                if self.line < usize::MAX {
                    self.line = self.line + 1;
                }
                self.current = self.current + 1;
            } else if b == 0x23 {
                // A comment runs to the end of the line (or the file).
                let ghost k = self.current as int;
                self.current = self.current + 1;
                while self.current < self.code.len() && self.code[self.current] != 0x0A
                    invariant
                        self.wf(),
                        self.code == old(self).code,
                        self.start == old(self).start,
                        from == old(self).current,
                        self.line >= old(self).line,
                        from <= k < self.current <= self.code@.len(),
                        self.code@[k] == 0x23u8,
                        forall|l: int| k < l < self.current ==> self.code@[l] != 0x0Au8,
                        forall|j: int| from <= j < k ==> skippable_at(self.code@, from, j),
                    decreases self.code@.len() - self.current,
                {
                    self.current = self.current + 1;
                }
                proof {
                    assert forall|j: int| from <= j < self.current implies skippable_at(
                        self.code@,
                        from,
                        j,
                    ) by {
                        if k <= j {
                            assert(self.code@[k] == 0x23u8);
                            assert(forall|l: int| k < l <= j ==> self.code@[l] != 0x0Au8);
                        }
                    }
                }
            } else {
                self.current = self.current + 1;
            }
        }
    }

    fn consume(&mut self, c: u8) -> (r: bool)
        requires
            old(self).wf(),
        ensures
            final(self).wf(),
            final(self).code == old(self).code,
            final(self).start == old(self).start,
            final(self).line == old(self).line,
            r == (old(self).current < old(self).code@.len() && old(self).code@[old(
                self,
            ).current as int] == c),
            r ==> final(self).current == old(self).current + 1,
            !r ==> final(self).current == old(self).current,
    {
        if self.matches(c) {
            let _ = self.advance();
            true
        } else {
            false
        }
    }

    /// Scans one token. The token's span begins where skipping ends:
    /// every byte between the scanner's old position and the span is
    /// whitespace or comment, the span ends at the new position, and the
    /// line number never decreases. EOF comes back exactly when skipping
    /// exhausts the source; every other token covers at least one byte,
    /// so the scanner always advances, and the byte a token starts on
    /// fixes its class: a digit scans as a number, a letter or underscore
    /// as an identifier or keyword, a quote as a string or a lex error.
    pub fn scan_token(&mut self) -> (r: Token)
        requires
            old(self).wf(),
        ensures
            final(self).wf(),
            final(self).code == old(self).code,
            old(self).current <= final(self).current <= final(self).code@.len(),
            final(self).line >= old(self).line,
            r.line == final(self).line,
            r.lexeme.end == final(self).current,
            old(self).current <= r.lexeme.start <= final(self).current,
            forall|j: int|
                old(self).current <= j < r.lexeme.start ==> skippable_at(
                    final(self).code@,
                    old(self).current as int,
                    j,
                ),
            (r.token_type == TokenType::EOF) <==> (r.lexeme.start == final(self).code@.len()),
            r.token_type == TokenType::EOF ==> final(self).current == final(self).code@.len(),
            r.token_type != TokenType::EOF ==> r.lexeme.start < final(self).current,
            r.token_type != TokenType::EOF ==> is_digit_byte(
                final(self).code@[r.lexeme.start as int],
            ) == (r.token_type == TokenType::Number),
            r.token_type != TokenType::EOF && is_alpha_byte(
                final(self).code@[r.lexeme.start as int],
            ) ==> is_word_kind(r.token_type),
            r.token_type != TokenType::EOF && final(self).code@[r.lexeme.start as int] == 0x22u8
                ==> r.token_type == TokenType::String || r.token_type == TokenType::ERROR,
            r.token_type == TokenType::Number ==> r.lexeme.txt is Some
                && crate::numtext::is_number_lexeme(r.lexeme.txt->0@) && r.lexeme.txt->0@
                == final(self).code@.subrange(r.lexeme.start as int, r.lexeme.end as int),
            r.token_type == TokenType::Identifier ==> r.lexeme.txt is Some && r.lexeme.txt->0@
                == final(self).code@.subrange(r.lexeme.start as int, r.lexeme.end as int),
    {
        self.skip_whitespace();
        self.start = self.current;
        if self.is_at_end() {
            return Token::basic_token(TokenType::EOF, (self.start, self.current), self.line);
        }
        let c = self.advance();
        if (0x41 <= c && c <= 0x5A) || (0x61 <= c && c <= 0x7A) || c == 0x5F {
            self.scan_identifier()
        } else if 0x30 <= c && c <= 0x39 {
            self.scan_number()
        } else if c == 0x28 {
            self.basic_token(TokenType::LeftParen)
        } else if c == 0x29 {
            self.basic_token(TokenType::RightParen)
        } else if c == 0x7B {
            self.basic_token(TokenType::LeftBrace)
        } else if c == 0x7D {
            self.basic_token(TokenType::RightBrace)
        } else if c == 0x5B {
            self.basic_token(TokenType::LeftBracket)
        } else if c == 0x5D {
            self.basic_token(TokenType::RightBracket)
        } else if c == 0x2C {
            self.basic_token(TokenType::Comma)
        } else if c == 0x2D {
            self.basic_token(TokenType::Minus)
        } else if c == 0x2B {
            self.basic_token(TokenType::Plus)
        } else if c == 0x3B {
            self.basic_token(TokenType::Semicolon)
        } else if c == 0x2F {
            self.basic_token(TokenType::Slash)
        } else if c == 0x5E {
            self.basic_token(TokenType::Caret)
        } else if c == 0x22 {
            self.scan_string()
        } else if c == 0x2A {
            // `*` or the pipeline arrow `*>`.
            if self.consume(0x3E) {
                self.basic_token(TokenType::MapPipe)
            } else {
                self.basic_token(TokenType::Star)
            }
        } else if c == 0x21 {
            if self.consume(0x3D) {
                self.basic_token(TokenType::NEqual)
            } else {
                self.basic_token(TokenType::Bang)
            }
        } else if c == 0x3D {
            if self.consume(0x3D) {
                self.basic_token(TokenType::EqEqual)
            } else {
                self.basic_token(TokenType::Equal)
            }
        } else if c == 0x3C {
            if self.consume(0x3D) {
                self.basic_token(TokenType::LEqual)
            } else {
                self.basic_token(TokenType::Less)
            }
        } else if c == 0x3E {
            if self.consume(0x3D) {
                self.basic_token(TokenType::GEqual)
            } else {
                self.basic_token(TokenType::Greater)
            }
        } else if c == 0x26 {
            if self.consume(0x26) {
                self.basic_token(TokenType::AndAnd)
            } else if self.consume(0x3E) {
                self.basic_token(TokenType::Reduce)
            } else {
                self.err_token("expected &&")
            }
        } else if c == 0x7C {
            if self.consume(0x7C) {
                self.basic_token(TokenType::OrOr)
            } else if self.consume(0x3E) {
                self.basic_token(TokenType::Pipe)
            } else {
                self.err_token("expected || or |>")
            }
        } else {
            self.err_token("Unexpected character")
        }
    }

    /// Scans the rest of a string literal; the opening quote is already
    /// consumed. The captured text is the contents without the quotes.
    fn scan_string(&mut self) -> (r: Token)
        requires
            old(self).wf(),
            old(self).start < old(self).current <= old(self).code@.len(),
        ensures
            final(self).wf(),
            final(self).code == old(self).code,
            final(self).start == old(self).start,
            old(self).current <= final(self).current <= final(self).code@.len(),
            final(self).line >= old(self).line,
            r.line == final(self).line,
            r.lexeme.start == final(self).start,
            r.lexeme.end == final(self).current,
            r.token_type == TokenType::String || r.token_type == TokenType::ERROR,
    {
        while !self.is_at_end() && !self.matches(0x22)
            invariant
                self.wf(),
                self.code == old(self).code,
                self.start == old(self).start,
                old(self).current <= self.current <= self.code@.len(),
                self.line >= old(self).line,
            decreases self.code@.len() - self.current,
        {
            if self.matches(0x0A) {
                if self.line < usize::MAX {
                    self.line = self.line + 1;
                }
            }
            let _ = self.advance();
        }
        if self.is_at_end() {
            return self.err_token("Unterminated string");
        }
        let _ = self.advance();  // the closing quote
        let str_start = self.start + 1;
        let str_end = self.current - 1;
        let text = self.capture(str_start, str_end);
        self.text_token(TokenType::String, text)
    }

    /// Scans the rest of a number literal; the first digit is already
    /// consumed. The captured text has the shape digits or digits.digits.
    fn scan_number(&mut self) -> (r: Token)
        requires
            old(self).wf(),
            old(self).start + 1 == old(self).current,
            old(self).current <= old(self).code@.len(),
            old(self).start < old(self).code@.len(),
            is_digit_byte(old(self).code@[old(self).start as int]),
        ensures
            final(self).wf(),
            final(self).code == old(self).code,
            final(self).start == old(self).start,
            old(self).current <= final(self).current <= final(self).code@.len(),
            final(self).line == old(self).line,
            r.line == final(self).line,
            r.lexeme.start == final(self).start,
            r.lexeme.end == final(self).current,
            r.token_type == TokenType::Number,
            r.lexeme.txt is Some,
            r.lexeme.txt->0@ == final(self).code@.subrange(
                final(self).start as int,
                final(self).current as int,
            ),
            crate::numtext::is_number_lexeme(r.lexeme.txt->0@),
    {
        while self.at_digit()
            invariant
                self.wf(),
                self.code == old(self).code,
                self.start == old(self).start,
                self.line == old(self).line,
                old(self).current <= self.current <= self.code@.len(),
                forall|j: int|
                    self.start < j < self.current ==> is_digit_byte(#[trigger] self.code@[j]),
            decreases self.code@.len() - self.current,
        {
            self.current = self.current + 1;
        }
        let ghost dot_pos = self.current as int;
        let mut has_frac = false;
        if self.matches(0x2E) && self.current + 1 < self.code.len() {
            let nb = self.code[self.current + 1];
            if 0x30 <= nb && nb <= 0x39 {
                has_frac = true;
                self.current = self.current + 2;
                while self.at_digit()
                    invariant
                        self.wf(),
                        self.code == old(self).code,
                        self.start == old(self).start,
                        self.line == old(self).line,
                        old(self).current <= self.current <= self.code@.len(),
                        self.start < dot_pos,
                        dot_pos + 1 < self.current,
                        self.code@[dot_pos] == 0x2Eu8,
                        forall|j: int|
                            self.start < j < self.current && j != dot_pos ==> is_digit_byte(
                                #[trigger] self.code@[j],
                            ),
                    decreases self.code@.len() - self.current,
                {
                    self.current = self.current + 1;
                }
            }
        }
        let text = self.capture(self.start, self.current);
        proof {
            let t = text@;
            let s = self.start as int;
            let c = self.current as int;
            assert(t.len() == c - s);
            assert(t[0] == self.code@[s]);
            if has_frac {
                let d = dot_pos - s;
                assert(t[d] == self.code@[dot_pos]);
                assert(forall|i: int| 0 <= i < t.len() && i != d ==> is_digit_byte(#[trigger] t[i]));
                assert(crate::numtext::is_number_lexeme(t));
            } else {
                assert(forall|i: int| 0 <= i < t.len() ==> is_digit_byte(#[trigger] t[i]));
                assert(crate::numtext::is_number_lexeme(t));
            }
        }
        self.text_token(TokenType::Number, text)
    }

    /// Scans the rest of an identifier or keyword; the first byte is
    /// already consumed.
    fn scan_identifier(&mut self) -> (r: Token)
        requires
            old(self).wf(),
            old(self).start < old(self).current <= old(self).code@.len(),
        ensures
            final(self).wf(),
            final(self).code == old(self).code,
            final(self).start == old(self).start,
            old(self).current <= final(self).current <= final(self).code@.len(),
            final(self).line == old(self).line,
            r.line == final(self).line,
            r.lexeme.start == final(self).start,
            r.lexeme.end == final(self).current,
            is_word_kind(r.token_type),
            r.token_type == TokenType::Identifier ==> r.lexeme.txt is Some && r.lexeme.txt->0@
                == final(self).code@.subrange(
                final(self).start as int,
                final(self).current as int,
            ),
    {
        while self.at_ident_part()
            invariant
                self.wf(),
                self.code == old(self).code,
                self.start == old(self).start,
                self.line == old(self).line,
                old(self).current <= self.current <= self.code@.len(),
            decreases self.code@.len() - self.current,
        {
            self.current = self.current + 1;
        }
        let text = self.capture(self.start, self.current);
        let token_type = Self::identifier_type(&text);
        self.text_token(token_type, text)
    }

    /// Keywords are told apart from plain identifiers by their text.
    fn identifier_type(text: &Vec<u8>) -> (r: TokenType)
        ensures
            r == TokenType::Identifier || r == TokenType::If || r == TokenType::Else || r
                == TokenType::While || r == TokenType::True || r == TokenType::False || r
                == TokenType::FN || r == TokenType::Return || r == TokenType::Puts,
    {
        let n = text.len();
        if n == 2 && text[0] == 0x69 && text[1] == 0x66 {
            TokenType::If
        } else if n == 4 && text[0] == 0x65 && text[1] == 0x6C && text[2] == 0x73 && text[3]
            == 0x65 {
            TokenType::Else
        } else if n == 5 && text[0] == 0x77 && text[1] == 0x68 && text[2] == 0x69 && text[3]
            == 0x6C && text[4] == 0x65 {
            TokenType::While
        } else if n == 4 && text[0] == 0x74 && text[1] == 0x72 && text[2] == 0x75 && text[3]
            == 0x65 {
            TokenType::True
        } else if n == 5 && text[0] == 0x66 && text[1] == 0x61 && text[2] == 0x6C && text[3]
            == 0x73 && text[4] == 0x65 {
            TokenType::False
        } else if n == 2 && text[0] == 0x66 && text[1] == 0x6E {
            TokenType::FN
        } else if n == 6 && text[0] == 0x72 && text[1] == 0x65 && text[2] == 0x74 && text[3]
            == 0x75 && text[4] == 0x72 && text[5] == 0x6E {
            TokenType::Return
        } else if n == 4 && text[0] == 0x70 && text[1] == 0x75 && text[2] == 0x74 && text[3]
            == 0x73 {
            TokenType::Puts
        } else {
            TokenType::Identifier
        }
    }
}

} // verus!
