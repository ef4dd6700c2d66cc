//! Tokens of the Weave language.

use vstd::prelude::*;
use crate::parse_rule::ParseRule;
use crate::precedence::Precedence;

verus! {

/// Every kind of token the scanner emits.
#[derive(PartialEq, Eq, Clone, Copy, Debug, Structural)]
pub enum TokenType {
    // Single-character tokens.
    LeftParen,
    RightParen,
    LeftBrace,
    RightBrace,
    LeftBracket,
    RightBracket,
    Comma,
    Minus,
    Plus,
    Semicolon,
    Slash,
    Star,
    Caret,
    // One or two character tokens.
    Bang,
    NEqual,
    Equal,
    EqEqual,
    Greater,
    GEqual,
    Less,
    LEqual,
    // Logical operators.
    AndAnd,
    OrOr,
    // Pipeline tokens.
    Pipe,
    MapPipe,
    Reduce,
    // Literals.
    Identifier,
    String,
    Number,
    Container,
    // Keywords.
    If,
    Else,
    While,
    True,
    False,
    FN,
    Return,
    Puts,
    // Terminations.
    ERROR,
    EOF,
}

/// Two lexemes carry the same span and the same text.
pub open spec fn lexeme_eqv(a: Lexeme, b: Lexeme) -> bool {
    &&& a.start == b.start
    &&& a.end == b.end
    &&& (a.txt is Some <==> b.txt is Some)
    &&& (a.txt is Some ==> a.txt->0@ == b.txt->0@)
}

/// Two tokens agree on kind, span, text and line.
pub open spec fn tok_eqv(a: Token, b: Token) -> bool {
    &&& a.token_type == b.token_type
    &&& lexeme_eqv(a.lexeme, b.lexeme)
    &&& a.line == b.line
}

/// The span of a token in the source, with the captured text for tokens
/// that carry one (identifiers, numbers, strings, error messages).
#[derive(PartialEq, Eq, Debug)]
pub struct Lexeme {
    pub start: usize,
    pub end: usize,
    pub txt: Option<Vec<u8>>,
}

impl Clone for Lexeme {
    /// A clone keeps the span and the text.
    fn clone(&self) -> (r: Lexeme)
        ensures
            lexeme_eqv(r, *self),
    {
        Lexeme {
            start: self.start,
            end: self.end,
            txt: match &self.txt {
                Some(t) => Some(crate::bytes::copy_bytes(t)),
                None => None,
            },
        }
    }
}

impl Lexeme {
    pub fn new(start: usize, end: usize, txt: Option<Vec<u8>>) -> (r: Lexeme)
        ensures
            r.start == start,
            r.end == end,
            r.txt == txt,
    {
        Lexeme { start, end, txt }
    }

    /// The captured text of a text token.
    pub fn lexeme(&self) -> (r: &Vec<u8>)
        requires
            self.txt is Some,
        ensures
            r == self.txt->0,
    {
        match &self.txt {
            Some(t) => t,
            None => unreached(),
        }
    }

    /// Whether the token captured any text.
    pub fn has_text(&self) -> (r: bool)
        ensures
            r == (self.txt is Some),
    {
        self.txt.is_some()
    }
}

/// One token: its kind, its span and text, and its 1-based source line.
#[derive(PartialEq, Eq, Debug)]
pub struct Token {
    pub token_type: TokenType,
    pub lexeme: Lexeme,
    pub line: usize,
}

impl Clone for Token {
    /// A clone keeps the kind, the span, the text and the line.
    fn clone(&self) -> (r: Token)
        ensures
            tok_eqv(r, *self),
    {
        Token { token_type: self.token_type, lexeme: self.lexeme.clone(), line: self.line }
    }
}

impl Token {
    /// A token without captured text, spanning `span` on line `line`.
    pub fn basic_token(token_type: TokenType, span: (usize, usize), line: usize) -> (r: Token)
        ensures
            r.token_type == token_type,
            r.lexeme.start == span.0,
            r.lexeme.end == span.1,
            r.lexeme.txt is None,
            r.line == line,
    {
        Token { token_type, lexeme: Lexeme { start: span.0, end: span.1, txt: None }, line }
    }

    /// A token that captures text (an identifier, number, string or error
    /// message).
    pub fn text_token(token_type: TokenType, span: (usize, usize), lextext: Vec<u8>, line: usize)
        -> (r: Token)
        ensures
            r.token_type == token_type,
            r.lexeme.start == span.0,
            r.lexeme.end == span.1,
            r.lexeme.txt == Some(lextext),
            r.line == line,
    {
        Token {
            token_type,
            lexeme: Lexeme { start: span.0, end: span.1, txt: Some(lextext) },
            line,
        }
    }
}

impl TokenType {
    /// The infix binding strength of this token, from the parse table.
    pub fn precedence(&self) -> (r: Precedence)
        ensures
            r == ParseRule::spec_for_token(*self).precedence,
    {
        ParseRule::for_token(*self).precedence
    }
}

} // verus!
