//! The parser window: the scanner plus the token history, of which the
//! compiler only ever reads the current and the previous token.
//!
//! The history keeps line numbers sorted: the newest token (index 0)
//! carries the highest line, so the token stream's line numbers never
//! decrease.

use vstd::prelude::*;
use crate::scanner::Scanner;
use crate::token::Token;
use crate::token::TokenType;
use crate::token::tok_eqv;

verus! {

/// Newer tokens sit at lower indexes and never carry a lower line.
pub open spec fn lines_sorted(tokens: Seq<Token>) -> bool {
    forall|i: int, j: int| 0 <= i <= j < tokens.len() ==> #[trigger] tokens[i].line >= #[trigger] tokens[j].line
}

pub struct Parser {
    pub scanner: Scanner,
    pub tokens: Vec<Token>,
}

impl Parser {
    pub open spec fn wf(self) -> bool {
        &&& self.scanner.wf()
        &&& lines_sorted(self.tokens@)
        &&& self.tokens@.len() > 0 ==> self.tokens@[0].line <= self.scanner.line
    }

    pub fn new(code: &str) -> (r: Parser)
        ensures
            r.wf(),
            r.tokens@.len() == 0,
    {
        Parser { scanner: Scanner::new(code, false), tokens: Vec::new() }
    }

    /// The token at distance `i` back from the newest.
    fn prev(&self, i: usize) -> (r: Token)
        requires
            self.wf(),
        ensures
            i < self.tokens@.len() ==> tok_eqv(r, self.tokens@[i as int]),
            i >= self.tokens@.len() ==> r.token_type == TokenType::ERROR,
    {
        if i < self.tokens.len() {
            let t = &self.tokens[i];
            t.clone()
        } else {
            Token::text_token(TokenType::ERROR, (0, 0), Vec::new(), 0)
        }
    }

    /// The current (most recently scanned) token.
    pub fn peek(&self) -> (r: Token)
        requires
            self.wf(),
        ensures
            self.tokens@.len() > 0 ==> tok_eqv(r, self.tokens@[0]),
            self.tokens@.len() == 0 ==> r.token_type == TokenType::ERROR,
    {
        self.prev(0)
    }

    /// The token before the current one.
    pub fn previous(&self) -> (r: Token)
        requires
            self.wf(),
        ensures
            self.tokens@.len() > 1 ==> tok_eqv(r, self.tokens@[1]),
            self.tokens@.len() <= 1 ==> r.token_type == TokenType::ERROR,
    {
        self.prev(1)
    }

    /// The kind of the current token.
    pub fn peek_type(&self) -> (r: TokenType)
        requires
            self.wf(),
        ensures
            self.tokens@.len() > 0 ==> r == self.tokens@[0].token_type,
            self.tokens@.len() == 0 ==> r == TokenType::ERROR,
    {
        self.peek().token_type
    }

    /// True when the current token has kind `token_type`.
    pub fn cur_is(&self, token_type: TokenType) -> (r: bool)
        requires
            self.wf(),
        ensures
            self.tokens@.len() > 0 ==> r == (self.tokens@[0].token_type == token_type),
            self.tokens@.len() == 0 ==> r == (token_type == TokenType::ERROR),
    {
        self.peek_type() == token_type
    }

    /// Scans the next token. An ERROR token is handed back without being
    /// recorded; at the end of the input, after EOF has been delivered
    /// once, the stream is exhausted and yields `None`. The scanner only
    /// moves forward, and a newly recorded token never carries a lower
    /// line than the tokens before it.
    pub fn next_token(&mut self) -> (r: Option<Token>)
        requires
            old(self).wf(),
        ensures
            final(self).wf(),
            final(self).scanner.code == old(self).scanner.code,
            old(self).scanner.current <= final(self).scanner.current,
            r is None ==> final(self).tokens == old(self).tokens,
            r is Some && r->0.token_type == TokenType::ERROR ==> final(self).tokens == old(
                self,
            ).tokens,
            r is Some && r->0.token_type != TokenType::ERROR ==> {
                &&& final(self).tokens@.len() == old(self).tokens@.len() + 1
                &&& tok_eqv(final(self).tokens@[0], r->0)
                &&& final(self).tokens@.subrange(1, final(self).tokens@.len() as int) == old(
                    self,
                ).tokens@
            },
    {
        let next_tok = self.scanner.scan_token();
        if next_tok.token_type == TokenType::EOF {
            if self.peek().token_type == TokenType::EOF {
                return None;
            }
        }
        if next_tok.token_type == TokenType::ERROR {
            return Some(next_tok);
        }
        let recorded = next_tok.clone();
        self.tokens.insert(0, recorded);
        proof {
            assert(self.tokens@.subrange(1, self.tokens@.len() as int) =~= old(self).tokens@);
        }
        Some(next_tok)
    }
}

/// Line numbers never decrease along the token stream: in any
/// well-formed window the newest token carries the highest line, so a
/// token scanned later never has a lower line than one scanned earlier.
pub proof fn lemma_token_lines_monotone(p: Parser, earlier: int, later: int)
    requires
        p.wf(),
        0 <= later <= earlier < p.tokens@.len(),
    ensures
        p.tokens@[later].line >= p.tokens@[earlier].line,
{
}

} // verus!
