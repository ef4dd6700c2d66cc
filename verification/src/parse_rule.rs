//! The Pratt rule table: for each token kind, which prefix and infix
//! actions apply and how strongly the token binds as an infix operator.
//!
//! The compiler dispatches on the two action enums; encoding the table as
//! data keeps the whole table in one place, as a function-pointer table
//! would, while every dispatch stays a plain `match`.

use vstd::prelude::*;
use crate::precedence::Precedence;
use crate::token::TokenType;

verus! {

/// A prefix action of the Pratt parser.
#[derive(Debug, Clone, Copy, PartialEq, Eq, Structural)]
pub enum PrefixAction {
    Grouping,
    Unary,
    Literal,
    Number,
    Str,
    Variable,
    Lambda,
}

/// An infix action of the Pratt parser.
#[derive(Debug, Clone, Copy, PartialEq, Eq, Structural)]
pub enum InfixAction {
    Binary,
    Call,
    LogAnd,
    LogOr,
}

/// One row of the rule table.
pub struct ParseRule {
    pub prefix: Option<PrefixAction>,
    pub infix: Option<InfixAction>,
    pub precedence: Precedence,
}

impl ParseRule {
    /// An empty rule: no prefix use, no infix use, no binding strength.
    pub fn new() -> (r: ParseRule)
        ensures
            r.prefix is None,
            r.infix is None,
            r.precedence == Precedence::NONE,
    {
        ParseRule { prefix: None, infix: None, precedence: Precedence::NONE }
    }

    /// The rule table as a spec-level function.
    pub open spec fn spec_for_token(token_type: TokenType) -> ParseRule {
        match token_type {
            TokenType::LeftParen => ParseRule {
                prefix: Some(PrefixAction::Grouping),
                infix: Some(InfixAction::Call),
                precedence: Precedence::CALL,
            },
            TokenType::Caret => ParseRule {
                prefix: Some(PrefixAction::Lambda),
                infix: None,
                precedence: Precedence::NONE,
            },
            TokenType::Bang => ParseRule {
                prefix: Some(PrefixAction::Unary),
                infix: None,
                precedence: Precedence::NONE,
            },
            TokenType::NEqual => ParseRule {
                prefix: None,
                infix: Some(InfixAction::Binary),
                precedence: Precedence::EQUALITY,
            },
            TokenType::EqEqual => ParseRule {
                prefix: None,
                infix: Some(InfixAction::Binary),
                precedence: Precedence::EQUALITY,
            },
            TokenType::Greater => ParseRule {
                prefix: None,
                infix: Some(InfixAction::Binary),
                precedence: Precedence::COMPARISON,
            },
            TokenType::GEqual => ParseRule {
                prefix: None,
                infix: Some(InfixAction::Binary),
                precedence: Precedence::COMPARISON,
            },
            TokenType::Less => ParseRule {
                prefix: None,
                infix: Some(InfixAction::Binary),
                precedence: Precedence::COMPARISON,
            },
            TokenType::LEqual => ParseRule {
                prefix: None,
                infix: Some(InfixAction::Binary),
                precedence: Precedence::COMPARISON,
            },
            TokenType::Minus => ParseRule {
                prefix: Some(PrefixAction::Unary),
                infix: Some(InfixAction::Binary),
                precedence: Precedence::TERM,
            },
            TokenType::Plus => ParseRule {
                prefix: None,
                infix: Some(InfixAction::Binary),
                precedence: Precedence::TERM,
            },
            TokenType::Slash => ParseRule {
                prefix: None,
                infix: Some(InfixAction::Binary),
                precedence: Precedence::FACTOR,
            },
            TokenType::Star => ParseRule {
                prefix: None,
                infix: Some(InfixAction::Binary),
                precedence: Precedence::FACTOR,
            },
            TokenType::AndAnd => ParseRule {
                prefix: None,
                infix: Some(InfixAction::LogAnd),
                precedence: Precedence::AND,
            },
            TokenType::OrOr => ParseRule {
                prefix: None,
                infix: Some(InfixAction::LogOr),
                precedence: Precedence::OR,
            },
            TokenType::True => ParseRule {
                prefix: Some(PrefixAction::Literal),
                infix: None,
                precedence: Precedence::NONE,
            },
            TokenType::False => ParseRule {
                prefix: Some(PrefixAction::Literal),
                infix: None,
                precedence: Precedence::NONE,
            },
            TokenType::Number => ParseRule {
                prefix: Some(PrefixAction::Number),
                infix: None,
                precedence: Precedence::NONE,
            },
            TokenType::String => ParseRule {
                prefix: Some(PrefixAction::Str),
                infix: None,
                precedence: Precedence::NONE,
            },
            TokenType::Identifier => ParseRule {
                prefix: Some(PrefixAction::Variable),
                infix: None,
                precedence: Precedence::NONE,
            },
            _ => ParseRule { prefix: None, infix: None, precedence: Precedence::NONE },
        }
    }

    /// Looks a token's rule up in the table.
    pub fn for_token(token_type: TokenType) -> (r: ParseRule)
        ensures
            r.prefix == Self::spec_for_token(token_type).prefix,
            r.infix == Self::spec_for_token(token_type).infix,
            r.precedence == Self::spec_for_token(token_type).precedence,
    {
        match token_type {
            TokenType::LeftParen => ParseRule {
                prefix: Some(PrefixAction::Grouping),
                infix: Some(InfixAction::Call),
                precedence: Precedence::CALL,
            },
            TokenType::Caret => ParseRule {
                prefix: Some(PrefixAction::Lambda),
                infix: None,
                precedence: Precedence::NONE,
            },
            TokenType::Bang => ParseRule {
                prefix: Some(PrefixAction::Unary),
                infix: None,
                precedence: Precedence::NONE,
            },
            TokenType::NEqual => ParseRule {
                prefix: None,
                infix: Some(InfixAction::Binary),
                precedence: Precedence::EQUALITY,
            },
            TokenType::EqEqual => ParseRule {
                prefix: None,
                infix: Some(InfixAction::Binary),
                precedence: Precedence::EQUALITY,
            },
            TokenType::Greater => ParseRule {
                prefix: None,
                infix: Some(InfixAction::Binary),
                precedence: Precedence::COMPARISON,
            },
            TokenType::GEqual => ParseRule {
                prefix: None,
                infix: Some(InfixAction::Binary),
                precedence: Precedence::COMPARISON,
            },
            TokenType::Less => ParseRule {
                prefix: None,
                infix: Some(InfixAction::Binary),
                precedence: Precedence::COMPARISON,
            },
            TokenType::LEqual => ParseRule {
                prefix: None,
                infix: Some(InfixAction::Binary),
                precedence: Precedence::COMPARISON,
            },
            TokenType::Minus => ParseRule {
                prefix: Some(PrefixAction::Unary),
                infix: Some(InfixAction::Binary),
                precedence: Precedence::TERM,
            },
            TokenType::Plus => ParseRule {
                prefix: None,
                infix: Some(InfixAction::Binary),
                precedence: Precedence::TERM,
            },
            TokenType::Slash => ParseRule {
                prefix: None,
                infix: Some(InfixAction::Binary),
                precedence: Precedence::FACTOR,
            },
            TokenType::Star => ParseRule {
                prefix: None,
                infix: Some(InfixAction::Binary),
                precedence: Precedence::FACTOR,
            },
            TokenType::AndAnd => ParseRule {
                prefix: None,
                infix: Some(InfixAction::LogAnd),
                precedence: Precedence::AND,
            },
            TokenType::OrOr => ParseRule {
                prefix: None,
                infix: Some(InfixAction::LogOr),
                precedence: Precedence::OR,
            },
            TokenType::True => ParseRule {
                prefix: Some(PrefixAction::Literal),
                infix: None,
                precedence: Precedence::NONE,
            },
            TokenType::False => ParseRule {
                prefix: Some(PrefixAction::Literal),
                infix: None,
                precedence: Precedence::NONE,
            },
            TokenType::Number => ParseRule {
                prefix: Some(PrefixAction::Number),
                infix: None,
                precedence: Precedence::NONE,
            },
            TokenType::String => ParseRule {
                prefix: Some(PrefixAction::Str),
                infix: None,
                precedence: Precedence::NONE,
            },
            TokenType::Identifier => ParseRule {
                prefix: Some(PrefixAction::Variable),
                infix: None,
                precedence: Precedence::NONE,
            },
            _ => ParseRule { prefix: None, infix: None, precedence: Precedence::NONE },
        }
    }
}

} // verus!
