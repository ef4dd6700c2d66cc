//! Binding strength of infix operators for the Pratt parser.

use vstd::prelude::*;

verus! {

/// Precedence levels, weakest first. Assignment binds weakest of all
/// real operators, so `a + b = 5` never parses.
#[derive(Debug, Clone, Copy, PartialEq, Eq, PartialOrd, Ord, Structural)]
pub enum Precedence {
    NONE,
    ASSIGNMENT,
    OR,
    AND,
    EQUALITY,
    COMPARISON,
    TERM,
    FACTOR,
    UNARY,
    CALL,
    PRIMARY,
}

impl Precedence {
    /// The rank of this level: NONE is 0 and PRIMARY is 10.
    pub open spec fn level_spec(self) -> u8 {
        match self {
            Precedence::NONE => 0,
            Precedence::ASSIGNMENT => 1,
            Precedence::OR => 2,
            Precedence::AND => 3,
            Precedence::EQUALITY => 4,
            Precedence::COMPARISON => 5,
            Precedence::TERM => 6,
            Precedence::FACTOR => 7,
            Precedence::UNARY => 8,
            Precedence::CALL => 9,
            Precedence::PRIMARY => 10,
        }
    }

    /// The rank of this level as a number, for comparing binding
    /// strengths.
    #[verifier::when_used_as_spec(level_spec)]
    pub fn level(self) -> (r: u8)
        ensures
            r == self.level_spec(),
    {
        match self {
            Precedence::NONE => 0,
            Precedence::ASSIGNMENT => 1,
            Precedence::OR => 2,
            Precedence::AND => 3,
            Precedence::EQUALITY => 4,
            Precedence::COMPARISON => 5,
            Precedence::TERM => 6,
            Precedence::FACTOR => 7,
            Precedence::UNARY => 8,
            Precedence::CALL => 9,
            Precedence::PRIMARY => 10,
        }
    }

    /// True when this level binds no stronger than `other`.
    pub fn at_most(self, other: Precedence) -> (r: bool)
        ensures
            r == (self.level_spec() <= other.level_spec()),
    {
        self.level() <= other.level()
    }

    /// The next stronger level; PRIMARY stays PRIMARY.
    pub fn next(&self) -> (r: Precedence)
        ensures
            self.level_spec() < 10 ==> r.level_spec() == self.level_spec() + 1,
            self.level_spec() == 10 ==> r == Precedence::PRIMARY,
    {
        match self {
            Precedence::NONE => Precedence::ASSIGNMENT,
            Precedence::ASSIGNMENT => Precedence::OR,
            Precedence::OR => Precedence::AND,
            Precedence::AND => Precedence::EQUALITY,
            Precedence::EQUALITY => Precedence::COMPARISON,
            Precedence::COMPARISON => Precedence::TERM,
            Precedence::TERM => Precedence::FACTOR,
            Precedence::FACTOR => Precedence::UNARY,
            Precedence::UNARY => Precedence::CALL,
            Precedence::CALL => Precedence::PRIMARY,
            Precedence::PRIMARY => Precedence::PRIMARY,
        }
    }
}

} // verus!
