//! Source locations and the tokens that carry them.
use vstd::prelude::*;

verus! {

/// A place in a source file: the file's index among the loaded files, and a
/// line and column counted from 1.
#[derive(Clone, Copy, Debug, PartialEq, Eq, Structural)]
pub struct Loc {
    pub file: u32,
    pub line: u32,
    pub column: u32,
}

/// A piece of script text and where it stands.
#[derive(Debug)]
pub struct Token {
    pub s: String,
    pub loc: Loc,
}

impl Token {
    pub fn new(s: &str, loc: Loc) -> (r: Token)
        ensures
            r.s@ == s@,
            r.loc == loc,
    {
        Token { s: String::from_str(s), loc }
    }

    pub fn as_str(&self) -> (r: &str)
        ensures
            r@ == self.s@,
    {
        self.s.as_str()
    }

    /// A copy of the token.
    pub fn duplicate(&self) -> (r: Token)
        ensures
            r.s@ == self.s@,
            r.loc == self.loc,
    {
        Token { s: self.s.clone(), loc: self.loc }
    }
}

} // verus!
