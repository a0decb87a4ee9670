//! The closed set of token kinds the lexer can assign.

use vstd::prelude::*;

verus! {

/// The kind of a lexical token.
///
/// The enumeration is closed: a consumer may not treat any kind outside this
/// list as valid. `LT`, `LE`, `EQ`, `If`, `Else` and `StringLiteral` are
/// reserved: the state machine's structure names them, but no input makes the
/// tokenizer emit them.
#[derive(Clone, Copy, Debug, PartialEq, Eq, Structural)]
pub enum TokenType {
    /// `+`
    Plus,
    /// `-`
    Minus,
    /// `*`
    Star,
    /// `/`
    Slash,
    /// `>=`
    GE,
    /// `>`
    GT,
    /// `==` (reserved, never emitted)
    EQ,
    /// `<=` (reserved, never emitted)
    LE,
    /// `<` (reserved, never emitted)
    LT,
    /// `;`
    SemiColon,
    /// `(`
    LeftParen,
    /// `)`
    RightParen,
    /// `=`
    Assignment,
    /// the keyword `if` (reserved, never emitted)
    If,
    /// the keyword `else` (reserved, never emitted)
    Else,
    /// the keyword `int`
    Int,
    /// an identifier: a letter followed by letters and digits
    Identifier,
    /// an integer literal: a run of digits
    IntLiteral,
    /// a string literal (reserved, never emitted)
    StringLiteral,
}

impl Default for TokenType {
    /// The kind a token buffer starts out with before its first character is
    /// classified.
    fn default() -> (r: Self)
        ensures
            r == TokenType::Identifier,
    {
        TokenType::Identifier
    }
}

} // verus!
