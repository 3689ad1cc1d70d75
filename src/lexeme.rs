use vstd::prelude::*;

verus! {

/// The kinds of lexeme that the lexer tells apart.
#[derive(Clone, Copy, Debug, PartialEq, Eq, Structural)]
pub enum LexemeKind {
    Eof,
    Whitespace,
    Comment,
    Unknown,
    LeftParen,
    RightParen,
    LeftBrace,
    RightBrace,
    LeftSquare,
    RightSquare,
    Plus,
    Minus,
    Asterisk,
    Slash,
    Identifier,
}

/// A lexeme: its kind, the text it covers and where it starts, as (line, column), both
/// counted from zero.
#[derive(Clone, Copy, Debug)]
pub struct Lexeme<'a> {
    pub kind: LexemeKind,
    pub code_span: &'a str,
    pub location: (usize, usize),
}

} // verus!
