//! Tokens and their metadata: the handle type, source positions, byte
//! spans, and the kinds the scanner can emit.

use vstd::prelude::*;
use vstd::string::StringExecFns;

verus! {

/// A token handle: the index of the token's row in the token table.
#[derive(Debug, Clone, Copy, PartialEq, Eq, Structural)]
pub struct Token(pub usize);

/// A position in the source text, with the file it came from when known.
#[derive(Debug)]
pub struct SourceLocation {
    pub file: Option<String>,
    pub row: usize,
    pub col: usize,
}

impl SourceLocation {
    pub fn new(file: Option<String>, row: usize, col: usize) -> (r: Self)
        ensures
            r.file == file,
            r.row == row,
            r.col == col,
    {
        SourceLocation { file, row, col }
    }
}

/// A half-open range of byte offsets into the source text.
#[derive(Debug, PartialEq, Eq, Structural, Clone, Copy)]
pub struct Span {
    pub start: usize,
    pub end: usize,
}

impl Span {
    pub fn new(start: usize, end: usize) -> (r: Self)
        ensures
            r.start == start,
            r.end == end,
    {
        Span { start, end }
    }
}

/// What the scanner hands to the token table for one token: the position
/// where it stood when the token ended, and the token's byte span.
#[derive(Debug, Clone, Copy)]
pub struct TokenInfo {
    pub row: usize,
    pub col: usize,
    pub start: usize,
    pub end: usize,
}

/// The classification of a token.
#[derive(Debug, PartialEq, Eq, Clone, Copy, Structural)]
pub enum TokenKind {
    Ident,
    IntLiteral,
    RealLiteral,
    FuncKeyword,
    TypeKeyword,
    ModuleKeyword,
    HorizontalWhitespace,
    VerticalWhitespace,
    OpenParen,
    CloseParen,
    OpenBrace,
    CloseBrace,
    OpenBracket,
    CloseBracket,
    Plus,
    Minus,
    Star,
    Slash,
    Eof,
    Invalid,
}

impl TokenKind {
    /// The display name of this kind.
    pub open spec fn spec_name(&self) -> Seq<char> {
        match self {
            TokenKind::Ident => "Ident"@,
            TokenKind::IntLiteral => "IntLiteral"@,
            TokenKind::RealLiteral => "RealLiteral"@,
            TokenKind::FuncKeyword => "FuncKeyword"@,
            TokenKind::TypeKeyword => "TypeKeyword"@,
            TokenKind::ModuleKeyword => "ModuleKeyword"@,
            TokenKind::HorizontalWhitespace => "HorizontalWhitespace"@,
            TokenKind::VerticalWhitespace => "VerticalWhitespace"@,
            TokenKind::OpenParen => "OpenParen"@,
            TokenKind::CloseParen => "CloseParen"@,
            TokenKind::OpenBrace => "OpenBrace"@,
            TokenKind::CloseBrace => "CloseBrace"@,
            TokenKind::OpenBracket => "OpenBracket"@,
            TokenKind::CloseBracket => "CloseBracket"@,
            TokenKind::Plus => "Plus"@,
            TokenKind::Minus => "Minus"@,
            TokenKind::Star => "Star"@,
            TokenKind::Slash => "Slash"@,
            TokenKind::Eof => "Eof"@,
            TokenKind::Invalid => "Invalid"@,
        }
    }

    /// The display name of this kind.
    pub fn to_string(&self) -> (r: String)
        ensures
            r@ == self.spec_name(),
    {
        match self {
            TokenKind::Ident => String::from_str("Ident"),
            TokenKind::IntLiteral => String::from_str("IntLiteral"),
            TokenKind::RealLiteral => String::from_str("RealLiteral"),
            TokenKind::FuncKeyword => String::from_str("FuncKeyword"),
            TokenKind::TypeKeyword => String::from_str("TypeKeyword"),
            TokenKind::ModuleKeyword => String::from_str("ModuleKeyword"),
            TokenKind::HorizontalWhitespace => String::from_str("HorizontalWhitespace"),
            TokenKind::VerticalWhitespace => String::from_str("VerticalWhitespace"),
            TokenKind::OpenParen => String::from_str("OpenParen"),
            TokenKind::CloseParen => String::from_str("CloseParen"),
            TokenKind::OpenBrace => String::from_str("OpenBrace"),
            TokenKind::CloseBrace => String::from_str("CloseBrace"),
            TokenKind::OpenBracket => String::from_str("OpenBracket"),
            TokenKind::CloseBracket => String::from_str("CloseBracket"),
            TokenKind::Plus => String::from_str("Plus"),
            TokenKind::Minus => String::from_str("Minus"),
            TokenKind::Star => String::from_str("Star"),
            TokenKind::Slash => String::from_str("Slash"),
            TokenKind::Eof => String::from_str("Eof"),
            TokenKind::Invalid => String::from_str("Invalid"),
        }
    }
}

} // verus!
