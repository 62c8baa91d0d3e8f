//! The byte scanner and the token table: token kinds and spans, maximal
//! runs, row and column tracking, line lookup, and the handle cursor.

use mik::lexer::Lexer;
use mik::token::TokenKind;
use mik::tokenized_buffer::TokenizedBuffer;
use mik::tokenized_buffer::TokenizedBufferIter;

fn kinds_of(buffer: &TokenizedBuffer) -> Vec<TokenKind> {
    let mut out = Vec::new();
    let mut iter = TokenizedBufferIter::new(buffer);
    while let Some(token) = iter.next() {
        out.push(buffer.kind_of(&token));
    }
    out
}

#[test]
fn test_get_line() {
    let source = "hello\n\nworld\n";
    let buffer = TokenizedBuffer::new(source.as_bytes().to_vec());
    assert_eq!(buffer.get_line(0), Some(b"hello".to_vec()));
    assert_eq!(buffer.get_line(1), Some(b"".to_vec()));
    assert_eq!(buffer.get_line(2), Some(b"world".to_vec()));
    assert_eq!(buffer.get_line(3), None);
}

#[test]
fn default_table_is_empty() {
    let buffer = TokenizedBuffer::default();
    assert_eq!(buffer.len(), 0);
    assert_eq!(buffer.get_line(0), None);
}

#[test]
fn get_line_without_trailing_newline() {
    let buffer = TokenizedBuffer::new(b"ab".to_vec());
    assert_eq!(buffer.get_line(0), Some(b"ab".to_vec()));
    assert_eq!(buffer.get_line(1), None);
}

#[test]
fn tokenizes_expression() {
    let lexer = Lexer::new(b"1+2".to_vec());
    let tokens = lexer.tokenize();
    assert_eq!(
        kinds_of(&tokens),
        vec![TokenKind::IntLiteral, TokenKind::Plus, TokenKind::IntLiteral]
    );
    let mut iter = TokenizedBufferIter::new(&tokens);
    let first = iter.next().unwrap();
    let second = iter.next().unwrap();
    let third = iter.next().unwrap();
    assert_eq!(tokens.str_of(&first), b"1".to_vec());
    assert_eq!(tokens.str_of(&second), b"+".to_vec());
    assert_eq!(tokens.str_of(&third), b"2".to_vec());
    let span = tokens.span_of(&second);
    assert_eq!(span.start, 1);
    assert_eq!(span.end, 2);
}

#[test]
fn tokenizes_all_operators() {
    let tokens = Lexer::new(b"+-*/".to_vec()).tokenize();
    assert_eq!(
        kinds_of(&tokens),
        vec![TokenKind::Plus, TokenKind::Minus, TokenKind::Star, TokenKind::Slash]
    );
}

#[test]
fn numbers_with_fraction_are_real() {
    let tokens = Lexer::new(b"3.14 42".to_vec()).tokenize();
    assert_eq!(
        kinds_of(&tokens),
        vec![TokenKind::RealLiteral, TokenKind::HorizontalWhitespace, TokenKind::IntLiteral]
    );
    let mut iter = TokenizedBufferIter::new(&tokens);
    let real = iter.next().unwrap();
    let span = tokens.span_of(&real);
    assert_eq!((span.start, span.end), (0, 4));
}

#[test]
fn exponent_alone_stays_integer() {
    let tokens = Lexer::new(b"1e5".to_vec()).tokenize();
    assert_eq!(kinds_of(&tokens), vec![TokenKind::IntLiteral]);
    let mut iter = TokenizedBufferIter::new(&tokens);
    let number = iter.next().unwrap();
    assert_eq!(tokens.str_of(&number), b"1e5".to_vec());
}

#[test]
fn signed_exponent_after_fraction() {
    let tokens = Lexer::new(b"2.5e-3".to_vec()).tokenize();
    assert_eq!(kinds_of(&tokens), vec![TokenKind::RealLiteral]);
    let mut iter = TokenizedBufferIter::new(&tokens);
    let number = iter.next().unwrap();
    assert_eq!(tokens.str_of(&number), b"2.5e-3".to_vec());
}

#[test]
fn whitespace_taken_in_maximal_runs() {
    let tokens = Lexer::new(b"  \t1\r\n\n2".to_vec()).tokenize();
    assert_eq!(
        kinds_of(&tokens),
        vec![
            TokenKind::HorizontalWhitespace,
            TokenKind::IntLiteral,
            TokenKind::VerticalWhitespace,
            TokenKind::IntLiteral,
        ]
    );
    let mut iter = TokenizedBufferIter::new(&tokens);
    let hws = iter.next().unwrap();
    let span = tokens.span_of(&hws);
    assert_eq!((span.start, span.end), (0, 3));
}

#[test]
fn nul_byte_emits_eof_and_stops() {
    let tokens = Lexer::new(b"1\x002".to_vec()).tokenize();
    assert_eq!(kinds_of(&tokens), vec![TokenKind::IntLiteral, TokenKind::Eof]);
    let mut iter = TokenizedBufferIter::new(&tokens);
    let _ = iter.next().unwrap();
    let eof = iter.next().unwrap();
    let span = tokens.span_of(&eof);
    assert_eq!((span.start, span.end), (2, 2));
}

#[test]
fn unrecognized_byte_is_invalid() {
    let tokens = Lexer::new(b"a".to_vec()).tokenize();
    assert_eq!(kinds_of(&tokens), vec![TokenKind::Invalid]);
}

#[test]
fn locations_follow_rows_and_columns() {
    let tokens = Lexer::new(b"a\nb".to_vec()).tokenize();
    assert_eq!(
        kinds_of(&tokens),
        vec![TokenKind::Invalid, TokenKind::VerticalWhitespace, TokenKind::Invalid]
    );
    let mut iter = TokenizedBufferIter::new(&tokens);
    let first = iter.next().unwrap();
    let newline = iter.next().unwrap();
    let last = iter.next().unwrap();
    let loc = tokens.location_of(&first);
    assert_eq!((loc.row, loc.col), (0, 1));
    assert!(loc.file.is_none());
    let loc = tokens.location_of(&newline);
    assert_eq!((loc.row, loc.col), (1, 0));
    let loc = tokens.location_of(&last);
    assert_eq!((loc.row, loc.col), (1, 1));
}

#[test]
fn empty_source_yields_no_tokens() {
    let tokens = Lexer::new(Vec::new()).tokenize();
    assert_eq!(tokens.len(), 0);
    let mut iter = TokenizedBufferIter::new(&tokens);
    assert!(iter.next().is_none());
}

#[test]
fn lexer_accepts_file_name() {
    let tokens = Lexer::new_file("input.mik", b"1".to_vec()).tokenize();
    assert_eq!(kinds_of(&tokens), vec![TokenKind::IntLiteral]);
    let renamed = Lexer::new(b"2".to_vec()).with_file_name("other.mik");
    let tokens = renamed.tokenize();
    assert_eq!(kinds_of(&tokens), vec![TokenKind::IntLiteral]);
}
