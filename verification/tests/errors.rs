//! Error values, diagnostics, token metadata, and the parser stub.

use mik::diagnostics::DefaultEmitter;
use mik::diagnostics::Diagnostic;
use mik::diagnostics::DiagnosticEmitter;
use mik::diagnostics::Level;
use mik::diagnostics::format_diagnostic;
use mik::err::LexErr;
use mik::error::Error;
use mik::lexer::Lexer;
use mik::parser::Parser;
use mik::token::SourceLocation;
use mik::token::Span;
use mik::token::TokenKind;

#[test]
fn test_error() {
    let error = Error::custom("Custom error");
    assert_eq!(error.to_string(), "Custom error");
}

#[test]
fn unexpected_token_message() {
    let error = Error::UnexpectedToken {
        expected: "IntLiteral".to_string(),
        found: "Plus".to_string(),
    };
    assert_eq!(
        error.to_string(),
        "Unexpected token: expected IntLiteral, found Plus"
    );
}

#[test]
fn lex_err_message() {
    assert_eq!(LexErr::UnexpectedEOF.to_string(), "Unexpected EOF");
}

#[test]
fn diagnostic_lines_are_exact() {
    let with_file = Diagnostic {
        level: Level::Error,
        message: "boom".to_string(),
        location: SourceLocation::new(Some("input.mik".to_string()), 3, 7),
    };
    assert_eq!(
        format_diagnostic(&with_file),
        "[ERROR]: input.mik:3:7  --> boom"
    );
    let without_file = Diagnostic {
        level: Level::Warning,
        message: "odd".to_string(),
        location: SourceLocation::new(None, 0, 0),
    };
    assert_eq!(
        format_diagnostic(&without_file),
        "[WARN]: unknown file:0:0  --> odd"
    );
    let info = Diagnostic {
        level: Level::Info,
        message: "note".to_string(),
        location: SourceLocation::new(None, 1, 2),
    };
    assert_eq!(format_diagnostic(&info), "[INFO]: unknown file:1:2  --> note");
}

#[test]
fn default_emitter_collects_lines() {
    let mut emitter = DefaultEmitter::new();
    emitter.emit(Diagnostic {
        level: Level::Error,
        message: "first".to_string(),
        location: SourceLocation::new(None, 0, 1),
    });
    emitter.emit(Diagnostic {
        level: Level::Info,
        message: "second".to_string(),
        location: SourceLocation::new(Some("f".to_string()), 2, 3),
    });
    let lines = emitter.take_lines();
    assert_eq!(
        lines,
        vec![
            "[ERROR]: unknown file:0:1  --> first".to_string(),
            "[INFO]: f:2:3  --> second".to_string(),
        ]
    );
    assert!(emitter.take_lines().is_empty());
}

#[test]
fn token_metadata_constructors() {
    let span = Span::new(4, 9);
    assert_eq!(span.start, 4);
    assert_eq!(span.end, 9);
    let loc = SourceLocation::new(Some("a.mik".to_string()), 1, 2);
    assert_eq!(loc.file, Some("a.mik".to_string()));
    assert_eq!(loc.row, 1);
    assert_eq!(loc.col, 2);
}

#[test]
fn token_kind_names() {
    assert_eq!(TokenKind::Ident.to_string(), "Ident");
    assert_eq!(TokenKind::IntLiteral.to_string(), "IntLiteral");
    assert_eq!(TokenKind::RealLiteral.to_string(), "RealLiteral");
    assert_eq!(TokenKind::HorizontalWhitespace.to_string(), "HorizontalWhitespace");
    assert_eq!(TokenKind::VerticalWhitespace.to_string(), "VerticalWhitespace");
    assert_eq!(TokenKind::Plus.to_string(), "Plus");
    assert_eq!(TokenKind::Minus.to_string(), "Minus");
    assert_eq!(TokenKind::Star.to_string(), "Star");
    assert_eq!(TokenKind::Slash.to_string(), "Slash");
    assert_eq!(TokenKind::Eof.to_string(), "Eof");
    assert_eq!(TokenKind::Invalid.to_string(), "Invalid");
}

#[test]
fn parser_holds_its_buffer() {
    let tokens = Lexer::new(b"1+2".to_vec()).tokenize();
    let _parser = Parser::new(&tokens);
}
