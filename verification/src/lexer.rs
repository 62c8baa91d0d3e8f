//! The byte scanner. It walks the source once, front to back, and emits
//! one token per maximal run: horizontal whitespace, vertical whitespace,
//! numeric literals (digits, an optional fraction, an optional exponent),
//! single-byte operators, a terminating NUL, and one `Invalid` token per
//! unrecognized byte. The spec functions below give the exact token
//! sequence for any input, and `tokenize` is proved to produce it.

use crate::diagnostics::DefaultEmitter;
use crate::diagnostics::Diagnostic;
use crate::diagnostics::Level;
use crate::diagnostics::diagnostic_line;
use crate::diagnostics::level_tag;
use crate::fifo::Fifo;
use crate::fmtnum::dec_rep;
use crate::token::SourceLocation;
use crate::token::Span;
use crate::token::TokenInfo;
use crate::token::TokenKind;
use crate::tokenized_buffer::TokenizedBuffer;
use vstd::prelude::*;
use vstd::string::StringExecFns;

verus! {

/// Decimal digit bytes.
pub open spec fn is_digit(b: u8) -> bool {
    48 <= b <= 57
}

/// Horizontal whitespace: space and tab.
pub open spec fn is_hws(b: u8) -> bool {
    b == 32 || b == 9
}

/// Vertical whitespace: carriage return and line feed.
pub open spec fn is_vws(b: u8) -> bool {
    b == 13 || b == 10
}

/// Operator bytes: plus, minus, star, slash.
pub open spec fn is_op(b: u8) -> bool {
    b == 43 || b == 45 || b == 42 || b == 47
}

/// The token kind of an operator byte.
pub open spec fn op_kind(b: u8) -> TokenKind {
    if b == 43 {
        TokenKind::Plus
    } else if b == 45 {
        TokenKind::Minus
    } else if b == 42 {
        TokenKind::Star
    } else {
        TokenKind::Slash
    }
}

pub open spec fn digit_test() -> spec_fn(u8) -> bool {
    |b: u8| is_digit(b)
}

pub open spec fn hws_test() -> spec_fn(u8) -> bool {
    |b: u8| is_hws(b)
}

pub open spec fn vws_test() -> spec_fn(u8) -> bool {
    |b: u8| is_vws(b)
}

/// The end of the run of bytes satisfying `test` that starts at `pos`:
/// the first index at or after `pos` whose byte fails `test`, or the
/// length of the source.
pub open spec fn run_end(src: Seq<u8>, pos: int, test: spec_fn(u8) -> bool) -> int
    decreases src.len() - pos,
{
    if pos < 0 || pos >= src.len() || !test(src[pos]) {
        pos
    } else {
        run_end(src, pos + 1, test)
    }
}

/// `run_end` stays between `pos` and the length of the source, every byte
/// of the run satisfies `test`, and the run stops only at the end of the
/// source or at a byte that fails `test`.
pub proof fn lemma_run_end(src: Seq<u8>, pos: int, test: spec_fn(u8) -> bool)
    requires
        0 <= pos <= src.len(),
    ensures
        pos <= run_end(src, pos, test) <= src.len(),
        forall|k: int| pos <= k < run_end(src, pos, test) ==> test(src[k]),
        run_end(src, pos, test) == src.len() || !test(src[run_end(src, pos, test)]),
    decreases src.len() - pos,
{
    if pos < src.len() && test(src[pos]) {
        lemma_run_end(src, pos + 1, test);
    }
}

/// Where the numeric literal that starts at `pos` ends: the digit run,
/// then a fraction (a dot and another digit run) if a dot follows, then
/// an exponent (an 'e' or 'E', an optional sign, and another digit run)
/// if such a marker follows.
pub open spec fn number_end(src: Seq<u8>, pos: int) -> int {
    let d = run_end(src, pos, digit_test());
    let f = if d < src.len() && src[d] == 46u8 {
        run_end(src, d + 1, digit_test())
    } else {
        d
    };
    if f < src.len() && (src[f] == 101u8 || src[f] == 69u8) {
        let s = if f + 1 < src.len() && (src[f + 1] == 43u8 || src[f + 1] == 45u8) {
            f + 2
        } else {
            f + 1
        };
        run_end(src, s, digit_test())
    } else {
        f
    }
}

/// A numeric literal is real exactly when a dot follows its leading digit
/// run; an exponent alone does not make it real.
pub open spec fn number_is_real(src: Seq<u8>, pos: int) -> bool {
    let d = run_end(src, pos, digit_test());
    d < src.len() && src[d] == 46u8
}

/// The numeric literal that starts at a digit ends after it and within
/// the source.
pub proof fn lemma_number_end(src: Seq<u8>, pos: int)
    requires
        0 <= pos < src.len(),
        is_digit(src[pos]),
    ensures
        pos < number_end(src, pos) <= src.len(),
{
    lemma_run_end(src, pos, digit_test());
    let d = run_end(src, pos, digit_test());
    if d < src.len() && src[d] == 46u8 {
        lemma_run_end(src, d + 1, digit_test());
    }
    let f = if d < src.len() && src[d] == 46u8 {
        run_end(src, d + 1, digit_test())
    } else {
        d
    };
    if f < src.len() && (src[f] == 101u8 || src[f] == 69u8) {
        let s = if f + 1 < src.len() && (src[f + 1] == 43u8 || src[f + 1] == 45u8) {
            f + 2
        } else {
            f + 1
        };
        if s <= src.len() {
            lemma_run_end(src, s, digit_test());
        }
    }
}

/// The tokens of `src` from `pos` on: each entry is a kind and the byte
/// span it covers. Whitespace and digits are taken in maximal runs; an
/// operator byte is one token; a NUL byte yields a final `Eof` token
/// carrying the empty span just after it and ends the scan; any other
/// byte yields an `Invalid` token carrying the empty span just after it.
pub open spec fn spec_lex(src: Seq<u8>, pos: int) -> Seq<(TokenKind, int, int)>
    decreases src.len() - pos + 1,
    via spec_lex_decreases
{
    if pos < 0 || pos >= src.len() {
        Seq::empty()
    } else {
        let b = src[pos];
        if is_hws(b) {
            let end = run_end(src, pos, hws_test());
            seq![(TokenKind::HorizontalWhitespace, pos, end)] + spec_lex(src, end)
        } else if is_vws(b) {
            let end = run_end(src, pos, vws_test());
            seq![(TokenKind::VerticalWhitespace, pos, end)] + spec_lex(src, end)
        } else if is_digit(b) {
            let end = number_end(src, pos);
            let kind = if number_is_real(src, pos) {
                TokenKind::RealLiteral
            } else {
                TokenKind::IntLiteral
            };
            seq![(kind, pos, end)] + spec_lex(src, end)
        } else if is_op(b) {
            seq![(op_kind(b), pos, pos + 1)] + spec_lex(src, pos + 1)
        } else if b == 0u8 {
            seq![(TokenKind::Eof, pos + 1, pos + 1)]
        } else {
            seq![(TokenKind::Invalid, pos + 1, pos + 1)] + spec_lex(src, pos + 1)
        }
    }
}

#[via_fn]
proof fn spec_lex_decreases(src: Seq<u8>, pos: int) {
    if 0 <= pos < src.len() {
        let b = src[pos];
        if is_hws(b) {
            lemma_run_end(src, pos, hws_test());
        } else if is_vws(b) {
            lemma_run_end(src, pos, vws_test());
        } else if is_digit(b) {
            lemma_number_end(src, pos);
        }
    }
}

/// The number of newline bytes before position `p`: the row the scanner
/// reports there.
pub open spec fn row_of(src: Seq<u8>, p: int) -> int
    decreases p,
{
    if p <= 0 {
        0
    } else {
        row_of(src, p - 1) + if src[p - 1] == 10u8 {
            1int
        } else {
            0int
        }
    }
}

/// The number of bytes consumed since the last newline before position
/// `p`: the column the scanner reports there.
pub open spec fn col_of(src: Seq<u8>, p: int) -> int
    decreases p,
{
    if p <= 0 {
        0
    } else if src[p - 1] == 10u8 {
        0
    } else {
        col_of(src, p - 1) + 1
    }
}

/// Rows and columns never outrun the position they describe.
pub proof fn lemma_row_col_bounds(src: Seq<u8>, p: int)
    requires
        p >= 0,
    ensures
        0 <= row_of(src, p) <= p,
        0 <= col_of(src, p) <= p,
    decreases p,
{
    if p > 0 {
        lemma_row_col_bounds(src, p - 1);
    }
}

/// The scanner's cursor: its position in the source, the row and column
/// that position lies at, and a small queue for pending lookahead bytes.
pub struct Context {
    row: usize,
    col: usize,
    pos: usize,
    pending: Fifo<u8>,
}

impl Context {
    /// The byte offset of the cursor.
    pub closed spec fn spec_pos(&self) -> int {
        self.pos as int
    }

    /// The row the cursor reports.
    pub closed spec fn spec_row(&self) -> int {
        self.row as int
    }

    /// The column the cursor reports.
    pub closed spec fn spec_col(&self) -> int {
        self.col as int
    }

    /// The queued lookahead bytes.
    pub closed spec fn spec_pending(&self) -> Seq<u8> {
        self.pending@
    }

    pub closed spec fn wf(&self) -> bool {
        self.pending.wf()
    }

    /// A cursor at the start of the source: position zero, row zero,
    /// column zero, nothing pending.
    pub fn new() -> (r: Self)
        ensures
            r.wf(),
            r.spec_pos() == 0,
            r.spec_row() == 0,
            r.spec_col() == 0,
            r.spec_pending() == Seq::<u8>::empty(),
    {
        Context { row: 0, col: 0, pos: 0, pending: Fifo::new() }
    }
}

/// The scanner. It owns the token table it fills, whose `src` is the
/// source being scanned.
pub struct Lexer {
    diagnostics: DefaultEmitter,
    file_name: Option<String>,
    context: Context,
    lookahead: Option<Context>,
    tokens: TokenizedBuffer,
}

impl Lexer {
    /// The source bytes being scanned.
    pub closed spec fn src(&self) -> Seq<u8> {
        self.tokens.src()
    }

    /// The cursor's byte offset.
    pub closed spec fn spec_pos(&self) -> int {
        self.context.spec_pos()
    }

    /// The token records emitted so far.
    pub closed spec fn spec_records(&self) -> Seq<(TokenKind, int, int)> {
        self.tokens.records()
    }

    /// The file name the scanner was given, as its characters.
    pub closed spec fn file_name_view(&self) -> Option<Seq<char>> {
        match self.file_name {
            Some(f) => Some(f@),
            None => None,
        }
    }

    /// The file label of the token table being filled.
    pub closed spec fn table_file_view(&self) -> Option<Seq<char>> {
        self.tokens.file_view()
    }

    /// The scanner's invariant: the token table is well formed, the
    /// cursor sits inside the source (one past the end at most), the row
    /// and column are those of the cursor position, and at most one token
    /// has been emitted per consumed byte.
    pub closed spec fn scan_wf(&self) -> bool {
        &&& self.tokens.wf()
        &&& self.context.wf()
        &&& self.context.pos <= self.tokens.src().len()
        &&& self.context.row == row_of(self.tokens.src(), self.context.pos as int)
        &&& self.context.col == col_of(self.tokens.src(), self.context.pos as int)
        &&& self.tokens.token_count() <= self.context.pos
    }

    /// A scanner over `source`, with no file name.
    pub fn new(source: Vec<u8>) -> (r: Self)
        requires
            source@.len() < usize::MAX,
        ensures
            r.scan_wf(),
            r.src() == source@,
            r.spec_pos() == 0,
            r.spec_records() == Seq::<(TokenKind, int, int)>::empty(),
            r.file_name_view() is None,
    {
        let r = Lexer {
            diagnostics: DefaultEmitter::new(),
            file_name: None,
            context: Context::new(),
            lookahead: None,
            tokens: TokenizedBuffer::new(source),
        };
        proof {
            assert(r.spec_records() =~= Seq::<(TokenKind, int, int)>::empty());
        }
        r
    }

    /// A scanner over `source`, labeled with the file the source came
    /// from.
    pub fn new_file(file_name: &str, source: Vec<u8>) -> (r: Self)
        requires
            source@.len() < usize::MAX,
        ensures
            r.scan_wf(),
            r.src() == source@,
            r.spec_pos() == 0,
            r.spec_records() == Seq::<(TokenKind, int, int)>::empty(),
            r.file_name_view() == Some(file_name@),
    {
        let r = Lexer {
            diagnostics: DefaultEmitter::new(),
            file_name: Some(String::from_str(file_name)),
            context: Context::new(),
            lookahead: None,
            tokens: TokenizedBuffer::new(source),
        };
        proof {
            assert(r.spec_records() =~= Seq::<(TokenKind, int, int)>::empty());
        }
        r
    }

    /// The same scanner, labeled with a file name.
    pub fn with_file_name(self, file_name: &str) -> (r: Self)
        ensures
            r.scan_wf() == self.scan_wf(),
            r.src() == self.src(),
            r.spec_pos() == self.spec_pos(),
            r.spec_records() == self.spec_records(),
            r.file_name_view() == Some(file_name@),
    {
        Lexer { file_name: Some(String::from_str(file_name)), ..self }
    }

    /// The byte under the cursor, if the cursor is inside the source.
    fn peek(&self) -> (r: Option<u8>)
        ensures
            self.context.pos < self.src().len() ==> r == Some(self.src()[self.context.pos as int]),
            self.context.pos >= self.src().len() ==> r is None,
    {
        if self.context.pos < self.tokens.src_len() {
            Some(self.tokens.src_byte(self.context.pos))
        } else {
            None
        }
    }

    /// Consume the byte under the cursor, keeping the row and the column
    /// in step: a newline moves to the start of the next row, any other
    /// byte moves one column on. At the end of the source nothing
    /// happens.
    fn take(&mut self) -> (r: Option<u8>)
        requires
            old(self).scan_wf(),
        ensures
            final(self).scan_wf(),
            final(self).tokens == old(self).tokens,
            final(self).file_name == old(self).file_name,
            old(self).context.pos < old(self).src().len() ==> r == Some(
                old(self).src()[old(self).context.pos as int],
            ) && final(self).context.pos == old(self).context.pos + 1,
            old(self).context.pos >= old(self).src().len() ==> r is None && final(self).context.pos
                == old(self).context.pos,
    {
        proof {
            self.tokens.lemma_src_len();
        }
        let byte = self.peek();
        match byte {
            Some(b) => {
                proof {
                    lemma_row_col_bounds(self.src(), self.context.pos as int);
                }
                self.context.pos = self.context.pos + 1;
                if b == 10u8 {
                    self.context.row = self.context.row + 1;
                    self.context.col = 0;
                } else {
                    self.context.col = self.context.col + 1;
                }
                Some(b)
            },
            None => None,
        }
    }

    /// Record one token: its kind, its span, and the cursor's current row
    /// and column.
    fn push(&mut self, kind: TokenKind, span: Span)
        requires
            old(self).scan_wf(),
            old(self).tokens.token_count() < old(self).context.pos,
            span.start <= span.end <= old(self).src().len(),
        ensures
            final(self).scan_wf(),
            final(self).context == old(self).context,
            final(self).file_name == old(self).file_name,
            final(self).tokens.src() == old(self).tokens.src(),
            final(self).tokens.file_view() == old(self).tokens.file_view(),
            final(self).tokens.spec_lines() == old(self).tokens.spec_lines(),
            final(self).tokens.records() == old(self).tokens.records().push(
                (kind, span.start as int, span.end as int),
            ),
            final(self).tokens.locs() == old(self).tokens.locs().push(
                (old(self).context.spec_row(), old(self).context.spec_col()),
            ),
    {
        proof {
            self.tokens.lemma_src_len();
        }
        self.tokens.push(
            kind,
            TokenInfo {
                row: self.context.row,
                col: self.context.col,
                start: span.start,
                end: span.end,
            },
        );
    }

    /// Consume the maximal run of decimal digits under the cursor.
    fn skip_digits(&mut self)
        requires
            old(self).scan_wf(),
        ensures
            final(self).scan_wf(),
            final(self).tokens == old(self).tokens,
            final(self).file_name == old(self).file_name,
            final(self).context.pos == run_end(
                old(self).src(),
                old(self).context.pos as int,
                digit_test(),
            ),
    {
        loop
            invariant
                self.scan_wf(),
                self.tokens == old(self).tokens,
                self.file_name == old(self).file_name,
                run_end(old(self).src(), old(self).context.pos as int, digit_test()) == run_end(
                    self.src(),
                    self.context.pos as int,
                    digit_test(),
                ),
            ensures
                self.scan_wf(),
                self.tokens == old(self).tokens,
                self.file_name == old(self).file_name,
                self.context.pos as int == run_end(
                    old(self).src(),
                    old(self).context.pos as int,
                    digit_test(),
                ),
            decreases self.src().len() - self.context.pos,
        {
            match self.peek() {
                Some(b) => {
                    if 48 <= b && b <= 57 {
                        let _ = self.take();
                    } else {
                        break;
                    }
                },
                None => {
                    break;
                },
            }
        }
    }

    /// Consume the maximal run of horizontal whitespace under the cursor.
    fn skip_hws(&mut self)
        requires
            old(self).scan_wf(),
        ensures
            final(self).scan_wf(),
            final(self).tokens == old(self).tokens,
            final(self).file_name == old(self).file_name,
            final(self).context.pos == run_end(
                old(self).src(),
                old(self).context.pos as int,
                hws_test(),
            ),
    {
        loop
            invariant
                self.scan_wf(),
                self.tokens == old(self).tokens,
                self.file_name == old(self).file_name,
                run_end(old(self).src(), old(self).context.pos as int, hws_test()) == run_end(
                    self.src(),
                    self.context.pos as int,
                    hws_test(),
                ),
            ensures
                self.scan_wf(),
                self.tokens == old(self).tokens,
                self.file_name == old(self).file_name,
                self.context.pos as int == run_end(
                    old(self).src(),
                    old(self).context.pos as int,
                    hws_test(),
                ),
            decreases self.src().len() - self.context.pos,
        {
            match self.peek() {
                Some(b) => {
                    if b == 32 || b == 9 {
                        let _ = self.take();
                    } else {
                        break;
                    }
                },
                None => {
                    break;
                },
            }
        }
    }

    /// Consume the maximal run of vertical whitespace under the cursor.
    fn skip_vws(&mut self)
        requires
            old(self).scan_wf(),
        ensures
            final(self).scan_wf(),
            final(self).tokens == old(self).tokens,
            final(self).file_name == old(self).file_name,
            final(self).context.pos == run_end(
                old(self).src(),
                old(self).context.pos as int,
                vws_test(),
            ),
    {
        loop
            invariant
                self.scan_wf(),
                self.tokens == old(self).tokens,
                self.file_name == old(self).file_name,
                run_end(old(self).src(), old(self).context.pos as int, vws_test()) == run_end(
                    self.src(),
                    self.context.pos as int,
                    vws_test(),
                ),
            ensures
                self.scan_wf(),
                self.tokens == old(self).tokens,
                self.file_name == old(self).file_name,
                self.context.pos as int == run_end(
                    old(self).src(),
                    old(self).context.pos as int,
                    vws_test(),
                ),
            decreases self.src().len() - self.context.pos,
        {
            match self.peek() {
                Some(b) => {
                    if b == 13 || b == 10 {
                        let _ = self.take();
                    } else {
                        break;
                    }
                },
                None => {
                    break;
                },
            }
        }
    }

    /// Hand one diagnostic to the scanner's sink.
    fn emit(&mut self, diagnostic: Diagnostic)
        ensures
            final(self).diagnostics.spec_lines() == old(self).diagnostics.spec_lines().push(
                diagnostic_line(diagnostic),
            ),
            final(self).tokens == old(self).tokens,
            final(self).context == old(self).context,
            final(self).file_name == old(self).file_name,
    {
        self.diagnostics.record(diagnostic);
    }

    /// Report an error message at the cursor's position, under the file
    /// name the scanner was given.
    fn emit_error(&mut self, message: &str)
        ensures
            final(self).diagnostics.spec_lines() == old(self).diagnostics.spec_lines().push(
                level_tag(Level::Error) + (match old(self).file_name {
                    Some(f) => f@,
                    None => "unknown file"@,
                }) + ":"@ + dec_rep(old(self).context.spec_row() as nat) + ":"@ + dec_rep(
                    old(self).context.spec_col() as nat,
                ) + "  --> "@ + message@,
            ),
            final(self).tokens == old(self).tokens,
            final(self).context == old(self).context,
            final(self).file_name == old(self).file_name,
    {
        let file = match &self.file_name {
            Some(f) => Some(f.clone()),
            None => None,
        };
        self.emit(
            Diagnostic {
                message: String::from_str(message),
                level: Level::Error,
                location: SourceLocation::new(file, self.context.row, self.context.col),
            },
        );
    }

    /// Scan one operator token: consume the operator byte and record its
    /// kind over the one-byte span.
    fn visit_operator(&mut self)
        requires
            old(self).scan_wf(),
            old(self).context.pos < old(self).src().len(),
            is_op(old(self).src()[old(self).context.pos as int]),
        ensures
            final(self).scan_wf(),
            final(self).file_name == old(self).file_name,
            final(self).tokens.src() == old(self).tokens.src(),
            final(self).tokens.file_view() == old(self).tokens.file_view(),
            final(self).context.pos == old(self).context.pos + 1,
            final(self).tokens.records() == old(self).tokens.records().push(
                (
                    op_kind(old(self).src()[old(self).context.pos as int]),
                    old(self).context.pos as int,
                    old(self).context.pos + 1,
                ),
            ),
            final(self).tokens.locs() == old(self).tokens.locs().push(
                (
                    row_of(old(self).src(), old(self).context.pos + 1),
                    col_of(old(self).src(), old(self).context.pos + 1),
                ),
            ),
    {
        let start = self.context.pos;
        let op = self.take();
        let kind = match op {
            Some(43u8) => TokenKind::Plus,
            Some(45u8) => TokenKind::Minus,
            Some(42u8) => TokenKind::Star,
            _ => TokenKind::Slash,
        };
        self.push(kind, Span::new(start, self.context.pos));
    }

    /// Scan one numeric literal: the digit run, a fraction if a dot
    /// follows, an exponent if an 'e' or 'E' follows; record it as real
    /// exactly when it had a fraction.
    fn visit_number(&mut self)
        requires
            old(self).scan_wf(),
            old(self).context.pos < old(self).src().len(),
            is_digit(old(self).src()[old(self).context.pos as int]),
        ensures
            final(self).scan_wf(),
            final(self).file_name == old(self).file_name,
            final(self).tokens.src() == old(self).tokens.src(),
            final(self).tokens.file_view() == old(self).tokens.file_view(),
            final(self).context.pos == number_end(old(self).src(), old(self).context.pos as int),
            final(self).tokens.records() == old(self).tokens.records().push(
                (
                    if number_is_real(old(self).src(), old(self).context.pos as int) {
                        TokenKind::RealLiteral
                    } else {
                        TokenKind::IntLiteral
                    },
                    old(self).context.pos as int,
                    number_end(old(self).src(), old(self).context.pos as int),
                ),
            ),
            final(self).tokens.locs() == old(self).tokens.locs().push(
                (
                    row_of(
                        old(self).src(),
                        number_end(old(self).src(), old(self).context.pos as int),
                    ),
                    col_of(
                        old(self).src(),
                        number_end(old(self).src(), old(self).context.pos as int),
                    ),
                ),
            ),
    {
        let ghost src = self.src();
        let initial_pos = self.context.pos;
        let mut is_float = false;
        proof {
            lemma_run_end(src, initial_pos as int, digit_test());
        }
        self.skip_digits();
        let ghost d = run_end(src, initial_pos as int, digit_test());
        match self.peek() {
            Some(46u8) => {
                let _ = self.take();
                proof {
                    lemma_run_end(src, d + 1, digit_test());
                }
                self.skip_digits();
                is_float = true;
            },
            _ => {},
        }
        let ghost f = if d < src.len() && src[d] == 46u8 {
            run_end(src, d + 1, digit_test())
        } else {
            d
        };
        proof {
            assert(self.context.pos == f);
        }
        match self.peek() {
            Some(b) if b == 101 || b == 69 => {
                let _ = self.take();
                match self.peek() {
                    Some(c) if c == 43 || c == 45 => {
                        let _ = self.take();
                    },
                    _ => {},
                }
                proof {
                    lemma_run_end(src, self.context.pos as int, digit_test());
                }
                self.skip_digits();
            },
            _ => {},
        }
        proof {
            assert(self.context.pos == number_end(src, initial_pos as int));
            assert(is_float == number_is_real(src, initial_pos as int));
        }
        self.push(
            if is_float {
                TokenKind::RealLiteral
            } else {
                TokenKind::IntLiteral
            },
            Span::new(initial_pos, self.context.pos),
        );
    }

    /// Scan one horizontal-whitespace token: the maximal run of spaces
    /// and tabs under the cursor.
    fn visit_horizontal_whitespace(&mut self)
        requires
            old(self).scan_wf(),
            old(self).context.pos < old(self).src().len(),
            is_hws(old(self).src()[old(self).context.pos as int]),
        ensures
            final(self).scan_wf(),
            final(self).file_name == old(self).file_name,
            final(self).tokens.src() == old(self).tokens.src(),
            final(self).tokens.file_view() == old(self).tokens.file_view(),
            final(self).context.pos == run_end(
                old(self).src(),
                old(self).context.pos as int,
                hws_test(),
            ),
            final(self).tokens.records() == old(self).tokens.records().push(
                (
                    TokenKind::HorizontalWhitespace,
                    old(self).context.pos as int,
                    run_end(old(self).src(), old(self).context.pos as int, hws_test()),
                ),
            ),
            final(self).tokens.locs() == old(self).tokens.locs().push(
                (
                    row_of(
                        old(self).src(),
                        run_end(old(self).src(), old(self).context.pos as int, hws_test()),
                    ),
                    col_of(
                        old(self).src(),
                        run_end(old(self).src(), old(self).context.pos as int, hws_test()),
                    ),
                ),
            ),
    {
        let initial_pos = self.context.pos;
        proof {
            lemma_run_end(self.src(), initial_pos as int, hws_test());
        }
        self.skip_hws();
        self.push(TokenKind::HorizontalWhitespace, Span::new(initial_pos, self.context.pos));
    }

    /// Scan one vertical-whitespace token: the maximal run of carriage
    /// returns and line feeds under the cursor.
    fn visit_vertical_whitespace(&mut self)
        requires
            old(self).scan_wf(),
            old(self).context.pos < old(self).src().len(),
            is_vws(old(self).src()[old(self).context.pos as int]),
        ensures
            final(self).scan_wf(),
            final(self).file_name == old(self).file_name,
            final(self).tokens.src() == old(self).tokens.src(),
            final(self).tokens.file_view() == old(self).tokens.file_view(),
            final(self).context.pos == run_end(
                old(self).src(),
                old(self).context.pos as int,
                vws_test(),
            ),
            final(self).tokens.records() == old(self).tokens.records().push(
                (
                    TokenKind::VerticalWhitespace,
                    old(self).context.pos as int,
                    run_end(old(self).src(), old(self).context.pos as int, vws_test()),
                ),
            ),
            final(self).tokens.locs() == old(self).tokens.locs().push(
                (
                    row_of(
                        old(self).src(),
                        run_end(old(self).src(), old(self).context.pos as int, vws_test()),
                    ),
                    col_of(
                        old(self).src(),
                        run_end(old(self).src(), old(self).context.pos as int, vws_test()),
                    ),
                ),
            ),
    {
        let initial_pos = self.context.pos;
        proof {
            lemma_run_end(self.src(), initial_pos as int, vws_test());
        }
        self.skip_vws();
        self.push(TokenKind::VerticalWhitespace, Span::new(initial_pos, self.context.pos));
    }

    /// Scan the whole source and hand back the filled token table: its
    /// records are exactly `spec_lex` of the source, and each recorded
    /// position is the row and column at the end of its token's span.
    pub fn tokenize(self) -> (r: TokenizedBuffer)
        requires
            self.scan_wf(),
            self.spec_pos() == 0,
            self.spec_records() == Seq::<(TokenKind, int, int)>::empty(),
        ensures
            r.wf(),
            r.src() == self.src(),
            r.records() == spec_lex(self.src(), 0),
            forall|i: int|
                0 <= i < r.records().len() ==> #[trigger] r.locs()[i] == (
                    row_of(self.src(), r.records()[i].2),
                    col_of(self.src(), r.records()[i].2),
                ),
            r.file_view() == self.table_file_view(),
    {
        let ghost src = self.src();
        let ghost file0 = self.table_file_view();
        let mut lx = self;
        loop
            invariant_except_break
                lx.scan_wf(),
                lx.src() == src,
                lx.tokens.file_view() == file0,
                lx.tokens.records() + spec_lex(src, lx.context.pos as int) == spec_lex(src, 0),
            invariant
                forall|i: int|
                    0 <= i < lx.tokens.records().len() ==> #[trigger] lx.tokens.locs()[i] == (
                        row_of(src, lx.tokens.records()[i].2),
                        col_of(src, lx.tokens.records()[i].2),
                    ),
            ensures
                lx.tokens.wf(),
                lx.src() == src,
                lx.tokens.file_view() == file0,
                lx.tokens.records() == spec_lex(src, 0),
            decreases src.len() - lx.context.pos,
        {
            let ghost pos = lx.context.pos as int;
            let ghost recs = lx.tokens.records();
            match lx.peek() {
                None => {
                    proof {
                        assert(spec_lex(src, pos) =~= Seq::<(TokenKind, int, int)>::empty());
                        assert(lx.tokens.records() =~= spec_lex(src, 0));
                    }
                    break ;
                },
                Some(b) => {
                    if b == 32 || b == 9 {
                        proof {
                            lemma_run_end(src, pos, hws_test());
                        }
                        lx.visit_horizontal_whitespace();
                    } else if b == 13 || b == 10 {
                        proof {
                            lemma_run_end(src, pos, vws_test());
                        }
                        lx.visit_vertical_whitespace();
                    } else if 48 <= b && b <= 57 {
                        proof {
                            lemma_number_end(src, pos);
                        }
                        lx.visit_number();
                    } else if b == 43 || b == 45 || b == 42 || b == 47 {
                        lx.visit_operator();
                    } else if b == 0 {
                        let _ = lx.take();
                        let p = lx.context.pos;
                        lx.push(TokenKind::Eof, Span::new(p, p));
                        proof {
                            assert(spec_lex(src, pos) =~= seq![(TokenKind::Eof, pos + 1, pos + 1)]);
                            assert(lx.tokens.records() =~= recs + spec_lex(src, pos));
                            assert(lx.tokens.records() =~= spec_lex(src, 0));
                        }
                        break ;
                    } else {
                        let _ = lx.take();
                        let p = lx.context.pos;
                        lx.push(TokenKind::Invalid, Span::new(p, p));
                        proof {
                            assert(spec_lex(src, pos) =~= seq![
                                (TokenKind::Invalid, pos + 1, pos + 1),
                            ] + spec_lex(src, pos + 1));
                            assert(lx.tokens.records() + spec_lex(src, pos + 1) =~= spec_lex(
                                src,
                                0,
                            ));
                        }
                    }
                    proof {
                        assert(lx.tokens.records() + spec_lex(src, lx.context.pos as int)
                            =~= spec_lex(src, 0));
                    }
                },
            }
        }
        lx.tokens
    }
}

} // verus!
