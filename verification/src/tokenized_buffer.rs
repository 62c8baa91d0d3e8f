//! The token table: a columnar store of token metadata. Each pushed token
//! gets one row holding its kind, its byte span in the source, and the
//! scanner position recorded with it; rows are addressed by `Token`
//! handles, which are plain indices. The table also owns the source bytes
//! and the spans of its lines, computed once at construction.

use crate::token::SourceLocation;
use crate::token::Span;
use crate::token::Token;
use crate::token::TokenInfo;
use crate::token::TokenKind;
use vstd::prelude::*;

verus! {

/// The end of the source line that starts at `pos`: the index of the
/// first newline byte at or after `pos`, or the length of the source.
pub open spec fn line_end(src: Seq<u8>, pos: int) -> int
    decreases src.len() - pos,
{
    if pos < 0 || pos >= src.len() {
        src.len() as int
    } else if src[pos] == 10u8 {
        pos
    } else {
        line_end(src, pos + 1)
    }
}

/// `line_end` stays between `pos` and the length of the source, crosses no
/// newline, and stops only at a newline or at the end.
pub proof fn lemma_line_end(src: Seq<u8>, pos: int)
    requires
        0 <= pos <= src.len(),
    ensures
        pos <= line_end(src, pos) <= src.len(),
        line_end(src, pos) == src.len() || src[line_end(src, pos)] == 10u8,
        forall|k: int| pos <= k < line_end(src, pos) ==> src[k] != 10u8,
    decreases src.len() - pos,
{
    if pos < src.len() && src[pos] != 10u8 {
        lemma_line_end(src, pos + 1);
    }
}

/// The byte ranges of the lines of `src` from `pos` on: each line runs to
/// the next newline byte or to the end of the source, and the final line
/// is listed only if it is not empty (a source ending in a newline has no
/// empty line after it).
pub open spec fn line_spans(src: Seq<u8>, pos: int) -> Seq<(int, int)>
    decreases src.len() - pos + 1,
    via line_spans_decreases
{
    if pos < 0 || pos >= src.len() {
        Seq::empty()
    } else {
        seq![(pos, line_end(src, pos))] + line_spans(src, line_end(src, pos) + 1)
    }
}

#[via_fn]
proof fn line_spans_decreases(src: Seq<u8>, pos: int) {
    if 0 <= pos < src.len() {
        lemma_line_end(src, pos);
    }
}

/// The spans of `s` as pairs of byte offsets.
pub open spec fn spans_model(s: Seq<Span>) -> Seq<(int, int)> {
    Seq::new(s.len(), |i: int| (s[i].start as int, s[i].end as int))
}

/// The token table.
pub struct TokenizedBuffer {
    file: Option<String>,
    source: Vec<u8>,
    tokens: Vec<Token>,
    kinds: Vec<TokenKind>,
    locations: Vec<Span>,
    spans: Vec<Span>,
    lines: Vec<Span>,
    count: usize,
}

impl TokenizedBuffer {
    /// The source bytes the table was built over.
    pub closed spec fn src(&self) -> Seq<u8> {
        self.source@
    }

    /// The file name the table is labeled with, as its characters.
    pub closed spec fn file_view(&self) -> Option<Seq<char>> {
        match self.file {
            Some(f) => Some(f@),
            None => None,
        }
    }

    /// How many tokens have been pushed.
    pub closed spec fn token_count(&self) -> nat {
        self.count as nat
    }

    /// The kind of the `i`-th token.
    pub closed spec fn kind_at(&self, i: int) -> TokenKind {
        self.kinds@[i]
    }

    /// The byte span of the `i`-th token.
    pub closed spec fn span_at(&self, i: int) -> (int, int) {
        (self.spans@[i].start as int, self.spans@[i].end as int)
    }

    /// The scanner position (row, column) recorded with the `i`-th token.
    pub closed spec fn loc_at(&self, i: int) -> (int, int) {
        (self.locations@[i].start as int, self.locations@[i].end as int)
    }

    /// The line spans of the source.
    pub closed spec fn spec_lines(&self) -> Seq<(int, int)> {
        spans_model(self.lines@)
    }

    /// One record per token: its kind and its byte span, in push order.
    pub open spec fn records(&self) -> Seq<(TokenKind, int, int)> {
        Seq::new(self.token_count(), |i: int| (self.kind_at(i), self.span_at(i).0, self.span_at(i).1))
    }

    /// The recorded scanner positions, in push order.
    pub open spec fn locs(&self) -> Seq<(int, int)> {
        Seq::new(self.token_count(), |i: int| self.loc_at(i))
    }

    /// Well-formedness: the columns all have one row per token, handles
    /// are their own indices, the line table matches the source, and
    /// every token span lies within the source.
    pub closed spec fn wf(&self) -> bool {
        &&& self.source@.len() < usize::MAX
        &&& self.tokens@.len() == self.count
        &&& self.kinds@.len() == self.count
        &&& self.locations@.len() == self.count
        &&& self.spans@.len() == self.count
        &&& forall|i: int| 0 <= i < self.count ==> (#[trigger] self.tokens@[i]).0 == i
        &&& spans_model(self.lines@) == line_spans(self.source@, 0)
        &&& forall|i: int|
            0 <= i < self.lines@.len() ==> (#[trigger] self.lines@[i]).start <= self.lines@[i].end
                <= self.source@.len()
        &&& forall|i: int|
            0 <= i < self.count ==> (#[trigger] self.spans@[i]).start <= self.spans@[i].end
                <= self.source@.len()
    }

    /// The source always fits the machine: room is left for a cursor one
    /// past its end.
    pub proof fn lemma_src_len(&self)
        requires
            self.wf(),
        ensures
            self.src().len() < usize::MAX,
    {
    }

    /// An empty table over `source`, with the line table computed: each
    /// line runs to the next newline or to the end, and a trailing
    /// newline opens no further line.
    pub fn new(source: Vec<u8>) -> (r: Self)
        requires
            source@.len() < usize::MAX,
        ensures
            r.wf(),
            r.src() == source@,
            r.token_count() == 0,
            r.file_view() is None,
            r.spec_lines() == line_spans(source@, 0),
    {
        let n = source.len();
        let mut lines: Vec<Span> = Vec::new();
        let mut pos: usize = 0;
        while pos < n
            invariant
                n == source@.len() < usize::MAX,
                pos <= n + 1,
                spans_model(lines@) + line_spans(source@, pos as int) == line_spans(source@, 0),
                forall|i: int|
                    0 <= i < lines@.len() ==> (#[trigger] lines@[i]).start <= lines@[i].end <= n,
            decreases n + 1 - pos,
        {
            let ghost start = pos as int;
            let mut end: usize = pos;
            while end < n && source[end] != 10u8
                invariant
                    n == source@.len(),
                    pos <= end <= n,
                    line_end(source@, start) == line_end(source@, end as int),
                    start == pos as int,
                decreases n - end,
            {
                end = end + 1;
            }
            proof {
                assert(line_end(source@, end as int) == end as int);
                lemma_line_end(source@, start);
            }
            let ghost lines_before = lines@;
            lines.push(Span { start: pos, end });
            proof {
                assert(spans_model(lines@) =~= spans_model(lines_before) + seq![
                    (pos as int, end as int),
                ]);
                assert(spans_model(lines@) + line_spans(source@, end + 1 as int) =~= line_spans(
                    source@,
                    0,
                ));
            }
            pos = end + 1;
        }
        proof {
            assert(line_spans(source@, pos as int) =~= Seq::<(int, int)>::empty());
        }
        let r = TokenizedBuffer {
            file: None,
            source,
            tokens: Vec::new(),
            kinds: Vec::new(),
            locations: Vec::new(),
            spans: Vec::new(),
            lines,
            count: 0,
        };
        proof {
            assert(spans_model(r.lines@) + Seq::<(int, int)>::empty() =~= spans_model(r.lines@));
            assert(r.records() =~= Seq::<(TokenKind, int, int)>::empty());
        }
        r
    }

    /// The next token handle: the index of the row about to be written.
    fn next_token(&mut self) -> (r: Token)
        requires
            old(self).count < usize::MAX,
        ensures
            final(self).count == old(self).count + 1,
            r.0 == old(self).count,
            final(self).tokens == old(self).tokens,
            final(self).kinds == old(self).kinds,
            final(self).locations == old(self).locations,
            final(self).spans == old(self).spans,
            final(self).lines == old(self).lines,
            final(self).source == old(self).source,
            final(self).file == old(self).file,
    {
        self.count = self.count + 1;
        Token(self.count - 1)
    }

    /// Append one token row: its kind, its byte span (`info.start` to
    /// `info.end`), and the scanner position recorded with it
    /// (`info.row`, `info.col`).
    pub fn push(&mut self, kind: TokenKind, info: TokenInfo)
        requires
            old(self).wf(),
            old(self).token_count() < usize::MAX,
            info.start <= info.end <= old(self).src().len(),
        ensures
            final(self).wf(),
            final(self).records() == old(self).records().push(
                (kind, info.start as int, info.end as int),
            ),
            final(self).locs() == old(self).locs().push((info.row as int, info.col as int)),
            final(self).src() == old(self).src(),
            final(self).spec_lines() == old(self).spec_lines(),
            final(self).file_view() == old(self).file_view(),
            final(self).token_count() == old(self).token_count() + 1,
    {
        let next_token = self.next_token();
        self.tokens.push(next_token);
        self.locations.push(Span { start: info.row, end: info.col });
        self.spans.push(Span { start: info.start, end: info.end });
        self.kinds.push(kind);
        proof {
            assert(self.records() =~= old(self).records().push(
                (kind, info.start as int, info.end as int),
            ));
            assert(self.locs() =~= old(self).locs().push((info.row as int, info.col as int)));
        }
    }

    /// The bytes of the `line`-th source line, or nothing when the table
    /// has fewer lines.
    pub fn get_line(&self, line: usize) -> (r: Option<Vec<u8>>)
        requires
            self.wf(),
        ensures
            line < self.spec_lines().len() ==> r is Some && r.unwrap()@ == self.src().subrange(
                self.spec_lines()[line as int].0,
                self.spec_lines()[line as int].1,
            ),
            line >= self.spec_lines().len() ==> r is None,
    {
        if line >= self.lines.len() {
            return None;
        }
        let span = self.lines[line];
        Some(self.copy_range(span.start, span.end))
    }

    /// The bytes of the source between `from` and `to`.
    fn copy_range(&self, from: usize, to: usize) -> (r: Vec<u8>)
        requires
            from <= to <= self.src().len(),
        ensures
            r@ == self.src().subrange(from as int, to as int),
    {
        let mut out: Vec<u8> = Vec::new();
        let mut i = from;
        while i < to
            invariant
                from <= i <= to <= self.source@.len(),
                out@ =~= self.source@.subrange(from as int, i as int),
            decreases to - i,
        {
            out.push(self.source[i]);
            proof {
                assert(out@ =~= self.source@.subrange(from as int, i + 1 as int));
            }
            i = i + 1;
        }
        proof {
            assert(out@ =~= self.src().subrange(from as int, to as int));
        }
        out
    }

    /// The byte span of `token`.
    pub fn span_of(&self, token: &Token) -> (r: Span)
        requires
            self.wf(),
            token.0 < self.token_count(),
        ensures
            r.start == self.span_at(token.0 as int).0,
            r.end == self.span_at(token.0 as int).1,
    {
        let index = token.0;
        self.spans[index]
    }

    /// The kind of `token`.
    pub fn kind_of(&self, token: &Token) -> (r: TokenKind)
        requires
            self.wf(),
            token.0 < self.token_count(),
        ensures
            r == self.kind_at(token.0 as int),
    {
        let index = token.0;
        self.kinds[index]
    }

    /// The source position recorded with `token`, labeled with the
    /// table's file name.
    pub fn location_of(&self, token: &Token) -> (r: SourceLocation)
        requires
            self.wf(),
            token.0 < self.token_count(),
        ensures
            r.row == self.loc_at(token.0 as int).0,
            r.col == self.loc_at(token.0 as int).1,
            (match r.file {
                Some(f) => self.file_view() == Some(f@),
                None => self.file_view() is None,
            }),
    {
        let index = token.0;
        let span = self.locations[index];
        let file = match &self.file {
            Some(f) => Some(f.clone()),
            None => None,
        };
        SourceLocation { file, row: span.start, col: span.end }
    }

    /// The source bytes of `token`: the slice its span selects.
    pub fn str_of(&self, token: &Token) -> (r: Vec<u8>)
        requires
            self.wf(),
            token.0 < self.token_count(),
        ensures
            r@ == self.src().subrange(
                self.span_at(token.0 as int).0,
                self.span_at(token.0 as int).1,
            ),
    {
        let span = self.span_of(token);
        self.copy_range(span.start, span.end)
    }

    /// The number of source bytes.
    pub fn src_len(&self) -> (r: usize)
        ensures
            r == self.src().len(),
    {
        self.source.len()
    }

    /// The source byte at `i`.
    pub fn src_byte(&self, i: usize) -> (r: u8)
        requires
            i < self.src().len(),
        ensures
            r == self.src()[i as int],
    {
        self.source[i]
    }
}

/// A cursor over the token handles of a table, front to back.
pub struct TokenizedBufferIter {
    index: usize,
    count: usize,
}

impl TokenizedBufferIter {
    /// The index of the next handle to hand out.
    pub closed spec fn spec_index(&self) -> int {
        self.index as int
    }

    /// How many handles there are in all.
    pub closed spec fn spec_count(&self) -> int {
        self.count as int
    }

    /// A cursor at the front of `buffer`'s handles.
    pub fn new(buffer: &TokenizedBuffer) -> (r: Self)
        requires
            buffer.wf(),
        ensures
            r.spec_index() == 0,
            r.spec_count() == buffer.token_count(),
    {
        TokenizedBufferIter { index: 0, count: buffer.len() }
    }

    /// The next token handle, or nothing once all have been handed out.
    pub fn next(&mut self) -> (r: Option<Token>)
        ensures
            old(self).spec_index() < old(self).spec_count() ==> r == Some(
                Token(old(self).spec_index() as usize),
            ) && final(self).spec_index() == old(self).spec_index() + 1,
            old(self).spec_index() >= old(self).spec_count() ==> r is None && *final(self) == *old(
                self,
            ),
            final(self).spec_count() == old(self).spec_count(),
    {
        if self.index >= self.count {
            return None;
        }
        let token = Token(self.index);
        self.index = self.index + 1;
        Some(token)
    }
}

impl Default for TokenizedBuffer {
    /// An empty table over an empty source.
    fn default() -> (r: Self)
        ensures
            r.wf(),
            r.src() == Seq::<u8>::empty(),
            r.token_count() == 0,
            r.file_view() is None,
    {
        TokenizedBuffer::new(Vec::new())
    }
}

impl TokenizedBuffer {
    /// How many tokens the table holds.
    pub fn len(&self) -> (r: usize)
        ensures
            r == self.token_count(),
    {
        self.count
    }
}

} // verus!
