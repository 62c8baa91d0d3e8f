//! The parser stub: it holds the token table it will read.

use crate::tokenized_buffer::TokenizedBuffer;
use vstd::prelude::*;

verus! {

/// A parser over a token table.
pub struct Parser<'a> {
    buf: &'a TokenizedBuffer,
}

impl<'a> Parser<'a> {
    /// The table the parser reads.
    pub closed spec fn buffer(&self) -> TokenizedBuffer {
        *self.buf
    }

    /// A parser over `buf`.
    pub fn new(buf: &'a TokenizedBuffer) -> (r: Self)
        ensures
            r.buffer() == *buf,
    {
        Parser { buf }
    }
}

} // verus!
