//! Error values of the byte scanner.

use vstd::prelude::*;
use vstd::string::StringExecFns;

verus! {

/// A failure of the byte scanner.
#[derive(Debug, Clone, Copy, PartialEq, Eq, Structural)]
pub enum LexErr {
    /// The input ended where more bytes were needed.
    UnexpectedEOF,
}

impl LexErr {
    /// The rendered message of this error.
    pub open spec fn spec_message(&self) -> Seq<char> {
        "Unexpected EOF"@
    }

    /// The rendered message of this error.
    pub fn to_string(&self) -> (r: String)
        ensures
            r@ == self.spec_message(),
    {
        String::from_str("Unexpected EOF")
    }
}

} // verus!
