//! The library's general error value and its rendered message.

use vstd::prelude::*;
use vstd::string::StringExecFns;

verus! {

/// A recoverable failure reported to callers.
#[derive(Debug)]
pub enum Error {
    /// The parser met a token other than the one it needed.
    UnexpectedToken { expected: String, found: String },
    /// A failure described only by its message.
    Custom(String),
}

impl Error {
    /// The rendered message of this error.
    pub open spec fn spec_message(&self) -> Seq<char> {
        match self {
            Error::UnexpectedToken { expected, found } => "Unexpected token: expected "@
                + expected@ + ", found "@ + found@,
            Error::Custom(message) => message@,
        }
    }

    /// An error carrying just `message`.
    pub fn custom(message: &str) -> (r: Error)
        ensures
            r is Custom,
            r.spec_message() == message@,
    {
        Error::Custom(String::from_str(message))
    }

    /// The rendered message of this error.
    pub fn to_string(&self) -> (r: String)
        ensures
            r@ == self.spec_message(),
    {
        match self {
            Error::UnexpectedToken { expected, found } => {
                let mut s = String::from_str("Unexpected token: expected ");
                s.append(expected.as_str());
                s.append(", found ");
                s.append(found.as_str());
                proof {
                    assert(s@ =~= self.spec_message());
                }
                s
            },
            Error::Custom(message) => message.clone(),
        }
    }
}

} // verus!
