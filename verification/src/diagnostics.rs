//! Leveled diagnostics. The emitter trait is the sink callers implement;
//! the default emitter renders each message into its fixed line form and
//! keeps the rendered lines, in arrival order, for the caller to drain
//! and display.

use crate::fmtnum::dec_rep;
use crate::fmtnum::push_usize_dec;
use crate::token::SourceLocation;
use vstd::prelude::*;
use vstd::string::StringExecFns;

verus! {

/// How severe a diagnostic is.
#[derive(Debug, Clone, Copy, PartialEq, Eq, Structural)]
pub enum Level {
    Error,
    Warning,
    Info,
}

/// A leveled message tied to a source position.
#[derive(Debug)]
pub struct Diagnostic {
    pub level: Level,
    pub message: String,
    pub location: SourceLocation,
}

/// A sink accepting leveled messages.
pub trait DiagnosticEmitter {
    fn emit(&mut self, diagnostic: Diagnostic);
}

/// The tag a level is displayed under.
pub open spec fn level_tag(l: Level) -> Seq<char> {
    match l {
        Level::Error => "[ERROR]: "@,
        Level::Warning => "[WARN]: "@,
        Level::Info => "[INFO]: "@,
    }
}

/// The rendered line of a diagnostic: its level tag, the file it points
/// into (or a placeholder), the row and column, and the message.
pub open spec fn diagnostic_line(d: Diagnostic) -> Seq<char> {
    level_tag(d.level) + (match d.location.file {
        Some(f) => f@,
        None => "unknown file"@,
    }) + ":"@ + dec_rep(d.location.row as nat) + ":"@ + dec_rep(d.location.col as nat) + "  --> "@
        + d.message@
}

/// Render one diagnostic as its display line.
pub fn format_diagnostic(d: &Diagnostic) -> (r: String)
    ensures
        r@ == diagnostic_line(*d),
{
    let mut s = match d.level {
        Level::Error => String::from_str("[ERROR]: "),
        Level::Warning => String::from_str("[WARN]: "),
        Level::Info => String::from_str("[INFO]: "),
    };
    match &d.location.file {
        Some(f) => s.append(f.as_str()),
        None => s.append("unknown file"),
    }
    s.append(":");
    push_usize_dec(&mut s, d.location.row);
    s.append(":");
    push_usize_dec(&mut s, d.location.col);
    s.append("  --> ");
    s.append(d.message.as_str());
    proof {
        assert(s@ =~= diagnostic_line(*d));
    }
    s
}

/// The default sink: it renders each diagnostic and keeps the lines.
pub struct DefaultEmitter {
    lines: Vec<String>,
}

impl DefaultEmitter {
    /// The rendered lines received so far, in arrival order.
    pub closed spec fn spec_lines(&self) -> Seq<Seq<char>> {
        Seq::new(self.lines@.len(), |i: int| self.lines@[i]@)
    }

    /// An emitter holding no lines.
    pub fn new() -> (r: Self)
        ensures
            r.spec_lines() == Seq::<Seq<char>>::empty(),
    {
        let r = DefaultEmitter { lines: Vec::new() };
        proof {
            assert(r.spec_lines() =~= Seq::<Seq<char>>::empty());
        }
        r
    }

    /// Hand the rendered lines over, oldest first, leaving the emitter
    /// empty.
    pub fn take_lines(&mut self) -> (r: Vec<String>)
        ensures
            final(self).spec_lines() == Seq::<Seq<char>>::empty(),
            r@.len() == old(self).spec_lines().len(),
            forall|i: int|
                0 <= i < r@.len() ==> (#[trigger] r@[i])@ == old(self).spec_lines()[i],
    {
        let mut out: Vec<String> = Vec::new();
        core::mem::swap(&mut out, &mut self.lines);
        proof {
            assert(self.spec_lines() =~= Seq::<Seq<char>>::empty());
        }
        out
    }
}

impl DefaultEmitter {
    /// Render the diagnostic and keep its line.
    pub fn record(&mut self, diagnostic: Diagnostic)
        ensures
            final(self).spec_lines() == old(self).spec_lines().push(diagnostic_line(diagnostic)),
    {
        let line = format_diagnostic(&diagnostic);
        self.lines.push(line);
        proof {
            assert(self.spec_lines() =~= old(self).spec_lines().push(diagnostic_line(diagnostic)));
        }
    }
}

impl DiagnosticEmitter for DefaultEmitter {
    fn emit(&mut self, diagnostic: Diagnostic) {
        self.record(diagnostic);
    }
}

} // verus!
