//! The records that the synthesis produces.

use crate::range::SourceRange;
use vstd::prelude::*;

verus! {

/// What a diagnostic is about.
///
/// A syntax or lowering error carries the message that the pass which found
/// it wrote; the other kinds carry nothing.
#[derive(Debug, PartialEq, Eq)]
pub enum DiagnosticKind {
    /// The file cannot be reached from the entry files of its project.
    FileNotReferenced,
    /// The parser rejected part of the text.
    SyntaxError(String),
    /// Lowering rejected part of the tree.
    LoweringError(String),
    /// A definition that nothing refers to.
    UnusedBinding,
    /// A `with` whose scope nothing refers to.
    UnusedWith,
    /// A `rec` on an attribute set none of whose bindings refers to another.
    UnusedRec,
}

impl DiagnosticKind {
    /// The place of the kind in the order of a file's diagnostics: the
    /// lower comes first.
    pub open spec fn stage(self) -> nat {
        match self {
            DiagnosticKind::FileNotReferenced => 0,
            DiagnosticKind::SyntaxError(_) => 1,
            DiagnosticKind::LoweringError(_) => 2,
            DiagnosticKind::UnusedBinding => 3,
            DiagnosticKind::UnusedWith => 4,
            DiagnosticKind::UnusedRec => 5,
        }
    }
}

impl Clone for DiagnosticKind {
    /// A copy, equal to the kind in variant and message.
    fn clone(&self) -> (kind: DiagnosticKind)
        ensures
            kind == *self,
    {
        match self {
            DiagnosticKind::FileNotReferenced => DiagnosticKind::FileNotReferenced,
            DiagnosticKind::SyntaxError(message) => DiagnosticKind::SyntaxError(message.clone()),
            DiagnosticKind::LoweringError(message) => DiagnosticKind::LoweringError(
                message.clone(),
            ),
            DiagnosticKind::UnusedBinding => DiagnosticKind::UnusedBinding,
            DiagnosticKind::UnusedWith => DiagnosticKind::UnusedWith,
            DiagnosticKind::UnusedRec => DiagnosticKind::UnusedRec,
        }
    }
}

/// One finding about a file: where, and what.
#[derive(Debug, PartialEq, Eq)]
pub struct Diagnostic {
    pub range: SourceRange,
    pub kind: DiagnosticKind,
}

impl Diagnostic {
    /// The diagnostic of the kind `kind` at `range`.
    pub fn new(range: SourceRange, kind: DiagnosticKind) -> (diagnostic: Diagnostic)
        ensures
            diagnostic == (Diagnostic { range, kind }),
    {
        Diagnostic { range, kind }
    }
}

impl Clone for Diagnostic {
    /// A copy, equal to the diagnostic in range and kind.
    fn clone(&self) -> (diagnostic: Diagnostic)
        ensures
            diagnostic == *self,
    {
        Diagnostic { range: self.range, kind: self.kind.clone() }
    }
}

} // verus!
