//! What the parser and lowering report of a file, as diagnostics.

use crate::diagnostic::{Diagnostic, DiagnosticKind};
use crate::range::SourceRange;
use vstd::prelude::*;

verus! {

/// An error that the parser found: where, and in its own words what.
#[derive(Debug, PartialEq, Eq)]
pub struct ParseError {
    pub range: SourceRange,
    pub message: String,
}

impl Clone for ParseError {
    /// A copy, equal to the error in range and message.
    fn clone(&self) -> (error: ParseError)
        ensures
            error == *self,
    {
        ParseError { range: self.range, message: self.message.clone() }
    }
}

/// The error as a diagnostic: a `SyntaxError` of the same range and message.
pub open spec fn syntax_error(error: ParseError) -> Diagnostic {
    Diagnostic { range: error.range, kind: DiagnosticKind::SyntaxError(error.message) }
}

impl From<ParseError> for Diagnostic {
    /// The error as a diagnostic: `syntax_error(error)`.
    fn from(error: ParseError) -> (diagnostic: Diagnostic) {
        Diagnostic { range: error.range, kind: DiagnosticKind::SyntaxError(error.message) }
    }
}

impl vstd::std_specs::convert::FromSpecImpl<ParseError> for Diagnostic {
    open spec fn obeys_from_spec() -> bool {
        true
    }

    open spec fn from_spec(error: ParseError) -> Diagnostic {
        syntax_error(error)
    }
}

/// The diagnostics of the parser's errors: one for each, in the parser's
/// order.
pub open spec fn spec_syntax_diagnostics(errors: Seq<ParseError>) -> Seq<Diagnostic> {
    errors.map_values(|error: ParseError| syntax_error(error))
}

/// Passes the parser's errors on as diagnostics, none left out and none
/// moved.
pub fn syntax_diagnostics(errors: &Vec<ParseError>) -> (diagnostics: Vec<Diagnostic>)
    ensures
        diagnostics@ == spec_syntax_diagnostics(errors@),
{
    let mut diagnostics: Vec<Diagnostic> = Vec::new();
    let mut i: usize = 0;
    while i < errors.len()
        invariant
            i <= errors.len(),
            diagnostics@ == spec_syntax_diagnostics(errors@.take(i as int)),
        decreases errors.len() - i,
    {
        diagnostics.push(Diagnostic::from(errors[i].clone()));
        i += 1;
    }
    diagnostics
}

/// Passes the diagnostics that lowering wrote on as they are.
pub fn lowering_diagnostics(lowered: &Vec<Diagnostic>) -> (diagnostics: Vec<Diagnostic>)
    ensures
        diagnostics@ == lowered@,
{
    let mut diagnostics: Vec<Diagnostic> = Vec::new();
    let mut i: usize = 0;
    while i < lowered.len()
        invariant
            i <= lowered.len(),
            diagnostics@ == lowered@.take(i as int),
        decreases lowered.len() - i,
    {
        diagnostics.push(lowered[i].clone());
        i += 1;
    }
    diagnostics
}

} // verus!
