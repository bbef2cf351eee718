//! Whether a file belongs to what its project's entry files reach.

use crate::diagnostic::{Diagnostic, DiagnosticKind};
use crate::range::SourceRange;
use std::collections::HashSet;
use vstd::prelude::*;

verus! {

/// Names a file.
#[derive(Clone, Copy, Debug, PartialEq, Eq, Hash, Structural)]
pub struct FileId(pub u32);

/// The files of one source root that its entry files reach, directly or
/// through other files.
///
/// An empty closure means that the source root has no entry files: each of
/// its files then stands for itself.
#[derive(Debug)]
pub struct SourceRootClosure {
    files: HashSet<u32>,
}

impl View for SourceRootClosure {
    type V = Set<FileId>;

    closed spec fn view(&self) -> Set<FileId> {
        Set::new(|file: FileId| self.files@.contains(file.0))
    }
}

impl SourceRootClosure {
    /// The closure of a source root without entry files.
    pub fn new() -> (closure: SourceRootClosure)
        ensures
            closure@ == Set::<FileId>::empty(),
    {
        SourceRootClosure { files: HashSet::new() }
    }

    /// Adds `file` to the closure.
    pub fn insert(&mut self, file: FileId)
        ensures
            final(self)@ == old(self)@.insert(file),
    {
        self.files.insert(file.0);
    }

    /// Whether the entry files reach `file`.
    pub fn contains(&self, file: FileId) -> (found: bool)
        ensures
            found == self@.contains(file),
    {
        self.files.contains(&file.0)
    }

    /// Whether the source root has no entry files.
    pub fn is_empty(&self) -> (empty: bool)
        ensures
            empty == self@.is_empty(),
    {
        let empty = self.files.is_empty();
        proof {
            if !empty {
                let raw = choose|raw: u32| self.files@.contains(raw);
                assert(self@.contains(FileId(raw)));
            }
        }
        empty
    }
}

/// What the reachability of `file` adds to its diagnostics: one
/// `FileNotReferenced` without a location where the closure holds files but
/// not this one, else nothing.
pub open spec fn spec_reachability_diagnostic(file: FileId, closure: Set<FileId>) -> Option<
    Diagnostic,
> {
    if !closure.is_empty() && !closure.contains(file) {
        Some(
            Diagnostic {
                range: SourceRange::spec_default(),
                kind: DiagnosticKind::FileNotReferenced,
            },
        )
    } else {
        None
    }
}

/// A source root without entry files complains about none of its files,
/// whatever the file.
pub proof fn lemma_no_entry_files_no_complaint(file: FileId, closure: Set<FileId>)
    requires
        closure.is_empty(),
    ensures
        spec_reachability_diagnostic(file, closure) is None,
{
}

/// A source root with entry files complains about exactly the files that
/// they do not reach, and the complaint has no location.
pub proof fn lemma_complaint_iff_unreached(file: FileId, closure: Set<FileId>)
    requires
        !closure.is_empty(),
    ensures
        spec_reachability_diagnostic(file, closure) is Some <==> !closure.contains(file),
        spec_reachability_diagnostic(file, closure) matches Some(diagnostic) ==> {
            &&& diagnostic.kind == DiagnosticKind::FileNotReferenced
            &&& diagnostic.range.start() == 0
            &&& diagnostic.range.end() == 0
        },
{
    SourceRange::lemma_span(0, 0);
}

/// Complains about a file that the entry files of its source root do not
/// reach. Without entry files there is nothing to reach it from, and no
/// complaint.
pub fn reachability_diagnostic(file: FileId, closure: &SourceRootClosure) -> (diagnostic: Option<
    Diagnostic,
>)
    ensures
        diagnostic == spec_reachability_diagnostic(file, closure@),
{
    if !closure.is_empty() && !closure.contains(file) {
        Some(Diagnostic::new(SourceRange::default(), DiagnosticKind::FileNotReferenced))
    } else {
        None
    }
}

} // verus!
