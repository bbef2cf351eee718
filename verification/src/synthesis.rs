//! The diagnostics of one file, put together.

use crate::adapters::{
    lowering_diagnostics, spec_syntax_diagnostics, syntax_diagnostics, ParseError,
};
use crate::diagnostic::{Diagnostic, DiagnosticKind};
use crate::liveness::{
    all_resolved, first_unresolved, is_first_unresolved, spec_unused_bindings, spec_unused_recs,
    spec_unused_withs, unused_bindings, unused_rec, unused_recs, unused_with, unused_withs,
    LivenessResult,
};
use crate::range::SourceRange;
use crate::reachability::{
    reachability_diagnostic, spec_reachability_diagnostic, FileId, SourceRootClosure,
};
use crate::source_map::{ExprId, NameDefId, SourceMap};
use crate::syntax::SyntaxNode;
use vstd::prelude::*;

verus! {

/// What the passes before this one made of a file, all of one revision of
/// its text.
#[derive(Debug)]
pub struct FileAnalysis {
    /// The file that the results are of.
    pub file: FileId,
    /// What the entry files of the file's source root reach.
    pub source_root_closure: SourceRootClosure,
    /// The parser's errors, in the order in which it met them.
    pub parse_errors: Vec<ParseError>,
    /// The diagnostics of lowering, in the order in which it wrote them.
    pub lowering_diagnostics: Vec<Diagnostic>,
    /// What the liveness pass found unused in the lowered module.
    pub liveness: LivenessResult,
    /// The nodes that the lowered module was made from.
    pub source_map: SourceMap,
}

impl FileAnalysis {
    /// Whether every definition that the liveness pass found unused has a
    /// node in the source map, as it has where the two are of one module.
    pub open spec fn consistent(&self) -> bool {
        all_resolved(self.liveness.unused_name_defs@, self.source_map.name_def_nodes())
    }

    /// What the reachability of the file adds: one diagnostic or none.
    pub open spec fn reachability_part(&self) -> Seq<Diagnostic> {
        match spec_reachability_diagnostic(self.file, self.source_root_closure@) {
            Some(diagnostic) => seq![diagnostic],
            None => Seq::empty(),
        }
    }

    /// The syntax errors.
    pub open spec fn syntax_part(&self) -> Seq<Diagnostic> {
        spec_syntax_diagnostics(self.parse_errors@)
    }

    /// The unused definitions.
    pub open spec fn binding_part(&self) -> Seq<Diagnostic> {
        spec_unused_bindings(self.liveness.unused_name_defs@, self.source_map.name_def_nodes())
    }

    /// The unused `with` expressions.
    pub open spec fn with_part(&self) -> Seq<Diagnostic> {
        spec_unused_withs(self.liveness.unused_withs@, self.source_map.expr_nodes())
    }

    /// The unused `rec` sets.
    pub open spec fn rec_part(&self) -> Seq<Diagnostic> {
        spec_unused_recs(self.liveness.unused_recs@, self.source_map.expr_nodes())
    }

    /// The diagnostics of the file: what its reachability adds, then the
    /// syntax errors, then the diagnostics of lowering, then the unused
    /// definitions, the unused `with` expressions and the unused `rec` sets,
    /// each part in the order of the pass that it comes from.
    pub open spec fn spec_diagnostics(&self) -> Seq<Diagnostic> {
        self.reachability_part() + self.syntax_part() + self.lowering_diagnostics@
            + self.binding_part() + self.with_part() + self.rec_part()
    }

    /// Whether `other` holds the same results as `self`, however the two
    /// are laid out in memory.
    pub open spec fn same_results(&self, other: &FileAnalysis) -> bool {
        &&& self.file == other.file
        &&& self.source_root_closure@ == other.source_root_closure@
        &&& self.parse_errors@ == other.parse_errors@
        &&& self.lowering_diagnostics@ == other.lowering_diagnostics@
        &&& self.liveness.unused_name_defs@ == other.liveness.unused_name_defs@
        &&& self.liveness.unused_withs@ == other.liveness.unused_withs@
        &&& self.liveness.unused_recs@ == other.liveness.unused_recs@
        &&& self.source_map.name_def_nodes() == other.source_map.name_def_nodes()
        &&& self.source_map.expr_nodes() == other.source_map.expr_nodes()
    }

    /// The first definition that the liveness pass found unused and the
    /// source map has no node for, if there is one.
    pub fn first_unresolved_name_def(&self) -> (missing: Option<NameDefId>)
        ensures
            missing is None <==> self.consistent(),
            missing matches Some(def) ==> is_first_unresolved(
                self.liveness.unused_name_defs@,
                self.source_map.name_def_nodes(),
                def,
            ),
    {
        first_unresolved(&self.liveness.unused_name_defs, &self.source_map)
    }
}

/// The diagnostics of a file.
///
/// The liveness result and the source map must be of one module: a
/// definition found unused that has no node is a fault of the passes before,
/// which `first_unresolved_name_def` finds.
pub fn diagnostics(analysis: &FileAnalysis) -> (diagnostics: Vec<Diagnostic>)
    requires
        analysis.consistent(),
    ensures
        diagnostics@ == analysis.spec_diagnostics(),
{
    let mut diagnostics: Vec<Diagnostic> = Vec::new();
    if let Some(diagnostic) = reachability_diagnostic(
        analysis.file,
        &analysis.source_root_closure,
    ) {
        diagnostics.push(diagnostic);
    }
    let mut syntax = syntax_diagnostics(&analysis.parse_errors);
    diagnostics.append(&mut syntax);
    let mut lowering = lowering_diagnostics(&analysis.lowering_diagnostics);
    diagnostics.append(&mut lowering);
    let mut bindings = unused_bindings(&analysis.liveness.unused_name_defs, &analysis.source_map);
    diagnostics.append(&mut bindings);
    let mut withs = unused_withs(&analysis.liveness.unused_withs, &analysis.source_map);
    diagnostics.append(&mut withs);
    let mut recs = unused_recs(&analysis.liveness.unused_recs, &analysis.source_map);
    diagnostics.append(&mut recs);
    diagnostics
}

/// Whether none of `diagnostics` says that the file is not referenced.
pub open spec fn none_unreferenced(diagnostics: Seq<Diagnostic>) -> bool {
    forall|i: int|
        0 <= i < diagnostics.len() ==> (#[trigger] diagnostics[i]).kind
            != DiagnosticKind::FileNotReferenced
}

/// Whether each of `diagnostics` is a lowering error.
pub open spec fn all_lowering_errors(diagnostics: Seq<Diagnostic>) -> bool {
    forall|i: int|
        0 <= i < diagnostics.len() ==> (#[trigger] diagnostics[i]).kind is LoweringError
}

/// Whether each of `diagnostics` is of the stage `stage`.
pub open spec fn all_of_stage(diagnostics: Seq<Diagnostic>, stage: nat) -> bool {
    forall|i: int|
        0 <= i < diagnostics.len() ==> (#[trigger] diagnostics[i]).kind.stage() == stage
}

/// Whether no diagnostic of a later stage stands before one of an earlier.
pub open spec fn in_stage_order(diagnostics: Seq<Diagnostic>) -> bool {
    forall|i: int, j: int|
        0 <= i <= j < diagnostics.len() ==> (#[trigger] diagnostics[i]).kind.stage() <= (
        #[trigger] diagnostics[j]).kind.stage()
}

/// Every diagnostic of an unused `with` expression is an `UnusedWith`.
proof fn lemma_with_stage(exprs: Seq<ExprId>, nodes: Map<ExprId, SyntaxNode>)
    ensures
        all_of_stage(spec_unused_withs(exprs, nodes), DiagnosticKind::UnusedWith.stage()),
{
    let resolve = |expr: ExprId| unused_with(nodes.get(expr));
    let found = exprs.filter_map(resolve);
    assert forall|i: int| 0 <= i < found.len() implies (#[trigger] found[i]).kind
        == DiagnosticKind::UnusedWith by {
        exprs.lemma_filter_map_contains(resolve, found[i]);
    }
}

/// Every diagnostic of an unused `rec` is an `UnusedRec`.
proof fn lemma_rec_stage(exprs: Seq<ExprId>, nodes: Map<ExprId, SyntaxNode>)
    ensures
        all_of_stage(spec_unused_recs(exprs, nodes), DiagnosticKind::UnusedRec.stage()),
{
    let resolve = |expr: ExprId| unused_rec(nodes.get(expr));
    let found = exprs.filter_map(resolve);
    assert forall|i: int| 0 <= i < found.len() implies (#[trigger] found[i]).kind
        == DiagnosticKind::UnusedRec by {
        exprs.lemma_filter_map_contains(resolve, found[i]);
    }
}

/// Diagnostics in stage order and of no stage above `low`, followed by
/// diagnostics of one stage `high` that is not below `low`, are in stage
/// order and of no stage above `high`.
proof fn lemma_stage_order_of_parts(
    before: Seq<Diagnostic>,
    low: nat,
    after: Seq<Diagnostic>,
    high: nat,
)
    requires
        low <= high,
        in_stage_order(before),
        forall|i: int| 0 <= i < before.len() ==> (#[trigger] before[i]).kind.stage() <= low,
        all_of_stage(after, high),
    ensures
        in_stage_order(before + after),
        forall|i: int|
            0 <= i < (before + after).len() ==> (#[trigger] (before + after)[i]).kind.stage()
                <= high,
{
}

impl FileAnalysis {
    /// Each part of the diagnostics holds one stage only, but for what
    /// lowering wrote, which is passed on as it is.
    pub proof fn lemma_stages_of_parts(&self)
        ensures
            all_of_stage(self.reachability_part(), DiagnosticKind::FileNotReferenced.stage()),
            forall|i: int|
                0 <= i < self.syntax_part().len() ==> (
                #[trigger] self.syntax_part()[i]).kind is SyntaxError,
            all_of_stage(self.binding_part(), DiagnosticKind::UnusedBinding.stage()),
            all_of_stage(self.with_part(), DiagnosticKind::UnusedWith.stage()),
            all_of_stage(self.rec_part(), DiagnosticKind::UnusedRec.stage()),
    {
        lemma_with_stage(self.liveness.unused_withs@, self.source_map.expr_nodes());
        lemma_rec_stage(self.liveness.unused_recs@, self.source_map.expr_nodes());
    }

    /// In a source root without entry files no diagnostic of a file says
    /// that the file is not referenced, whatever the file.
    ///
    /// Lowering's diagnostics are passed on as they are, so this holds where
    /// lowering wrote no such diagnostic itself.
    pub proof fn lemma_never_unreferenced_without_entry_files(&self)
        requires
            self.source_root_closure@.is_empty(),
            none_unreferenced(self.lowering_diagnostics@),
        ensures
            none_unreferenced(self.spec_diagnostics()),
    {
        self.lemma_stages_of_parts();
    }

    /// In a source root with entry files the diagnostics of a file say that
    /// it is not referenced if and only if the entry files do not reach it;
    /// they then say so once, first of all, and without a location.
    ///
    /// Lowering's diagnostics are passed on as they are, so this holds where
    /// lowering wrote no such diagnostic itself.
    pub proof fn lemma_unreferenced_once(&self)
        requires
            !self.source_root_closure@.is_empty(),
            none_unreferenced(self.lowering_diagnostics@),
        ensures
            !self.source_root_closure@.contains(self.file) ==> {
                &&& self.spec_diagnostics().len() > 0
                &&& self.spec_diagnostics()[0].kind == DiagnosticKind::FileNotReferenced
                &&& self.spec_diagnostics()[0].range.start() == 0
                &&& self.spec_diagnostics()[0].range.end() == 0
                &&& none_unreferenced(self.spec_diagnostics().skip(1))
            },
            self.source_root_closure@.contains(self.file) ==> none_unreferenced(
                self.spec_diagnostics(),
            ),
    {
        self.lemma_stages_of_parts();
        SourceRange::lemma_span(0, 0);
    }

    /// The diagnostics come in the order of the passes: first what
    /// reachability adds, then syntax errors, then lowering errors, then
    /// unused definitions, unused `with` expressions and unused `rec` sets.
    ///
    /// Lowering's diagnostics are passed on as they are, so this holds where
    /// each of them is a lowering error.
    pub proof fn lemma_in_stage_order(&self)
        requires
            all_lowering_errors(self.lowering_diagnostics@),
        ensures
            in_stage_order(self.spec_diagnostics()),
    {
        self.lemma_stages_of_parts();
        let a = self.reachability_part();
        let b = self.syntax_part();
        let c = self.lowering_diagnostics@;
        let d = self.binding_part();
        let e = self.with_part();
        let f = self.rec_part();
        lemma_stage_order_of_parts(a, 0, b, 1);
        lemma_stage_order_of_parts(a + b, 1, c, 2);
        lemma_stage_order_of_parts(a + b + c, 2, d, 3);
        lemma_stage_order_of_parts(a + b + c + d, 3, e, 4);
        lemma_stage_order_of_parts(a + b + c + d + e, 4, f, 5);
    }

    /// The diagnostics are a function of the results alone: two analyses
    /// that hold the same results have the same diagnostics, so that asking
    /// again while nothing has changed gives the same answer.
    pub proof fn lemma_same_results_same_diagnostics(&self, other: &FileAnalysis)
        requires
            self.same_results(other),
        ensures
            self.consistent() == other.consistent(),
            self.spec_diagnostics() == other.spec_diagnostics(),
    {
    }
}

} // verus!
