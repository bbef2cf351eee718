//! From what the liveness pass found unused to the text to underline.

use crate::diagnostic::{Diagnostic, DiagnosticKind};
use crate::range::SourceRange;
use crate::source_map::{ExprId, NameDefId, SourceMap};
use crate::syntax::{AttrSet, SyntaxNode, WithExpr};
use vstd::prelude::*;

verus! {

/// What the liveness pass found unused in a lowered module, each list in the
/// order in which the pass found it.
#[derive(Debug, PartialEq, Eq)]
pub struct LivenessResult {
    /// Definitions that nothing refers to.
    pub unused_name_defs: Vec<NameDefId>,
    /// `with` expressions whose scope nothing refers to.
    pub unused_withs: Vec<ExprId>,
    /// Attribute sets marked `rec` none of whose bindings refers to another.
    pub unused_recs: Vec<ExprId>,
}

impl WithExpr {
    /// The text to underline for an unused `with`.
    ///
    /// Without the keyword there is nothing to report. With the keyword and
    /// the semicolon it is the header, from the one to the other, and not the
    /// body. With the keyword alone it is the whole expression.
    pub open spec fn spec_header_range(&self) -> Option<SourceRange> {
        match self.with_token {
            Some(with_token) => Some(
                match self.semicolon_token {
                    Some(semicolon) => semicolon.spec_cover(with_token),
                    None => self.range,
                },
            ),
            None => None,
        }
    }

    /// The text to underline for an unused `with`, if the expression has its
    /// keyword.
    #[verifier::when_used_as_spec(spec_header_range)]
    pub fn header_range(&self) -> (range: Option<SourceRange>)
        ensures
            range == self.header_range(),
    {
        match self.with_token {
            Some(with_token) => Some(
                match self.semicolon_token {
                    Some(semicolon) => semicolon.cover(with_token),
                    None => self.range,
                },
            ),
            None => None,
        }
    }
}

impl AttrSet {
    /// The text to underline for an unused `rec`: the keyword, or the whole
    /// set where the keyword is missing.
    pub open spec fn spec_rec_range(&self) -> SourceRange {
        match self.rec_token {
            Some(rec_token) => rec_token,
            None => self.range,
        }
    }

    /// The text to underline for an unused `rec`.
    #[verifier::when_used_as_spec(spec_rec_range)]
    pub fn rec_range(&self) -> (range: SourceRange)
        ensures
            range == self.rec_range(),
    {
        match self.rec_token {
            Some(rec_token) => rec_token,
            None => self.range,
        }
    }
}

/// The diagnostic of an unused definition whose name is `node`.
pub open spec fn unused_binding(node: SyntaxNode) -> Diagnostic {
    Diagnostic { range: node.text_range(), kind: DiagnosticKind::UnusedBinding }
}

/// The diagnostic of an unused `with` expression whose node, if it has one,
/// is `node`. There is none without a node, for a node that is no `with`
/// expression, and for one without its keyword.
pub open spec fn unused_with(node: Option<SyntaxNode>) -> Option<Diagnostic> {
    match node {
        Some(SyntaxNode::With(with)) => match with.header_range() {
            Some(range) => Some(Diagnostic { range, kind: DiagnosticKind::UnusedWith }),
            None => None,
        },
        _ => None,
    }
}

/// The diagnostic of an unused `rec` on the set whose node, if it has one,
/// is `node`. There is none without a node, and for a node that is no
/// attribute set.
pub open spec fn unused_rec(node: Option<SyntaxNode>) -> Option<Diagnostic> {
    match node {
        Some(SyntaxNode::AttrSet(set)) => Some(
            Diagnostic { range: set.rec_range(), kind: DiagnosticKind::UnusedRec },
        ),
        _ => None,
    }
}

/// Where a `with` expression has its keyword and its semicolon, and the
/// keyword does not start behind the semicolon, the text underlined starts
/// with the keyword and ends with whichever of the two ends later.
pub proof fn lemma_header_from_keyword(with: WithExpr)
    requires
        with.with_token is Some,
        with.semicolon_token is Some,
        with.with_token->0.start() <= with.semicolon_token->0.start(),
    ensures
        with.header_range() == Some(
            SourceRange::span(
                with.with_token->0.start(),
                if with.with_token->0.end() >= with.semicolon_token->0.end() {
                    with.with_token->0.end()
                } else {
                    with.semicolon_token->0.end()
                },
            ),
        ),
        with.header_range()->0.start() == with.with_token->0.start(),
        with.header_range()->0.end() == if with.with_token->0.end()
            >= with.semicolon_token->0.end() {
            with.with_token->0.end()
        } else {
            with.semicolon_token->0.end()
        },
        unused_with(Some(SyntaxNode::With(with))) == Some(
            Diagnostic { range: with.header_range()->0, kind: DiagnosticKind::UnusedWith },
        ),
{
    with.semicolon_token->0.lemma_cover_bounds(with.with_token->0);
}

/// Where a `with` expression has its keyword and no semicolon, the text
/// underlined is the whole expression.
pub proof fn lemma_header_without_semicolon(with: WithExpr)
    requires
        with.with_token is Some,
        with.semicolon_token is None,
    ensures
        with.header_range() == Some(with.range),
        unused_with(Some(SyntaxNode::With(with))) == Some(
            Diagnostic { range: with.range, kind: DiagnosticKind::UnusedWith },
        ),
{
}

/// Whether each of `defs` has a node in `nodes`.
pub open spec fn all_resolved(defs: Seq<NameDefId>, nodes: Map<NameDefId, SyntaxNode>) -> bool {
    forall|i: int| 0 <= i < defs.len() ==> nodes.contains_key(#[trigger] defs[i])
}

/// Whether `def` is the first of `defs` that has no node in `nodes`.
pub open spec fn is_first_unresolved(
    defs: Seq<NameDefId>,
    nodes: Map<NameDefId, SyntaxNode>,
    def: NameDefId,
) -> bool {
    exists|i: int|
        0 <= i < defs.len() && #[trigger] defs[i] == def && !nodes.contains_key(def)
            && all_resolved(defs.take(i), nodes)
}

/// The diagnostics of the unused definitions `defs`: one for each, in order.
pub open spec fn spec_unused_bindings(
    defs: Seq<NameDefId>,
    nodes: Map<NameDefId, SyntaxNode>,
) -> Seq<Diagnostic> {
    defs.map_values(|def: NameDefId| unused_binding(nodes[def]))
}

/// The diagnostics of the unused `with` expressions `exprs`: in order, one
/// for each that can be shown.
pub open spec fn spec_unused_withs(
    exprs: Seq<ExprId>,
    nodes: Map<ExprId, SyntaxNode>,
) -> Seq<Diagnostic> {
    exprs.filter_map(|expr: ExprId| unused_with(nodes.get(expr)))
}

/// The diagnostics of the unused `rec` sets `exprs`: in order, one for each
/// that can be shown.
pub open spec fn spec_unused_recs(
    exprs: Seq<ExprId>,
    nodes: Map<ExprId, SyntaxNode>,
) -> Seq<Diagnostic> {
    exprs.filter_map(|expr: ExprId| unused_rec(nodes.get(expr)))
}

/// The first of `defs` that has no node in `map`, if there is one.
///
/// Lowering records a node for every definition, so a definition without
/// one means that the liveness result and the source map are not of the same
/// module.
pub fn first_unresolved(defs: &Vec<NameDefId>, map: &SourceMap) -> (missing: Option<NameDefId>)
    ensures
        missing is None <==> all_resolved(defs@, map.name_def_nodes()),
        missing matches Some(def) ==> is_first_unresolved(defs@, map.name_def_nodes(), def),
{
    let mut i: usize = 0;
    while i < defs.len()
        invariant
            i <= defs.len(),
            all_resolved(defs@.take(i as int), map.name_def_nodes()),
        decreases defs.len() - i,
    {
        if map.name_def_node(defs[i]).is_none() {
            return Some(defs[i]);
        }
        i += 1;
    }
    assert(defs@.take(i as int) =~= defs@);
    None
}

/// One `UnusedBinding` for each of `defs`, in order, at the node of its name.
///
/// Every one of `defs` must have a node in `map`: `first_unresolved` tells.
pub fn unused_bindings(defs: &Vec<NameDefId>, map: &SourceMap) -> (diagnostics: Vec<Diagnostic>)
    requires
        all_resolved(defs@, map.name_def_nodes()),
    ensures
        diagnostics@ == spec_unused_bindings(defs@, map.name_def_nodes()),
{
    let mut diagnostics: Vec<Diagnostic> = Vec::new();
    let mut i: usize = 0;
    while i < defs.len()
        invariant
            i <= defs.len(),
            all_resolved(defs@, map.name_def_nodes()),
            diagnostics@ == spec_unused_bindings(defs@.take(i as int), map.name_def_nodes()),
        decreases defs.len() - i,
    {
        let node = map.name_def_node(defs[i]).unwrap();
        diagnostics.push(Diagnostic::new(node.text_range(), DiagnosticKind::UnusedBinding));
        i += 1;
    }
    diagnostics
}

/// One `UnusedWith` for each of `exprs` that can be shown, in order, at the
/// header of the expression. An expression without a node, with a node of
/// another construct or without its keyword is passed over.
pub fn unused_withs(exprs: &Vec<ExprId>, map: &SourceMap) -> (diagnostics: Vec<Diagnostic>)
    ensures
        diagnostics@ == spec_unused_withs(exprs@, map.expr_nodes()),
{
    let ghost resolve = |expr: ExprId| unused_with(map.expr_nodes().get(expr));
    let mut diagnostics: Vec<Diagnostic> = Vec::new();
    let mut i: usize = 0;
    while i < exprs.len()
        invariant
            i <= exprs.len(),
            resolve == |expr: ExprId| unused_with(map.expr_nodes().get(expr)),
            diagnostics@ == exprs@.take(i as int).filter_map(resolve),
        decreases exprs.len() - i,
    {
        proof {
            exprs@.lemma_filter_map_take_succ(resolve, i as int);
        }
        if let Some(node) = map.expr_node(exprs[i]) {
            if let Some(with) = WithExpr::cast(node) {
                if let Some(range) = with.header_range() {
                    diagnostics.push(Diagnostic::new(range, DiagnosticKind::UnusedWith));
                }
            }
        }
        i += 1;
    }
    assert(exprs@.take(i as int) =~= exprs@);
    diagnostics
}

/// One `UnusedRec` for each of `exprs` that can be shown, in order, at the
/// keyword. An expression without a node or with a node of another construct
/// is passed over.
pub fn unused_recs(exprs: &Vec<ExprId>, map: &SourceMap) -> (diagnostics: Vec<Diagnostic>)
    ensures
        diagnostics@ == spec_unused_recs(exprs@, map.expr_nodes()),
{
    let ghost resolve = |expr: ExprId| unused_rec(map.expr_nodes().get(expr));
    let mut diagnostics: Vec<Diagnostic> = Vec::new();
    let mut i: usize = 0;
    while i < exprs.len()
        invariant
            i <= exprs.len(),
            resolve == |expr: ExprId| unused_rec(map.expr_nodes().get(expr)),
            diagnostics@ == exprs@.take(i as int).filter_map(resolve),
        decreases exprs.len() - i,
    {
        proof {
            exprs@.lemma_filter_map_take_succ(resolve, i as int);
        }
        if let Some(node) = map.expr_node(exprs[i]) {
            if let Some(set) = AttrSet::cast(node) {
                diagnostics.push(Diagnostic::new(set.rec_range(), DiagnosticKind::UnusedRec));
            }
        }
        i += 1;
    }
    assert(exprs@.take(i as int) =~= exprs@);
    diagnostics
}

} // verus!
