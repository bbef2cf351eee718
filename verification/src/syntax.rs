//! What the synthesis reads of the syntax tree.
//!
//! A node of the tree is held here by the few facts that the synthesis asks
//! of it: the range of its text, what construct it is, and where the tokens
//! lie that mark that construct.

use crate::range::SourceRange;
use vstd::prelude::*;

verus! {

/// A `with` expression: `with <scope>; <body>`.
///
/// Either token may be missing from a tree that the parser built out of
/// broken text.
#[derive(Clone, Copy, Debug, PartialEq, Eq)]
pub struct WithExpr {
    /// The text of the whole expression, body included.
    pub range: SourceRange,
    /// The keyword `with`.
    pub with_token: Option<SourceRange>,
    /// The semicolon that ends the header and begins the body.
    pub semicolon_token: Option<SourceRange>,
}

/// An attribute set: `{ .. }` or `rec { .. }`.
#[derive(Clone, Copy, Debug, PartialEq, Eq)]
pub struct AttrSet {
    /// The text of the whole set.
    pub range: SourceRange,
    /// The keyword `rec`, where the set has one.
    pub rec_token: Option<SourceRange>,
}

/// A node of the syntax tree.
#[derive(Clone, Copy, Debug, PartialEq, Eq)]
pub enum SyntaxNode {
    With(WithExpr),
    AttrSet(AttrSet),
    /// Any other construct; only the range of its text is known.
    Other(SourceRange),
}

impl SyntaxNode {
    /// The range of the node's text.
    pub open spec fn spec_text_range(&self) -> SourceRange {
        match *self {
            SyntaxNode::With(with) => with.range,
            SyntaxNode::AttrSet(set) => set.range,
            SyntaxNode::Other(range) => range,
        }
    }

    /// The range of the node's text.
    #[verifier::when_used_as_spec(spec_text_range)]
    pub fn text_range(&self) -> (range: SourceRange)
        ensures
            range == self.text_range(),
    {
        match *self {
            SyntaxNode::With(with) => with.range,
            SyntaxNode::AttrSet(set) => set.range,
            SyntaxNode::Other(range) => range,
        }
    }
}

impl WithExpr {
    /// The node as a `with` expression, if it is one.
    pub open spec fn spec_cast(node: SyntaxNode) -> Option<WithExpr> {
        match node {
            SyntaxNode::With(with) => Some(with),
            _ => None,
        }
    }

    /// The node as a `with` expression, if it is one.
    #[verifier::when_used_as_spec(spec_cast)]
    pub fn cast(node: SyntaxNode) -> (with: Option<WithExpr>)
        ensures
            with == WithExpr::cast(node),
    {
        match node {
            SyntaxNode::With(with) => Some(with),
            _ => None,
        }
    }
}

impl AttrSet {
    /// The node as an attribute set, if it is one.
    pub open spec fn spec_cast(node: SyntaxNode) -> Option<AttrSet> {
        match node {
            SyntaxNode::AttrSet(set) => Some(set),
            _ => None,
        }
    }

    /// The node as an attribute set, if it is one.
    #[verifier::when_used_as_spec(spec_cast)]
    pub fn cast(node: SyntaxNode) -> (set: Option<AttrSet>)
        ensures
            set == AttrSet::cast(node),
    {
        match node {
            SyntaxNode::AttrSet(set) => Some(set),
            _ => None,
        }
    }
}

} // verus!
