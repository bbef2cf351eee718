//! From what lowering made back to the syntax tree.

use crate::syntax::SyntaxNode;
use std::collections::HashMap;
use vstd::prelude::*;

verus! {

/// Names a definition of a name in the lowered module.
#[derive(Clone, Copy, Debug, PartialEq, Eq, Hash, Structural)]
pub struct NameDefId(pub u32);

/// Names an expression in the lowered module.
#[derive(Clone, Copy, Debug, PartialEq, Eq, Hash, Structural)]
pub struct ExprId(pub u32);

/// For the definitions and expressions of a lowered module, the syntax nodes
/// that they were lowered from.
///
/// Lowering records a node for every definition that it makes. An expression
/// may have none: lowering makes expressions that stand nowhere in the text,
/// and drops nodes when it recovers from an error.
#[derive(Debug)]
pub struct SourceMap {
    name_defs: HashMap<u32, SyntaxNode>,
    exprs: HashMap<u32, SyntaxNode>,
}

impl SourceMap {
    /// The node of each definition that has one.
    pub closed spec fn name_def_nodes(&self) -> Map<NameDefId, SyntaxNode> {
        Map::new(
            |def: NameDefId| self.name_defs@.contains_key(def.0),
            |def: NameDefId| self.name_defs@[def.0],
        )
    }

    /// The node of each expression that has one.
    pub closed spec fn expr_nodes(&self) -> Map<ExprId, SyntaxNode> {
        Map::new(
            |expr: ExprId| self.exprs@.contains_key(expr.0),
            |expr: ExprId| self.exprs@[expr.0],
        )
    }

    /// A map without nodes.
    pub fn new() -> (map: SourceMap)
        ensures
            map.name_def_nodes() == Map::<NameDefId, SyntaxNode>::empty(),
            map.expr_nodes() == Map::<ExprId, SyntaxNode>::empty(),
    {
        SourceMap { name_defs: HashMap::new(), exprs: HashMap::new() }
    }

    /// Records `node` as the node of `def`, in place of any earlier one.
    pub fn insert_name_def(&mut self, def: NameDefId, node: SyntaxNode)
        ensures
            final(self).name_def_nodes() == old(self).name_def_nodes().insert(def, node),
            final(self).expr_nodes() == old(self).expr_nodes(),
    {
        self.name_defs.insert(def.0, node);
    }

    /// Records `node` as the node of `expr`, in place of any earlier one.
    pub fn insert_expr(&mut self, expr: ExprId, node: SyntaxNode)
        ensures
            final(self).expr_nodes() == old(self).expr_nodes().insert(expr, node),
            final(self).name_def_nodes() == old(self).name_def_nodes(),
    {
        self.exprs.insert(expr.0, node);
    }

    /// The node of `def`, if one is recorded.
    pub fn name_def_node(&self, def: NameDefId) -> (node: Option<SyntaxNode>)
        ensures
            node == self.name_def_nodes().get(def),
    {
        match self.name_defs.get(&def.0) {
            Some(node) => Some(*node),
            None => None,
        }
    }

    /// The node of `expr`, if one is recorded.
    pub fn expr_node(&self, expr: ExprId) -> (node: Option<SyntaxNode>)
        ensures
            node == self.expr_nodes().get(expr),
    {
        match self.exprs.get(&expr.0) {
            Some(node) => Some(*node),
            None => None,
        }
    }
}

} // verus!
