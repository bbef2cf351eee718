//! Synthesis of the diagnostics of one source file from the results of the
//! passes that ran before it: the parser, lowering, the liveness pass and
//! the reachability of the file from its project's entry files.

pub mod adapters;
pub mod diagnostic;
pub mod liveness;
pub mod range;
pub mod reachability;
pub mod source_map;
pub mod syntax;
pub mod synthesis;

pub use crate::adapters::ParseError;
pub use crate::diagnostic::{Diagnostic, DiagnosticKind};
pub use crate::liveness::LivenessResult;
pub use crate::range::SourceRange;
pub use crate::reachability::{FileId, SourceRootClosure};
pub use crate::source_map::{ExprId, NameDefId, SourceMap};
pub use crate::synthesis::{diagnostics, FileAnalysis};
pub use crate::syntax::{AttrSet, SyntaxNode, WithExpr};
