//! A rule-based source-code quality analyzer: declarative pattern rules are
//! run against a parsed syntax tree, matches are filtered by per-rule
//! heuristics, and the accepted findings are aggregated into a bounded
//! quality score with a rating and a one-line summary.
//!
//! Scores are represented in exact fixed-point units throughout: score
//! impacts and deductions in centipoints (one hundredth of a point), rule
//! weights in tenths, and the overall score in tenths of a point.

pub mod analyzer;
pub mod ast;
pub mod lang;
pub mod parsing;
pub mod score;
pub mod text;

pub use analyzer::{AnalysisError, AnalysisResult, AnalysisRule, CaptureInfo, CodeAnalyzer, Severity};
pub use ast::{format_node, render_ast, AstNode};
pub use lang::{infer_language_from_path, Command};
pub use score::{CodeScore, ScoreBreakdown};
