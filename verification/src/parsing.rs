//! The boundary with the tree-sitter parsing library: opaque type
//! declarations and thin trusted wrappers around parsing and query
//! execution. Everything downstream of these wrappers works on the plain
//! `CaptureInfo` records they return and is verified.

use vstd::prelude::*;

use tree_sitter::StreamingIterator;

use crate::analyzer::CaptureInfo;

verus! {

/// The opaque per-language grammar handle of the tree-sitter library.
#[verifier::external_type_specification]
#[verifier::external_body]
pub struct ExLanguage(tree_sitter::Language);

/// An owned tree-sitter parse tree.
#[verifier::external_type_specification]
#[verifier::external_body]
pub struct ExTree(tree_sitter::Tree);

/// A compiled tree-sitter pattern query.
#[verifier::external_type_specification]
#[verifier::external_body]
pub struct ExQuery(tree_sitter::Query);

/// A node of a tree-sitter parse tree.
#[verifier::external_type_specification]
#[verifier::external_body]
pub struct ExNode<'a>(tree_sitter::Node<'a>);

/// Relies on tree_sitter::Parser: `set_language` rejects only a grammar of
/// an incompatible ABI version (returned as the error's message), and
/// `parse` returns a best-effort tree for arbitrary input, or `None` only
/// when no language was set.
#[verifier::external_body]
pub(crate) fn parse_source(source: &str, language: &tree_sitter::Language) -> Result<
    Option<tree_sitter::Tree>,
    String,
> {
    let mut parser = tree_sitter::Parser::new();
    match parser.set_language(language) {
        Err(e) => Err(e.to_string()),
        Ok(()) => Ok(parser.parse(source, None)),
    }
}

/// Relies on tree_sitter::Query::new: compiles a pattern query against a
/// grammar; a malformed pattern comes back as the error's message.
#[verifier::external_body]
pub(crate) fn compile_query(language: &tree_sitter::Language, query: &str) -> Result<
    tree_sitter::Query,
    String,
> {
    match tree_sitter::Query::new(language, query) {
        Ok(q) => Ok(q),
        Err(e) => Err(e.to_string()),
    }
}

/// Relies on tree_sitter::QueryCursor::matches: yields the captures of every
/// match of the query against the tree's root, in discovery order, each
/// copied into a plain record.
#[verifier::external_body]
pub(crate) fn query_captures(
    query: &tree_sitter::Query,
    tree: &tree_sitter::Tree,
    source: &str,
) -> Vec<CaptureInfo> {
    let mut cursor = tree_sitter::QueryCursor::new();
    let mut matches = cursor.matches(query, tree.root_node(), source.as_bytes());
    let mut captures: Vec<CaptureInfo> = Vec::new();
    while let Some(m) = matches.next() {
        for c in m.captures() {
            captures.push(capture_info(&c.node, source));
        }
    }
    captures
}

/// Relies on tree_sitter::Node accessors: copies one node's start and end
/// positions, byte range, spanned text (empty when not valid UTF-8), and
/// parent node kind into plain values.
#[verifier::external_body]
fn capture_info(node: &tree_sitter::Node, source: &str) -> CaptureInfo {
    CaptureInfo {
        start_row: node.start_position().row,
        start_col: node.start_position().column,
        end_row: node.end_position().row,
        start_byte: node.start_byte(),
        end_byte: node.end_byte(),
        text: node.utf8_text(source.as_bytes()).unwrap_or("").to_string(),
        parent_kind: node.parent().map(|p| p.kind().to_string()),
    }
}

} // verus!
