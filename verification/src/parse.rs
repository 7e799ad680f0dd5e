//! Parsing Python source text into the crate's own syntax tree.
//!
//! The parser itself is the tree-sitter library with the Python
//! grammar; everything this crate states about a parse goes through
//! the name `py_parse` below.

use vstd::prelude::*;
use crate::tree::PyNode;
use crate::tree::rows_in_range;

verus! {

#[verifier::external_type_specification]
#[verifier::external_body]
pub struct ExNode<'a>(tree_sitter::Node<'a>);

/// The tree that the Python grammar gives for a text, `None` when the
/// parser yields no tree at all. The grammar is fixed, and tree-sitter
/// parses a fresh text deterministically, so the result is a function
/// of the text alone.
pub uninterp spec fn py_parse(content: Seq<char>) -> Option<PyNode>;

/// Relies on tree_sitter::Parser::parse with the Python grammar of
/// tree_sitter_python: parsing a fresh text is deterministic, and a
/// node's start row is a line index into the text, so it lies below
/// the greatest possible text length.
#[verifier::external_body]
pub fn parse_python(content: &String) -> (r: Option<PyNode>)
    ensures
        r == py_parse(content@),
        r matches Some(t) ==> rows_in_range(t),
{
    let mut parser = tree_sitter::Parser::new();
    parser.set_language(&tree_sitter_python::LANGUAGE.into()).ok()?;
    let tree = parser.parse(content.as_bytes(), None)?;
    Some(convert(tree.root_node(), None, content))
}

/// Relies on tree_sitter::Node's accessors (kind, start_position,
/// utf8_text) and on TreeCursor's child walk (goto_first_child,
/// goto_next_sibling, node, field_name): copies one node of the
/// tree-sitter tree, edge field names included, into the crate's own
/// tree, converting and nothing more.
#[verifier::external_body]
fn convert(node: tree_sitter::Node<'_>, field: Option<&str>, content: &String) -> PyNode {
    let mut children = Vec::new();
    let mut cursor = node.walk();
    let mut more = cursor.goto_first_child();
    while more {
        children.push(convert(cursor.node(), cursor.field_name(), content));
        more = cursor.goto_next_sibling();
    }
    PyNode {
        kind: node.kind().to_string(),
        field: field.map(|f| f.to_string()),
        row: node.start_position().row,
        text: node.utf8_text(content.as_bytes()).unwrap_or("").to_string(),
        children,
    }
}

} // verus!
