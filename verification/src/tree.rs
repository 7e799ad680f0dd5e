//! The concrete syntax tree of one parsed source file, and the
//! specification of which definition sites and identifier usages a
//! tree contributes.

use vstd::prelude::*;

verus! {

/// One node of a concrete syntax tree.
///
/// `kind` is the grammar's name for the node ("function_definition",
/// "identifier", ...). `field` is the grammar field under which the
/// node sits in its parent, if any; a definition's declared name sits
/// under the field "name". `row` is the 0-based line of the node's
/// first character, and `text` the node's own source text.
pub struct PyNode {
    pub kind: String,
    pub field: Option<String>,
    pub row: usize,
    pub text: String,
    pub children: Vec<PyNode>,
}

/// A definition site: a declared name, with the file and the 1-based
/// line where the declaration starts.
pub struct DefSite {
    pub name: Seq<char>,
    pub file: Seq<char>,
    pub line: int,
}

/// A node that declares a top-level name: a function or class
/// definition.
pub open spec fn is_def_node(n: PyNode) -> bool {
    n.kind@ == "function_definition"@ || n.kind@ == "class_definition"@
}

/// A node whose text counts as a usage occurrence: a bare identifier
/// or a dotted attribute access (whose text is the full dotted form).
pub open spec fn is_usage_node(n: PyNode) -> bool {
    n.kind@ == "identifier"@ || n.kind@ == "attribute"@
}

/// A child that sits under the grammar field "name" in its parent.
pub open spec fn is_name_child(n: PyNode) -> bool {
    n.field matches Some(f) && f@ == "name"@
}

/// The declared name of a definition node: the text of its first
/// child under the field "name", if it has one.
pub open spec fn name_of(children: Seq<PyNode>) -> Option<Seq<char>>
    decreases children.len(),
{
    if children.len() == 0 {
        None
    } else if is_name_child(children[0]) {
        Some(children[0].text@)
    } else {
        name_of(children.drop_first())
    }
}

/// The definition site contributed by `n` itself: one site when `n`
/// is a named function or class definition, none otherwise.
pub open spec fn own_def(n: PyNode, file: Seq<char>) -> Seq<DefSite> {
    if is_def_node(n) {
        match name_of(n.children@) {
            Some(nm) => seq![DefSite { name: nm, file: file, line: n.row + 1 }],
            None => Seq::empty(),
        }
    } else {
        Seq::empty()
    }
}

/// All definition sites in the subtree rooted at `n`, in pre-order.
pub open spec fn defs_of(n: PyNode, file: Seq<char>) -> Seq<DefSite>
    decreases n, 0int,
{
    own_def(n, file) + defs_of_seq(n.children@, file)
}

/// All definition sites in a forest of subtrees, left to right.
pub open spec fn defs_of_seq(s: Seq<PyNode>, file: Seq<char>) -> Seq<DefSite>
    decreases s, s.len(),
{
    if s.len() == 0 {
        Seq::empty()
    } else {
        defs_of(s[0], file) + defs_of_seq(s.drop_first(), file)
    }
}

/// All usage occurrences in the subtree rooted at `n`, in pre-order:
/// the text of every identifier and attribute node, except the name
/// child of a definition, which declares rather than uses its text.
pub open spec fn uses_of(n: PyNode) -> Seq<Seq<char>>
    decreases n, 0int,
{
    let here: Seq<Seq<char>> = if is_usage_node(n) {
        seq![n.text@]
    } else {
        Seq::empty()
    };
    here + uses_of_seq(n.children@, is_def_node(n))
}

/// All usage occurrences in a forest of subtrees whose parent is a
/// definition node exactly when `parent_is_def`.
pub open spec fn uses_of_seq(s: Seq<PyNode>, parent_is_def: bool) -> Seq<Seq<char>>
    decreases s, s.len(),
{
    if s.len() == 0 {
        Seq::empty()
    } else {
        let first: Seq<Seq<char>> = if parent_is_def && is_name_child(s[0]) {
            Seq::empty()
        } else {
            uses_of(s[0])
        };
        first + uses_of_seq(s.drop_first(), parent_is_def)
    }
}

/// Every row in the tree leaves room for a 1-based line number.
pub open spec fn rows_in_range(n: PyNode) -> bool
    decreases n,
{
    n.row < usize::MAX && forall|i: int|
        0 <= i < n.children@.len() ==> rows_in_range(#[trigger] n.children@[i])
}

} // verus!
