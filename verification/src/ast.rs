//! Syntax-tree rendering: the parsed tree is copied into plain records, and
//! a verified formatter prints it one node per line, with two-space
//! indentation and quoted leaf text.

use vstd::prelude::*;
use vstd::string::*;

verus! {

/// One node of a parsed syntax tree, as plain data: its kind name, the
/// source text it spans, and its children in order.
#[derive(Debug, PartialEq)]
pub struct AstNode {
    pub kind: String,
    pub text: String,
    pub children: Vec<AstNode>,
}

/// Two spaces of indentation per depth level.
pub open spec fn spec_indent(depth: int) -> Seq<char>
    decreases depth,
{
    if depth <= 0 {
        Seq::empty()
    } else {
        spec_indent(depth - 1) + "  "@
    }
}

/// The text with each newline escaped as a backslash followed by `n`.
pub open spec fn spec_escape_nl(s: Seq<char>) -> Seq<char>
    decreases s.len(),
{
    if s.len() == 0 {
        Seq::empty()
    } else {
        spec_escape_nl(s.drop_last()) + if s.last() == '\n' {
            seq!['\\', 'n']
        } else {
            seq![s.last()]
        }
    }
}

/// The Unicode White_Space property, as Rust's trim uses it.
pub open spec fn spec_is_whitespace(c: char) -> bool {
    let u = c as int;
    (9 <= u <= 13) || u == 32 || u == 0x85 || u == 0xA0 || u == 0x1680 || (0x2000 <= u <= 0x200A)
        || u == 0x2028 || u == 0x2029 || u == 0x202F || u == 0x205F || u == 0x3000
}

/// Every character of `s` is whitespace (so trimming would empty it).
pub open spec fn spec_all_whitespace(s: Seq<char>) -> bool {
    forall|i: int| 0 <= i < s.len() ==> spec_is_whitespace(#[trigger] s[i])
}

/// The depth of a node's children; it saturates at the machine word
/// maximum, unreachable for any real tree.
pub open spec fn spec_child_depth(depth: int) -> int {
    if depth < usize::MAX as int {
        depth + 1
    } else {
        depth
    }
}

/// The rendering of one node at a depth: its indentation, its kind in
/// parentheses with the escaped text of a non-blank leaf quoted inside, then
/// each child on its own line, one level deeper.
pub open spec fn spec_format_node(n: AstNode, depth: int) -> Seq<char>
    decreases n,
{
    spec_indent(depth) + "("@ + n.kind@ + (if n.children@.len() == 0 && !spec_all_whitespace(
        n.text@,
    ) {
        " \""@ + spec_escape_nl(n.text@) + "\""@
    } else {
        Seq::empty()
    }) + ")"@ + spec_format_children(n.children@, spec_child_depth(depth))
}

/// The rendering of a child list: a newline before each child's rendering.
pub open spec fn spec_format_children(cs: Seq<AstNode>, depth: int) -> Seq<char>
    decreases cs,
{
    if cs.len() == 0 {
        Seq::empty()
    } else {
        spec_format_children(cs.drop_last(), depth) + "\n"@ + spec_format_node(cs.last(), depth)
    }
}

/// Whether `c` has the Unicode White_Space property.
fn is_whitespace_char(c: char) -> (r: bool)
    ensures
        r == spec_is_whitespace(c),
{
    let u = c as u32;
    (9 <= u && u <= 13) || u == 32 || u == 0x85 || u == 0xA0 || u == 0x1680 || (0x2000 <= u && u
        <= 0x200A) || u == 0x2028 || u == 0x2029 || u == 0x202F || u == 0x205F || u == 0x3000
}

/// Whether every character of `s` is whitespace.
fn all_whitespace(s: &str) -> (r: bool)
    ensures
        r == spec_all_whitespace(s@),
{
    let n = s.unicode_len();
    let mut i: usize = 0;
    while i < n
        invariant
            n == s@.len(),
            i <= n,
            forall|j: int| 0 <= j < i ==> spec_is_whitespace(#[trigger] s@[j]),
        decreases n - i,
    {
        if !is_whitespace_char(s.get_char(i)) {
            return false;
        }
        i += 1;
    }
    true
}

/// Appends `s` to `out` with newlines escaped.
fn push_escaped(out: &mut String, s: &str)
    ensures
        final(out)@ == old(out)@ + spec_escape_nl(s@),
{
    let n = s.unicode_len();
    let mut i: usize = 0;
    proof {
        assert(s@.take(0) =~= Seq::<char>::empty());
        assert(old(out)@ + spec_escape_nl(s@.take(0)) =~= old(out)@);
    }
    while i < n
        invariant
            n == s@.len(),
            i <= n,
            out@ == old(out)@ + spec_escape_nl(s@.take(i as int)),
        decreases n - i,
    {
        proof {
            assert(s@.take(i + 1).drop_last() =~= s@.take(i as int));
            assert(s@.take(i + 1).last() == s@[i as int]);
        }
        let c = s.get_char(i);
        if c == '\n' {
            out.append("\\n");
            proof {
                reveal_strlit("\\n");
                assert("\\n"@ =~= seq!['\\', 'n']);
                assert(out@ =~= old(out)@ + spec_escape_nl(s@.take(i + 1)));
            }
        } else {
            let piece = s.substring_char(i, i + 1);
            out.append(piece);
            proof {
                assert(piece@ =~= seq![s@[i as int]]);
                assert(out@ =~= old(out)@ + spec_escape_nl(s@.take(i + 1)));
            }
        }
        i += 1;
    }
    proof {
        assert(s@.take(n as int) =~= s@);
    }
}

/// Renders one node and its subtree at the given indentation depth.
pub fn format_node(node: &AstNode, depth: usize) -> (r: String)
    ensures
        r@ == spec_format_node(*node, depth as int),
    decreases *node,
{
    let mut result = String::new();
    let mut k: usize = 0;
    while k < depth
        invariant
            k <= depth,
            result@ == spec_indent(k as int),
        decreases depth - k,
    {
        result.append("  ");
        k += 1;
    }
    result.append("(");
    result.append(node.kind.as_str());
    if node.children.len() == 0 && !all_whitespace(node.text.as_str()) {
        result.append(" \"");
        push_escaped(&mut result, node.text.as_str());
        result.append("\"");
    }
    result.append(")");
    let ghost head = result@;
    proof {
        assert(head == spec_indent(depth as int) + "("@ + node.kind@ + (if node.children@.len()
            == 0 && !spec_all_whitespace(node.text@) {
            " \""@ + spec_escape_nl(node.text@) + "\""@
        } else {
            Seq::<char>::empty()
        }) + ")"@);
    }
    let d1: usize = if depth < usize::MAX {
        depth + 1
    } else {
        depth
    };
    let n_children = node.children.len();
    let mut i: usize = 0;
    proof {
        assert(node.children@.take(0) =~= Seq::<AstNode>::empty());
        assert(result@ =~= head + spec_format_children(node.children@.take(0), d1 as int));
    }
    while i < n_children
        invariant
            n_children == node.children@.len(),
            i <= n_children,
            d1 as int == spec_child_depth(depth as int),
            result@ == head + spec_format_children(node.children@.take(i as int), d1 as int),
        decreases n_children - i,
    {
        proof {
            assert(node.children@.take(i + 1).drop_last() =~= node.children@.take(i as int));
            assert(node.children@.take(i + 1).last() == node.children@[i as int]);
            assert(decreases_to!(*node => node.children@[i as int]));
        }
        result.append("\n");
        let child_str = format_node(&node.children[i], d1);
        result.append(child_str.as_str());
        proof {
            assert(result@ =~= head + spec_format_children(node.children@.take(i + 1), d1 as int));
        }
        i += 1;
    }
    proof {
        assert(node.children@.take(n_children as int) =~= node.children@);
    }
    result
}

/// Relies on tree_sitter::Node accessors: copies the subtree below `node`
/// into the library's own records, kind name and spanned text per node.
#[verifier::external_body]
fn node_to_ast(node: &tree_sitter::Node, source: &str) -> AstNode {
    let mut children = Vec::new();
    let n = node.child_count();
    for i in 0..n {
        if let Some(child) = node.child(i) {
            children.push(node_to_ast(&child, source));
        }
    }
    AstNode {
        kind: node.kind().to_string(),
        text: node.utf8_text(source.as_bytes()).unwrap_or("").to_string(),
        children,
    }
}

/// Relies on tree_sitter::Tree::root_node: converts a whole parsed tree
/// into the library's syntax-tree records.
#[verifier::external_body]
fn tree_to_ast(tree: &tree_sitter::Tree, source: &str) -> AstNode {
    node_to_ast(&tree.root_node(), source)
}

/// Parses `source` with the grammar and renders its syntax tree, one node
/// per line. `None` when the parser rejects the grammar or yields no tree.
pub fn render_ast(source: &str, language: &tree_sitter::Language) -> (r: Option<String>)
    ensures
        r matches Some(s) ==> exists|root: AstNode| s@ == #[trigger] spec_format_node(root, 0),
{
    match crate::parsing::parse_source(source, language) {
        Err(_) => None,
        Ok(None) => None,
        Ok(Some(tree)) => {
            let root = tree_to_ast(&tree, source);
            let rendered = format_node(&root, 0);
            proof {
                assert(rendered@ == spec_format_node(root, 0));
            }
            Some(rendered)
        },
    }
}

} // verus!
