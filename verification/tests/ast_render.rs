use codescore::ast::{format_node, render_ast, AstNode};

fn leaf(kind: &str, text: &str) -> AstNode {
    AstNode {
        kind: kind.to_string(),
        text: text.to_string(),
        children: Vec::new(),
    }
}

#[test]
fn format_leaf_with_text() {
    let node = leaf("identifier", "main");
    assert_eq!(format_node(&node, 0), "(identifier \"main\")");
    assert_eq!(format_node(&node, 2), "    (identifier \"main\")");
}

#[test]
fn format_skips_blank_leaf_text() {
    let node = leaf("space", "  \n\t ");
    assert_eq!(format_node(&node, 0), "(space)");
}

#[test]
fn format_escapes_newlines() {
    let node = leaf("string", "a\nb");
    assert_eq!(format_node(&node, 0), "(string \"a\\nb\")");
}

#[test]
fn format_nested_tree() {
    let tree = AstNode {
        kind: "root".to_string(),
        text: String::new(),
        children: vec![
            leaf("left", "x"),
            AstNode {
                kind: "inner".to_string(),
                text: "ignored for non-leaves".to_string(),
                children: vec![leaf("right", "y")],
            },
        ],
    };
    assert_eq!(
        format_node(&tree, 0),
        "(root)\n  (left \"x\")\n  (inner)\n    (right \"y\")"
    );
}

#[test]
fn render_rust_source() {
    let language: tree_sitter::Language = tree_sitter_rust::LANGUAGE.into();
    let rendered = render_ast("fn main() {}\n", &language).unwrap();
    assert!(rendered.starts_with("(source_file"));
    assert!(rendered.contains("(identifier \"main\")"));
    assert!(rendered.contains("(function_item"));
}

#[test]
fn render_java_source() {
    let language: tree_sitter::Language = tree_sitter_java::LANGUAGE.into();
    let rendered = render_ast("class A {}\n", &language).unwrap();
    assert!(rendered.starts_with("(program"));
    assert!(rendered.contains("(identifier \"A\")"));
}

#[test]
fn render_c_source() {
    let language: tree_sitter::Language = tree_sitter_c::LANGUAGE.into();
    let rendered = render_ast("int main(void) { return 0; }\n", &language).unwrap();
    assert!(rendered.contains("(primitive_type \"int\")"));
}
