use codescore::analyzer::{CaptureInfo, CodeAnalyzer};

fn capture(start_byte: usize, end_byte: usize, parent_kind: Option<&str>) -> CaptureInfo {
    CaptureInfo {
        start_row: 0,
        start_col: 0,
        end_row: 0,
        start_byte,
        end_byte,
        text: String::new(),
        parent_kind: parent_kind.map(|s| s.to_string()),
    }
}

#[test]
fn unchecked_error_fails_open_without_assignment_parent() {
    let analyzer = CodeAnalyzer::new();
    let src = b"x, err := foo()";
    // No parent at all: flag it.
    let c = capture(0, 6, None);
    assert!(analyzer.is_unchecked_go_error(&c, src));
    // A parent of a different kind: still flag it.
    let c = capture(0, 6, Some("if_statement"));
    assert!(analyzer.is_unchecked_go_error(&c, src));
    // The filter must also report it through the rule dispatch.
    assert!(analyzer.should_report("go_missing_error_check", &c, src));
}

#[test]
fn unchecked_error_sees_check_in_window() {
    let analyzer = CodeAnalyzer::new();
    let src = b"x, err = foo()\nif err != nil {\n\treturn\n}\n";
    let c = capture(0, 14, Some("assignment_statement"));
    assert!(!analyzer.is_unchecked_go_error(&c, src));
    let src2 = b"x, err = foo()\nif error != nil {\n\treturn\n}\n";
    let c2 = capture(0, 14, Some("assignment_statement"));
    assert!(!analyzer.is_unchecked_go_error(&c2, src2));
}

#[test]
fn unchecked_error_flags_missing_check() {
    let analyzer = CodeAnalyzer::new();
    let src = b"x, err = foo()\ndoSomething(x)\n";
    let c = capture(0, 14, Some("assignment_statement"));
    assert!(analyzer.is_unchecked_go_error(&c, src));
}

#[test]
fn unchecked_error_window_is_two_hundred_bytes() {
    let analyzer = CodeAnalyzer::new();
    // The check idiom sits past the 200-byte window after the match, so the
    // finding is still flagged.
    let mut src: Vec<u8> = b"x, err = foo()".to_vec();
    src.extend(std::iter::repeat(b' ').take(300));
    src.extend_from_slice(b"if err != nil {}");
    let c = capture(0, 14, Some("assignment_statement"));
    assert!(analyzer.is_unchecked_go_error(&c, &src));
}

#[test]
fn large_function_thresholds() {
    let analyzer = CodeAnalyzer::new();
    let src = b"";
    let mut c = capture(0, 0, None);
    c.start_row = 0;
    c.end_row = 50;
    assert!(!analyzer.should_report("large_function", &c, src));
    c.end_row = 51;
    assert!(analyzer.should_report("large_function", &c, src));
    // The Go convention uses a smaller threshold.
    c.end_row = 41;
    assert!(analyzer.should_report("go_large_function", &c, src));
    c.end_row = 40;
    assert!(!analyzer.should_report("go_large_function", &c, src));
}

#[test]
fn missing_docs_checks_preceding_text() {
    let analyzer = CodeAnalyzer::new();
    let src = b"pub fn documented() {}\nfn item() {}";
    let c = capture(23, 35, None);
    assert!(analyzer.should_report("missing_docs", &c, src));
    let src2 = b"fn documented() {}\nfn item() {}";
    let c2 = capture(19, 31, None);
    assert!(!analyzer.should_report("missing_docs", &c2, src2));
}

#[test]
fn unknown_rules_accept_unconditionally() {
    let analyzer = CodeAnalyzer::new();
    let c = capture(0, 0, None);
    assert!(analyzer.should_report("syntax_error", &c, b""));
    assert!(analyzer.should_report("console_log", &c, b""));
    assert!(analyzer.should_report("anything_else", &c, b""));
}
