use codescore::analyzer::{AnalysisError, AnalysisRule, CodeAnalyzer, Severity};

#[test]
fn rust_unwrap_is_flagged() {
    let analyzer = CodeAnalyzer::new_rust_analyzer();
    let language: tree_sitter::Language = tree_sitter_rust::LANGUAGE.into();
    let source = "fn main() {\n    let x: Option<i32> = None;\n    x.unwrap();\n}\n";
    let results = analyzer.analyze(source, &language).unwrap();
    // The unwrap query captures both the method name and the whole call.
    let unwraps: Vec<_> = results
        .iter()
        .filter(|r| r.rule_name == "unwrap_usage")
        .collect();
    assert_eq!(unwraps.len(), 2);
    for r in &unwraps {
        assert_eq!(r.severity, Severity::Warning);
        assert_eq!(r.score_impact, -225);
        assert_eq!(r.message, "Use of .unwrap() can cause panics");
        assert!(r.suggestion.is_some());
        assert_eq!(r.line, 3);
    }
    assert!(unwraps.iter().any(|r| r.text == "unwrap"));
    // No syntax errors and no function over fifty lines.
    assert_eq!(results.len(), 2);
}

#[test]
fn rust_syntax_error_is_flagged() {
    let analyzer = CodeAnalyzer::new_rust_analyzer();
    let language: tree_sitter::Language = tree_sitter_rust::LANGUAGE.into();
    let source = "fn broken( {\n";
    let results = analyzer.analyze(source, &language).unwrap();
    let errors: Vec<_> = results
        .iter()
        .filter(|r| r.rule_name == "syntax_error")
        .collect();
    assert!(!errors.is_empty());
    for r in &errors {
        assert_eq!(r.severity, Severity::Error);
        assert_eq!(r.score_impact, -600);
    }
}

#[test]
fn javascript_analysis_end_to_end() {
    // The console rule from the JavaScript set, run on its own so the whole
    // pipeline (parse, query, filter, score) is exercised end to end.
    let mut analyzer = CodeAnalyzer::new();
    analyzer.add_rule(AnalysisRule::new(
        "console_log".to_string(),
        "(call_expression function: (member_expression object: (identifier) @obj property: (property_identifier) @prop) (#eq? @obj \"console\") (#eq? @prop \"log\")) @call".to_string(),
        Severity::Info,
        "Console.log statement found".to_string(),
        Some("Remove before production".to_string()),
    ).with_weight(5));
    let language: tree_sitter::Language = tree_sitter_javascript::LANGUAGE.into();
    let source = "let x = 1;\nconsole.log(x);\n";
    let (results, score) = analyzer.analyze_with_score(source, &language).unwrap();
    // console.log(x) yields three captures: object, property, whole call.
    assert_eq!(results.len(), 3);
    for r in &results {
        assert_eq!(r.rule_name, "console_log");
        assert_eq!(r.severity, Severity::Info);
        assert_eq!(r.score_impact, -20);
        assert_eq!(r.line, 2);
        assert_eq!(r.suggestion.as_deref(), Some("Remove before production"));
    }
    assert!(results.iter().any(|r| r.text == "console"));
    assert!(results.iter().any(|r| r.text == "log"));
    assert!(results.iter().any(|r| r.text == "console.log(x)"));
    // Total deduction 0.6 on a 2-line file: factor 0.9 gives 9.333 -> 9.3.
    assert_eq!(score.breakdown.info_issues, 3);
    assert_eq!(score.breakdown.info_deduction, 60);
    assert_eq!(score.overall_score_tenths, 93);
    assert_eq!(score.rating, "Excellent");
    assert_eq!(score.total_issues, 3);
}

#[test]
fn go_panic_is_flagged() {
    let mut analyzer = CodeAnalyzer::new();
    analyzer.add_rule(
        AnalysisRule::new(
            "go_panic_usage".to_string(),
            "(call_expression function: (identifier) @func (#eq? @func \"panic\")) @call"
                .to_string(),
            Severity::Warning,
            "Use of panic()".to_string(),
            Some("Consider returning an error instead of panicking".to_string()),
        )
        .with_weight(16),
    );
    let language: tree_sitter::Language = tree_sitter_go::LANGUAGE.into();
    let source = "package main\n\nfunc f() {\n\tpanic(\"boom\")\n}\n";
    let results = analyzer.analyze(source, &language).unwrap();
    assert_eq!(results.len(), 2);
    for r in &results {
        assert_eq!(r.rule_name, "go_panic_usage");
        assert_eq!(r.severity, Severity::Warning);
        assert_eq!(r.score_impact, -240);
        assert_eq!(r.line, 4);
    }
}

#[test]
fn go_unchecked_error_reported_through_engine() {
    let mut analyzer = CodeAnalyzer::new();
    analyzer.add_rule(AnalysisRule::new(
        "go_missing_error_check".to_string(),
        "(assignment_statement left: (expression_list (identifier) @var (identifier) @err) (#eq? @err \"err\")) @assignment".to_string(),
        Severity::Warning,
        "Potential unchecked error".to_string(),
        Some("Check for 'if err != nil' after this assignment".to_string()),
    ).with_weight(18));
    let language: tree_sitter::Language = tree_sitter_go::LANGUAGE.into();
    let source =
        "package main\n\nfunc f() {\n\tvar x, err = 1, 2\n\tx, err = g()\n\t_ = x\n\t_ = err\n}\n";
    let results = analyzer.analyze(source, &language).unwrap();
    let unchecked: Vec<_> = results
        .iter()
        .filter(|r| r.rule_name == "go_missing_error_check")
        .collect();
    assert!(!unchecked.is_empty());
    for r in &unchecked {
        assert_eq!(r.score_impact, -270);
    }
}

#[test]
fn rust_rule_set_compiles_against_its_grammar() {
    let analyzer = CodeAnalyzer::new_rust_analyzer();
    let language: tree_sitter::Language = tree_sitter_rust::LANGUAGE.into();
    assert!(analyzer.analyze("fn main() {}\n", &language).is_ok());
}

#[test]
fn stale_factory_patterns_surface_as_fatal_errors() {
    // Two hardcoded patterns are impossible against the current grammar
    // versions; a pattern that does not compile must abort the whole run
    // with a distinct error, never be skipped silently.
    let js = CodeAnalyzer::new_javascript_analyzer();
    let js_lang: tree_sitter::Language = tree_sitter_javascript::LANGUAGE.into();
    match js.analyze("let a = 1;\n", &js_lang) {
        Err(AnalysisError::QueryCompile { rule_name, .. }) => {
            assert_eq!(rule_name, "var_usage");
        }
        other => panic!("expected a query compile failure, got {:?}", other),
    }
    let go = CodeAnalyzer::new_go_analyzer();
    let go_lang: tree_sitter::Language = tree_sitter_go::LANGUAGE.into();
    match go.analyze("package main\n", &go_lang) {
        Err(AnalysisError::QueryCompile { rule_name, .. }) => {
            assert_eq!(rule_name, "go_deep_nesting");
        }
        other => panic!("expected a query compile failure, got {:?}", other),
    }
}

#[test]
fn mismatched_query_aborts_the_run() {
    let mut analyzer = CodeAnalyzer::new();
    analyzer.add_rule(AnalysisRule::new(
        "broken".to_string(),
        "(this_is_not_a_node_kind) @x".to_string(),
        Severity::Info,
        "m".to_string(),
        None,
    ));
    let language: tree_sitter::Language = tree_sitter_rust::LANGUAGE.into();
    let res = analyzer.analyze("fn main() {}\n", &language);
    match res {
        Err(AnalysisError::QueryCompile { rule_name, .. }) => {
            assert_eq!(rule_name, "broken");
        }
        other => panic!("expected a query compile failure, got {:?}", other),
    }
}
