use codescore::analyzer::{AnalysisResult, AnalysisRule, CodeAnalyzer, Severity};

fn finding(severity: Severity, score_impact: i64) -> AnalysisResult {
    AnalysisResult {
        rule_name: "r".to_string(),
        severity,
        message: "m".to_string(),
        line: 1,
        column: 1,
        text: String::new(),
        suggestion: None,
        score_impact,
    }
}

fn lines(n: usize) -> String {
    "line\n".repeat(n)
}

#[test]
fn empty_findings_score_perfect() {
    let analyzer = CodeAnalyzer::new();
    for n in [0usize, 10, 100, 10_000] {
        let score = analyzer.calculate_score(&[], &lines(n));
        assert_eq!(score.overall_score_tenths, 100);
        assert_eq!(score.max_score_tenths, 100);
        assert_eq!(score.rating, "Excellent");
        assert_eq!(score.total_issues, 0);
        assert_eq!(score.summary, "Excellent code quality with minimal issues");
    }
}

#[test]
fn one_weighted_error_scores_four() {
    // One syntax-error finding at double weight: -3.0 * 2.0 = -6.0 points,
    // on a 100-line source: size factor 1.0, so the score is 4.0.
    let analyzer = CodeAnalyzer::new();
    let findings = vec![finding(Severity::Error, -600)];
    let score = analyzer.calculate_score(&findings, &lines(100));
    assert_eq!(score.overall_score_tenths, 40);
    assert_eq!(score.breakdown.errors, 1);
    assert_eq!(score.breakdown.error_deduction, 600);
    assert_eq!(score.total_issues, 1);
    // 4.0 sits in the Poor band of the rating ladder.
    assert_eq!(score.rating, "Poor");
    assert!(score.summary.contains("1 critical errors"));
    assert_eq!(
        score.summary,
        "Code has 1 critical errors that need immediate attention"
    );
}

#[test]
fn six_warnings_score_one_with_warning_summary() {
    // Six warnings of weight 1.0: 6 * 1.5 = 9.0 points of deduction on a
    // 100-line source leaves 1.0; the warning rung of the summary ladder
    // fires because warnings > 5, even though the rating is Critical.
    let analyzer = CodeAnalyzer::new();
    let findings: Vec<AnalysisResult> =
        (0..6).map(|_| finding(Severity::Warning, -150)).collect();
    let score = analyzer.calculate_score(&findings, &lines(100));
    assert_eq!(score.overall_score_tenths, 10);
    assert_eq!(score.breakdown.warnings, 6);
    assert_eq!(score.breakdown.warning_deduction, 900);
    assert_eq!(score.rating, "Critical");
    assert_eq!(
        score.summary,
        "Multiple warnings detected - consider addressing them"
    );
}

#[test]
fn score_clamps_at_zero() {
    // Twenty double-weight errors deduct 120 points; the score clamps at 0.
    let analyzer = CodeAnalyzer::new();
    let findings: Vec<AnalysisResult> =
        (0..20).map(|_| finding(Severity::Error, -600)).collect();
    let score = analyzer.calculate_score(&findings, &lines(100));
    assert_eq!(score.overall_score_tenths, 0);
    assert_eq!(score.rating, "Critical");
    assert_eq!(score.breakdown.error_deduction, 12_000);
    assert_eq!(
        score.summary,
        "Code has 20 critical errors that need immediate attention"
    );
}

#[test]
fn style_only_mid_size_is_exact() {
    // Three style findings of 0.2 each: 10 - 0.6 = 9.4 exactly.
    let analyzer = CodeAnalyzer::new();
    let findings: Vec<AnalysisResult> =
        (0..3).map(|_| finding(Severity::Style, -20)).collect();
    let score = analyzer.calculate_score(&findings, &lines(100));
    assert_eq!(score.overall_score_tenths, 94);
    assert_eq!(score.rating, "Excellent");
    assert_eq!(score.breakdown.style_issues, 3);
    assert_eq!(score.breakdown.style_deduction, 60);
}

#[test]
fn size_leniency_caps_at_thirty_percent() {
    // On a 10,000-line file the size factor caps at 1.3: one style finding
    // of 0.2 gives 10 - 0.2/1.3 = 9.846..., rounded to 9.8; the recorded
    // size bonus is 0.3 * 0.2 = 0.06 points (6000 hundred-thousandths).
    let analyzer = CodeAnalyzer::new();
    let findings = vec![finding(Severity::Style, -20)];
    let score = analyzer.calculate_score(&findings, &lines(10_000));
    assert_eq!(score.overall_score_tenths, 98);
    assert_eq!(score.breakdown.size_bonus, 300 * 20);
}

#[test]
fn small_files_held_to_stricter_standard() {
    // Under fifty lines the size factor is 0.9: one warning of 1.5 gives
    // 10 - 1.5/0.9 = 8.333..., rounded to 8.3.
    let analyzer = CodeAnalyzer::new();
    let findings = vec![finding(Severity::Warning, -150)];
    let score = analyzer.calculate_score(&findings, &lines(10));
    assert_eq!(score.overall_score_tenths, 83);
    assert_eq!(score.rating, "Good");
}

#[test]
fn rounding_is_half_up() {
    // A deduction of 0.25 on a mid-size file leaves 9.75, which rounds up
    // to 9.8.
    let analyzer = CodeAnalyzer::new();
    let findings = vec![finding(Severity::Style, -25)];
    let score = analyzer.calculate_score(&findings, &lines(100));
    assert_eq!(score.overall_score_tenths, 98);
}

#[test]
fn scoring_is_pure() {
    let analyzer = CodeAnalyzer::new();
    let findings = vec![
        finding(Severity::Error, -600),
        finding(Severity::Info, -40),
        finding(Severity::Style, -24),
    ];
    let src = lines(321);
    let first = analyzer.calculate_score(&findings, &src);
    let second = analyzer.calculate_score(&findings, &src);
    assert_eq!(first, second);
}

#[test]
fn adding_a_finding_never_raises_the_score() {
    let analyzer = CodeAnalyzer::new();
    let mut findings = Vec::new();
    let src = lines(100);
    let mut last = analyzer
        .calculate_score(&findings, &src)
        .overall_score_tenths;
    for sev in [Severity::Style, Severity::Info, Severity::Warning, Severity::Error] {
        findings.push(finding(sev, sev_impact(sev)));
        let next = analyzer
            .calculate_score(&findings, &src)
            .overall_score_tenths;
        assert!(next <= last);
        last = next;
    }
}

fn sev_impact(sev: Severity) -> i64 {
    match sev {
        Severity::Error => -300,
        Severity::Warning => -150,
        Severity::Info => -40,
        Severity::Style => -20,
    }
}

#[test]
fn summary_ladder_on_counts() {
    let analyzer = CodeAnalyzer::new();
    // Eleven info findings trigger the cleanup rung.
    let findings: Vec<AnalysisResult> =
        (0..11).map(|_| finding(Severity::Info, -40)).collect();
    let score = analyzer.calculate_score(&findings, &lines(100));
    assert_eq!(
        score.summary,
        "Many minor issues found - good opportunity for cleanup"
    );
    // A middling score with no counts triggering earlier rungs.
    let findings = vec![finding(Severity::Warning, -300)];
    let score = analyzer.calculate_score(&findings, &lines(100));
    assert_eq!(score.overall_score_tenths, 70);
    assert_eq!(score.rating, "Fair");
    assert_eq!(score.summary, "Code needs improvement in several areas");
    // A good score lands on the good rung.
    let findings = vec![finding(Severity::Warning, -150)];
    let score = analyzer.calculate_score(&findings, &lines(100));
    assert_eq!(score.overall_score_tenths, 85);
    assert_eq!(score.rating, "Good");
    assert_eq!(
        score.summary,
        "Good code quality with room for minor improvements"
    );
}

#[test]
fn size_factor_boundaries() {
    // One double-weight error (6.0 points) under the four size regimes:
    // strict below fifty lines, neutral between fifty and two hundred, and
    // lenient with the 30% cap far above.
    let analyzer = CodeAnalyzer::new();
    let findings = vec![finding(Severity::Error, -600)];
    let cases = [(49usize, 33u32), (50, 40), (200, 40), (1000, 54)];
    for (n, expected) in cases {
        let score = analyzer.calculate_score(&findings, &lines(n));
        assert_eq!(score.overall_score_tenths, expected, "at {} lines", n);
    }
}

#[test]
fn base_impacts_in_centipoints() {
    assert_eq!(Severity::Error.base_score_impact(), -300);
    assert_eq!(Severity::Warning.base_score_impact(), -150);
    assert_eq!(Severity::Info.base_score_impact(), -40);
    assert_eq!(Severity::Style.base_score_impact(), -20);
}

#[test]
fn rule_weight_defaults_and_overrides() {
    let rule = AnalysisRule::new(
        "r".to_string(),
        "(q)".to_string(),
        Severity::Warning,
        "m".to_string(),
        None,
    );
    assert_eq!(rule.weight_tenths, 10);
    let rule = rule.with_weight(18);
    assert_eq!(rule.weight_tenths, 18);
}
