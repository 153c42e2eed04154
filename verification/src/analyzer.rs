//! The analysis data model: severities, declarative rules, findings, and the
//! analyzer that owns an ordered rule list.
//!
//! All score quantities are exact fixed-point integers: base penalties in
//! centipoints (hundredths of a point), rule weights in tenths of their
//! nominal multiplier, and per-finding impacts in centipoints.

use vstd::prelude::*;
use vstd::string::*;

use crate::score::{score_matches, CodeScore};
use crate::text::{contains_bytes_range, spec_contains_bytes, str_eq};

verus! {

/// Severity of a finding, ordered by decreasing importance.
#[derive(Debug, Clone, Copy, PartialEq, Eq)]
pub enum Severity {
    Error,
    Warning,
    Info,
    Style,
}

impl Severity {
    /// Base score deduction of one finding of this severity, in tenths of a
    /// point (always negative): Error -3.0, Warning -1.5, Info -0.4,
    /// Style -0.2.
    pub open spec fn spec_base_impact_deci(self) -> int {
        match self {
            Severity::Error => -30,
            Severity::Warning => -15,
            Severity::Info => -4,
            Severity::Style => -2,
        }
    }

    /// Base score deduction in centipoints (hundredths of a point).
    pub open spec fn spec_base_impact_centi(self) -> int {
        10 * self.spec_base_impact_deci()
    }

    /// The fixed base penalty of this severity, in centipoints.
    pub fn base_score_impact(&self) -> (r: i64)
        ensures
            r == self.spec_base_impact_centi(),
    {
        match self {
            Severity::Error => -300,
            Severity::Warning => -150,
            Severity::Info => -40,
            Severity::Style => -20,
        }
    }

    /// Base deduction in tenths of a point, the unit the per-rule weight
    /// multiplies to yield a centipoint impact.
    pub fn base_impact_deci(&self) -> (r: i64)
        ensures
            r == self.spec_base_impact_deci(),
    {
        match self {
            Severity::Error => -30,
            Severity::Warning => -15,
            Severity::Info => -4,
            Severity::Style => -2,
        }
    }
}

/// The default rule weight: a multiplier of one, in tenths.
pub const DEFAULT_WEIGHT_TENTHS: u32 = 10;

/// The largest magnitude a finding's score impact can take, in centipoints:
/// the largest base penalty times the largest representable weight.
pub const MAX_ABS_IMPACT_CENTI: i64 = 30 * 0xFFFF_FFFF;

/// A declarative analysis rule: a named structural pattern over syntax-tree
/// nodes, with a severity, a message, an optional suggestion, and a weight
/// multiplier (in tenths) scaling its penalty.
#[derive(Debug, Clone, PartialEq)]
pub struct AnalysisRule {
    pub name: String,
    pub query: String,
    pub severity: Severity,
    pub message_template: String,
    pub suggestion: Option<String>,
    /// Weight multiplier in tenths: 10 is the neutral weight of 1.0.
    pub weight_tenths: u32,
}

/// The signed score impact, in centipoints, of one finding produced by a
/// rule of the given severity and weight (in tenths). Always at most zero.
pub open spec fn spec_impact_centi(severity: Severity, weight_tenths: int) -> int {
    severity.spec_base_impact_deci() * weight_tenths
}

impl AnalysisRule {
    /// Builds a rule with the neutral weight of 1.0 (ten tenths).
    pub fn new(
        name: String,
        query: String,
        severity: Severity,
        message: String,
        suggestion: Option<String>,
    ) -> (r: AnalysisRule)
        ensures
            r.name == name,
            r.query == query,
            r.severity == severity,
            r.message_template == message,
            r.suggestion == suggestion,
            r.weight_tenths == DEFAULT_WEIGHT_TENTHS,
    {
        AnalysisRule {
            name,
            query,
            severity,
            message_template: message,
            suggestion,
            weight_tenths: DEFAULT_WEIGHT_TENTHS,
        }
    }

    /// Replaces the weight multiplier; `weight_tenths` is the multiplier in
    /// tenths and must be positive.
    pub fn with_weight(self, weight_tenths: u32) -> (r: AnalysisRule)
        requires
            weight_tenths >= 1,
        ensures
            r == (AnalysisRule { weight_tenths, ..self }),
    {
        AnalysisRule { weight_tenths, ..self }
    }
}

/// One reported issue: an accepted match of a rule, with its location,
/// matched text, and computed score impact in centipoints.
#[derive(Debug, Clone, PartialEq)]
pub struct AnalysisResult {
    pub rule_name: String,
    pub severity: Severity,
    pub message: String,
    /// 1-based line of the matched node's start.
    pub line: usize,
    /// 1-based column of the matched node's start.
    pub column: usize,
    /// The source text spanned by the matched node.
    pub text: String,
    pub suggestion: Option<String>,
    /// Signed deduction in centipoints; always at most zero.
    pub score_impact: i64,
}

/// A finding's impact lies in the range the impact formula can produce:
/// non-positive, and within the largest base penalty times the largest
/// weight.
pub open spec fn valid_impact(r: AnalysisResult) -> bool {
    -MAX_ABS_IMPACT_CENTI <= r.score_impact <= 0
}

/// Plain data of one captured node, as a tree query reports it: 0-based
/// start and end positions, the byte range within the source, the spanned
/// text, and the kind of the structural parent, if any.
#[derive(Debug, Clone, PartialEq)]
pub struct CaptureInfo {
    pub start_row: usize,
    pub start_col: usize,
    pub end_row: usize,
    pub start_byte: usize,
    pub end_byte: usize,
    pub text: String,
    pub parent_kind: Option<String>,
}

/// The line span of a capture; zero when the reported rows are inconsistent.
pub open spec fn spec_line_span(c: CaptureInfo) -> int {
    if c.end_row >= c.start_row {
        c.end_row - c.start_row
    } else {
        0
    }
}

/// Start of the window the unchecked-error heuristic scans: the capture's
/// start, clamped to the source length.
pub open spec fn spec_window_start(c: CaptureInfo, len: int) -> int {
    if c.start_byte as int <= len {
        c.start_byte as int
    } else {
        len
    }
}

/// End of that window: two hundred bytes past the capture's end, clamped to
/// the source length and never before the window's start.
pub open spec fn spec_window_end(c: CaptureInfo, len: int) -> int {
    let e = if c.end_byte + 200 <= len {
        c.end_byte + 200
    } else {
        len
    };
    if e >= spec_window_start(c, len) {
        e
    } else {
        spec_window_start(c, len)
    }
}

/// The capture's structural parent is an assignment construct.
pub open spec fn spec_is_assignment_parent(c: CaptureInfo) -> bool {
    c.parent_kind matches Some(k) && k@ == "assignment_statement"@
}

/// The unchecked-error heuristic: when the capture's parent is an
/// assignment, flag it unless a fixed window after the match holds one of
/// the two accepted error-checking idioms; with no parent, or a parent of
/// another kind, flag it (fail open toward reporting).
pub open spec fn spec_unchecked_error(c: CaptureInfo, src: Seq<u8>) -> bool {
    if spec_is_assignment_parent(c) {
        let w = src.subrange(spec_window_start(c, src.len() as int), spec_window_end(c, src.len() as int));
        !spec_contains_bytes(w, "if err != nil".spec_bytes()) && !spec_contains_bytes(
            w,
            "if error != nil".spec_bytes(),
        )
    } else {
        true
    }
}

/// The per-rule-name match filter: size rules accept only long spans,
/// documentation rules only matches preceded by an exported-surface marker,
/// the unchecked-error rule applies its heuristic, and every other rule
/// accepts unconditionally.
pub open spec fn spec_should_report(name: Seq<char>, c: CaptureInfo, src: Seq<u8>) -> bool {
    if name == "large_function"@ {
        spec_line_span(c) > 50
    } else if name == "missing_docs"@ {
        spec_contains_bytes(
            src.subrange(0, spec_window_start(c, src.len() as int)),
            "pub fn".spec_bytes(),
        )
    } else if name == "go_missing_error_check"@ {
        spec_unchecked_error(c, src)
    } else if name == "go_large_function"@ {
        spec_line_span(c) > 40
    } else {
        true
    }
}

/// Law: the unchecked-error heuristic fails open. A match with no parent,
/// or a parent that is not an assignment construct, is always reported,
/// never silently dropped: the bias is toward false positives over hidden
/// issues.
pub proof fn lemma_unchecked_error_fails_open(c: CaptureInfo, src: Seq<u8>)
    requires
        !spec_is_assignment_parent(c),
    ensures
        spec_unchecked_error(c, src),
{
}

/// A fatal condition that aborts a whole analysis run; partial reports are
/// never produced.
#[derive(Debug, Clone, PartialEq)]
pub enum AnalysisError {
    /// The parser rejected the grammar handle.
    GrammarRejected { message: String },
    /// The parser produced no tree at all.
    ParseFailed,
    /// A rule's hardcoded pattern query failed to compile against the
    /// grammar: a programming defect, not a data condition.
    QueryCompile { rule_name: String, message: String },
}

/// The view of an `Option<String>` as an optional character sequence.
pub open spec fn spec_opt_str(o: Option<String>) -> Option<Seq<char>> {
    match o {
        Some(s) => Some(s@),
        None => None,
    }
}

/// The rule has exactly these attributes (weight in tenths).
pub open spec fn rule_is(
    r: AnalysisRule,
    name: Seq<char>,
    query: Seq<char>,
    severity: Severity,
    message: Seq<char>,
    suggestion: Option<Seq<char>>,
    weight_tenths: int,
) -> bool {
    &&& r.name@ == name
    &&& r.query@ == query
    &&& r.severity == severity
    &&& r.message_template@ == message
    &&& spec_opt_str(r.suggestion) == suggestion
    &&& r.weight_tenths as int == weight_tenths
}

/// The finding built from a rule and one accepted capture: positions become
/// 1-based (saturating at the usize maximum), the text is the capture's, and
/// the impact is the severity's base deduction times the rule's weight.
pub open spec fn spec_finding_of(rule: AnalysisRule, c: CaptureInfo) -> AnalysisResult {
    AnalysisResult {
        rule_name: rule.name,
        severity: rule.severity,
        message: rule.message_template,
        line: if c.start_row < usize::MAX {
            (c.start_row + 1) as usize
        } else {
            usize::MAX
        },
        column: if c.start_col < usize::MAX {
            (c.start_col + 1) as usize
        } else {
            usize::MAX
        },
        text: c.text,
        suggestion: rule.suggestion,
        score_impact: spec_impact_centi(rule.severity, rule.weight_tenths as int) as i64,
    }
}

/// The findings one rule contributes for a capture list: one finding per
/// capture the match filter accepts, in capture order.
pub open spec fn spec_rule_findings(
    rule: AnalysisRule,
    caps: Seq<CaptureInfo>,
    src: Seq<u8>,
) -> Seq<AnalysisResult>
    decreases caps.len(),
{
    if caps.len() == 0 {
        Seq::empty()
    } else {
        spec_rule_findings(rule, caps.drop_last(), src) + if spec_should_report(
            rule.name@,
            caps.last(),
            src,
        ) {
            seq![spec_finding_of(rule, caps.last())]
        } else {
            Seq::empty()
        }
    }
}

/// The findings of a whole run: the concatenation, in rule order, of each
/// rule's findings over its own capture list.
pub open spec fn spec_all_findings(
    rules: Seq<AnalysisRule>,
    capss: Seq<Seq<CaptureInfo>>,
    src: Seq<u8>,
) -> Seq<AnalysisResult>
    recommends
        capss.len() == rules.len(),
    decreases rules.len(),
{
    if rules.len() == 0 {
        Seq::empty()
    } else {
        spec_all_findings(rules.drop_last(), capss.drop_last(), src) + spec_rule_findings(
            rules.last(),
            capss.last(),
            src,
        )
    }
}

/// Every finding a rule contributes is the finding of that rule over some
/// capture its match filter accepted.
pub proof fn lemma_rule_findings_from_rule(rule: AnalysisRule, caps: Seq<CaptureInfo>, src: Seq<u8>)
    ensures
        forall|i: int|
            #![trigger spec_rule_findings(rule, caps, src)[i]]
            0 <= i < spec_rule_findings(rule, caps, src).len() ==> exists|c: CaptureInfo|
                spec_rule_findings(rule, caps, src)[i] == #[trigger] spec_finding_of(rule, c)
                    && spec_should_report(rule.name@, c, src),
    decreases caps.len(),
{
    if caps.len() > 0 {
        lemma_rule_findings_from_rule(rule, caps.drop_last(), src);
        assert forall|i: int|
            #![trigger spec_rule_findings(rule, caps, src)[i]]
            0 <= i < spec_rule_findings(rule, caps, src).len() implies exists|c: CaptureInfo|
            spec_rule_findings(rule, caps, src)[i] == #[trigger] spec_finding_of(rule, c)
                && spec_should_report(rule.name@, c, src) by {
            let prefix = spec_rule_findings(rule, caps.drop_last(), src);
            if i >= prefix.len() {
                assert(spec_rule_findings(rule, caps, src)[i] == spec_finding_of(
                    rule,
                    caps.last(),
                ));
            }
        }
    }
}

/// Every finding of a whole run copies its fields from one of the run's
/// rules, over some capture that rule's match filter accepted.
pub proof fn lemma_all_findings_from_rules(
    rules: Seq<AnalysisRule>,
    capss: Seq<Seq<CaptureInfo>>,
    src: Seq<u8>,
)
    ensures
        forall|i: int|
            #![trigger spec_all_findings(rules, capss, src)[i]]
            0 <= i < spec_all_findings(rules, capss, src).len() ==> exists|j: int, c: CaptureInfo|
                0 <= j < rules.len() && spec_all_findings(rules, capss, src)[i]
                    == #[trigger] spec_finding_of(rules[j], c) && spec_should_report(
                    rules[j].name@,
                    c,
                    src,
                ),
    decreases rules.len(),
{
    if rules.len() > 0 {
        lemma_all_findings_from_rules(rules.drop_last(), capss.drop_last(), src);
        lemma_rule_findings_from_rule(rules.last(), capss.last(), src);
        assert forall|i: int|
            #![trigger spec_all_findings(rules, capss, src)[i]]
            0 <= i < spec_all_findings(rules, capss, src).len() implies exists|
            j: int,
            c: CaptureInfo,
        |
            0 <= j < rules.len() && spec_all_findings(rules, capss, src)[i]
                == #[trigger] spec_finding_of(rules[j], c) && spec_should_report(
                rules[j].name@,
                c,
                src,
            ) by {
            let prefix = spec_all_findings(rules.drop_last(), capss.drop_last(), src);
            let tail = spec_rule_findings(rules.last(), capss.last(), src);
            if i < prefix.len() {
                let (j, c) = choose|j: int, c: CaptureInfo|
                    0 <= j < rules.drop_last().len() && prefix[i] == #[trigger] spec_finding_of(
                        rules.drop_last()[j],
                        c,
                    ) && spec_should_report(rules.drop_last()[j].name@, c, src);
                assert(rules.drop_last()[j] == rules[j]);
                assert(spec_all_findings(rules, capss, src)[i] == spec_finding_of(rules[j], c));
            } else {
                let c = choose|c: CaptureInfo|
                    tail[i - prefix.len()] == #[trigger] spec_finding_of(rules.last(), c)
                        && spec_should_report(rules.last().name@, c, src);
                assert(rules.last() == rules[rules.len() - 1]);
                assert(spec_all_findings(rules, capss, src)[i] == spec_finding_of(
                    rules[rules.len() - 1],
                    c,
                ));
            }
        }
    }
}

/// Builds the finding for a rule and an accepted capture.
fn make_finding(rule: &AnalysisRule, c: &CaptureInfo) -> (r: AnalysisResult)
    ensures
        r == spec_finding_of(*rule, *c),
        valid_impact(r),
{
    let base: i64 = rule.severity.base_impact_deci();
    let w: i64 = rule.weight_tenths as i64;
    proof {
        assert(base as int * w as int >= -30 * (u32::MAX as int) && base as int * w as int
            <= 0) by (nonlinear_arith)
            requires
                -30 <= base as int <= 0,
                0 <= w as int <= u32::MAX as int,
        ;
    }
    let impact: i64 = base * w;
    AnalysisResult {
        rule_name: rule.name.clone(),
        severity: rule.severity,
        message: rule.message_template.clone(),
        line: if c.start_row < usize::MAX {
            c.start_row + 1
        } else {
            usize::MAX
        },
        column: if c.start_col < usize::MAX {
            c.start_col + 1
        } else {
            usize::MAX
        },
        text: c.text.clone(),
        suggestion: match &rule.suggestion {
            Some(s) => Some(s.clone()),
            None => None,
        },
        score_impact: impact,
    }
}

/// A rule-based code analyzer: an immutable ordered list of rules run
/// against a parsed syntax tree.
pub struct CodeAnalyzer {
    rules: Vec<AnalysisRule>,
}

impl View for CodeAnalyzer {
    type V = Seq<AnalysisRule>;

    closed spec fn view(&self) -> Seq<AnalysisRule> {
        self.rules@
    }
}

impl CodeAnalyzer {
    /// An analyzer with no rules.
    pub fn new() -> (r: CodeAnalyzer)
        ensures
            r@ == Seq::<AnalysisRule>::empty(),
    {
        CodeAnalyzer { rules: Vec::new() }
    }

    /// Appends a rule; rules run in insertion order.
    pub fn add_rule(&mut self, rule: AnalysisRule)
        ensures
            final(self)@ == old(self)@.push(rule),
    {
        self.rules.push(rule);
    }

    /// The secondary, per-rule-name match filter applied after structural
    /// matching.
    pub fn should_report(&self, rule_name: &str, capture: &CaptureInfo, source_bytes: &[u8]) -> (r:
        bool)
        ensures
            r == spec_should_report(rule_name@, *capture, source_bytes@),
    {
        if str_eq(rule_name, "large_function") {
            let span: usize = if capture.end_row >= capture.start_row {
                capture.end_row - capture.start_row
            } else {
                0
            };
            span > 50
        } else if str_eq(rule_name, "missing_docs") {
            let len = source_bytes.len();
            let to: usize = if capture.start_byte <= len {
                capture.start_byte
            } else {
                len
            };
            contains_bytes_range(source_bytes, 0, to, "pub fn".as_bytes())
        } else if str_eq(rule_name, "go_missing_error_check") {
            self.is_unchecked_go_error(capture, source_bytes)
        } else if str_eq(rule_name, "go_large_function") {
            let span: usize = if capture.end_row >= capture.start_row {
                capture.end_row - capture.start_row
            } else {
                0
            };
            span > 40
        } else {
            true
        }
    }

    /// The unchecked-error heuristic: flags a capture under an assignment
    /// parent unless an error-checking idiom follows within a fixed window,
    /// and fails open (flags) whenever the parent is absent or of another
    /// kind.
    pub fn is_unchecked_go_error(&self, capture: &CaptureInfo, source_bytes: &[u8]) -> (r: bool)
        ensures
            r == spec_unchecked_error(*capture, source_bytes@),
    {
        let is_assignment = match &capture.parent_kind {
            Some(k) => str_eq(k.as_str(), "assignment_statement"),
            None => false,
        };
        if is_assignment {
            let len = source_bytes.len();
            let ws: usize = if capture.start_byte <= len {
                capture.start_byte
            } else {
                len
            };
            let we0: usize = if capture.end_byte >= len || len - capture.end_byte <= 200 {
                len
            } else {
                capture.end_byte + 200
            };
            let we: usize = if we0 >= ws {
                we0
            } else {
                ws
            };
            !contains_bytes_range(source_bytes, ws, we, "if err != nil".as_bytes())
                && !contains_bytes_range(source_bytes, ws, we, "if error != nil".as_bytes())
        } else {
            true
        }
    }

    /// Runs every rule's pattern query against the parsed tree of
    /// `source_code` and emits one finding per capture the match filter
    /// accepts, in rule order and then in discovery order. The result is
    /// exactly the rule-order concatenation of the per-capture finding
    /// construction over the capture lists the queries produced. A rejected
    /// grammar, a missing tree, or a rule whose pattern does not compile
    /// aborts the whole run.
    pub fn analyze(&self, source_code: &str, language: &tree_sitter::Language) -> (res: Result<
        Vec<AnalysisResult>,
        AnalysisError,
    >)
        ensures
            res matches Ok(findings) ==> exists|capss: Seq<Seq<CaptureInfo>>|
                capss.len() == self@.len() && findings@ == #[trigger] spec_all_findings(
                    self@,
                    capss,
                    source_code.spec_bytes(),
                ),
            res matches Ok(findings) ==> forall|i: int|
                0 <= i < findings@.len() ==> valid_impact(#[trigger] findings@[i]),
            res matches Err(AnalysisError::QueryCompile { rule_name, .. }) ==> exists|i: int|
                0 <= i < self@.len() && (#[trigger] self@[i]).name@ == rule_name@,
    {
        let tree = match crate::parsing::parse_source(source_code, language) {
            Err(message) => {
                return Err(AnalysisError::GrammarRejected { message });
            },
            Ok(None) => {
                return Err(AnalysisError::ParseFailed);
            },
            Ok(Some(t)) => t,
        };
        let source_bytes = source_code.as_bytes();
        let ghost sb = source_code.spec_bytes();
        let mut results: Vec<AnalysisResult> = Vec::new();
        let ghost mut capss: Seq<Seq<CaptureInfo>> = Seq::empty();
        let n = self.rules.len();
        let mut r_i: usize = 0;
        while r_i < n
            invariant
                n == self@.len(),
                self@ == self.rules@,
                r_i <= n,
                capss.len() == r_i,
                sb == source_code.spec_bytes(),
                source_bytes@ == sb,
                results@ == spec_all_findings(self@.take(r_i as int), capss, sb),
                forall|i: int| 0 <= i < results@.len() ==> valid_impact(#[trigger] results@[i]),
            decreases n - r_i,
        {
            let rule = &self.rules[r_i];
            let query = match crate::parsing::compile_query(language, rule.query.as_str()) {
                Err(message) => {
                    return Err(
                        AnalysisError::QueryCompile { rule_name: rule.name.clone(), message },
                    );
                },
                Ok(q) => q,
            };
            let caps = crate::parsing::query_captures(&query, &tree, source_code);
            let m = caps.len();
            let mut c_i: usize = 0;
            proof {
                assert(caps@.take(0) =~= Seq::<CaptureInfo>::empty());
                assert(results@ =~= spec_all_findings(self@.take(r_i as int), capss, sb)
                    + spec_rule_findings(self@[r_i as int], caps@.take(0), sb));
            }
            while c_i < m
                invariant
                    n == self@.len(),
                    self@ == self.rules@,
                    r_i < n,
                    capss.len() == r_i,
                    sb == source_code.spec_bytes(),
                    source_bytes@ == sb,
                    m == caps@.len(),
                    c_i <= m,
                    *rule == self@[r_i as int],
                    results@ == spec_all_findings(self@.take(r_i as int), capss, sb)
                        + spec_rule_findings(self@[r_i as int], caps@.take(c_i as int), sb),
                    forall|i: int| 0 <= i < results@.len() ==> valid_impact(#[trigger] results@[i]),
                decreases m - c_i,
            {
                let c = &caps[c_i];
                proof {
                    assert(caps@.take(c_i + 1).drop_last() =~= caps@.take(c_i as int));
                    assert(caps@.take(c_i + 1).last() == caps@[c_i as int]);
                }
                if self.should_report(rule.name.as_str(), c, source_bytes) {
                    let finding = make_finding(rule, c);
                    results.push(finding);
                    proof {
                        assert(results@ =~= spec_all_findings(self@.take(r_i as int), capss, sb)
                            + spec_rule_findings(self@[r_i as int], caps@.take(c_i + 1), sb));
                    }
                } else {
                    proof {
                        assert(results@ =~= spec_all_findings(self@.take(r_i as int), capss, sb)
                            + spec_rule_findings(self@[r_i as int], caps@.take(c_i + 1), sb));
                    }
                }
                c_i += 1;
            }
            proof {
                assert(caps@.take(m as int) =~= caps@);
                let capss0 = capss;
                capss = capss.push(caps@);
                assert(capss.drop_last() =~= capss0);
                assert(self@.take(r_i + 1).drop_last() =~= self@.take(r_i as int));
                assert(self@.take(r_i + 1).last() == self@[r_i as int]);
                assert(results@ =~= spec_all_findings(self@.take(r_i + 1), capss, sb));
            }
            r_i += 1;
        }
        proof {
            assert(self@.take(n as int) =~= self@);
            assert(results@ == spec_all_findings(self@, capss, sb));
        }
        Ok(results)
    }

    /// Analyzes the source and scores the findings in one call.
    pub fn analyze_with_score(&self, source_code: &str, language: &tree_sitter::Language) -> (res:
        Result<(Vec<AnalysisResult>, CodeScore), AnalysisError>)
        ensures
            res matches Ok(p) ==> score_matches(p.1, p.0@, source_code.spec_bytes()),
            res matches Ok(p) ==> exists|capss: Seq<Seq<CaptureInfo>>|
                capss.len() == self@.len() && p.0@ == #[trigger] spec_all_findings(
                    self@,
                    capss,
                    source_code.spec_bytes(),
                ),
    {
        let findings = match self.analyze(source_code, language) {
            Ok(f) => f,
            Err(e) => {
                return Err(e);
            },
        };
        let score = self.calculate_score(findings.as_slice(), source_code);
        Ok((findings, score))
    }

    /// The rule set for Rust sources: syntax errors at double weight, the
    /// panic-prone unwrap idiom, and a size rule for long functions.
    pub fn new_rust_analyzer() -> (r: CodeAnalyzer)
        ensures
            r@.len() == 3,
            rule_is(
                r@[0],
                "syntax_error"@,
                "(ERROR) @error"@,
                Severity::Error,
                "Syntax error"@,
                None,
                20,
            ),
            rule_is(
                r@[1],
                "unwrap_usage"@,
                "(call_expression function: (field_expression field: (field_identifier) @method) (#eq? @method \"unwrap\")) @call"@,
                Severity::Warning,
                "Use of .unwrap() can cause panics"@,
                Some("Consider using .expect() with a message or proper error handling"@),
                15,
            ),
            rule_is(
                r@[2],
                "large_function"@,
                "(function_item name: (identifier) @name) @function"@,
                Severity::Style,
                "Function may be too large"@,
                Some("Consider breaking into smaller functions"@),
                12,
            ),
    {
        let mut analyzer = CodeAnalyzer::new();
        analyzer.add_rule(
            AnalysisRule::new(
                "syntax_error".to_owned(),
                "(ERROR) @error".to_owned(),
                Severity::Error,
                "Syntax error".to_owned(),
                None,
            ).with_weight(20),
        );
        analyzer.add_rule(
            AnalysisRule::new(
                "unwrap_usage".to_owned(),
                "(call_expression function: (field_expression field: (field_identifier) @method) (#eq? @method \"unwrap\")) @call".to_owned(),
                Severity::Warning,
                "Use of .unwrap() can cause panics".to_owned(),
                Some("Consider using .expect() with a message or proper error handling".to_owned()),
            ).with_weight(15),
        );
        analyzer.add_rule(
            AnalysisRule::new(
                "large_function".to_owned(),
                "(function_item name: (identifier) @name) @function".to_owned(),
                Severity::Style,
                "Function may be too large".to_owned(),
                Some("Consider breaking into smaller functions".to_owned()),
            ).with_weight(12),
        );
        analyzer
    }

    /// The rule set for JavaScript sources: syntax errors at double weight,
    /// leftover console logging, and the scoping-prone var keyword.
    pub fn new_javascript_analyzer() -> (r: CodeAnalyzer)
        ensures
            r@.len() == 3,
            rule_is(
                r@[0],
                "syntax_error"@,
                "(ERROR) @error"@,
                Severity::Error,
                "Syntax error"@,
                None,
                20,
            ),
            rule_is(
                r@[1],
                "console_log"@,
                "(call_expression function: (member_expression object: (identifier) @obj property: (property_identifier) @prop) (#eq? @obj \"console\") (#eq? @prop \"log\")) @call"@,
                Severity::Info,
                "Console.log statement found"@,
                Some("Remove before production"@),
                5,
            ),
            rule_is(
                r@[2],
                "var_usage"@,
                "(variable_declaration kind: \"var\") @var"@,
                Severity::Warning,
                "Use of 'var' keyword"@,
                Some("Use 'let' or 'const' instead"@),
                13,
            ),
    {
        let mut analyzer = CodeAnalyzer::new();
        analyzer.add_rule(
            AnalysisRule::new(
                "syntax_error".to_owned(),
                "(ERROR) @error".to_owned(),
                Severity::Error,
                "Syntax error".to_owned(),
                None,
            ).with_weight(20),
        );
        analyzer.add_rule(
            AnalysisRule::new(
                "console_log".to_owned(),
                "(call_expression function: (member_expression object: (identifier) @obj property: (property_identifier) @prop) (#eq? @obj \"console\") (#eq? @prop \"log\")) @call".to_owned(),
                Severity::Info,
                "Console.log statement found".to_owned(),
                Some("Remove before production".to_owned()),
            ).with_weight(5),
        );
        analyzer.add_rule(
            AnalysisRule::new(
                "var_usage".to_owned(),
                "(variable_declaration kind: \"var\") @var".to_owned(),
                Severity::Warning,
                "Use of 'var' keyword".to_owned(),
                Some("Use 'let' or 'const' instead".to_owned()),
            ).with_weight(13),
        );
        analyzer
    }

    /// The rule set for Go sources: syntax errors at double weight, the
    /// unchecked-error idiom, panic calls, and a set of style and hygiene
    /// rules specific to the Go ecosystem.
    pub fn new_go_analyzer() -> (r: CodeAnalyzer)
        ensures
            r@.len() == 12,
            rule_is(
                r@[0],
                "syntax_error"@,
                "(ERROR) @error"@,
                Severity::Error,
                "Syntax error"@,
                None,
                20,
            ),
            rule_is(
                r@[1],
                "go_missing_error_check"@,
                "(assignment_statement left: (expression_list (identifier) @var (identifier) @err) (#eq? @err \"err\")) @assignment"@,
                Severity::Warning,
                "Potential unchecked error"@,
                Some("Check for 'if err != nil' after this assignment"@),
                18,
            ),
            rule_is(
                r@[2],
                "go_unused_variable"@,
                "(short_var_declaration left: (expression_list (identifier) @var) (#not-match? @var \"^_\"))"@,
                Severity::Info,
                "Potentially unused variable"@,
                Some("Use _ if variable is intentionally unused"@),
                7,
            ),
            rule_is(
                r@[3],
                "go_panic_usage"@,
                "(call_expression function: (identifier) @func (#eq? @func \"panic\")) @call"@,
                Severity::Warning,
                "Use of panic()"@,
                Some("Consider returning an error instead of panicking"@),
                16,
            ),
            rule_is(
                r@[4],
                "go_large_function"@,
                "(function_declaration name: (identifier) @name) @function"@,
                Severity::Style,
                "Function may be too large"@,
                Some("Consider breaking into smaller functions"@),
                11,
            ),
            rule_is(
                r@[5],
                "go_too_many_parameters"@,
                "(function_declaration parameters: (parameter_list (parameter_declaration) @param1 (parameter_declaration) @param2 (parameter_declaration) @param3 (parameter_declaration) @param4 (parameter_declaration) @param5 (parameter_declaration) @param6)) @function"@,
                Severity::Style,
                "Function has too many parameters"@,
                Some("Consider using a struct or reducing parameters"@),
                13,
            ),
            rule_is(
                r@[6],
                "go_global_variable"@,
                "(source_file (var_declaration) @global_var)"@,
                Severity::Info,
                "Global variable declaration"@,
                Some("Consider if this global variable is necessary"@),
                8,
            ),
            rule_is(
                r@[7],
                "go_missing_package_doc"@,
                "(source_file (package_clause) @package (#not-has-prev-sibling? @package comment))"@,
                Severity::Info,
                "Package missing documentation"@,
                Some("Add package documentation comment"@),
                6,
            ),
            rule_is(
                r@[8],
                "go_todo_comment"@,
                "(comment) @comment (#match? @comment \"TODO|FIXME|XXX|HACK\")"@,
                Severity::Info,
                "TODO comment found"@,
                Some("Consider addressing this TODO item"@),
                3,
            ),
            rule_is(
                r@[9],
                "go_empty_if_block"@,
                "(if_statement consequence: (block) @block (#eq? @block \"{}\"))"@,
                Severity::Style,
                "Empty if block"@,
                Some("Remove empty if block or add implementation"@),
                10,
            ),
            rule_is(
                r@[10],
                "go_magic_number"@,
                "(int_literal) @number (#not-eq? @number \"0\") (#not-eq? @number \"1\") (#not-eq? @number \"2\")"@,
                Severity::Style,
                "Magic number found"@,
                Some("Consider using a named constant"@),
                4,
            ),
            rule_is(
                r@[11],
                "go_deep_nesting"@,
                "(if_statement consequence: (block (if_statement consequence: (block (if_statement consequence: (block (if_statement) @deep_if))))))"@,
                Severity::Style,
                "Deep nesting detected (4+ levels)"@,
                Some("Consider extracting nested logic into separate functions"@),
                14,
            ),
    {
        let mut analyzer = CodeAnalyzer::new();
        analyzer.add_rule(
            AnalysisRule::new(
                "syntax_error".to_owned(),
                "(ERROR) @error".to_owned(),
                Severity::Error,
                "Syntax error".to_owned(),
                None,
            ).with_weight(20),
        );
        analyzer.add_rule(
            AnalysisRule::new(
                "go_missing_error_check".to_owned(),
                "(assignment_statement left: (expression_list (identifier) @var (identifier) @err) (#eq? @err \"err\")) @assignment".to_owned(),
                Severity::Warning,
                "Potential unchecked error".to_owned(),
                Some("Check for 'if err != nil' after this assignment".to_owned()),
            ).with_weight(18),
        );
        analyzer.add_rule(
            AnalysisRule::new(
                "go_unused_variable".to_owned(),
                "(short_var_declaration left: (expression_list (identifier) @var) (#not-match? @var \"^_\"))".to_owned(),
                Severity::Info,
                "Potentially unused variable".to_owned(),
                Some("Use _ if variable is intentionally unused".to_owned()),
            ).with_weight(7),
        );
        analyzer.add_rule(
            AnalysisRule::new(
                "go_panic_usage".to_owned(),
                "(call_expression function: (identifier) @func (#eq? @func \"panic\")) @call".to_owned(),
                Severity::Warning,
                "Use of panic()".to_owned(),
                Some("Consider returning an error instead of panicking".to_owned()),
            ).with_weight(16),
        );
        analyzer.add_rule(
            AnalysisRule::new(
                "go_large_function".to_owned(),
                "(function_declaration name: (identifier) @name) @function".to_owned(),
                Severity::Style,
                "Function may be too large".to_owned(),
                Some("Consider breaking into smaller functions".to_owned()),
            ).with_weight(11),
        );
        analyzer.add_rule(
            AnalysisRule::new(
                "go_too_many_parameters".to_owned(),
                "(function_declaration parameters: (parameter_list (parameter_declaration) @param1 (parameter_declaration) @param2 (parameter_declaration) @param3 (parameter_declaration) @param4 (parameter_declaration) @param5 (parameter_declaration) @param6)) @function".to_owned(),
                Severity::Style,
                "Function has too many parameters".to_owned(),
                Some("Consider using a struct or reducing parameters".to_owned()),
            ).with_weight(13),
        );
        analyzer.add_rule(
            AnalysisRule::new(
                "go_global_variable".to_owned(),
                "(source_file (var_declaration) @global_var)".to_owned(),
                Severity::Info,
                "Global variable declaration".to_owned(),
                Some("Consider if this global variable is necessary".to_owned()),
            ).with_weight(8),
        );
        analyzer.add_rule(
            AnalysisRule::new(
                "go_missing_package_doc".to_owned(),
                "(source_file (package_clause) @package (#not-has-prev-sibling? @package comment))".to_owned(),
                Severity::Info,
                "Package missing documentation".to_owned(),
                Some("Add package documentation comment".to_owned()),
            ).with_weight(6),
        );
        analyzer.add_rule(
            AnalysisRule::new(
                "go_todo_comment".to_owned(),
                "(comment) @comment (#match? @comment \"TODO|FIXME|XXX|HACK\")".to_owned(),
                Severity::Info,
                "TODO comment found".to_owned(),
                Some("Consider addressing this TODO item".to_owned()),
            ).with_weight(3),
        );
        analyzer.add_rule(
            AnalysisRule::new(
                "go_empty_if_block".to_owned(),
                "(if_statement consequence: (block) @block (#eq? @block \"{}\"))".to_owned(),
                Severity::Style,
                "Empty if block".to_owned(),
                Some("Remove empty if block or add implementation".to_owned()),
            ).with_weight(10),
        );
        analyzer.add_rule(
            AnalysisRule::new(
                "go_magic_number".to_owned(),
                "(int_literal) @number (#not-eq? @number \"0\") (#not-eq? @number \"1\") (#not-eq? @number \"2\")".to_owned(),
                Severity::Style,
                "Magic number found".to_owned(),
                Some("Consider using a named constant".to_owned()),
            ).with_weight(4),
        );
        analyzer.add_rule(
            AnalysisRule::new(
                "go_deep_nesting".to_owned(),
                "(if_statement consequence: (block (if_statement consequence: (block (if_statement consequence: (block (if_statement) @deep_if))))))".to_owned(),
                Severity::Style,
                "Deep nesting detected (4+ levels)".to_owned(),
                Some("Consider extracting nested logic into separate functions".to_owned()),
            ).with_weight(14),
        );
        analyzer
    }
}

} // verus!
