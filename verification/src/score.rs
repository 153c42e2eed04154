//! The scoring engine: aggregates findings into per-severity counts and
//! deductions, applies a size-based leniency factor, and produces a bounded
//! overall score with a rating band and a one-line summary.
//!
//! All quantities are exact fixed-point integers: deductions in centipoints
//! (hundredths of a point), the size factor and leniency in thousandths, the
//! recorded size bonus in hundred-thousandths of a point, and the overall
//! score in tenths of a point, rounded half-up from the exact rational.

use vstd::arithmetic::div_mod::{
    lemma_div_denominator, lemma_div_is_ordered, lemma_div_multiples_vanish,
    lemma_div_pos_is_pos, lemma_fundamental_div_mod_converse_div, lemma_multiply_divide_lt,
};
use vstd::arithmetic::mul::{lemma_mul_inequality, lemma_mul_upper_bound};
use vstd::prelude::*;
use vstd::string::*;

use crate::analyzer::{AnalysisResult, CodeAnalyzer, Severity, valid_impact, MAX_ABS_IMPACT_CENTI};
use crate::text::{
    line_count, push_decimal, spec_decimal, spec_line_count,
};

verus! {

/// Counts and summed absolute deductions per severity, plus the recorded
/// size bonus for large files.
#[derive(Debug, Clone, PartialEq)]
pub struct ScoreBreakdown {
    pub errors: usize,
    pub warnings: usize,
    pub info_issues: usize,
    pub style_issues: usize,
    /// Summed absolute impacts of Error findings, in centipoints.
    pub error_deduction: u128,
    /// Summed absolute impacts of Warning findings, in centipoints.
    pub warning_deduction: u128,
    /// Summed absolute impacts of Info findings, in centipoints.
    pub info_deduction: u128,
    /// Summed absolute impacts of Style findings, in centipoints.
    pub style_deduction: u128,
    /// Leniency granted to large files on minor issues, in
    /// hundred-thousandths of a point: the leniency (in thousandths) times
    /// the info and style deductions (in centipoints). Recorded for
    /// transparency; it is implicit in the size factor, not subtracted
    /// separately.
    pub size_bonus: u128,
}

/// The overall quality score of one analysis run.
#[derive(Debug, Clone, PartialEq)]
pub struct CodeScore {
    /// Overall score in tenths of a point, between 0 and 100 (i.e. 0.0 to
    /// 10.0), rounded half-up to the nearest tenth.
    pub overall_score_tenths: u32,
    /// The maximum score, in tenths: always 100 (i.e. 10.0).
    pub max_score_tenths: u32,
    pub total_issues: usize,
    pub breakdown: ScoreBreakdown,
    /// The rating band label for the rounded score.
    pub rating: String,
    /// A one-line, actionability-first summary.
    pub summary: String,
}

/// Absolute value.
pub open spec fn spec_abs(x: int) -> int {
    if x < 0 {
        -x
    } else {
        x
    }
}

/// How many findings of severity `sev` the list holds.
pub open spec fn spec_count_sev(fs: Seq<AnalysisResult>, sev: Severity) -> int
    decreases fs.len(),
{
    if fs.len() == 0 {
        0
    } else {
        spec_count_sev(fs.drop_last(), sev) + if fs.last().severity == sev {
            1int
        } else {
            0int
        }
    }
}

/// Sum of the absolute score impacts of the findings of severity `sev`, in
/// centipoints.
pub open spec fn spec_deduction_centi(fs: Seq<AnalysisResult>, sev: Severity) -> int
    decreases fs.len(),
{
    if fs.len() == 0 {
        0
    } else {
        spec_deduction_centi(fs.drop_last(), sev) + if fs.last().severity == sev {
            spec_abs(fs.last().score_impact as int)
        } else {
            0int
        }
    }
}

/// The total deduction over all severities, in centipoints.
pub open spec fn spec_total_deduction_centi(fs: Seq<AnalysisResult>) -> int {
    spec_deduction_centi(fs, Severity::Error) + spec_deduction_centi(fs, Severity::Warning)
        + spec_deduction_centi(fs, Severity::Info) + spec_deduction_centi(fs, Severity::Style)
}

/// Leniency granted to a file of `lines` lines, in thousandths: a thousandth
/// per line over two hundred, capped at three hundred (30%).
pub open spec fn spec_leniency_milli(lines: int) -> int {
    if lines > 200 {
        if lines - 200 < 300 {
            lines - 200
        } else {
            300
        }
    } else {
        0
    }
}

/// The size factor in thousandths: large files divide their deduction by up
/// to 1.3, small files (under fifty lines) by 0.9, others by 1.0.
pub open spec fn spec_size_factor_milli(lines: int) -> int {
    if lines > 200 {
        1000 + spec_leniency_milli(lines)
    } else if lines < 50 {
        900
    } else {
        1000
    }
}

/// The overall score in tenths: ten points minus the total deduction divided
/// by the size factor, clamped at zero, rounded half-up to the nearest
/// tenth. `total_centi` is the total deduction in centipoints and
/// `factor_milli` the size factor in thousandths.
pub open spec fn spec_score_tenths(total_centi: int, factor_milli: int) -> int {
    if total_centi >= factor_milli {
        0
    } else {
        (2 * (100 * factor_milli - 100 * total_centi) + factor_milli) / (2 * factor_milli)
    }
}

/// The overall score, in tenths, of a finding list on a file of `lines`
/// lines.
pub open spec fn spec_overall_tenths(fs: Seq<AnalysisResult>, lines: int) -> int {
    spec_score_tenths(spec_total_deduction_centi(fs), spec_size_factor_milli(lines))
}

/// The rating band for a rounded score in tenths. The bands are closed
/// ranges; a score in none of them falls through to "Critical".
pub open spec fn spec_rating(tenths: int) -> Seq<char> {
    if 90 <= tenths <= 100 {
        "Excellent"@
    } else if 75 <= tenths <= 89 {
        "Good"@
    } else if 60 <= tenths <= 74 {
        "Fair"@
    } else if 40 <= tenths <= 59 {
        "Poor"@
    } else {
        "Critical"@
    }
}

/// The one-line summary: the first matching rung of the ladder wins, on raw
/// counts first and the rounded score after, so it can disagree with the
/// rating band on purpose.
pub open spec fn spec_summary(errors: int, warnings: int, info_issues: int, tenths: int) -> Seq<
    char,
> {
    if errors > 0 {
        "Code has "@ + spec_decimal(errors) + " critical errors that need immediate attention"@
    } else if warnings > 5 {
        "Multiple warnings detected - consider addressing them"@
    } else if info_issues > 10 {
        "Many minor issues found - good opportunity for cleanup"@
    } else if tenths >= 90 {
        "Excellent code quality with minimal issues"@
    } else if tenths >= 75 {
        "Good code quality with room for minor improvements"@
    } else {
        "Code needs improvement in several areas"@
    }
}

/// The breakdown records exactly the per-severity counts and centipoint
/// deduction sums of the finding list.
pub open spec fn breakdown_matches(b: ScoreBreakdown, fs: Seq<AnalysisResult>, lines: int) -> bool {
    &&& b.errors as int == spec_count_sev(fs, Severity::Error)
    &&& b.warnings as int == spec_count_sev(fs, Severity::Warning)
    &&& b.info_issues as int == spec_count_sev(fs, Severity::Info)
    &&& b.style_issues as int == spec_count_sev(fs, Severity::Style)
    &&& b.error_deduction as int == spec_deduction_centi(fs, Severity::Error)
    &&& b.warning_deduction as int == spec_deduction_centi(fs, Severity::Warning)
    &&& b.info_deduction as int == spec_deduction_centi(fs, Severity::Info)
    &&& b.style_deduction as int == spec_deduction_centi(fs, Severity::Style)
    &&& b.size_bonus as int == spec_leniency_milli(lines) * (spec_deduction_centi(
        fs,
        Severity::Info,
    ) + spec_deduction_centi(fs, Severity::Style))
}

/// The score is exactly the one the scoring algorithm assigns to this
/// finding list and source text.
pub open spec fn score_matches(score: CodeScore, fs: Seq<AnalysisResult>, src: Seq<u8>) -> bool {
    let lines = spec_line_count(src);
    let tenths = spec_overall_tenths(fs, lines);
    &&& breakdown_matches(score.breakdown, fs, lines)
    &&& score.overall_score_tenths as int == tenths
    &&& score.max_score_tenths == 100
    &&& score.total_issues as int == fs.len()
    &&& score.rating@ == spec_rating(tenths)
    &&& score.summary@ == spec_summary(
        spec_count_sev(fs, Severity::Error),
        spec_count_sev(fs, Severity::Warning),
        spec_count_sev(fs, Severity::Info),
        tenths,
    )
}

/// Per-severity deductions are never negative.
pub proof fn lemma_deduction_nonneg(fs: Seq<AnalysisResult>, sev: Severity)
    ensures
        spec_deduction_centi(fs, sev) >= 0,
    decreases fs.len(),
{
    if fs.len() > 0 {
        lemma_deduction_nonneg(fs.drop_last(), sev);
    }
}

/// The size factor always lies between 0.9 and 1.3 (in thousandths), and the
/// leniency never exceeds 30%.
pub proof fn lemma_size_factor_bounds(lines: int)
    ensures
        900 <= spec_size_factor_milli(lines) <= 1300,
        0 <= spec_leniency_milli(lines) <= 300,
{
}

/// Per-severity deductions and counts of a severity that no finding in the
/// list has are zero.
pub proof fn lemma_deduction_absent(fs: Seq<AnalysisResult>, sev: Severity)
    requires
        forall|i: int| 0 <= i < fs.len() ==> (#[trigger] fs[i]).severity != sev,
    ensures
        spec_deduction_centi(fs, sev) == 0,
        spec_count_sev(fs, sev) == 0,
    decreases fs.len(),
{
    if fs.len() > 0 {
        assert(forall|i: int|
            0 <= i < fs.drop_last().len() ==> (#[trigger] fs.drop_last()[i]).severity != sev);
        lemma_deduction_absent(fs.drop_last(), sev);
    }
}

/// Appending one finding extends the bucket of its severity by the
/// finding's absolute impact and leaves the other buckets unchanged.
pub proof fn lemma_deduction_push(fs: Seq<AnalysisResult>, x: AnalysisResult, sev: Severity)
    ensures
        spec_deduction_centi(fs.push(x), sev) == spec_deduction_centi(fs, sev) + if x.severity
            == sev {
            spec_abs(x.score_impact as int)
        } else {
            0int
        },
        spec_count_sev(fs.push(x), sev) == spec_count_sev(fs, sev) + if x.severity == sev {
            1int
        } else {
            0int
        },
{
    assert(fs.push(x).drop_last() =~= fs);
}

/// The rounded score is never negative.
proof fn lemma_score_tenths_nonneg(c: int, f: int)
    requires
        f >= 1,
    ensures
        spec_score_tenths(c, f) >= 0,
{
    if c < f {
        lemma_div_pos_is_pos(2 * (100 * f - 100 * c) + f, 2 * f);
    }
}

/// The rounded score never increases when the total deduction grows.
proof fn lemma_score_tenths_monotone(c1: int, c2: int, f: int)
    requires
        c1 <= c2,
        f >= 1,
    ensures
        spec_score_tenths(c2, f) <= spec_score_tenths(c1, f),
{
    if c2 >= f {
        lemma_score_tenths_nonneg(c1, f);
    } else {
        lemma_div_is_ordered(
            2 * (100 * f - 100 * c2) + f,
            2 * (100 * f - 100 * c1) + f,
            2 * f,
        );
    }
}

/// Law: adding a finding never increases the overall score, for a fixed
/// source text.
pub proof fn lemma_adding_finding_monotone(fs: Seq<AnalysisResult>, x: AnalysisResult, lines: int)
    ensures
        spec_overall_tenths(fs.push(x), lines) <= spec_overall_tenths(fs, lines),
{
    lemma_size_factor_bounds(lines);
    lemma_deduction_push(fs, x, Severity::Error);
    lemma_deduction_push(fs, x, Severity::Warning);
    lemma_deduction_push(fs, x, Severity::Info);
    lemma_deduction_push(fs, x, Severity::Style);
    lemma_score_tenths_monotone(
        spec_total_deduction_centi(fs),
        spec_total_deduction_centi(fs.push(x)),
        spec_size_factor_milli(lines),
    );
}

/// Law: with no findings at all, the overall score is a perfect 10.0 and
/// the rating is "Excellent", whatever the line count.
pub proof fn lemma_empty_findings_perfect(lines: int)
    ensures
        spec_overall_tenths(Seq::<AnalysisResult>::empty(), lines) == 100,
        spec_rating(spec_overall_tenths(Seq::<AnalysisResult>::empty(), lines)) == "Excellent"@,
{
    let f = spec_size_factor_milli(lines);
    lemma_size_factor_bounds(lines);
    assert(spec_total_deduction_centi(Seq::<AnalysisResult>::empty()) == 0);
    assert(2 * (100 * f - 0) + f == 100 * (2 * f) + f);
    lemma_fundamental_div_mod_converse_div(100 * (2 * f) + f, 2 * f, 100, f);
}

/// Law: a list of Style findings alone, deducting less than ten points in
/// all, scores exactly the half-up rounding of `(10 - D) * 10` tenths on a
/// file of between fifty and two hundred lines (size factor one), where `D`
/// is the total deduction.
pub proof fn lemma_style_only_score(fs: Seq<AnalysisResult>, lines: int)
    requires
        forall|i: int| 0 <= i < fs.len() ==> (#[trigger] fs[i]).severity == Severity::Style,
        spec_total_deduction_centi(fs) < 1000,
        50 <= lines <= 200,
    ensures
        spec_overall_tenths(fs, lines) == (2 * (1000 - spec_total_deduction_centi(fs)) + 10) / 20,
{
    let c = spec_total_deduction_centi(fs);
    let f = spec_size_factor_milli(lines);
    assert(f == 1000);
    lemma_deduction_absent(fs, Severity::Error);
    lemma_deduction_absent(fs, Severity::Warning);
    lemma_deduction_absent(fs, Severity::Info);
    lemma_deduction_nonneg(fs, Severity::Style);
    let x = 2 * (1000 - c) + 10;
    assert(2 * (100 * f - 100 * c) + f == 100 * x);
    lemma_div_denominator(100 * x, 100, 20);
    lemma_div_multiples_vanish(x, 100);
    assert((100 * x) / 100 == x);
    assert((100 * x) / (100int * 20int) == x / 20);
    assert(spec_score_tenths(c, f) == (100 * x) / 2000);
}

/// Law: the overall score is clamped at zero once the total deduction
/// reaches the largest possible size factor, whatever the line count.
pub proof fn lemma_score_clamped_at_zero(fs: Seq<AnalysisResult>, lines: int)
    requires
        spec_total_deduction_centi(fs) >= 1300,
    ensures
        spec_overall_tenths(fs, lines) == 0,
{
    lemma_size_factor_bounds(lines);
}

/// Law: the size leniency caps at 30%: the size factor never exceeds 1.3,
/// and a ten-thousand-line file hits the cap exactly.
pub proof fn lemma_leniency_cap(lines: int)
    ensures
        spec_leniency_milli(lines) <= 300,
        spec_size_factor_milli(lines) <= 1300,
        spec_size_factor_milli(10000) == 1300,
{
}

/// Law: scoring is pure. Any two scores that match the same finding list
/// and source text agree in every observable field.
pub proof fn lemma_score_pure(s1: CodeScore, s2: CodeScore, fs: Seq<AnalysisResult>, src: Seq<u8>)
    requires
        score_matches(s1, fs, src),
        score_matches(s2, fs, src),
    ensures
        s1.overall_score_tenths == s2.overall_score_tenths,
        s1.max_score_tenths == s2.max_score_tenths,
        s1.total_issues == s2.total_issues,
        s1.breakdown == s2.breakdown,
        s1.rating@ == s2.rating@,
        s1.summary@ == s2.summary@,
{
}

impl CodeAnalyzer {
    /// The rating band and summary line for a rounded score (in tenths) and
    /// a breakdown. The summary ladder runs on raw counts before the score,
    /// so it may disagree with the rating on purpose.
    pub fn get_rating_and_summary(&self, score_tenths: u32, breakdown: &ScoreBreakdown) -> (r: (
        String,
        String,
    ))
        ensures
            r.0@ == spec_rating(score_tenths as int),
            r.1@ == spec_summary(
                breakdown.errors as int,
                breakdown.warnings as int,
                breakdown.info_issues as int,
                score_tenths as int,
            ),
    {
        let t = score_tenths;
        let rating: String = if 90 <= t && t <= 100 {
            "Excellent".to_owned()
        } else if 75 <= t && t <= 89 {
            "Good".to_owned()
        } else if 60 <= t && t <= 74 {
            "Fair".to_owned()
        } else if 40 <= t && t <= 59 {
            "Poor".to_owned()
        } else {
            "Critical".to_owned()
        };
        let summary: String = if breakdown.errors > 0 {
            let mut s = "Code has ".to_owned();
            push_decimal(&mut s, breakdown.errors as u64);
            s.append(" critical errors that need immediate attention");
            s
        } else if breakdown.warnings > 5 {
            "Multiple warnings detected - consider addressing them".to_owned()
        } else if breakdown.info_issues > 10 {
            "Many minor issues found - good opportunity for cleanup".to_owned()
        } else if t >= 90 {
            "Excellent code quality with minimal issues".to_owned()
        } else if t >= 75 {
            "Good code quality with room for minor improvements".to_owned()
        } else {
            "Code needs improvement in several areas".to_owned()
        };
        (rating, summary)
    }

    /// Scores a finding list against its source text: buckets findings by
    /// severity, applies the size factor to the total deduction, clamps the
    /// score at zero, rounds it half-up to one decimal (one tenth), and
    /// selects the rating band and summary line.
    pub fn calculate_score(&self, results: &[AnalysisResult], source_code: &str) -> (score:
        CodeScore)
        requires
            forall|i: int| 0 <= i < results@.len() ==> valid_impact(#[trigger] results@[i]),
        ensures
            score_matches(score, results@, source_code.spec_bytes()),
    {
        let lines = line_count(source_code);
        let n = results.len();

        let mut errors: usize = 0;
        let mut warnings: usize = 0;
        let mut info_issues: usize = 0;
        let mut style_issues: usize = 0;
        let mut error_deduction: u128 = 0;
        let mut warning_deduction: u128 = 0;
        let mut info_deduction: u128 = 0;
        let mut style_deduction: u128 = 0;

        proof {
            assert((u64::MAX as int) * (MAX_ABS_IMPACT_CENTI as int) < u128::MAX as int)
                by (nonlinear_arith);
        }

        let mut i: usize = 0;
        while i < n
            invariant
                n == results@.len(),
                i <= n,
                forall|k: int| 0 <= k < n ==> valid_impact(#[trigger] results@[k]),
                errors as int == spec_count_sev(results@.take(i as int), Severity::Error),
                warnings as int == spec_count_sev(results@.take(i as int), Severity::Warning),
                info_issues as int == spec_count_sev(results@.take(i as int), Severity::Info),
                style_issues as int == spec_count_sev(results@.take(i as int), Severity::Style),
                errors <= i && warnings <= i && info_issues <= i && style_issues <= i,
                error_deduction as int == spec_deduction_centi(
                    results@.take(i as int),
                    Severity::Error,
                ),
                warning_deduction as int == spec_deduction_centi(
                    results@.take(i as int),
                    Severity::Warning,
                ),
                info_deduction as int == spec_deduction_centi(
                    results@.take(i as int),
                    Severity::Info,
                ),
                style_deduction as int == spec_deduction_centi(
                    results@.take(i as int),
                    Severity::Style,
                ),
                error_deduction as int + warning_deduction as int + info_deduction as int
                    + style_deduction as int <= (i as int) * (MAX_ABS_IMPACT_CENTI as int),
            decreases n - i,
        {
            let r = &results[i];
            let mag: u128 = (-r.score_impact) as u128;
            proof {
                assert(results@.take(i + 1).drop_last() =~= results@.take(i as int));
                assert(results@.take(i + 1).last() == results@[i as int]);
                assert((i as int + 1) * (MAX_ABS_IMPACT_CENTI as int) == (i as int) * (
                MAX_ABS_IMPACT_CENTI as int) + MAX_ABS_IMPACT_CENTI as int) by (nonlinear_arith);
                lemma_mul_inequality(i as int + 1, u64::MAX as int, MAX_ABS_IMPACT_CENTI as int);
            }
            match r.severity {
                Severity::Error => {
                    errors += 1;
                    error_deduction += mag;
                },
                Severity::Warning => {
                    warnings += 1;
                    warning_deduction += mag;
                },
                Severity::Info => {
                    info_issues += 1;
                    info_deduction += mag;
                },
                Severity::Style => {
                    style_issues += 1;
                    style_deduction += mag;
                },
            }
            i += 1;
        }
        proof {
            assert(results@.take(n as int) =~= results@);
            lemma_deduction_nonneg(results@, Severity::Error);
            lemma_deduction_nonneg(results@, Severity::Warning);
            lemma_deduction_nonneg(results@, Severity::Info);
            lemma_deduction_nonneg(results@, Severity::Style);
        }

        let total_deduction: u128 = error_deduction + warning_deduction + info_deduction
            + style_deduction;

        let leniency: u64 = if lines > 200 {
            let over = lines - 200;
            if over < 300 {
                over as u64
            } else {
                300
            }
        } else {
            0
        };
        let factor: u64 = if lines > 200 {
            1000 + leniency
        } else if lines < 50 {
            900
        } else {
            1000
        };

        proof {
            assert(300 * ((u64::MAX as int) * (MAX_ABS_IMPACT_CENTI as int)) < u128::MAX as int)
                by (nonlinear_arith);
            lemma_mul_upper_bound(
                leniency as int,
                300,
                info_deduction as int + style_deduction as int,
                (u64::MAX as int) * (MAX_ABS_IMPACT_CENTI as int),
            );
        }
        let size_bonus: u128 = (leniency as u128) * (info_deduction + style_deduction);

        let tenths: u32 = if total_deduction >= factor as u128 {
            0
        } else {
            let t64: u64 = total_deduction as u64;
            let a: u64 = 100 * (factor - t64);
            let num: u64 = 2 * a + factor;
            let den: u64 = 2 * factor;
            proof {
                lemma_multiply_divide_lt(num as int, den as int, 101);
                lemma_div_pos_is_pos(num as int, den as int);
            }
            (num / den) as u32
        };

        let breakdown = ScoreBreakdown {
            errors,
            warnings,
            info_issues,
            style_issues,
            error_deduction,
            warning_deduction,
            info_deduction,
            style_deduction,
            size_bonus,
        };

        let (rating, summary) = self.get_rating_and_summary(tenths, &breakdown);

        CodeScore {
            overall_score_tenths: tenths,
            max_score_tenths: 100,
            total_issues: n,
            breakdown,
            rating,
            summary,
        }
    }
}

} // verus!
