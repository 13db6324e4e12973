//! Continuous-integration quality gate.
//!
//! `uveddi ci check` analyses a path and fails when the technical debt
//! score or the number of critical issues exceeds its threshold.

use vstd::prelude::*;
use std::path::PathBuf;
use crate::text::{owned, push_str};
use crate::json::{Json, JsonNumber, json_value, parse_json, get, get_field};
use crate::numeric::truncate_to_u32;

verus! {

/// The `ci` command.
#[derive(Debug)]
pub struct CiCommand {
    pub action: CiAction,
}

/// Subcommands of `ci`.
#[derive(Debug)]
pub enum CiAction {
    /// Run analysis and fail if thresholds are exceeded.
    Check(CiCheckArgs),
}

/// Arguments of `ci check`.
#[derive(Debug)]
pub struct CiCheckArgs {
    /// Path to analyse.
    pub path: PathBuf,
    /// Maximum allowed technical debt score (0-100); 50 by default.
    pub max_debt: u32,
    /// Maximum allowed critical issues; 0 by default.
    pub max_critical: u32,
    /// Report format; `json` by default.
    pub output_format: String,
}

/// Why a quality gate failed.
#[derive(Debug, Clone, Copy, PartialEq, Eq, Structural)]
pub enum CiGateFailure {
    /// The debt score or the critical issue count exceeded its threshold.
    ThresholdExceeded,
    /// No metrics could be read, issues were found and none are allowed.
    IssuesWithoutMetrics,
}

/// A quality gate passes when neither metric exceeds its threshold.
pub open spec fn gate_passes(debt: u32, critical: u32, max_debt: u32, max_critical: u32) -> bool {
    debt <= max_debt && critical <= max_critical
}

/// Whether a CI gate passes for the given metrics and thresholds.
pub fn evaluate_ci_gate(debt_score: u32, critical_count: u32, max_debt: u32, max_critical: u32) -> (r: bool)
    ensures
        r == gate_passes(debt_score, critical_count, max_debt, max_critical),
{
    debt_score <= max_debt && critical_count <= max_critical
}

/// The verdict of `ci check` on an analysis report: when the report states
/// its metrics, the quality gate on them, whatever the output format;
/// when it states none, it fails exactly when issues were found and no
/// critical issue is allowed.
pub open spec fn ci_verdict(
    metrics: Option<(u32, u32)>,
    issues_found: u64,
    max_debt: u32,
    max_critical: u32,
) -> Result<(), CiGateFailure> {
    match metrics {
        Some((debt, critical)) => if gate_passes(debt, critical, max_debt, max_critical) {
            Ok(())
        } else {
            Err(CiGateFailure::ThresholdExceeded)
        },
        None => if issues_found > 0 && max_critical == 0 {
            Err(CiGateFailure::IssuesWithoutMetrics)
        } else {
            Ok(())
        },
    }
}

impl CiCheckArgs {
    /// Decides the quality gate once the analysis has run. `metrics` holds the
    /// debt score and critical issue count stated by the report, when it
    /// states them; `issues_found` is the report's issue count.
    pub fn verdict(&self, metrics: Option<(u32, u32)>, issues_found: u64) -> (r: Result<(), CiGateFailure>)
        ensures
            r == ci_verdict(metrics, issues_found, self.max_debt, self.max_critical),
    {
        match metrics {
            Some((debt, critical)) => {
                if evaluate_ci_gate(debt, critical, self.max_debt, self.max_critical) {
                    Ok(())
                } else {
                    Err(CiGateFailure::ThresholdExceeded)
                }
            },
            None => {
                if issues_found > 0 && self.max_critical == 0 {
                    Err(CiGateFailure::IssuesWithoutMetrics)
                } else {
                    Ok(())
                }
            },
        }
    }
}

/// A metric as the report states it: a non-negative integer cut to its low
/// 32 bits, a fraction converted as `value as u32` converts it; anything
/// else, or nothing, counts as 0.
pub open spec fn metric_of(j: Option<Json>) -> u32 {
    match j {
        Some(Json::Number(JsonNumber::PosInt(u))) => (u % 0x1_0000_0000) as u32,
        Some(Json::Number(JsonNumber::Float(f))) => truncate_to_u32(f.bits),
        _ => 0,
    }
}

/// The debt score of a report: `summary.debtScore`.
pub open spec fn summary_debt(j: Json) -> Option<Json> {
    get(get(Some(j), "summary"@), "debtScore"@)
}

/// The number of critical issues of a report: `summary.issuesBySeverity.critical`.
pub open spec fn summary_critical(j: Json) -> Option<Json> {
    get(get(get(Some(j), "summary"@), "issuesBySeverity"@), "critical"@)
}

fn metric_value(j: Option<&Json>) -> (r: u32)
    ensures
        r == metric_of(match j { Some(x) => Some(*x), None => None }),
{
    match j {
        Some(Json::Number(JsonNumber::PosInt(u))) => {
            let u: u64 = *u;
            let r = u as u32;
            assert(r == u % 0x1_0000_0000) by (bit_vector)
                requires r == u as u32;
            r
        },
        Some(Json::Number(JsonNumber::Float(f))) => f.truncate_to_u32(),
        _ => 0,
    }
}

fn nested_field<'a>(j: Option<&'a Json>, key: &str) -> (r: Option<&'a Json>)
    ensures
        match r { Some(x) => Some(*x), None => None } == get(match j { Some(x) => Some(*x), None => None }, key@),
{
    match j {
        Some(x) => get_field(x, key),
        None => None,
    }
}

/// The debt score and the number of critical issues a parsed report
/// states; a missing or non-numeric value counts as 0.
pub fn ci_metrics_of(report: &Json) -> (r: (u32, u32))
    ensures
        r == (metric_of(summary_debt(*report)), metric_of(summary_critical(*report))),
{
    let summary = get_field(report, "summary");
    let debt = metric_value(nested_field(summary, "debtScore"));
    let severity = nested_field(summary, "issuesBySeverity");
    let critical = metric_value(nested_field(severity, "critical"));
    (debt, critical)
}

/// Reads the debt score and the number of critical issues from a JSON
/// report; a missing or non-numeric value counts as 0.
pub fn parse_ci_metrics_from_json(json_content: &str) -> (r: Result<(u32, u32), String>)
    ensures
        match json_value(json_content@) {
            Ok(j) => r == Ok::<(u32, u32), String>((metric_of(summary_debt(j)), metric_of(summary_critical(j)))),
            Err(e) => r matches Err(m) && m@ == "Failed to parse JSON: "@ + e,
        },
{
    match parse_json(json_content) {
        Ok(v) => Ok(ci_metrics_of(&v)),
        Err(e) => {
            let mut m = owned("Failed to parse JSON: ");
            push_str(&mut m, e.as_str());
            Err(m)
        },
    }
}

impl CiGateFailure {
    /// The error message of a failed gate.
    pub fn message(&self) -> (s: String)
        ensures
            s@ == match *self {
                CiGateFailure::ThresholdExceeded => "Quality gate failed"@,
                CiGateFailure::IssuesWithoutMetrics => "Quality gate failed (fallback)"@,
            },
    {
        match self {
            CiGateFailure::ThresholdExceeded => owned("Quality gate failed"),
            CiGateFailure::IssuesWithoutMetrics => owned("Quality gate failed (fallback)"),
        }
    }
}

} // verus!
