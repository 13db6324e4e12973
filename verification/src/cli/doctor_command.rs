//! `uveddi doctor`: health diagnostics of the installation.

use vstd::prelude::*;

verus! {

/// Arguments of the `doctor` command.
#[derive(Debug, Clone)]
pub struct DoctorCommand {
    /// Automatically attempt to fix detected issues.
    pub fix: bool,
    /// Check only language parser health.
    pub parsers: bool,
    /// Check only AI integration health.
    pub ai: bool,
    /// Check only system health.
    pub system: bool,
    /// Output format: human (default), json or markdown.
    pub output_format: String,
    /// Run extended tests on each component.
    pub extended: bool,
    /// Only report critical issues.
    pub quiet: bool,
}

/// Which component groups a health run checks.
#[derive(Debug, Clone, Copy, PartialEq, Eq, Structural)]
pub struct HealthChecker {
    pub check_parsers: bool,
    pub check_ai: bool,
    pub check_system: bool,
}

impl HealthChecker {
    /// Checks every component group.
    pub fn new() -> (h: Self)
        ensures
            h == (HealthChecker { check_parsers: true, check_ai: true, check_system: true }),
    {
        HealthChecker { check_parsers: true, check_ai: true, check_system: true }
    }

    /// Checks the language parsers only.
    pub fn parsers_only() -> (h: Self)
        ensures
            h == (HealthChecker { check_parsers: true, check_ai: false, check_system: false }),
    {
        HealthChecker { check_parsers: true, check_ai: false, check_system: false }
    }

    /// Checks the AI integration only.
    pub fn ai_only() -> (h: Self)
        ensures
            h == (HealthChecker { check_parsers: false, check_ai: true, check_system: false }),
    {
        HealthChecker { check_parsers: false, check_ai: true, check_system: false }
    }
}

/// The checker for the selection flags: exactly one of `--parsers`, `--ai`,
/// `--system` restricts the run to that group; any other combination checks
/// everything.
pub open spec fn selected_checker(parsers: bool, ai: bool, system: bool) -> HealthChecker {
    if parsers && !ai && !system {
        HealthChecker { check_parsers: true, check_ai: false, check_system: false }
    } else if !parsers && ai && !system {
        HealthChecker { check_parsers: false, check_ai: true, check_system: false }
    } else if !parsers && !ai && system {
        HealthChecker { check_parsers: false, check_ai: false, check_system: true }
    } else {
        HealthChecker { check_parsers: true, check_ai: true, check_system: true }
    }
}

/// How a health report is shown.
#[derive(Debug, Clone, Copy, PartialEq, Eq, Structural)]
pub enum ReportFormat {
    Human,
    Json,
    Markdown,
}

impl DoctorCommand {
    /// The health checker for the command's selection flags.
    pub fn create_health_checker(&self) -> (h: HealthChecker)
        ensures
            h == selected_checker(self.parsers, self.ai, self.system),
    {
        if self.parsers && !self.ai && !self.system {
            HealthChecker::parsers_only()
        } else if !self.parsers && self.ai && !self.system {
            HealthChecker::ai_only()
        } else if !self.parsers && !self.ai && self.system {
            HealthChecker { check_parsers: false, check_ai: false, check_system: true }
        } else {
            HealthChecker::new()
        }
    }

    /// The report format: `json` and `markdown` by name, human otherwise.
    pub fn report_format(&self) -> (f: ReportFormat)
        ensures
            f == if self.output_format@ == "json"@ {
                ReportFormat::Json
            } else if self.output_format@ == "markdown"@ {
                ReportFormat::Markdown
            } else {
                ReportFormat::Human
            },
    {
        if crate::text::str_eq(self.output_format.as_str(), "json") {
            ReportFormat::Json
        } else if crate::text::str_eq(self.output_format.as_str(), "markdown") {
            ReportFormat::Markdown
        } else {
            ReportFormat::Human
        }
    }
}

} // verus!
