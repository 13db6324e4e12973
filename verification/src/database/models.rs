//! An architectural issue found by an analysis run.

use vstd::prelude::*;

verus! {

/// An anti-pattern occurrence found in a source file.
#[derive(Debug, Clone)]
pub struct ArchitecturalIssue {
    /// Database id, once stored.
    pub issue_id: Option<i64>,
    /// Analysis run that found the issue.
    pub analysis_run_id: i64,
    /// Kind of anti-pattern.
    pub anti_pattern_type_id: i64,
    /// File in which the issue was found.
    pub file_path: String,
    pub start_line: Option<i64>,
    pub end_line: Option<i64>,
    /// Severity name, such as "CRITICAL".
    pub severity: String,
    pub description: String,
    pub code_snippet: Option<String>,
    /// Explanation written by the AI engine, if any.
    pub ai_explanation: Option<String>,
}

fn copy_text(s: &Option<String>) -> (r: Option<String>)
    ensures
        r == *s,
{
    match s {
        Some(t) => Some(t.clone()),
        None => None,
    }
}

impl ArchitecturalIssue {
    /// An equal copy of the issue.
    pub fn copy(&self) -> (r: Self)
        ensures
            r == *self,
    {
        ArchitecturalIssue {
            issue_id: self.issue_id,
            analysis_run_id: self.analysis_run_id,
            anti_pattern_type_id: self.anti_pattern_type_id,
            file_path: self.file_path.clone(),
            start_line: self.start_line,
            end_line: self.end_line,
            severity: self.severity.clone(),
            description: self.description.clone(),
            code_snippet: copy_text(&self.code_snippet),
            ai_explanation: copy_text(&self.ai_explanation),
        }
    }
}

/// An equal copy of a list of issues.
pub fn copy_issues(issues: &Vec<ArchitecturalIssue>) -> (r: Vec<ArchitecturalIssue>)
    ensures
        r@ == issues@,
{
    let mut r: Vec<ArchitecturalIssue> = Vec::new();
    let mut i: usize = 0;
    while i < issues.len()
        invariant
            i <= issues.len(),
            r@ == issues@.subrange(0, i as int),
        decreases issues.len() - i,
    {
        r.push(issues[i].copy());
        i = i + 1;
    }
    assert(issues@.subrange(0, issues.len() as int) =~= issues@);
    r
}

} // verus!
