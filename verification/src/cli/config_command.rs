//! `uveddi config`: showing, changing and reviewing the configuration.

use vstd::prelude::*;
use std::path::PathBuf;
use crate::config::Config;
use crate::config::validation::{
    ConfigSuggestion, ErrorSeverity, ImpactLevel, Priority, SuggestionCategory, SuggestionView,
    ValidationResult, suggestion_views,
};
use crate::text::{owned, str_eq};

verus! {

/// Subcommands of `config`.
#[derive(Debug)]
pub enum ConfigSubcommand {
    /// Show the current configuration, from a file or the environment.
    Show { file: Option<PathBuf> },
    /// Set a configuration value in a file (`uveddi.toml` by default).
    SetValue { key: String, value: String, file: PathBuf },
    /// Review the configuration file; `format` is `human` (default) or `json`.
    Validate { file: Option<PathBuf>, suggestions: bool, format: String },
}

/// The `config` command.
#[derive(Debug)]
pub struct ConfigCommand {
    pub command: ConfigSubcommand,
}

/// A key that `config set` does not know.
#[derive(Debug, Clone, Copy, PartialEq, Eq, Structural)]
pub struct UnknownConfigKey;

/// A configuration with no section, used when the file cannot be loaded.
pub fn empty_config() -> (c: Config)
    ensures
        c.ollama_model is None,
        c.dead_code is None,
        c.large_classes is None,
{
    Config { ollama_model: None, dead_code: None, large_classes: None }
}

/// Sets one configuration value. Only `ollama_model` can be set; the other
/// sections stay as they were.
pub fn apply_setting(config: Config, key: &str, value: &str) -> (r: Result<Config, UnknownConfigKey>)
    ensures
        key@ == "ollama_model"@ ==> (r matches Ok(c) && c.ollama_model matches Some(m) && m@ == value@
            && c.dead_code == config.dead_code && c.large_classes == config.large_classes),
        key@ != "ollama_model"@ ==> r == Err::<Config, UnknownConfigKey>(UnknownConfigKey),
{
    if str_eq(key, "ollama_model") {
        let mut c = config;
        c.ollama_model = Some(owned(value));
        Ok(c)
    } else {
        Err(UnknownConfigKey)
    }
}

/// The icon shown for an error's severity.
pub fn severity_icon(s: ErrorSeverity) -> (r: &'static str)
    ensures
        r@ == match s {
            ErrorSeverity::Critical => "🚨"@,
            ErrorSeverity::High => "🔴"@,
            ErrorSeverity::Medium => "🟡"@,
            ErrorSeverity::Low => "🟢"@,
        },
{
    match s {
        ErrorSeverity::Critical => "🚨",
        ErrorSeverity::High => "🔴",
        ErrorSeverity::Medium => "🟡",
        ErrorSeverity::Low => "🟢",
    }
}

/// The icon shown for a warning's impact.
pub fn impact_icon(i: ImpactLevel) -> (r: &'static str)
    ensures
        r@ == match i {
            ImpactLevel::High => "🔶"@,
            ImpactLevel::Medium => "🔸"@,
            ImpactLevel::Low => "🔹"@,
        },
{
    match i {
        ImpactLevel::High => "🔶",
        ImpactLevel::Medium => "🔸",
        ImpactLevel::Low => "🔹",
    }
}

/// The icon shown for a suggestion's priority.
pub fn priority_icon(p: Priority) -> (r: &'static str)
    ensures
        r@ == match p {
            Priority::High => "🔥"@,
            Priority::Medium => "📈"@,
            Priority::Low => "💭"@,
        },
{
    match p {
        Priority::High => "🔥",
        Priority::Medium => "📈",
        Priority::Low => "💭",
    }
}

/// The icon shown for a suggestion's category.
pub fn category_icon(c: SuggestionCategory) -> (r: &'static str)
    ensures
        r@ == match c {
            SuggestionCategory::Performance => "⚡"@,
            SuggestionCategory::Accuracy => "🎯"@,
            SuggestionCategory::Security => "🔒"@,
            SuggestionCategory::Maintenance => "🔧"@,
            SuggestionCategory::Compatibility => "🔗"@,
        },
{
    match c {
        SuggestionCategory::Performance => "⚡",
        SuggestionCategory::Accuracy => "🎯",
        SuggestionCategory::Security => "🔒",
        SuggestionCategory::Maintenance => "🔧",
        SuggestionCategory::Compatibility => "🔗",
    }
}

/// The high-priority suggestions, in order.
pub open spec fn high_priority(s: Seq<SuggestionView>) -> Seq<SuggestionView>
    decreases s.len(),
{
    if s.len() == 0 {
        seq![]
    } else {
        high_priority(s.drop_last()) + if s.last().priority == Priority::High {
            seq![s.last()]
        } else {
            seq![]
        }
    }
}

/// The suggestions a review shows: all of them when asked for, the
/// high-priority ones otherwise.
pub fn relevant_suggestions(result: &ValidationResult, show_all: bool) -> (r: Vec<ConfigSuggestion>)
    ensures
        suggestion_views(r@) == if show_all {
            suggestion_views(result.suggestions@)
        } else {
            high_priority(suggestion_views(result.suggestions@))
        },
{
    let ghost all = suggestion_views(result.suggestions@);
    let mut r: Vec<ConfigSuggestion> = Vec::new();
    let mut i: usize = 0;
    while i < result.suggestions.len()
        invariant
            i <= result.suggestions.len(),
            all == suggestion_views(result.suggestions@),
            suggestion_views(r@) == if show_all {
                all.subrange(0, i as int)
            } else {
                high_priority(all.subrange(0, i as int))
            },
        decreases result.suggestions.len() - i,
    {
        let ghost before = r@;
        let s = &result.suggestions[i];
        if show_all || s.priority == Priority::High {
            r.push(s.clone_suggestion());
        }
        proof {
            let sub = all.subrange(0, i + 1);
            assert(sub.drop_last() =~= all.subrange(0, i as int));
            assert(sub.last() == all[i as int]);
            if show_all {
                assert(suggestion_views(r@) =~= all.subrange(0, i + 1));
            } else {
                assert(suggestion_views(r@) =~= suggestion_views(before) + if all[i as int].priority == Priority::High {
                    seq![all[i as int]]
                } else {
                    seq![]
                });
            }
        }
        i = i + 1;
    }
    assert(all.subrange(0, result.suggestions.len() as int) =~= all);
    r
}

/// The closing remarks of a review.
#[derive(Debug, Clone, Copy, PartialEq, Eq, Structural)]
pub struct ClosingRemarks {
    /// The performance score is under 70.
    pub optimize_performance: bool,
    /// The completeness score is under 80.
    pub add_options: bool,
    /// Both scores are at least 80.
    pub excellent: bool,
    /// The configuration is invalid: fix the errors first.
    pub fix_errors: bool,
}

/// Which closing remarks a review ends with: for a valid configuration,
/// remarks on each score; for an invalid one, only the request to fix the
/// errors.
pub open spec fn closing_remarks(valid: bool, performance: u32, completeness: u32) -> ClosingRemarks {
    ClosingRemarks {
        optimize_performance: valid && performance < 700,
        add_options: valid && completeness < 800,
        excellent: valid && performance >= 800 && completeness >= 800,
        fix_errors: !valid,
    }
}

/// The closing remarks of a review result.
pub fn remarks_for(result: &ValidationResult) -> (r: ClosingRemarks)
    ensures
        r == closing_remarks(result.is_valid, result.performance_score_tenths, result.completeness_score_tenths),
{
    let valid = result.is_valid;
    let p = result.performance_score_tenths;
    let c = result.completeness_score_tenths;
    ClosingRemarks {
        optimize_performance: valid && p < 700,
        add_options: valid && c < 800,
        excellent: valid && p >= 800 && c >= 800,
        fix_errors: !valid,
    }
}

} // verus!
