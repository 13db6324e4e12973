//! Configuration review: errors, warnings and improvement suggestions for
//! a configuration, optionally tailored to what is known of the project.
//!
//! The review is a pure function of the configuration, the project context
//! and two facts about the project directory (whether it holds a
//! `package.json` and a `Cargo.toml`). Scores are kept in tenths of a point,
//! from 0 to 1000.

use vstd::prelude::*;
use crate::config::{Config, DeadCodeConfig, LargeClassConfig, LanguageThresholds};
use crate::numeric::{F64Bits, f64_lt, TENTH_BITS, NINE_TENTHS_BITS, NINETEEN_TWENTIETHS_BITS, EIGHT_TENTHS_BITS};
use crate::text::{owned, push_str, push_decimal, decimal, opt_view, views, chars_of, contains_chars, contains_seq, occurs_at, has_prefix, starts_with_chars, str_eq};

verus! {

/// How serious an error is.
#[derive(Debug, Clone, Copy, PartialEq, Eq, Structural)]
pub enum ErrorSeverity {
    Critical,
    High,
    Medium,
    Low,
}

/// How much a warning matters.
#[derive(Debug, Clone, Copy, PartialEq, Eq, Structural)]
pub enum ImpactLevel {
    High,
    Medium,
    Low,
}

/// What a suggestion improves.
#[derive(Debug, Clone, Copy, PartialEq, Eq, Structural)]
pub enum SuggestionCategory {
    Performance,
    Accuracy,
    Security,
    Maintenance,
    Compatibility,
}

/// How urgent a suggestion is.
#[derive(Debug, Clone, Copy, PartialEq, Eq, Structural)]
pub enum Priority {
    High,
    Medium,
    Low,
}

/// A problem that should be fixed.
#[derive(Debug, Clone)]
pub struct ValidationError {
    pub field: String,
    pub message: String,
    pub severity: ErrorSeverity,
    pub fix_suggestion: Option<String>,
}

/// A setting that works but is likely not what was meant.
#[derive(Debug, Clone)]
pub struct ValidationWarning {
    pub field: String,
    pub message: String,
    pub impact: ImpactLevel,
    pub recommendation: String,
}

/// A proposed change to the configuration.
#[derive(Debug, Clone)]
pub struct ConfigSuggestion {
    pub category: SuggestionCategory,
    pub title: String,
    pub description: String,
    pub before: Option<String>,
    pub after: String,
    pub benefit: String,
    pub priority: Priority,
}

/// The characters of a [`ValidationError`].
pub struct ErrorView {
    pub field: Seq<char>,
    pub message: Seq<char>,
    pub severity: ErrorSeverity,
    pub fix_suggestion: Option<Seq<char>>,
}

/// The characters of a [`ValidationWarning`].
pub struct WarningView {
    pub field: Seq<char>,
    pub message: Seq<char>,
    pub impact: ImpactLevel,
    pub recommendation: Seq<char>,
}

/// The characters of a [`ConfigSuggestion`].
pub struct SuggestionView {
    pub category: SuggestionCategory,
    pub title: Seq<char>,
    pub description: Seq<char>,
    pub before: Option<Seq<char>>,
    pub after: Seq<char>,
    pub benefit: Seq<char>,
    pub priority: Priority,
}

impl View for ValidationError {
    type V = ErrorView;

    open spec fn view(&self) -> ErrorView {
        ErrorView {
            field: self.field@,
            message: self.message@,
            severity: self.severity,
            fix_suggestion: opt_view(self.fix_suggestion),
        }
    }
}

impl View for ValidationWarning {
    type V = WarningView;

    open spec fn view(&self) -> WarningView {
        WarningView {
            field: self.field@,
            message: self.message@,
            impact: self.impact,
            recommendation: self.recommendation@,
        }
    }
}

impl View for ConfigSuggestion {
    type V = SuggestionView;

    open spec fn view(&self) -> SuggestionView {
        SuggestionView {
            category: self.category,
            title: self.title@,
            description: self.description@,
            before: opt_view(self.before),
            after: self.after@,
            benefit: self.benefit@,
            priority: self.priority,
        }
    }
}

/// The views of a list of errors.
pub open spec fn error_views(v: Seq<ValidationError>) -> Seq<ErrorView> {
    v.map_values(|e: ValidationError| e@)
}

/// The views of a list of warnings.
pub open spec fn warning_views(v: Seq<ValidationWarning>) -> Seq<WarningView> {
    v.map_values(|w: ValidationWarning| w@)
}

/// The views of a list of suggestions.
pub open spec fn suggestion_views(v: Seq<ConfigSuggestion>) -> Seq<SuggestionView> {
    v.map_values(|s: ConfigSuggestion| s@)
}

/// Estimated size of a project by lines of code.
#[derive(Debug, Clone, Copy, PartialEq, Eq, Structural)]
pub enum ProjectSize {
    /// Under 1k lines.
    Small,
    /// 1k to 10k lines.
    Medium,
    /// 10k to 100k lines.
    Large,
    /// Over 100k lines.
    Huge,
}

/// Number of people working on a project.
#[derive(Debug, Clone, Copy, PartialEq, Eq, Structural)]
pub enum TeamSize {
    /// One person.
    Individual,
    /// Two to five people.
    Small,
    /// Six to twenty people.
    Medium,
    /// More than twenty people.
    Large,
}

/// What is known of the project a configuration is for.
#[derive(Debug, Clone)]
pub struct ProjectContext {
    pub languages: Vec<String>,
    pub estimated_size: ProjectSize,
    pub has_tests: bool,
    pub has_ci: bool,
    pub framework: Option<String>,
    pub build_tools: Vec<String>,
    pub team_size: TeamSize,
}

/// Which marker files the project directory holds.
#[derive(Debug, Clone, Copy, PartialEq, Eq, Structural)]
pub struct ProjectFiles {
    pub has_package_json: bool,
    pub has_cargo_toml: bool,
}

/// Line-of-code and method thresholds that suit a project.
#[derive(Debug, Clone, Copy, PartialEq, Eq, Structural)]
pub struct OptimalThresholds {
    pub max_logical_loc: u32,
    pub max_methods: u32,
}

/// The outcome of a review.
#[derive(Debug, Clone)]
pub struct ValidationResult {
    /// No error of `Critical` or `High` severity was found.
    pub is_valid: bool,
    pub errors: Vec<ValidationError>,
    pub warnings: Vec<ValidationWarning>,
    pub suggestions: Vec<ConfigSuggestion>,
    /// Performance score in tenths of a point, `0..=1000`.
    pub performance_score_tenths: u32,
    /// Completeness score in tenths of a point, `0..=1000`.
    pub completeness_score_tenths: u32,
}

/// Reviews configurations, optionally for a known project.
#[derive(Debug, Clone)]
pub struct SmartConfigValidator {
    pub context: Option<ProjectContext>,
}


/// A suggestion made of fixed texts.
pub open spec fn fixed(
    category: SuggestionCategory,
    title: Seq<char>,
    description: Seq<char>,
    before: Option<Seq<char>>,
    after: Seq<char>,
    benefit: Seq<char>,
    priority: Priority,
) -> SuggestionView {
    SuggestionView { category, title, description, before, after, benefit, priority }
}

fn error_item(field: &str, message: &str, severity: ErrorSeverity, fix: Option<String>) -> (e: ValidationError)
    ensures
        e@ == (ErrorView { field: field@, message: message@, severity, fix_suggestion: opt_view(fix) }),
{
    ValidationError { field: owned(field), message: owned(message), severity, fix_suggestion: fix }
}

fn warning_item(field: String, message: String, impact: ImpactLevel, recommendation: &str) -> (w: ValidationWarning)
    ensures
        w@ == (WarningView { field: field@, message: message@, impact, recommendation: recommendation@ }),
{
    ValidationWarning { field, message, impact, recommendation: owned(recommendation) }
}

fn suggestion_item(
    category: SuggestionCategory,
    title: &str,
    description: String,
    before: Option<String>,
    after: String,
    benefit: &str,
    priority: Priority,
) -> (s: ConfigSuggestion)
    ensures
        s@ == fixed(category, title@, description@, opt_view(before), after@, benefit@, priority),
{
    ConfigSuggestion {
        category,
        title: owned(title),
        description,
        before,
        after,
        benefit: owned(benefit),
        priority,
    }
}

fn text_suggestion(
    category: SuggestionCategory,
    title: &str,
    description: &str,
    before: Option<&str>,
    after: &str,
    benefit: &str,
    priority: Priority,
) -> (s: ConfigSuggestion)
    ensures
        s@ == fixed(category, title@, description@, match before { Some(b) => Some(b@), None => None }, after@, benefit@, priority),
{
    let before = match before {
        Some(b) => Some(owned(b)),
        None => None,
    };
    suggestion_item(category, title, owned(description), before, owned(after), benefit, priority)
}

/// The `Debug` name of a project size.
pub open spec fn size_name(s: ProjectSize) -> Seq<char> {
    match s {
        ProjectSize::Small => "Small"@,
        ProjectSize::Medium => "Medium"@,
        ProjectSize::Large => "Large"@,
        ProjectSize::Huge => "Huge"@,
    }
}

fn size_name_str(s: ProjectSize) -> (r: &'static str)
    ensures
        r@ == size_name(s),
{
    match s {
        ProjectSize::Small => "Small",
        ProjectSize::Medium => "Medium",
        ProjectSize::Large => "Large",
        ProjectSize::Huge => "Huge",
    }
}

/// The model that suits a project of the given size.
pub open spec fn optimal_model(s: ProjectSize) -> Seq<char> {
    match s {
        ProjectSize::Small => "deepseek-coder:6.7b-instruct-q4_0"@,
        ProjectSize::Medium => "deepseek-coder:6.7b-instruct-q4_0"@,
        ProjectSize::Large => "codellama:7b-instruct"@,
        ProjectSize::Huge => "llama2:7b-chat"@,
    }
}

/// Thresholds that suit a project: by size, lowered to four fifths for a
/// large team.
pub open spec fn optimal_thresholds(ctx: ProjectContext) -> OptimalThresholds {
    let base = match ctx.estimated_size {
        ProjectSize::Small => OptimalThresholds { max_logical_loc: 200, max_methods: 20 },
        ProjectSize::Medium => OptimalThresholds { max_logical_loc: 250, max_methods: 25 },
        ProjectSize::Large => OptimalThresholds { max_logical_loc: 300, max_methods: 30 },
        ProjectSize::Huge => OptimalThresholds { max_logical_loc: 400, max_methods: 35 },
    };
    match ctx.team_size {
        TeamSize::Large => OptimalThresholds {
            max_logical_loc: (base.max_logical_loc * 4 / 5) as u32,
            max_methods: (base.max_methods * 4 / 5) as u32,
        },
        _ => base,
    }
}

/// The configuration has no section at all.
pub open spec fn is_empty_config(c: Config) -> bool {
    c.ollama_model is None && c.dead_code is None && c.large_classes is None
}

/// Errors about the overall shape of a configuration.
pub open spec fn structure_errors(c: Config) -> Seq<ErrorView> {
    if is_empty_config(c) {
        seq![ErrorView {
            field: "root"@,
            message: "Configuration appears to be empty"@,
            severity: ErrorSeverity::High,
            fix_suggestion: Some("Run 'uveddi init' to generate a complete configuration"@),
        }]
    } else {
        seq![]
    }
}

/// A model name written in the deprecated families.
pub open spec fn deprecated_model(m: Seq<char>) -> bool {
    has_prefix(m, "codellama:7b"@) || has_prefix(m, "llama2:7b"@)
}

/// Errors about the AI model.
pub open spec fn ai_errors(c: Config) -> Seq<ErrorView> {
    match c.ollama_model {
        Some(m) => if !contains_seq(m@, ":"@) {
            seq![ErrorView {
                field: "ollama_model"@,
                message: "Model name should include version tag (e.g., 'model:version')"@,
                severity: ErrorSeverity::Medium,
                fix_suggestion: Some("Change '"@ + m@ + "' to '"@ + m@ + ":latest' or specify a version"@),
            }]
        } else {
            seq![]
        },
        None => seq![],
    }
}

/// Warnings about the AI model.
pub open spec fn ai_warnings(c: Config) -> Seq<WarningView> {
    match c.ollama_model {
        Some(m) => if deprecated_model(m@) {
            seq![WarningView {
                field: "ollama_model"@,
                message: "Model '"@ + m@ + "' may be deprecated or suboptimal"@,
                impact: ImpactLevel::Medium,
                recommendation: "Consider upgrading to 'deepseek-coder:6.7b-instruct-q4_0' for better code analysis"@,
            }]
        } else {
            seq![]
        },
        None => seq![],
    }
}

/// Suggestions about the AI model.
pub open spec fn ai_suggestions(ctx: Option<ProjectContext>, c: Config) -> Seq<SuggestionView> {
    match c.ollama_model {
        Some(m) => match ctx {
            Some(x) => if m@ != optimal_model(x.estimated_size) {
                seq![fixed(
                    SuggestionCategory::Performance,
                    "Optimal AI Model"@,
                    "Based on your project size ("@ + size_name(x.estimated_size) + "), consider using a different model"@,
                    Some(m@),
                    optimal_model(x.estimated_size),
                    "Better performance and accuracy for your project size"@,
                    Priority::Medium,
                )]
            } else {
                seq![]
            },
            None => seq![],
        },
        None => seq![fixed(
            SuggestionCategory::Accuracy,
            "Enable AI Analysis"@,
            "AI-powered analysis provides detailed explanations and suggestions"@,
            None,
            "ollama_model = \"deepseek-coder:6.7b-instruct-q4_0\""@,
            "Get intelligent insights and explanations for detected issues"@,
            Priority::High,
        )],
    }
}


impl SmartConfigValidator {
    /// A validator that knows nothing of the project.
    pub fn new() -> (v: Self)
        ensures
            v.context is None,
    {
        SmartConfigValidator { context: None }
    }

    /// The same validator, reviewing for the given project.
    pub fn with_context(self, context: ProjectContext) -> (v: Self)
        ensures
            v.context == Some(context),
    {
        SmartConfigValidator { context: Some(context) }
    }

    /// The AI model that suits the project.
    pub fn suggest_optimal_model(&self, context: &ProjectContext) -> (m: String)
        ensures
            m@ == optimal_model(context.estimated_size),
    {
        match context.estimated_size {
            ProjectSize::Small => owned("deepseek-coder:6.7b-instruct-q4_0"),
            ProjectSize::Medium => owned("deepseek-coder:6.7b-instruct-q4_0"),
            ProjectSize::Large => owned("codellama:7b-instruct"),
            ProjectSize::Huge => owned("llama2:7b-chat"),
        }
    }

    /// The large class thresholds that suit the project.
    pub fn suggest_optimal_thresholds(&self, context: &ProjectContext) -> (t: OptimalThresholds)
        ensures
            t == optimal_thresholds(*context),
    {
        let base = match context.estimated_size {
            ProjectSize::Small => OptimalThresholds { max_logical_loc: 200, max_methods: 20 },
            ProjectSize::Medium => OptimalThresholds { max_logical_loc: 250, max_methods: 25 },
            ProjectSize::Large => OptimalThresholds { max_logical_loc: 300, max_methods: 30 },
            ProjectSize::Huge => OptimalThresholds { max_logical_loc: 400, max_methods: 35 },
        };
        match context.team_size {
            TeamSize::Large => OptimalThresholds {
                max_logical_loc: base.max_logical_loc * 4 / 5,
                max_methods: base.max_methods * 4 / 5,
            },
            _ => base,
        }
    }

    fn validate_basic_structure(&self, config: &Config) -> (errors: Vec<ValidationError>)
        ensures
            error_views(errors@) == structure_errors(*config),
    {
        let mut errors: Vec<ValidationError> = Vec::new();
        if config.ollama_model.is_none() && config.dead_code.is_none() && config.large_classes.is_none() {
            errors.push(error_item(
                "root",
                "Configuration appears to be empty",
                ErrorSeverity::High,
                Some(owned("Run 'uveddi init' to generate a complete configuration")),
            ));
        }
        assert(error_views(errors@) =~= structure_errors(*config));
        errors
    }

    fn validate_ai_config(&self, config: &Config) -> (r: (Vec<ValidationError>, Vec<ValidationWarning>, Vec<ConfigSuggestion>))
        ensures
            error_views(r.0@) == ai_errors(*config),
            warning_views(r.1@) == ai_warnings(*config),
            suggestion_views(r.2@) == ai_suggestions(self.context, *config),
    {
        let mut errors: Vec<ValidationError> = Vec::new();
        let mut warnings: Vec<ValidationWarning> = Vec::new();
        let mut suggestions: Vec<ConfigSuggestion> = Vec::new();
        match &config.ollama_model {
            Some(model) => {
                let cs = chars_of(model.as_str());
                if !contains_chars(&cs, &chars_of(":")) {
                    let mut fix = owned("Change '");
                    push_str(&mut fix, model.as_str());
                    push_str(&mut fix, "' to '");
                    push_str(&mut fix, model.as_str());
                    push_str(&mut fix, ":latest' or specify a version");
                    errors.push(error_item(
                        "ollama_model",
                        "Model name should include version tag (e.g., 'model:version')",
                        ErrorSeverity::Medium,
                        Some(fix),
                    ));
                }
                if let Some(context) = &self.context {
                    let optimal = self.suggest_optimal_model(context);
                    if !str_eq(model.as_str(), optimal.as_str()) {
                        let mut description = owned("Based on your project size (");
                        push_str(&mut description, size_name_str(context.estimated_size));
                        push_str(&mut description, "), consider using a different model");
                        suggestions.push(suggestion_item(
                            SuggestionCategory::Performance,
                            "Optimal AI Model",
                            description,
                            Some(model.clone()),
                            optimal,
                            "Better performance and accuracy for your project size",
                            Priority::Medium,
                        ));
                    }
                }
                if starts_with_chars(&cs, &chars_of("codellama:7b")) || starts_with_chars(&cs, &chars_of("llama2:7b")) {
                    let mut message = owned("Model '");
                    push_str(&mut message, model.as_str());
                    push_str(&mut message, "' may be deprecated or suboptimal");
                    warnings.push(warning_item(
                        owned("ollama_model"),
                        message,
                        ImpactLevel::Medium,
                        "Consider upgrading to 'deepseek-coder:6.7b-instruct-q4_0' for better code analysis",
                    ));
                }
            },
            None => {
                suggestions.push(text_suggestion(
                    SuggestionCategory::Accuracy,
                    "Enable AI Analysis",
                    "AI-powered analysis provides detailed explanations and suggestions",
                    None,
                    "ollama_model = \"deepseek-coder:6.7b-instruct-q4_0\"",
                    "Get intelligent insights and explanations for detected issues",
                    Priority::High,
                ));
            },
        }
        assert(error_views(errors@) =~= ai_errors(*config));
        assert(warning_views(warnings@) =~= ai_warnings(*config));
        assert(suggestion_views(suggestions@) =~= ai_suggestions(self.context, *config));
        (errors, warnings, suggestions)
    }
}


/// Warnings about the dead code confidence threshold: below `0.1` it lets
/// false positives through, above `0.95` it misses dead code.
pub open spec fn confidence_warnings(t: Option<F64Bits>) -> Seq<WarningView> {
    match t {
        Some(x) => if f64_lt(x.bits, TENTH_BITS) {
            seq![WarningView {
                field: "dead_code.confidence_threshold"@,
                message: "Very low confidence threshold may produce false positives"@,
                impact: ImpactLevel::High,
                recommendation: "Consider using a threshold of at least 0.5 for reliable results"@,
            }]
        } else if f64_lt(NINETEEN_TWENTIETHS_BITS, x.bits) {
            seq![WarningView {
                field: "dead_code.confidence_threshold"@,
                message: "Very high confidence threshold may miss actual dead code"@,
                impact: ImpactLevel::Medium,
                recommendation: "Consider using a threshold between 0.7-0.9 for balanced results"@,
            }]
        } else {
            seq![]
        },
        None => seq![],
    }
}

/// A pattern uses `**/` somewhere other than at its start.
pub open spec fn odd_recursive_pattern(p: Seq<char>) -> bool {
    contains_seq(p, "**/"@) && !has_prefix(p, "**/"@)
}

/// The warning for an oddly placed `**/`.
pub open spec fn pattern_warning(p: Seq<char>) -> WarningView {
    WarningView {
        field: "dead_code.ignore_patterns"@,
        message: "Pattern '"@ + p + "' may not work as expected"@,
        impact: ImpactLevel::Low,
        recommendation: "Use patterns like '**/*.test.js' or 'tests/**' for recursive matching"@,
    }
}

/// One warning per oddly placed `**/`, in pattern order.
pub open spec fn pattern_warnings(ps: Seq<String>) -> Seq<WarningView>
    decreases ps.len(),
{
    if ps.len() == 0 {
        seq![]
    } else {
        pattern_warnings(ps.drop_last()) + if odd_recursive_pattern(ps.last()@) {
            seq![pattern_warning(ps.last()@)]
        } else {
            seq![]
        }
    }
}

/// Some pattern contains `stem`.
pub open spec fn mentions(ps: Seq<String>, stem: Seq<char>) -> bool {
    exists|i: int| 0 <= i < ps.len() && contains_seq(#[trigger] ps[i]@, stem)
}

/// The common build and dependency patterns whose directory no pattern
/// mentions, in the order `node_modules`, `dist`, `build`, `target`.
pub open spec fn missing_common_patterns(ps: Seq<String>) -> Seq<Seq<char>> {
    (if mentions(ps, "node_modules"@) { seq![] } else { seq!["node_modules/**"@] })
    + (if mentions(ps, "dist"@) { seq![] } else { seq!["dist/**"@] })
    + (if mentions(ps, "build"@) { seq![] } else { seq!["build/**"@] })
    + (if mentions(ps, "target"@) { seq![] } else { seq!["target/**"@] })
}

/// The lines of a pretty-printed list of strings, one quoted item per line.
pub open spec fn list_lines(items: Seq<Seq<char>>) -> Seq<char>
    decreases items.len(),
{
    if items.len() == 0 {
        seq![]
    } else {
        list_lines(items.drop_last()) + "    \""@ + items.last() + "\",\n"@
    }
}

/// A list of strings as `{:#?}` prints it.
pub open spec fn pretty_list(items: Seq<Seq<char>>) -> Seq<char> {
    if items.len() == 0 { "[]"@ } else { "[\n"@ + list_lines(items) + "]"@ }
}

/// The project is written in Rust or TypeScript and its framework mentions
/// a library.
pub open spec fn library_candidate(ctx: ProjectContext) -> bool {
    &&& exists|i: int| 0 <= i < ctx.languages@.len()
        && (#[trigger] ctx.languages@[i]@ == "rust"@ || ctx.languages@[i]@ == "typescript"@)
    &&& ctx.framework matches Some(f) && contains_seq(f@, "lib"@)
}

/// Warnings about the dead code section.
pub open spec fn dead_code_warnings(c: Config) -> Seq<WarningView> {
    match c.dead_code {
        Some(dc) => confidence_warnings(dc.confidence_threshold) + match dc.ignore_patterns {
            Some(ps) => pattern_warnings(ps@),
            None => seq![],
        },
        None => seq![],
    }
}

/// Suggestions about the dead code section.
pub open spec fn dead_code_suggestions(ctx: Option<ProjectContext>, c: Config) -> Seq<SuggestionView> {
    match c.dead_code {
        Some(dc) => (match dc.ignore_patterns {
            Some(ps) => if missing_common_patterns(ps@).len() > 0 {
                seq![fixed(
                    SuggestionCategory::Performance,
                    "Add Common Ignore Patterns"@,
                    "Exclude build directories and dependencies from analysis"@,
                    None,
                    "ignore_patterns = "@ + pretty_list(missing_common_patterns(ps@)),
                    "Faster analysis and fewer false positives"@,
                    Priority::High,
                )]
            } else {
                seq![]
            },
            None => seq![],
        }) + (match ctx {
            Some(x) => if library_candidate(x) && dc.library_mode != Some(true) {
                seq![fixed(
                    SuggestionCategory::Accuracy,
                    "Enable Library Mode"@,
                    "Your project appears to be a library - enable library mode for better analysis"@,
                    Some("library_mode = false"@),
                    "library_mode = true"@,
                    "More accurate dead code detection for library projects"@,
                    Priority::Medium,
                )]
            } else {
                seq![]
            },
            None => seq![],
        }),
        None => seq![fixed(
            SuggestionCategory::Accuracy,
            "Configure Dead Code Detection"@,
            "Dead code detection helps identify unused functions and variables"@,
            None,
            "[dead_code]\nconfidence_threshold = 0.8\nlibrary_mode = false"@,
            "Identify and remove unused code to improve maintainability"@,
            Priority::High,
        )],
    }
}

/// Tests whether some pattern contains `stem`.
pub fn any_mentions(ps: &Vec<String>, stem: &str) -> (r: bool)
    ensures
        r == mentions(ps@, stem@),
{
    let needle = chars_of(stem);
    let mut i: usize = 0;
    while i < ps.len()
        invariant
            i <= ps.len(),
            needle@ == stem@,
            forall|j: int| 0 <= j < i ==> !contains_seq(#[trigger] ps@[j]@, stem@),
        decreases ps.len() - i,
    {
        if contains_chars(&chars_of(ps[i].as_str()), &needle) {
            return true;
        }
        i = i + 1;
    }
    false
}

fn push_if_missing(missing: &mut Vec<&'static str>, ps: &Vec<String>, stem: &str, pattern: &'static str)
    ensures
        final(missing)@.map_values(|p: &str| p@) == old(missing)@.map_values(|p: &str| p@)
            + if mentions(ps@, stem@) { seq![] } else { seq![pattern@] },
{
    let ghost before = missing@;
    if !any_mentions(ps, stem) {
        missing.push(pattern);
    }
    assert(missing@.map_values(|p: &str| p@) =~= before.map_values(|p: &str| p@)
        + if mentions(ps@, stem@) { seq![] } else { seq![pattern@] });
}

/// Renders a list of strings as `{:#?}` prints it.
fn pretty_list_string(items: &Vec<&'static str>) -> (s: String)
    ensures
        s@ == pretty_list(items@.map_values(|p: &str| p@)),
{
    let ghost v = items@.map_values(|p: &str| p@);
    if items.len() == 0 {
        return owned("[]");
    }
    let mut s = owned("[\n");
    let mut i: usize = 0;
    while i < items.len()
        invariant
            i <= items.len(),
            v == items@.map_values(|p: &str| p@),
            s@ == "[\n"@ + list_lines(v.subrange(0, i as int)),
        decreases items.len() - i,
    {
        push_str(&mut s, "    \"");
        push_str(&mut s, items[i]);
        push_str(&mut s, "\",\n");
        proof {
            let w = v.subrange(0, i + 1);
            assert(w.drop_last() =~= v.subrange(0, i as int));
            assert(w.last() == items@[i as int]@);
        }
        i = i + 1;
    }
    push_str(&mut s, "]");
    assert(v.subrange(0, items.len() as int) =~= v);
    s
}

fn pattern_warnings_of(ps: &Vec<String>) -> (w: Vec<ValidationWarning>)
    ensures
        warning_views(w@) == pattern_warnings(ps@),
{
    let mut w: Vec<ValidationWarning> = Vec::new();
    let mut i: usize = 0;
    let marker = chars_of("**/");
    while i < ps.len()
        invariant
            i <= ps.len(),
            marker@ == "**/"@,
            warning_views(w@) == pattern_warnings(ps@.subrange(0, i as int)),
        decreases ps.len() - i,
    {
        let ghost before = w@;
        let cs = chars_of(ps[i].as_str());
        if contains_chars(&cs, &marker) && !starts_with_chars(&cs, &marker) {
            let mut message = owned("Pattern '");
            push_str(&mut message, ps[i].as_str());
            push_str(&mut message, "' may not work as expected");
            w.push(warning_item(
                owned("dead_code.ignore_patterns"),
                message,
                ImpactLevel::Low,
                "Use patterns like '**/*.test.js' or 'tests/**' for recursive matching",
            ));
        }
        proof {
            let sub = ps@.subrange(0, i + 1);
            assert(sub.drop_last() =~= ps@.subrange(0, i as int));
            assert(warning_views(w@) =~= warning_views(before) + if odd_recursive_pattern(ps@[i as int]@) {
                seq![pattern_warning(ps@[i as int]@)]
            } else {
                seq![]
            });
        }
        i = i + 1;
    }
    assert(ps@.subrange(0, ps.len() as int) =~= ps@);
    w
}

fn library_language(languages: &Vec<String>) -> (r: bool)
    ensures
        r == exists|i: int| 0 <= i < languages@.len()
            && (#[trigger] languages@[i]@ == "rust"@ || languages@[i]@ == "typescript"@),
{
    let mut i: usize = 0;
    while i < languages.len()
        invariant
            i <= languages.len(),
            forall|j: int| 0 <= j < i ==> !(#[trigger] languages@[j]@ == "rust"@ || languages@[j]@ == "typescript"@),
        decreases languages.len() - i,
    {
        if str_eq(languages[i].as_str(), "rust") || str_eq(languages[i].as_str(), "typescript") {
            return true;
        }
        i = i + 1;
    }
    false
}

impl SmartConfigValidator {
    fn validate_dead_code_config(&self, config: &Config) -> (r: (Vec<ValidationWarning>, Vec<ConfigSuggestion>))
        ensures
            warning_views(r.0@) == dead_code_warnings(*config),
            suggestion_views(r.1@) == dead_code_suggestions(self.context, *config),
    {
        let mut warnings: Vec<ValidationWarning> = Vec::new();
        let mut suggestions: Vec<ConfigSuggestion> = Vec::new();
        match &config.dead_code {
            Some(dc) => {
                if let Some(confidence) = dc.confidence_threshold {
                    if confidence.lt(&F64Bits::from_bits(TENTH_BITS)) {
                        warnings.push(warning_item(
                            owned("dead_code.confidence_threshold"),
                            owned("Very low confidence threshold may produce false positives"),
                            ImpactLevel::High,
                            "Consider using a threshold of at least 0.5 for reliable results",
                        ));
                    } else if F64Bits::from_bits(NINETEEN_TWENTIETHS_BITS).lt(&confidence) {
                        warnings.push(warning_item(
                            owned("dead_code.confidence_threshold"),
                            owned("Very high confidence threshold may miss actual dead code"),
                            ImpactLevel::Medium,
                            "Consider using a threshold between 0.7-0.9 for balanced results",
                        ));
                    }
                }
                assert(warning_views(warnings@) =~= confidence_warnings(dc.confidence_threshold));
                let ghost w0 = warnings@;
                if let Some(patterns) = &dc.ignore_patterns {
                    let mut more = pattern_warnings_of(patterns);
                    warnings.append(&mut more);
                    assert(warning_views(warnings@) =~= warning_views(w0) + pattern_warnings(patterns@));

                    let mut missing: Vec<&'static str> = Vec::new();
                    push_if_missing(&mut missing, patterns, "node_modules", "node_modules/**");
                    push_if_missing(&mut missing, patterns, "dist", "dist/**");
                    push_if_missing(&mut missing, patterns, "build", "build/**");
                    push_if_missing(&mut missing, patterns, "target", "target/**");
                    assert(missing@.map_values(|p: &str| p@) =~= missing_common_patterns(patterns@));
                    if missing.len() > 0 {
                        let mut after = owned("ignore_patterns = ");
                        let listed = pretty_list_string(&missing);
                        push_str(&mut after, listed.as_str());
                        suggestions.push(suggestion_item(
                            SuggestionCategory::Performance,
                            "Add Common Ignore Patterns",
                            owned("Exclude build directories and dependencies from analysis"),
                            None,
                            after,
                            "Faster analysis and fewer false positives",
                            Priority::High,
                        ));
                    }
                } else {
                    assert(warning_views(warnings@) =~= warning_views(w0) + seq![]);
                }
                let ghost s0 = suggestions@;
                if let Some(context) = &self.context {
                    let should_be_library = library_language(&context.languages) && match &context.framework {
                        Some(f) => contains_chars(&chars_of(f.as_str()), &chars_of("lib")),
                        None => false,
                    };
                    let library_mode = match dc.library_mode {
                        Some(b) => b,
                        None => false,
                    };
                    if should_be_library && !library_mode {
                        suggestions.push(text_suggestion(
                            SuggestionCategory::Accuracy,
                            "Enable Library Mode",
                            "Your project appears to be a library - enable library mode for better analysis",
                            Some("library_mode = false"),
                            "library_mode = true",
                            "More accurate dead code detection for library projects",
                            Priority::Medium,
                        ));
                    }
                }
                assert(suggestion_views(suggestions@) =~= dead_code_suggestions(self.context, *config));
            },
            None => {
                suggestions.push(text_suggestion(
                    SuggestionCategory::Accuracy,
                    "Configure Dead Code Detection",
                    "Dead code detection helps identify unused functions and variables",
                    None,
                    "[dead_code]\nconfidence_threshold = 0.8\nlibrary_mode = false",
                    "Identify and remove unused code to improve maintainability",
                    Priority::High,
                ));
                assert(suggestion_views(suggestions@) =~= dead_code_suggestions(self.context, *config));
            },
        }
        assert(warning_views(warnings@) =~= dead_code_warnings(*config));
        (warnings, suggestions)
    }
}


/// Warnings about the main line-of-code threshold: under 50 it flags
/// ordinary classes, over 1000 it misses large ones.
pub open spec fn loc_warnings(v: Option<u32>) -> Seq<WarningView> {
    match v {
        Some(x) => if x < 50 {
            seq![WarningView {
                field: "large_classes.max_logical_loc"@,
                message: "Very low LOC threshold may flag normal classes"@,
                impact: ImpactLevel::Medium,
                recommendation: "Consider using at least 100 LOC as threshold"@,
            }]
        } else if x > 1000 {
            seq![WarningView {
                field: "large_classes.max_logical_loc"@,
                message: "Very high LOC threshold may miss problematic classes"@,
                impact: ImpactLevel::Medium,
                recommendation: "Consider using 200-400 LOC as threshold for better detection"@,
            }]
        } else {
            seq![]
        },
        None => seq![],
    }
}

/// The warning for an override that repeats the default.
pub open spec fn redundant_override(language: Seq<char>) -> WarningView {
    WarningView {
        field: "large_classes.language_overrides."@ + language,
        message: "Language override for "@ + language + " has same value as default"@,
        impact: ImpactLevel::Low,
        recommendation: "Remove redundant language overrides"@,
    }
}

/// One warning per override whose line-of-code threshold equals the
/// default one (0 when there is none), in list order.
pub open spec fn override_warnings(o: Seq<(String, LanguageThresholds)>, default_loc: u32) -> Seq<WarningView>
    decreases o.len(),
{
    if o.len() == 0 {
        seq![]
    } else {
        override_warnings(o.drop_last(), default_loc) + if o.last().1.max_logical_loc == Some(default_loc) {
            seq![redundant_override(o.last().0@)]
        } else {
            seq![]
        }
    }
}

/// An optional threshold, or 0.
pub open spec fn or_zero(v: Option<u32>) -> u32 {
    match v {
        Some(x) => x,
        None => 0,
    }
}

/// Warnings about the large class section.
pub open spec fn large_class_warnings(c: Config) -> Seq<WarningView> {
    match c.large_classes {
        Some(lc) => loc_warnings(lc.max_logical_loc) + match lc.language_overrides {
            Some(o) => override_warnings(o@, or_zero(lc.max_logical_loc)),
            None => seq![],
        },
        None => seq![],
    }
}

/// Two thresholds are more than 50 lines apart.
pub open spec fn far_apart(a: u32, b: u32) -> bool {
    a > b + 50 || b > a + 50
}

/// Suggestions about the large class section.
pub open spec fn large_class_suggestions(ctx: Option<ProjectContext>, c: Config) -> Seq<SuggestionView> {
    match c.large_classes {
        Some(lc) => match (ctx, lc.max_logical_loc) {
            (Some(x), Some(current)) => if far_apart(current, optimal_thresholds(x).max_logical_loc) {
                seq![fixed(
                    SuggestionCategory::Accuracy,
                    "Optimize LOC Threshold"@,
                    "Based on your project type ("@ + size_name(x.estimated_size) + "), adjust LOC threshold"@,
                    Some("max_logical_loc = "@ + decimal(current as nat)),
                    "max_logical_loc = "@ + decimal(optimal_thresholds(x).max_logical_loc as nat),
                    "Better balance between detection accuracy and false positives"@,
                    Priority::Medium,
                )]
            } else {
                seq![]
            },
            _ => seq![],
        },
        None => seq![fixed(
            SuggestionCategory::Accuracy,
            "Configure Large Classes Detection"@,
            "Large class detection helps identify god objects and maintainability issues"@,
            None,
            "[large_classes]\nmax_logical_loc = 250\nmax_methods = 25"@,
            "Identify classes that violate single responsibility principle"@,
            Priority::High,
        )],
    }
}

fn override_warnings_of(o: &Vec<(String, LanguageThresholds)>, default_loc: u32) -> (w: Vec<ValidationWarning>)
    ensures
        warning_views(w@) == override_warnings(o@, default_loc),
{
    let mut w: Vec<ValidationWarning> = Vec::new();
    let mut i: usize = 0;
    while i < o.len()
        invariant
            i <= o.len(),
            warning_views(w@) == override_warnings(o@.subrange(0, i as int), default_loc),
        decreases o.len() - i,
    {
        let ghost before = w@;
        let (language, t) = &o[i];
        let same = match t.max_logical_loc {
            Some(m) => m == default_loc,
            None => false,
        };
        if same {
            let mut field = owned("large_classes.language_overrides.");
            push_str(&mut field, language.as_str());
            let mut message = owned("Language override for ");
            push_str(&mut message, language.as_str());
            push_str(&mut message, " has same value as default");
            w.push(warning_item(field, message, ImpactLevel::Low, "Remove redundant language overrides"));
        }
        proof {
            let sub = o@.subrange(0, i + 1);
            assert(sub.drop_last() =~= o@.subrange(0, i as int));
            assert(warning_views(w@) =~= warning_views(before) + if o@[i as int].1.max_logical_loc == Some(default_loc) {
                seq![redundant_override(o@[i as int].0@)]
            } else {
                seq![]
            });
        }
        i = i + 1;
    }
    assert(o@.subrange(0, o.len() as int) =~= o@);
    w
}

impl SmartConfigValidator {
    fn validate_large_classes_config(&self, config: &Config) -> (r: (Vec<ValidationWarning>, Vec<ConfigSuggestion>))
        ensures
            warning_views(r.0@) == large_class_warnings(*config),
            suggestion_views(r.1@) == large_class_suggestions(self.context, *config),
    {
        let mut warnings: Vec<ValidationWarning> = Vec::new();
        let mut suggestions: Vec<ConfigSuggestion> = Vec::new();
        match &config.large_classes {
            Some(lc) => {
                if let Some(max_loc) = lc.max_logical_loc {
                    if max_loc < 50 {
                        warnings.push(warning_item(
                            owned("large_classes.max_logical_loc"),
                            owned("Very low LOC threshold may flag normal classes"),
                            ImpactLevel::Medium,
                            "Consider using at least 100 LOC as threshold",
                        ));
                    } else if max_loc > 1000 {
                        warnings.push(warning_item(
                            owned("large_classes.max_logical_loc"),
                            owned("Very high LOC threshold may miss problematic classes"),
                            ImpactLevel::Medium,
                            "Consider using 200-400 LOC as threshold for better detection",
                        ));
                    }
                }
                let ghost w0 = warnings@;
                assert(warning_views(w0) =~= loc_warnings(lc.max_logical_loc));
                if let Some(overrides) = &lc.language_overrides {
                    let default_loc = match lc.max_logical_loc {
                        Some(x) => x,
                        None => 0,
                    };
                    let mut more = override_warnings_of(overrides, default_loc);
                    warnings.append(&mut more);
                    assert(warning_views(warnings@) =~= warning_views(w0) + override_warnings(overrides@, default_loc));
                } else {
                    assert(warning_views(warnings@) =~= warning_views(w0) + seq![]);
                }
                if let Some(context) = &self.context {
                    let optimal = self.suggest_optimal_thresholds(context);
                    if let Some(current) = lc.max_logical_loc {
                        let apart = if current > optimal.max_logical_loc {
                            current - optimal.max_logical_loc > 50
                        } else {
                            optimal.max_logical_loc - current > 50
                        };
                        if apart {
                            let mut description = owned("Based on your project type (");
                            push_str(&mut description, size_name_str(context.estimated_size));
                            push_str(&mut description, "), adjust LOC threshold");
                            let mut before = owned("max_logical_loc = ");
                            push_decimal(&mut before, current as u64);
                            let mut after = owned("max_logical_loc = ");
                            push_decimal(&mut after, optimal.max_logical_loc as u64);
                            suggestions.push(suggestion_item(
                                SuggestionCategory::Accuracy,
                                "Optimize LOC Threshold",
                                description,
                                Some(before),
                                after,
                                "Better balance between detection accuracy and false positives",
                                Priority::Medium,
                            ));
                        }
                    }
                }
            },
            None => {
                suggestions.push(text_suggestion(
                    SuggestionCategory::Accuracy,
                    "Configure Large Classes Detection",
                    "Large class detection helps identify god objects and maintainability issues",
                    None,
                    "[large_classes]\nmax_logical_loc = 250\nmax_methods = 25",
                    "Identify classes that violate single responsibility principle",
                    Priority::High,
                ));
            },
        }
        assert(warning_views(warnings@) =~= large_class_warnings(*config));
        assert(suggestion_views(suggestions@) =~= large_class_suggestions(self.context, *config));
        (warnings, suggestions)
    }
}


/// Ignore patterns for Rust build output.
pub open spec fn rust_patterns_suggestion() -> SuggestionView {
    fixed(
        SuggestionCategory::Accuracy,
        "Rust-Specific Patterns"@,
        "Add Rust-specific ignore patterns for better analysis"@,
        None,
        "ignore_patterns = [\n    \"target/**\",\n    \"**/target/**\", \n    \"Cargo.lock\"\n]"@,
        "Exclude Rust build artifacts and dependencies"@,
        Priority::High,
    )
}

/// Ignore patterns for Python bytecode and environments.
pub open spec fn python_patterns_suggestion() -> SuggestionView {
    fixed(
        SuggestionCategory::Accuracy,
        "Python-Specific Patterns"@,
        "Add Python-specific ignore patterns for better analysis"@,
        None,
        "ignore_patterns = [\n    \"__pycache__/**\",\n    \"*.pyc\",\n    \".venv/**\",\n    \"venv/**\"\n]"@,
        "Exclude Python bytecode and virtual environments"@,
        Priority::High,
    )
}

/// Ignore patterns for JavaScript and TypeScript dependencies and builds.
pub open spec fn js_ts_patterns_suggestion() -> SuggestionView {
    fixed(
        SuggestionCategory::Performance,
        "JavaScript/TypeScript Optimizations"@,
        "Optimize for JavaScript/TypeScript projects"@,
        None,
        "ignore_patterns = [\n    \"node_modules/**\",\n    \"dist/**\", \n    \"build/**\",\n    \"*.min.js\"\n]"@,
        "Exclude dependencies and build artifacts"@,
        Priority::High,
    )
}

/// One suggestion per language that has its own patterns, in language order.
pub open spec fn language_suggestions(langs: Seq<String>) -> Seq<SuggestionView>
    decreases langs.len(),
{
    if langs.len() == 0 {
        seq![]
    } else {
        let l = langs.last()@;
        language_suggestions(langs.drop_last()) + if l == "rust"@ {
            seq![rust_patterns_suggestion()]
        } else if l == "python"@ {
            seq![python_patterns_suggestion()]
        } else if l == "javascript"@ || l == "typescript"@ {
            seq![js_ts_patterns_suggestion()]
        } else {
            seq![]
        }
    }
}

/// The dead code confidence threshold in force is below `0.9` (the
/// default `0.8` when none is set), or there is no dead code section.
pub open spec fn solo_confidence_low(c: Config) -> bool {
    match c.dead_code {
        Some(dc) => match dc.confidence_threshold {
            Some(t) => f64_lt(t.bits, NINE_TENTHS_BITS),
            None => f64_lt(EIGHT_TENTHS_BITS, NINE_TENTHS_BITS),
        },
        None => true,
    }
}

/// Suggestions for the team size.
pub open spec fn team_suggestions(ctx: ProjectContext, c: Config) -> Seq<SuggestionView> {
    match ctx.team_size {
        TeamSize::Large => seq![fixed(
            SuggestionCategory::Maintenance,
            "Strict Thresholds for Large Teams"@,
            "Large teams benefit from stricter code quality thresholds"@,
            None,
            "# Lower thresholds for better maintainability\nmax_logical_loc = 150\nmax_methods = 15"@,
            "Prevent code complexity issues in large team environments"@,
            Priority::Medium,
        )],
        TeamSize::Individual => if solo_confidence_low(c) {
            seq![fixed(
                SuggestionCategory::Performance,
                "Higher Confidence for Solo Development"@,
                "Solo developers can use higher confidence thresholds"@,
                Some("confidence_threshold = 0.8"@),
                "confidence_threshold = 0.9"@,
                "Fewer false positives when you know your codebase well"@,
                Priority::Low,
            )]
        } else {
            seq![]
        },
        _ => seq![],
    }
}

/// Suggestions for a project built in CI.
pub open spec fn ci_suggestions(ctx: ProjectContext) -> Seq<SuggestionView> {
    if ctx.has_ci {
        seq![fixed(
            SuggestionCategory::Maintenance,
            "CI/CD Optimizations"@,
            "Optimize configuration for continuous integration environments"@,
            None,
            "# CI-friendly settings\ntimeout_seconds = 300\nparallel_analysis = true"@,
            "Faster analysis in CI/CD pipelines"@,
            Priority::Medium,
        )]
    } else {
        seq![]
    }
}

/// Suggestions drawn from the project context.
pub open spec fn context_suggestions(ctx: Option<ProjectContext>, c: Config) -> Seq<SuggestionView> {
    match ctx {
        Some(x) => language_suggestions(x.languages@) + team_suggestions(x, c) + ci_suggestions(x),
        None => seq![],
    }
}

/// The dead code section lists ignore patterns, none of which contains `stem`.
pub open spec fn ignores_lack(c: Config, stem: Seq<char>) -> bool {
    c.dead_code matches Some(dc) && dc.ignore_patterns matches Some(ps) && !mentions(ps@, stem)
}

/// Suggestions drawn from the marker files of the project directory.
pub open spec fn project_suggestions(c: Config, files: Option<ProjectFiles>) -> Seq<SuggestionView> {
    match files {
        Some(f) => (if f.has_package_json && ignores_lack(c, "node_modules"@) {
            seq![fixed(
                SuggestionCategory::Performance,
                "Add Node.js Ignore Patterns"@,
                "Detected package.json - add Node.js specific ignore patterns"@,
                None,
                "ignore_patterns = [\"node_modules/**\", \"dist/**\", \"build/**\"]"@,
                "Significantly faster analysis by excluding dependencies"@,
                Priority::High,
            )]
        } else {
            seq![]
        }) + (if f.has_cargo_toml && ignores_lack(c, "target"@) {
            seq![fixed(
                SuggestionCategory::Performance,
                "Add Rust Ignore Patterns"@,
                "Detected Cargo.toml - add Rust specific ignore patterns"@,
                None,
                "ignore_patterns = [\"target/**\", \"**/target/**\"]"@,
                "Exclude Rust build artifacts for faster analysis"@,
                Priority::High,
            )]
        } else {
            seq![]
        }),
        None => seq![],
    }
}

fn language_suggestions_of(langs: &Vec<String>) -> (r: Vec<ConfigSuggestion>)
    ensures
        suggestion_views(r@) == language_suggestions(langs@),
{
    let mut r: Vec<ConfigSuggestion> = Vec::new();
    let mut i: usize = 0;
    while i < langs.len()
        invariant
            i <= langs.len(),
            suggestion_views(r@) == language_suggestions(langs@.subrange(0, i as int)),
        decreases langs.len() - i,
    {
        let ghost before = r@;
        let l = langs[i].as_str();
        if str_eq(l, "rust") {
            r.push(text_suggestion(
                SuggestionCategory::Accuracy,
                "Rust-Specific Patterns",
                "Add Rust-specific ignore patterns for better analysis",
                None,
                "ignore_patterns = [\n    \"target/**\",\n    \"**/target/**\", \n    \"Cargo.lock\"\n]",
                "Exclude Rust build artifacts and dependencies",
                Priority::High,
            ));
        } else if str_eq(l, "python") {
            r.push(text_suggestion(
                SuggestionCategory::Accuracy,
                "Python-Specific Patterns",
                "Add Python-specific ignore patterns for better analysis",
                None,
                "ignore_patterns = [\n    \"__pycache__/**\",\n    \"*.pyc\",\n    \".venv/**\",\n    \"venv/**\"\n]",
                "Exclude Python bytecode and virtual environments",
                Priority::High,
            ));
        } else if str_eq(l, "javascript") || str_eq(l, "typescript") {
            r.push(text_suggestion(
                SuggestionCategory::Performance,
                "JavaScript/TypeScript Optimizations",
                "Optimize for JavaScript/TypeScript projects",
                None,
                "ignore_patterns = [\n    \"node_modules/**\",\n    \"dist/**\", \n    \"build/**\",\n    \"*.min.js\"\n]",
                "Exclude dependencies and build artifacts",
                Priority::High,
            ));
        }
        proof {
            let sub = langs@.subrange(0, i + 1);
            assert(sub.drop_last() =~= langs@.subrange(0, i as int));
            assert(sub.last() == langs@[i as int]);
            let lv = langs@[i as int]@;
            assert(suggestion_views(r@) =~= suggestion_views(before) + if lv == "rust"@ {
                seq![rust_patterns_suggestion()]
            } else if lv == "python"@ {
                seq![python_patterns_suggestion()]
            } else if lv == "javascript"@ || lv == "typescript"@ {
                seq![js_ts_patterns_suggestion()]
            } else {
                seq![]
            });
        }
        i = i + 1;
    }
    assert(langs@.subrange(0, langs.len() as int) =~= langs@);
    r
}

fn lacks_in_ignores(config: &Config, stem: &str) -> (r: bool)
    ensures
        r == ignores_lack(*config, stem@),
{
    match &config.dead_code {
        Some(dc) => match &dc.ignore_patterns {
            Some(ps) => !any_mentions(ps, stem),
            None => false,
        },
        None => false,
    }
}

impl SmartConfigValidator {
    fn generate_context_aware_suggestions(&self, config: &Config, context: &ProjectContext) -> (r: Vec<ConfigSuggestion>)
        ensures
            suggestion_views(r@) == language_suggestions(context.languages@)
                + team_suggestions(*context, *config) + ci_suggestions(*context),
    {
        let mut r = language_suggestions_of(&context.languages);
        let ghost r0 = r@;
        match context.team_size {
            TeamSize::Large => {
                r.push(text_suggestion(
                    SuggestionCategory::Maintenance,
                    "Strict Thresholds for Large Teams",
                    "Large teams benefit from stricter code quality thresholds",
                    None,
                    "# Lower thresholds for better maintainability\nmax_logical_loc = 150\nmax_methods = 15",
                    "Prevent code complexity issues in large team environments",
                    Priority::Medium,
                ));
            },
            TeamSize::Individual => {
                let low = match &config.dead_code {
                    Some(dc) => match dc.confidence_threshold {
                        Some(t) => t.lt(&F64Bits::from_bits(NINE_TENTHS_BITS)),
                        None => F64Bits::from_bits(EIGHT_TENTHS_BITS).lt(&F64Bits::from_bits(NINE_TENTHS_BITS)),
                    },
                    None => true,
                };
                if low {
                    r.push(text_suggestion(
                        SuggestionCategory::Performance,
                        "Higher Confidence for Solo Development",
                        "Solo developers can use higher confidence thresholds",
                        Some("confidence_threshold = 0.8"),
                        "confidence_threshold = 0.9",
                        "Fewer false positives when you know your codebase well",
                        Priority::Low,
                    ));
                }
            },
            _ => {},
        }
        assert(suggestion_views(r@) =~= suggestion_views(r0) + team_suggestions(*context, *config));
        let ghost r1 = r@;
        if context.has_ci {
            r.push(text_suggestion(
                SuggestionCategory::Maintenance,
                "CI/CD Optimizations",
                "Optimize configuration for continuous integration environments",
                None,
                "# CI-friendly settings\ntimeout_seconds = 300\nparallel_analysis = true",
                "Faster analysis in CI/CD pipelines",
                Priority::Medium,
            ));
        }
        assert(suggestion_views(r@) =~= suggestion_views(r1) + ci_suggestions(*context));
        r
    }

    fn validate_project_specific_settings(&self, config: &Config, files: ProjectFiles) -> (r: Vec<ConfigSuggestion>)
        ensures
            suggestion_views(r@) == project_suggestions(*config, Some(files)),
    {
        let mut r: Vec<ConfigSuggestion> = Vec::new();
        if files.has_package_json && lacks_in_ignores(config, "node_modules") {
            r.push(text_suggestion(
                SuggestionCategory::Performance,
                "Add Node.js Ignore Patterns",
                "Detected package.json - add Node.js specific ignore patterns",
                None,
                "ignore_patterns = [\"node_modules/**\", \"dist/**\", \"build/**\"]",
                "Significantly faster analysis by excluding dependencies",
                Priority::High,
            ));
        }
        let ghost r0 = r@;
        if files.has_cargo_toml && lacks_in_ignores(config, "target") {
            r.push(text_suggestion(
                SuggestionCategory::Performance,
                "Add Rust Ignore Patterns",
                "Detected Cargo.toml - add Rust specific ignore patterns",
                None,
                "ignore_patterns = [\"target/**\", \"**/target/**\"]",
                "Exclude Rust build artifacts for faster analysis",
                Priority::High,
            ));
        }
        assert(suggestion_views(r@) =~= project_suggestions(*config, Some(files)));
        r
    }
}


/// All errors of a review, in the order the checks run.
pub open spec fn review_errors(c: Config) -> Seq<ErrorView> {
    structure_errors(c) + ai_errors(c)
}

/// All warnings of a review, in the order the checks run.
pub open spec fn review_warnings(c: Config) -> Seq<WarningView> {
    ai_warnings(c) + dead_code_warnings(c) + large_class_warnings(c)
}

/// All suggestions of a review, in the order the checks run.
pub open spec fn review_suggestions(
    ctx: Option<ProjectContext>,
    c: Config,
    files: Option<ProjectFiles>,
) -> Seq<SuggestionView> {
    ai_suggestions(ctx, c) + dead_code_suggestions(ctx, c) + large_class_suggestions(ctx, c)
        + context_suggestions(ctx, c) + project_suggestions(c, files)
}

/// Some error is `Critical` or `High`.
pub open spec fn has_blocking_error(e: Seq<ErrorView>) -> bool {
    exists|i: int| 0 <= i < e.len()
        && (#[trigger] e[i].severity == ErrorSeverity::Critical || e[i].severity == ErrorSeverity::High)
}

/// Number of performance suggestions.
pub open spec fn performance_count(s: Seq<SuggestionView>) -> nat
    decreases s.len(),
{
    if s.len() == 0 {
        0
    } else {
        performance_count(s.drop_last()) + if s.last().category == SuggestionCategory::Performance { 1nat } else { 0nat }
    }
}

/// An optional list of patterns that is present and not empty.
pub open spec fn has_patterns(o: Option<Vec<String>>) -> bool {
    o matches Some(v) && v@.len() > 0
}

/// Performance score in tenths: 100 points, less 10 per performance
/// suggestion (at most 50), plus 10 for an AI model and 15 for dead code
/// ignore patterns, capped at 100.
pub open spec fn performance_score(c: Config, s: Seq<SuggestionView>) -> int {
    let n = performance_count(s);
    let deduction = if n >= 5 { 500 } else { 100 * n };
    let raw = 1000 - deduction
        + (if c.ollama_model is Some { 100int } else { 0int })
        + (if c.dead_code matches Some(dc) && has_patterns(dc.ignore_patterns) { 150int } else { 0int });
    if raw > 1000 { 1000 } else { raw }
}

/// Completeness score in tenths: 25 points for an AI model; 15 for a dead
/// code section and 5 for each of its threshold, library mode, ignore and
/// keep-alive patterns; 20 for a large class section, 5 each for its LOC
/// and method thresholds and 2.5 each for its field and complexity
/// thresholds, ignore patterns and language overrides.
pub open spec fn completeness_score(c: Config) -> int {
    (if c.ollama_model is Some { 250int } else { 0int })
    + match c.dead_code {
        Some(dc) => dead_code_points(dc),
        None => 0int,
    }
    + match c.large_classes {
        Some(lc) => large_class_points(lc),
        None => 0int,
    }
}

/// Completeness points of a dead code section, in tenths.
pub open spec fn dead_code_points(dc: DeadCodeConfig) -> int {
    150
    + (if dc.confidence_threshold is Some { 50int } else { 0int })
    + (if dc.library_mode is Some { 50int } else { 0int })
    + (if has_patterns(dc.ignore_patterns) { 50int } else { 0int })
    + (if has_patterns(dc.keep_alive_patterns) { 50int } else { 0int })
}

/// Completeness points of a large class section, in tenths.
pub open spec fn large_class_points(lc: LargeClassConfig) -> int {
    200
    + (if lc.max_logical_loc is Some { 50int } else { 0int })
    + (if lc.max_methods is Some { 50int } else { 0int })
    + (if lc.max_fields is Some { 25int } else { 0int })
    + (if lc.max_cyclomatic_complexity is Some { 25int } else { 0int })
    + (if has_patterns(lc.ignore_patterns) { 25int } else { 0int })
    + (if lc.language_overrides matches Some(o) && o@.len() > 0 { 25int } else { 0int })
}

fn dead_code_points_of(dc: &DeadCodeConfig) -> (p: u32)
    ensures
        p == dead_code_points(*dc),
{
    let mut p: u32 = 150;
    if dc.confidence_threshold.is_some() { p = p + 50; }
    if dc.library_mode.is_some() { p = p + 50; }
    if present_patterns(&dc.ignore_patterns) { p = p + 50; }
    if present_patterns(&dc.keep_alive_patterns) { p = p + 50; }
    p
}

fn large_class_points_of(lc: &LargeClassConfig) -> (p: u32)
    ensures
        p == large_class_points(*lc),
{
    let mut p: u32 = 200;
    if lc.max_logical_loc.is_some() { p = p + 50; }
    if lc.max_methods.is_some() { p = p + 50; }
    if lc.max_fields.is_some() { p = p + 25; }
    if lc.max_cyclomatic_complexity.is_some() { p = p + 25; }
    if present_patterns(&lc.ignore_patterns) { p = p + 25; }
    let overrides = match &lc.language_overrides {
        Some(o) => o.len() > 0,
        None => false,
    };
    if overrides { p = p + 25; }
    p
}

fn present_patterns(o: &Option<Vec<String>>) -> (r: bool)
    ensures
        r == has_patterns(*o),
{
    match o {
        Some(v) => v.len() > 0,
        None => false,
    }
}

impl SmartConfigValidator {
    fn calculate_performance_score(&self, config: &Config, suggestions: &Vec<ConfigSuggestion>) -> (score: u32)
        ensures
            score == performance_score(*config, suggestion_views(suggestions@)),
    {
        let ghost sv = suggestion_views(suggestions@);
        let mut count: usize = 0;
        let mut i: usize = 0;
        while i < suggestions.len()
            invariant
                i <= suggestions.len(),
                sv == suggestion_views(suggestions@),
                count == performance_count(sv.subrange(0, i as int)),
                count <= i,
            decreases suggestions.len() - i,
        {
            proof {
                let sub = sv.subrange(0, i + 1);
                assert(sub.drop_last() =~= sv.subrange(0, i as int));
            }
            if suggestions[i].category == SuggestionCategory::Performance {
                count = count + 1;
            }
            i = i + 1;
        }
        assert(sv.subrange(0, suggestions.len() as int) =~= sv);
        let deduction: u32 = if count >= 5 { 500 } else { (count as u32) * 100 };
        let mut score: u32 = 1000 - deduction;
        if config.ollama_model.is_some() {
            score = score + 100;
        }
        if let Some(dc) = &config.dead_code {
            if present_patterns(&dc.ignore_patterns) {
                score = score + 150;
            }
        }
        if score > 1000 { 1000 } else { score }
    }

    fn calculate_completeness_score(&self, config: &Config) -> (score: u32)
        ensures
            score == completeness_score(*config),
    {
        let mut score: u32 = 0;
        if config.ollama_model.is_some() {
            score = score + 250;
        }
        if let Some(dc) = &config.dead_code {
            score = score + dead_code_points_of(dc);
        }
        if let Some(lc) = &config.large_classes {
            score = score + large_class_points_of(lc);
        }
        score
    }

    /// Reviews a configuration: errors about its shape and AI model,
    /// warnings and suggestions about each section, suggestions drawn from
    /// the project context and from the project's marker files, and the
    /// two scores. The configuration is valid when no error is `Critical`
    /// or `High`.
    pub fn validate(&self, config: &Config, project_files: Option<ProjectFiles>) -> (r: ValidationResult)
        ensures
            error_views(r.errors@) == review_errors(*config),
            warning_views(r.warnings@) == review_warnings(*config),
            suggestion_views(r.suggestions@) == review_suggestions(self.context, *config, project_files),
            r.is_valid == !has_blocking_error(review_errors(*config)),
            r.performance_score_tenths == performance_score(*config, review_suggestions(self.context, *config, project_files)),
            r.completeness_score_tenths == completeness_score(*config),
    {
        let mut errors = self.validate_basic_structure(config);
        let (mut ai_errs, mut warnings, mut suggestions) = self.validate_ai_config(config);
        let ghost e0 = errors@;
        errors.append(&mut ai_errs);
        assert(error_views(errors@) =~= review_errors(*config)) by {
            assert(error_views(errors@) =~= error_views(e0) + ai_errors(*config));
        }

        let ghost w0 = warnings@;
        let ghost s0 = suggestions@;
        let (mut dc_warnings, mut dc_suggestions) = self.validate_dead_code_config(config);
        warnings.append(&mut dc_warnings);
        suggestions.append(&mut dc_suggestions);
        assert(warning_views(warnings@) =~= warning_views(w0) + dead_code_warnings(*config));
        assert(suggestion_views(suggestions@) =~= suggestion_views(s0) + dead_code_suggestions(self.context, *config));

        let ghost w1 = warnings@;
        let ghost s1 = suggestions@;
        let (mut lc_warnings, mut lc_suggestions) = self.validate_large_classes_config(config);
        warnings.append(&mut lc_warnings);
        suggestions.append(&mut lc_suggestions);
        assert(warning_views(warnings@) =~= warning_views(w1) + large_class_warnings(*config));
        assert(suggestion_views(suggestions@) =~= suggestion_views(s1) + large_class_suggestions(self.context, *config));
        assert(warning_views(warnings@) =~= review_warnings(*config));

        let ghost s2 = suggestions@;
        if let Some(context) = &self.context {
            let mut more = self.generate_context_aware_suggestions(config, context);
            suggestions.append(&mut more);
        }
        assert(suggestion_views(suggestions@) =~= suggestion_views(s2) + context_suggestions(self.context, *config));

        let ghost s3 = suggestions@;
        if let Some(files) = project_files {
            let mut more = self.validate_project_specific_settings(config, files);
            suggestions.append(&mut more);
        }
        assert(suggestion_views(suggestions@) =~= suggestion_views(s3) + project_suggestions(*config, project_files));
        assert(suggestion_views(suggestions@) =~= review_suggestions(self.context, *config, project_files));

        let performance_score_tenths = self.calculate_performance_score(config, &suggestions);
        let completeness_score_tenths = self.calculate_completeness_score(config);

        let mut is_valid = true;
        let mut i: usize = 0;
        while i < errors.len()
            invariant
                i <= errors.len(),
                is_valid == !exists|j: int| 0 <= j < i
                    && (#[trigger] errors@[j].severity == ErrorSeverity::Critical
                        || errors@[j].severity == ErrorSeverity::High),
            decreases errors.len() - i,
        {
            if errors[i].severity == ErrorSeverity::Critical || errors[i].severity == ErrorSeverity::High {
                is_valid = false;
            }
            i = i + 1;
        }
        proof {
            let ev = error_views(errors@);
            if has_blocking_error(ev) {
                let j = choose|j: int| 0 <= j < ev.len()
                    && (#[trigger] ev[j].severity == ErrorSeverity::Critical || ev[j].severity == ErrorSeverity::High);
                assert(errors@[j].severity == ev[j].severity);
            }
            if !is_valid {
                let j = choose|j: int| 0 <= j < errors.len()
                    && (#[trigger] errors@[j].severity == ErrorSeverity::Critical
                        || errors@[j].severity == ErrorSeverity::High);
                assert(ev[j].severity == errors@[j].severity);
            }
        }

        ValidationResult {
            is_valid,
            errors,
            warnings,
            suggestions,
            performance_score_tenths,
            completeness_score_tenths,
        }
    }
}

impl Default for SmartConfigValidator {
    fn default() -> (v: Self)
        ensures
            v.context is None,
    {
        SmartConfigValidator::new()
    }
}

/// A model name must carry a version tag: the errors of a review hold one
/// of medium severity for the field `ollama_model` exactly when the model
/// name has no `:` in it, and none for that field when it has one.
pub proof fn lemma_model_needs_version_tag(c: Config, errors: Seq<ErrorView>)
    requires
        errors == review_errors(c),
        c.ollama_model is Some,
    ensures
        (forall|i: int| 0 <= i < c.ollama_model->Some_0@.len() ==> #[trigger] c.ollama_model->Some_0@[i] != ':')
            ==> exists|k: int| 0 <= k < errors.len() && (#[trigger] errors[k]).field == "ollama_model"@
                && errors[k].severity == ErrorSeverity::Medium,
        (exists|i: int| 0 <= i < c.ollama_model->Some_0@.len() && #[trigger] c.ollama_model->Some_0@[i] == ':')
            ==> forall|k: int| 0 <= k < errors.len() ==> (#[trigger] errors[k]).field != "ollama_model"@,
{
    reveal_strlit(":");
    reveal_strlit("ollama_model");
    reveal_strlit("root");
    let m = c.ollama_model->Some_0@;
    let st = structure_errors(c);
    let ai = ai_errors(c);
    assert(errors == st + ai);
    if forall|i: int| 0 <= i < m.len() ==> #[trigger] m[i] != ':' {
        assert(!contains_seq(m, ":"@)) by {
            if contains_seq(m, ":"@) {
                let i = choose|i: int| occurs_at(m, ":"@, i);
                assert(m.subrange(i, i + 1)[0] == m[i]);
            }
        }
        assert(errors[st.len() as int] == ai[0]);
    }
    if exists|i: int| 0 <= i < m.len() && #[trigger] m[i] == ':' {
        let i = choose|i: int| 0 <= i < m.len() && #[trigger] m[i] == ':';
        assert(occurs_at(m, ":"@, i)) by {
            assert(m.subrange(i, i + 1) =~= ":"@);
        }
        assert(ai.len() == 0);
        assert forall|k: int| 0 <= k < errors.len() implies (#[trigger] errors[k]).field != "ollama_model"@ by {
            assert(errors[k] == st[k]);
        }
    }
}

/// Some suggestion of `s` carries the title `t`.
pub open spec fn has_title(s: Seq<SuggestionView>, t: Seq<char>) -> bool {
    exists|i: int| 0 <= i < s.len() && (#[trigger] s[i]).title == t
}

proof fn lemma_has_title_concat(a: Seq<SuggestionView>, b: Seq<SuggestionView>, t: Seq<char>)
    ensures
        has_title(a + b, t) <==> (has_title(a, t) || has_title(b, t)),
{
    let ab = a + b;
    if has_title(ab, t) {
        let i = choose|i: int| 0 <= i < ab.len() && (#[trigger] ab[i]).title == t;
        if i < a.len() {
            assert(a[i] == ab[i]);
        } else {
            assert(b[i - a.len()] == ab[i]);
        }
    }
    if has_title(a, t) {
        let i = choose|i: int| 0 <= i < a.len() && (#[trigger] a[i]).title == t;
        assert(ab[i] == a[i]);
    }
    if has_title(b, t) {
        let i = choose|i: int| 0 <= i < b.len() && (#[trigger] b[i]).title == t;
        assert(ab[i + a.len()] == b[i]);
    }
}

/// The CI/CD suggestion comes from the project context alone: a validator
/// that knows no project never makes it, whatever the configuration and
/// the project files; one that knows a project built in CI always does.
pub proof fn lemma_ci_suggestion_needs_context(c: Config, files: Option<ProjectFiles>, ctx: ProjectContext)
    ensures
        !has_title(review_suggestions(None, c, files), "CI/CD Optimizations"@),
        ctx.has_ci ==> has_title(review_suggestions(Some(ctx), c, files), "CI/CD Optimizations"@),
{
    let t = "CI/CD Optimizations"@;
    reveal_strlit("CI/CD Optimizations");
    reveal_strlit("Enable AI Analysis");
    reveal_strlit("Add Common Ignore Patterns");
    reveal_strlit("Configure Dead Code Detection");
    reveal_strlit("Configure Large Classes Detection");
    reveal_strlit("Add Node.js Ignore Patterns");
    reveal_strlit("Add Rust Ignore Patterns");
    let a = ai_suggestions(None, c);
    let d = dead_code_suggestions(None, c);
    let l = large_class_suggestions(None, c);
    let x = context_suggestions(None, c);
    let p = project_suggestions(c, files);
    assert(t.len() == 19);
    assert forall|i: int| 0 <= i < a.len() implies (#[trigger] a[i]).title != t by {
        assert(a[i].title.len() != 19);
    }
    match c.dead_code {
        Some(dc) => {
            let d1 = match dc.ignore_patterns {
                Some(ps) => if missing_common_patterns(ps@).len() > 0 {
                    seq![fixed(
                        SuggestionCategory::Performance,
                        "Add Common Ignore Patterns"@,
                        "Exclude build directories and dependencies from analysis"@,
                        None,
                        "ignore_patterns = "@ + pretty_list(missing_common_patterns(ps@)),
                        "Faster analysis and fewer false positives"@,
                        Priority::High,
                    )]
                } else {
                    seq![]
                },
                None => seq![],
            };
            assert(d =~= d1 + seq![]);
            assert forall|i: int| 0 <= i < d1.len() implies (#[trigger] d1[i]).title != t by {
                assert(d1[i].title.len() != 19);
            }
            lemma_has_title_concat(d1, seq![], t);
        },
        None => {
            assert forall|i: int| 0 <= i < d.len() implies (#[trigger] d[i]).title != t by {
                assert(d[i].title.len() != 19);
            }
        },
    }
    assert(!has_title(d, t));
    assert(!has_title(l, t));
    assert(x.len() == 0);
    match files {
        Some(f) => {
            let p1 = if f.has_package_json && ignores_lack(c, "node_modules"@) {
                seq![fixed(
                    SuggestionCategory::Performance,
                    "Add Node.js Ignore Patterns"@,
                    "Detected package.json - add Node.js specific ignore patterns"@,
                    None,
                    "ignore_patterns = [\"node_modules/**\", \"dist/**\", \"build/**\"]"@,
                    "Significantly faster analysis by excluding dependencies"@,
                    Priority::High,
                )]
            } else {
                seq![]
            };
            let p2 = if f.has_cargo_toml && ignores_lack(c, "target"@) {
                seq![fixed(
                    SuggestionCategory::Performance,
                    "Add Rust Ignore Patterns"@,
                    "Detected Cargo.toml - add Rust specific ignore patterns"@,
                    None,
                    "ignore_patterns = [\"target/**\", \"**/target/**\"]"@,
                    "Exclude Rust build artifacts for faster analysis"@,
                    Priority::High,
                )]
            } else {
                seq![]
            };
            assert(p == p1 + p2);
            lemma_has_title_concat(p1, p2, t);
        },
        None => {},
    }
    assert(!has_title(p, t));
    lemma_has_title_concat(a, d, t);
    lemma_has_title_concat(a + d, l, t);
    lemma_has_title_concat(a + d + l, x, t);
    lemma_has_title_concat(a + d + l + x, p, t);
    if ctx.has_ci {
        let c2 = Some(ctx);
        let a2 = ai_suggestions(c2, c);
        let d2 = dead_code_suggestions(c2, c);
        let l2 = large_class_suggestions(c2, c);
        let ls = language_suggestions(ctx.languages@);
        let ts = team_suggestions(ctx, c);
        let cs = ci_suggestions(ctx);
        assert(cs[0].title == t);
        assert(has_title(cs, t));
        lemma_has_title_concat(ls + ts, cs, t);
        assert(context_suggestions(c2, c) == ls + ts + cs);
        lemma_has_title_concat(a2 + d2 + l2, ls + ts + cs, t);
        lemma_has_title_concat(a2 + d2 + l2 + (ls + ts + cs), p, t);
    }
}

/// Both review scores lie between 0 and 100 points.
pub proof fn lemma_scores_bounded(c: Config, s: Seq<SuggestionView>)
    ensures
        0 <= performance_score(c, s) <= 1000,
        0 <= completeness_score(c) <= 1000,
{
}


impl ConfigSuggestion {
    /// A copy of the suggestion.
    pub fn clone_suggestion(&self) -> (r: Self)
        ensures
            r@ == self@,
    {
        ConfigSuggestion {
            category: self.category,
            title: self.title.clone(),
            description: self.description.clone(),
            before: match &self.before {
                Some(b) => Some(b.clone()),
                None => None,
            },
            after: self.after.clone(),
            benefit: self.benefit.clone(),
            priority: self.priority,
        }
    }
}

} // verus!
