//! `uveddi init`: detecting what kind of project a directory holds and
//! writing a configuration suited to it.

use vstd::prelude::*;
use std::path::{Path, PathBuf};
use crate::config::{Config, DeadCodeConfig, LargeClassConfig, LanguageThresholds};
use crate::numeric::{F64Bits, EIGHT_TENTHS_BITS, SEVEN_TENTHS_BITS, THREE_QUARTERS_BITS};
use crate::paths::{owned_path, to_path_buf};
use crate::text::{owned, push_str, push_bool, bool_text, join, joined, str_eq, views, trim_str, trimmed, to_lowercase, lowercase};

verus! {

/// Arguments of the `init` command.
#[derive(Debug)]
pub struct InitCommand {
    /// Directory to initialise (the current one by default).
    pub path: PathBuf,
    /// Skip interactive prompts and use defaults.
    pub non_interactive: bool,
    /// Project template to use.
    pub template: Option<ProjectTemplate>,
    /// Overwrite an existing configuration.
    pub force: bool,
    /// Install Git hooks for automated analysis.
    pub git_hooks: bool,
}

/// Kinds of project a configuration can be generated for.
#[derive(Debug, Clone, Copy, PartialEq, Eq, Structural)]
pub enum ProjectTemplate {
    /// Cargo-based Rust project.
    Rust,
    /// pip or poetry based Python project.
    Python,
    /// JavaScript / Node.js project.
    JavaScript,
    /// TypeScript project.
    TypeScript,
    /// Web project mixing JS, TS, HTML and CSS.
    Web,
    /// Library project.
    Library,
    /// Monorepo with several languages.
    Monorepo,
    /// Custom configuration.
    Custom,
}

/// Estimated size of a project by lines of code.
#[derive(Debug, Clone, Copy, PartialEq, Eq, Structural)]
pub enum ProjectSize {
    /// At most 1,000 lines.
    Small,
    /// At most 10,000 lines.
    Medium,
    /// At most 100,000 lines.
    Large,
    /// More.
    Huge,
}

/// Detects the characteristics of the project in a directory.
#[derive(Debug)]
pub struct ProjectAnalyzer {
    path: PathBuf,
}

/// What the analyser found out about a project.
#[derive(Debug, Clone)]
pub struct ProjectInfo {
    pub languages: Vec<String>,
    pub project_type: ProjectTemplate,
    pub has_tests: bool,
    pub has_docs: bool,
    pub estimated_size: ProjectSize,
    pub package_managers: Vec<String>,
    pub build_tools: Vec<String>,
}

impl ProjectAnalyzer {
    /// The directory the analyser looks at.
    pub closed spec fn directory(&self) -> PathBuf {
        self.path
    }

    /// An analyser for the given directory.
    pub fn new(path: &Path) -> (a: Self)
        ensures
            a.directory() == owned_path(path),
    {
        ProjectAnalyzer { path: to_path_buf(path) }
    }
}

/// The `Debug` name of a template.
pub open spec fn template_name(t: ProjectTemplate) -> Seq<char> {
    match t {
        ProjectTemplate::Rust => "Rust"@,
        ProjectTemplate::Python => "Python"@,
        ProjectTemplate::JavaScript => "JavaScript"@,
        ProjectTemplate::TypeScript => "TypeScript"@,
        ProjectTemplate::Web => "Web"@,
        ProjectTemplate::Library => "Library"@,
        ProjectTemplate::Monorepo => "Monorepo"@,
        ProjectTemplate::Custom => "Custom"@,
    }
}

/// The `Debug` name of a size.
pub open spec fn size_name(s: ProjectSize) -> Seq<char> {
    match s {
        ProjectSize::Small => "Small"@,
        ProjectSize::Medium => "Medium"@,
        ProjectSize::Large => "Large"@,
        ProjectSize::Huge => "Huge"@,
    }
}

/// Paths every generated configuration ignores.
pub open spec fn base_ignore_patterns() -> Seq<Seq<char>> {
    seq!["test/**"@, "tests/**"@, "node_modules/**"@, "target/**"@, "dist/**"@, "build/**"@]
}

/// The ignore patterns generated for a template: the common ones followed
/// by those of the template's ecosystem.
pub open spec fn ignore_patterns(t: ProjectTemplate) -> Seq<Seq<char>> {
    base_ignore_patterns() + match t {
        ProjectTemplate::Rust => seq!["target/**"@, "**/target/**"@, "Cargo.lock"@],
        ProjectTemplate::Python => seq!["__pycache__/**"@, "*.pyc"@, ".venv/**"@, "venv/**"@],
        ProjectTemplate::JavaScript | ProjectTemplate::TypeScript | ProjectTemplate::Web =>
            seq!["node_modules/**"@, "dist/**"@, "build/**"@, ".next/**"@],
        _ => seq![],
    }
}

/// The keep-alive patterns generated for a template.
pub open spec fn keep_alive_patterns(t: ProjectTemplate) -> Seq<Seq<char>> {
    match t {
        ProjectTemplate::Rust => seq!["main"@, "lib"@, "pub fn"@, "pub struct"@, "pub enum"@],
        ProjectTemplate::Python => seq!["__main__"@, "__init__"@, "def main"@, "class "@],
        ProjectTemplate::JavaScript | ProjectTemplate::TypeScript =>
            seq!["export"@, "module.exports"@, "function main"@, "class "@],
        _ => seq!["main"@, "export"@, "public"@],
    }
}

fn strings(items: &[&str]) -> (v: Vec<String>)
    ensures
        views(v@) == items@.map_values(|s: &str| s@),
{
    let mut v: Vec<String> = Vec::new();
    let mut i: usize = 0;
    while i < items.len()
        invariant
            i <= items.len(),
            views(v@) == items@.subrange(0, i as int).map_values(|s: &str| s@),
        decreases items.len() - i,
    {
        v.push(owned(items[i]));
        proof {
            assert(items@.subrange(0, i + 1).map_values(|s: &str| s@)
                =~= items@.subrange(0, i as int).map_values(|s: &str| s@).push(items@[i as int]@));
            assert(views(v@) =~= items@.subrange(0, i + 1).map_values(|s: &str| s@));
        }
        i = i + 1;
    }
    assert(items@.subrange(0, items.len() as int) =~= items@);
    v
}

/// The line-of-code threshold generated for a template.
pub open spec fn template_max_loc(t: ProjectTemplate) -> u32 {
    match t {
        ProjectTemplate::Rust => 200,
        ProjectTemplate::Python => 300,
        ProjectTemplate::JavaScript | ProjectTemplate::TypeScript => 250,
        ProjectTemplate::Web => 400,
        ProjectTemplate::Library => 150,
        ProjectTemplate::Monorepo => 350,
        ProjectTemplate::Custom => 250,
    }
}

/// The method-count threshold generated for a template.
pub open spec fn template_max_methods(t: ProjectTemplate) -> u32 {
    match t {
        ProjectTemplate::Rust => 20,
        ProjectTemplate::Python => 30,
        ProjectTemplate::JavaScript | ProjectTemplate::TypeScript => 25,
        ProjectTemplate::Web => 35,
        ProjectTemplate::Library => 15,
        ProjectTemplate::Monorepo => 40,
        ProjectTemplate::Custom => 25,
    }
}

/// The defaults offered when prompting for large class thresholds: lines
/// of code and methods.
pub open spec fn prompt_defaults(t: ProjectTemplate) -> (u32, u32) {
    match t {
        ProjectTemplate::Rust => (200, 20),
        ProjectTemplate::Python => (300, 30),
        ProjectTemplate::JavaScript | ProjectTemplate::TypeScript => (250, 25),
        ProjectTemplate::Web => (400, 35),
        _ => (250, 25),
    }
}

/// JavaScript thresholds of web and monorepo projects.
pub open spec fn javascript_thresholds() -> LanguageThresholds {
    LanguageThresholds {
        max_logical_loc: Some(200u32),
        max_methods: Some(20u32),
        max_fields: Some(30u32),
        max_cyclomatic_complexity: Some(15u32),
        max_cognitive_complexity: Some(20u32),
        max_lcom_score: Some(F64Bits { bits: SEVEN_TENTHS_BITS }),
        max_coupling: Some(25u32),
    }
}

/// TypeScript thresholds of web and monorepo projects.
pub open spec fn typescript_thresholds() -> LanguageThresholds {
    LanguageThresholds {
        max_logical_loc: Some(250u32),
        max_methods: Some(25u32),
        max_fields: Some(35u32),
        max_cyclomatic_complexity: Some(18u32),
        max_cognitive_complexity: Some(22u32),
        max_lcom_score: Some(F64Bits { bits: THREE_QUARTERS_BITS }),
        max_coupling: Some(28u32),
    }
}

/// The language overrides generated for a template, by language name.
pub open spec fn language_overrides(t: ProjectTemplate) -> Seq<(Seq<char>, LanguageThresholds)> {
    match t {
        ProjectTemplate::Web | ProjectTemplate::Monorepo => seq![
            ("javascript"@, javascript_thresholds()),
            ("typescript"@, typescript_thresholds()),
        ],
        _ => seq![],
    }
}

/// Language overrides with their names as characters.
pub open spec fn override_views(o: Seq<(String, LanguageThresholds)>) -> Seq<(Seq<char>, LanguageThresholds)> {
    o.map_values(|e: (String, LanguageThresholds)| (e.0@, e.1))
}

/// The model suited to a project size.
pub open spec fn model_for_size(s: ProjectSize) -> Seq<char> {
    match s {
        ProjectSize::Small => "deepseek-coder:6.7b-instruct-q4_0"@,
        ProjectSize::Medium => "deepseek-coder:6.7b-instruct-q4_0"@,
        ProjectSize::Large => "codellama:7b-instruct"@,
        ProjectSize::Huge => "llama2:7b-chat"@,
    }
}

/// A dead code section as generated for a template: confidence `0.8`,
/// library mode for library projects, the template's patterns.
pub open spec fn template_dead_code(dc: DeadCodeConfig, t: ProjectTemplate) -> bool {
    &&& dc.confidence_threshold == Some(F64Bits { bits: EIGHT_TENTHS_BITS })
    &&& dc.library_mode == Some(t == ProjectTemplate::Library)
    &&& dc.ignore_patterns matches Some(p) && views(p@) == ignore_patterns(t)
    &&& dc.keep_alive_patterns matches Some(k) && views(k@) == keep_alive_patterns(t)
}

/// A large class section as generated for a template.
pub open spec fn template_large_classes(lc: LargeClassConfig, t: ProjectTemplate) -> bool {
    &&& lc.max_logical_loc == Some(template_max_loc(t))
    &&& lc.max_methods == Some(template_max_methods(t))
    &&& lc.max_fields == Some(50u32)
    &&& lc.max_cyclomatic_complexity == Some(20u32)
    &&& lc.max_cognitive_complexity == Some(25u32)
    &&& lc.max_lcom_score == Some(F64Bits { bits: EIGHT_TENTHS_BITS })
    &&& lc.max_coupling == Some(30u32)
    &&& lc.ignore_patterns matches Some(p) && views(p@) == ignore_patterns(t)
    &&& lc.language_overrides matches Some(o) && override_views(o@) == language_overrides(t)
}

/// A configuration as generated for a template and a project size.
pub open spec fn template_config(c: Config, t: ProjectTemplate, size: ProjectSize) -> bool {
    &&& c.ollama_model matches Some(m) && m@ == model_for_size(size)
    &&& c.dead_code matches Some(dc) && template_dead_code(dc, t)
    &&& c.large_classes matches Some(lc) && template_large_classes(lc, t)
}

impl InitCommand {
    /// The ignore patterns for a template.
    pub fn generate_ignore_patterns(&self, template: ProjectTemplate) -> (v: Vec<String>)
        ensures
            views(v@) == ignore_patterns(template),
    {
        let mut v = strings(&["test/**", "tests/**", "node_modules/**", "target/**", "dist/**", "build/**"]);
        let ghost base = v@;
        let mut extra = match template {
            ProjectTemplate::Rust => strings(&["target/**", "**/target/**", "Cargo.lock"]),
            ProjectTemplate::Python => strings(&["__pycache__/**", "*.pyc", ".venv/**", "venv/**"]),
            ProjectTemplate::JavaScript | ProjectTemplate::TypeScript | ProjectTemplate::Web =>
                strings(&["node_modules/**", "dist/**", "build/**", ".next/**"]),
            _ => Vec::new(),
        };
        let ghost more = extra@;
        v.append(&mut extra);
        assert(views(v@) =~= views(base) + views(more));
        assert(views(v@) =~= ignore_patterns(template));
        v
    }

    /// The keep-alive patterns for a template.
    pub fn generate_keep_alive_patterns(&self, template: ProjectTemplate) -> (v: Vec<String>)
        ensures
            views(v@) == keep_alive_patterns(template),
    {
        let v = match template {
            ProjectTemplate::Rust => strings(&["main", "lib", "pub fn", "pub struct", "pub enum"]),
            ProjectTemplate::Python => strings(&["__main__", "__init__", "def main", "class "]),
            ProjectTemplate::JavaScript | ProjectTemplate::TypeScript =>
                strings(&["export", "module.exports", "function main", "class "]),
            _ => strings(&["main", "export", "public"]),
        };
        assert(views(v@) =~= keep_alive_patterns(template));
        v
    }

    /// The language overrides for a template.
    pub fn generate_language_overrides(&self, template: ProjectTemplate) -> (o: Vec<(String, LanguageThresholds)>)
        ensures
            override_views(o@) == language_overrides(template),
    {
        let mut o: Vec<(String, LanguageThresholds)> = Vec::new();
        match template {
            ProjectTemplate::Web | ProjectTemplate::Monorepo => {
                o.push((owned("javascript"), LanguageThresholds {
                    max_logical_loc: Some(200),
                    max_methods: Some(20),
                    max_fields: Some(30),
                    max_cyclomatic_complexity: Some(15),
                    max_cognitive_complexity: Some(20),
                    max_lcom_score: Some(F64Bits::from_bits(SEVEN_TENTHS_BITS)),
                    max_coupling: Some(25),
                }));
                o.push((owned("typescript"), LanguageThresholds {
                    max_logical_loc: Some(250),
                    max_methods: Some(25),
                    max_fields: Some(35),
                    max_cyclomatic_complexity: Some(18),
                    max_cognitive_complexity: Some(22),
                    max_lcom_score: Some(F64Bits::from_bits(THREE_QUARTERS_BITS)),
                    max_coupling: Some(28),
                }));
            },
            _ => {},
        }
        assert(override_views(o@) =~= language_overrides(template));
        o
    }

    /// The configuration generated for a template and an analysed project.
    pub fn generate_config_from_template(&self, template: ProjectTemplate, project_info: &ProjectInfo) -> (c: Config)
        ensures
            template_config(c, template, project_info.estimated_size),
    {
        let ai_model = match project_info.estimated_size {
            ProjectSize::Small => owned("deepseek-coder:6.7b-instruct-q4_0"),
            ProjectSize::Medium => owned("deepseek-coder:6.7b-instruct-q4_0"),
            ProjectSize::Large => owned("codellama:7b-instruct"),
            ProjectSize::Huge => owned("llama2:7b-chat"),
        };
        let dead_code = DeadCodeConfig {
            confidence_threshold: Some(F64Bits::from_bits(EIGHT_TENTHS_BITS)),
            library_mode: Some(template == ProjectTemplate::Library),
            ignore_patterns: Some(self.generate_ignore_patterns(template)),
            keep_alive_patterns: Some(self.generate_keep_alive_patterns(template)),
        };
        let max_logical_loc: u32 = match template {
            ProjectTemplate::Rust => 200,
            ProjectTemplate::Python => 300,
            ProjectTemplate::JavaScript | ProjectTemplate::TypeScript => 250,
            ProjectTemplate::Web => 400,
            ProjectTemplate::Library => 150,
            ProjectTemplate::Monorepo => 350,
            ProjectTemplate::Custom => 250,
        };
        let max_methods: u32 = match template {
            ProjectTemplate::Rust => 20,
            ProjectTemplate::Python => 30,
            ProjectTemplate::JavaScript | ProjectTemplate::TypeScript => 25,
            ProjectTemplate::Web => 35,
            ProjectTemplate::Library => 15,
            ProjectTemplate::Monorepo => 40,
            ProjectTemplate::Custom => 25,
        };
        let large_classes = LargeClassConfig {
            max_logical_loc: Some(max_logical_loc),
            max_methods: Some(max_methods),
            max_fields: Some(50),
            max_cyclomatic_complexity: Some(20),
            max_cognitive_complexity: Some(25),
            max_lcom_score: Some(F64Bits::from_bits(EIGHT_TENTHS_BITS)),
            max_coupling: Some(30),
            ignore_patterns: Some(self.generate_ignore_patterns(template)),
            language_overrides: Some(self.generate_language_overrides(template)),
        };
        Config {
            ollama_model: Some(ai_model),
            dead_code: Some(dead_code),
            large_classes: Some(large_classes),
        }
    }
}


/// The template picked by an answer to the template menu: the numbered
/// templates 1 to 8, the detected one otherwise (9, an empty answer, or an
/// answer that is not on the menu).
pub open spec fn template_choice(answer: Seq<char>, detected: ProjectTemplate) -> ProjectTemplate {
    let a = trimmed(answer);
    if a == "1"@ {
        ProjectTemplate::Rust
    } else if a == "2"@ {
        ProjectTemplate::Python
    } else if a == "3"@ {
        ProjectTemplate::JavaScript
    } else if a == "4"@ {
        ProjectTemplate::TypeScript
    } else if a == "5"@ {
        ProjectTemplate::Web
    } else if a == "6"@ {
        ProjectTemplate::Library
    } else if a == "7"@ {
        ProjectTemplate::Monorepo
    } else if a == "8"@ {
        ProjectTemplate::Custom
    } else {
        detected
    }
}

/// The answer is one the template menu offers (1 to 9, or empty).
pub open spec fn menu_answer(answer: Seq<char>) -> bool {
    let a = trimmed(answer);
    a == "1"@ || a == "2"@ || a == "3"@ || a == "4"@ || a == "5"@ || a == "6"@ || a == "7"@
        || a == "8"@ || a == "9"@ || a.len() == 0
}

/// The answer to a yes/no question: `y` or `yes` and `n` or `no`, in any
/// case; anything else keeps the default.
pub open spec fn yes_no(answer: Seq<char>, default: bool) -> bool {
    let a = lowercase(trimmed(answer));
    if a == "y"@ || a == "yes"@ {
        true
    } else if a == "n"@ || a == "no"@ {
        false
    } else {
        default
    }
}

/// The model picked by an answer to the model menu; `None` when the user
/// asks to enter a custom model.
pub open spec fn model_choice(answer: Seq<char>) -> Option<Seq<char>> {
    let a = trimmed(answer);
    if a == "2"@ {
        Some("codellama:7b-instruct"@)
    } else if a == "3"@ {
        Some("llama2:7b-chat"@)
    } else if a == "4"@ {
        None
    } else {
        Some("deepseek-coder:6.7b-instruct-q4_0"@)
    }
}

/// Some language of the list has the given name.
pub open spec fn has_language(langs: Seq<String>, name: Seq<char>) -> bool {
    exists|i: int| 0 <= i < langs.len() && #[trigger] langs[i]@ == name
}

/// The project type for the detected languages: more than two languages
/// make a monorepo; HTML, CSS, or both JavaScript and TypeScript a web
/// project; otherwise the first of Rust (a library when `src/lib.rs`
/// exists), Python, TypeScript, JavaScript; custom when none applies.
pub open spec fn project_type(langs: Seq<String>, has_lib_rs: bool) -> ProjectTemplate {
    if langs.len() > 2 {
        ProjectTemplate::Monorepo
    } else if has_language(langs, "html"@) || has_language(langs, "css"@)
        || (has_language(langs, "javascript"@) && has_language(langs, "typescript"@)) {
        ProjectTemplate::Web
    } else if has_language(langs, "rust"@) {
        if has_lib_rs { ProjectTemplate::Library } else { ProjectTemplate::Rust }
    } else if has_language(langs, "python"@) {
        ProjectTemplate::Python
    } else if has_language(langs, "typescript"@) {
        ProjectTemplate::TypeScript
    } else if has_language(langs, "javascript"@) {
        ProjectTemplate::JavaScript
    } else {
        ProjectTemplate::Custom
    }
}

/// What `init` makes of the detected languages, outcome by outcome: more
/// than two languages are a monorepo; otherwise HTML, CSS, or JavaScript
/// with TypeScript make a web project; a Rust project is a library exactly
/// when `src/lib.rs` exists; Python wins over TypeScript and JavaScript,
/// TypeScript over JavaScript; a project with none of these is custom.
pub proof fn lemma_project_type_cases(langs: Seq<String>, has_lib_rs: bool)
    ensures
        (project_type(langs, has_lib_rs) == ProjectTemplate::Monorepo) <==> langs.len() > 2,
        (project_type(langs, has_lib_rs) == ProjectTemplate::Web) <==> (langs.len() <= 2
            && ((exists|i: int| 0 <= i < langs.len() && #[trigger] langs[i]@ == "html"@) || (exists|i: int| 0 <= i < langs.len() && #[trigger] langs[i]@ == "css"@) || ((exists|i: int| 0 <= i < langs.len() && #[trigger] langs[i]@ == "javascript"@) && (exists|i: int| 0 <= i < langs.len() && #[trigger] langs[i]@ == "typescript"@)))),
        (project_type(langs, has_lib_rs) == ProjectTemplate::Library) <==> (langs.len() <= 2 && has_lib_rs
            && (exists|i: int| 0 <= i < langs.len() && #[trigger] langs[i]@ == "rust"@) && !(exists|i: int| 0 <= i < langs.len() && #[trigger] langs[i]@ == "html"@) && !(exists|i: int| 0 <= i < langs.len() && #[trigger] langs[i]@ == "css"@) && !((exists|i: int| 0 <= i < langs.len() && #[trigger] langs[i]@ == "javascript"@) && (exists|i: int| 0 <= i < langs.len() && #[trigger] langs[i]@ == "typescript"@))),
        (project_type(langs, has_lib_rs) == ProjectTemplate::Rust) <==> (langs.len() <= 2 && !has_lib_rs
            && (exists|i: int| 0 <= i < langs.len() && #[trigger] langs[i]@ == "rust"@) && !(exists|i: int| 0 <= i < langs.len() && #[trigger] langs[i]@ == "html"@) && !(exists|i: int| 0 <= i < langs.len() && #[trigger] langs[i]@ == "css"@) && !((exists|i: int| 0 <= i < langs.len() && #[trigger] langs[i]@ == "javascript"@) && (exists|i: int| 0 <= i < langs.len() && #[trigger] langs[i]@ == "typescript"@))),
        (project_type(langs, has_lib_rs) == ProjectTemplate::Python) <==> (langs.len() <= 2
            && (exists|i: int| 0 <= i < langs.len() && #[trigger] langs[i]@ == "python"@) && !(exists|i: int| 0 <= i < langs.len() && #[trigger] langs[i]@ == "rust"@) && !(exists|i: int| 0 <= i < langs.len() && #[trigger] langs[i]@ == "html"@) && !(exists|i: int| 0 <= i < langs.len() && #[trigger] langs[i]@ == "css"@) && !((exists|i: int| 0 <= i < langs.len() && #[trigger] langs[i]@ == "javascript"@) && (exists|i: int| 0 <= i < langs.len() && #[trigger] langs[i]@ == "typescript"@))),
        (project_type(langs, has_lib_rs) == ProjectTemplate::TypeScript) <==> (langs.len() <= 2
            && (exists|i: int| 0 <= i < langs.len() && #[trigger] langs[i]@ == "typescript"@) && !(exists|i: int| 0 <= i < langs.len() && #[trigger] langs[i]@ == "javascript"@) && !(exists|i: int| 0 <= i < langs.len() && #[trigger] langs[i]@ == "python"@) && !(exists|i: int| 0 <= i < langs.len() && #[trigger] langs[i]@ == "rust"@) && !(exists|i: int| 0 <= i < langs.len() && #[trigger] langs[i]@ == "html"@) && !(exists|i: int| 0 <= i < langs.len() && #[trigger] langs[i]@ == "css"@)),
        (project_type(langs, has_lib_rs) == ProjectTemplate::JavaScript) <==> (langs.len() <= 2
            && (exists|i: int| 0 <= i < langs.len() && #[trigger] langs[i]@ == "javascript"@) && !(exists|i: int| 0 <= i < langs.len() && #[trigger] langs[i]@ == "typescript"@) && !(exists|i: int| 0 <= i < langs.len() && #[trigger] langs[i]@ == "python"@) && !(exists|i: int| 0 <= i < langs.len() && #[trigger] langs[i]@ == "rust"@) && !(exists|i: int| 0 <= i < langs.len() && #[trigger] langs[i]@ == "html"@) && !(exists|i: int| 0 <= i < langs.len() && #[trigger] langs[i]@ == "css"@)),
        (project_type(langs, has_lib_rs) == ProjectTemplate::Custom) <==> (langs.len() <= 2
            && !(exists|i: int| 0 <= i < langs.len() && #[trigger] langs[i]@ == "javascript"@) && !(exists|i: int| 0 <= i < langs.len() && #[trigger] langs[i]@ == "typescript"@) && !(exists|i: int| 0 <= i < langs.len() && #[trigger] langs[i]@ == "python"@) && !(exists|i: int| 0 <= i < langs.len() && #[trigger] langs[i]@ == "rust"@) && !(exists|i: int| 0 <= i < langs.len() && #[trigger] langs[i]@ == "html"@) && !(exists|i: int| 0 <= i < langs.len() && #[trigger] langs[i]@ == "css"@)),
{
}

/// The size class of a line count.
pub open spec fn size_of_lines(n: u64) -> ProjectSize {
    if n <= 1000 {
        ProjectSize::Small
    } else if n <= 10000 {
        ProjectSize::Medium
    } else if n <= 100000 {
        ProjectSize::Large
    } else {
        ProjectSize::Huge
    }
}

/// The names whose flag is set, in order.
pub open spec fn flagged(names: Seq<Seq<char>>, flags: Seq<bool>) -> Seq<Seq<char>>
    decreases flags.len(),
{
    if flags.len() == 0 || names.len() != flags.len() {
        seq![]
    } else {
        flagged(names.drop_last(), flags.drop_last()) + if flags.last() { seq![names.last()] } else { seq![] }
    }
}

/// The languages the analyser looks for, in detection order.
pub open spec fn detected_language_names() -> Seq<Seq<char>> {
    seq!["rust"@, "python"@, "javascript"@, "typescript"@, "html"@, "css"@, "go"@, "java"@, "c"@, "cpp"@]
}

/// The package managers the analyser looks for, in detection order.
pub open spec fn package_manager_names() -> Seq<Seq<char>> {
    seq!["cargo"@, "npm"@, "yarn"@, "pip"@, "poetry"@, "pipenv"@, "go"@, "maven"@, "gradle"@]
}

/// The marker file of each package manager, in the same order.
pub open spec fn package_manager_markers() -> Seq<Seq<char>> {
    seq!["Cargo.toml"@, "package.json"@, "yarn.lock"@, "requirements.txt"@, "pyproject.toml"@,
        "Pipfile"@, "go.mod"@, "pom.xml"@, "build.gradle"@]
}

/// The build tools the analyser looks for, in detection order.
pub open spec fn build_tool_names() -> Seq<Seq<char>> {
    seq!["make"@, "cmake"@, "webpack"@, "rollup"@, "vite"@, "docker"@]
}

/// The marker file of each build tool, in the same order.
pub open spec fn build_tool_markers() -> Seq<Seq<char>> {
    seq!["Makefile"@, "CMakeLists.txt"@, "webpack.config.js"@, "rollup.config.js"@,
        "vite.config.js"@, "Dockerfile"@]
}

/// The file patterns that reveal each detected language, in the same order.
pub open spec fn language_file_patterns() -> Seq<Seq<Seq<char>>> {
    seq![
        seq!["*.rs"@, "Cargo.toml"@],
        seq!["*.py"@, "requirements.txt"@, "pyproject.toml"@, "setup.py"@],
        seq!["*.js"@, "package.json"@],
        seq!["*.ts"@, "*.tsx"@, "tsconfig.json"@],
        seq!["*.html"@],
        seq!["*.css"@, "*.scss"@, "*.sass"@],
        seq!["*.go"@, "go.mod"@],
        seq!["*.java"@, "pom.xml"@, "build.gradle"@],
        seq!["*.c"@, "*.h"@],
        seq!["*.cpp"@, "*.cc"@, "*.cxx"@, "*.hpp"@],
    ]
}

/// The detected languages: those whose files were found, or `unknown`.
pub open spec fn languages_found(flags: Seq<bool>) -> Seq<Seq<char>> {
    let found = flagged(detected_language_names(), flags);
    if found.len() == 0 { seq!["unknown"@] } else { found }
}

fn pick_flagged(names: &Vec<String>, flags: &Vec<bool>) -> (r: Vec<String>)
    requires
        names.len() == flags.len(),
    ensures
        views(r@) == flagged(views(names@), flags@),
{
    let mut r: Vec<String> = Vec::new();
    let mut i: usize = 0;
    while i < flags.len()
        invariant
            i <= flags.len(),
            names.len() == flags.len(),
            views(r@) == flagged(views(names@).subrange(0, i as int), flags@.subrange(0, i as int)),
        decreases flags.len() - i,
    {
        let ghost before = r@;
        if flags[i] {
            r.push(names[i].clone());
        }
        proof {
            let n = views(names@).subrange(0, i + 1);
            let f = flags@.subrange(0, i + 1);
            assert(n.drop_last() =~= views(names@).subrange(0, i as int));
            assert(f.drop_last() =~= flags@.subrange(0, i as int));
            assert(views(r@) =~= views(before) + if flags@[i as int] { seq![names@[i as int]@] } else { seq![] });
        }
        i = i + 1;
    }
    assert(views(names@).subrange(0, flags.len() as int) =~= views(names@));
    assert(flags@.subrange(0, flags.len() as int) =~= flags@);
    r
}

fn has_language_named(langs: &Vec<String>, name: &str) -> (r: bool)
    ensures
        r == has_language(langs@, name@),
{
    let mut i: usize = 0;
    while i < langs.len()
        invariant
            i <= langs.len(),
            forall|j: int| 0 <= j < i ==> #[trigger] langs@[j]@ != name@,
        decreases langs.len() - i,
    {
        if str_eq(langs[i].as_str(), name) {
            return true;
        }
        i = i + 1;
    }
    false
}

/// The languages the analyser looks for.
pub fn language_names() -> (v: Vec<String>)
    ensures
        views(v@) == detected_language_names(),
{
    let v = strings(&["rust", "python", "javascript", "typescript", "html", "css", "go", "java", "c", "cpp"]);
    assert(views(v@) =~= detected_language_names());
    v
}

/// The file patterns that reveal each language, in the order of
/// [`language_names`].
pub fn language_patterns() -> (v: Vec<Vec<String>>)
    ensures
        v@.map_values(|p: Vec<String>| views(p@)) == language_file_patterns(),
{
    let mut v: Vec<Vec<String>> = Vec::new();
    v.push(strings(&["*.rs", "Cargo.toml"]));
    v.push(strings(&["*.py", "requirements.txt", "pyproject.toml", "setup.py"]));
    v.push(strings(&["*.js", "package.json"]));
    v.push(strings(&["*.ts", "*.tsx", "tsconfig.json"]));
    v.push(strings(&["*.html"]));
    v.push(strings(&["*.css", "*.scss", "*.sass"]));
    v.push(strings(&["*.go", "go.mod"]));
    v.push(strings(&["*.java", "pom.xml", "build.gradle"]));
    v.push(strings(&["*.c", "*.h"]));
    v.push(strings(&["*.cpp", "*.cc", "*.cxx", "*.hpp"]));
    proof {
        assert(views(v@[0]@) =~= language_file_patterns()[0]);
        assert(views(v@[1]@) =~= language_file_patterns()[1]);
        assert(views(v@[2]@) =~= language_file_patterns()[2]);
        assert(views(v@[3]@) =~= language_file_patterns()[3]);
        assert(views(v@[4]@) =~= language_file_patterns()[4]);
        assert(views(v@[5]@) =~= language_file_patterns()[5]);
        assert(views(v@[6]@) =~= language_file_patterns()[6]);
        assert(views(v@[7]@) =~= language_file_patterns()[7]);
        assert(views(v@[8]@) =~= language_file_patterns()[8]);
        assert(views(v@[9]@) =~= language_file_patterns()[9]);
    }
    assert(v@.map_values(|p: Vec<String>| views(p@)) =~= language_file_patterns());
    v
}

/// The marker files of the package managers.
pub fn package_manager_files() -> (v: Vec<String>)
    ensures
        views(v@) == package_manager_markers(),
{
    let v = strings(&["Cargo.toml", "package.json", "yarn.lock", "requirements.txt", "pyproject.toml",
        "Pipfile", "go.mod", "pom.xml", "build.gradle"]);
    assert(views(v@) =~= package_manager_markers());
    v
}

/// The marker files of the build tools.
pub fn build_tool_files() -> (v: Vec<String>)
    ensures
        views(v@) == build_tool_markers(),
{
    let v = strings(&["Makefile", "CMakeLists.txt", "webpack.config.js", "rollup.config.js",
        "vite.config.js", "Dockerfile"]);
    assert(views(v@) =~= build_tool_markers());
    v
}

impl ProjectAnalyzer {
    /// The detected languages, given for each language of
    /// [`language_names`] whether files of it were found.
    pub fn languages_from_matches(&self, found: &Vec<bool>) -> (v: Vec<String>)
        requires
            found.len() == 10,
        ensures
            views(v@) == languages_found(found@),
    {
        let names = language_names();
        let mut v = pick_flagged(&names, found);
        if v.len() == 0 {
            v.push(owned("unknown"));
            assert(views(v@) =~= seq!["unknown"@]);
        }
        v
    }

    /// The project type for the detected languages; `has_lib_rs` tells
    /// whether `src/lib.rs` exists.
    pub fn determine_project_type(&self, languages: &Vec<String>, has_lib_rs: bool) -> (t: ProjectTemplate)
        ensures
            t == project_type(languages@, has_lib_rs),
    {
        if languages.len() > 2 {
            return ProjectTemplate::Monorepo;
        }
        if has_language_named(languages, "html") || has_language_named(languages, "css")
            || (has_language_named(languages, "javascript") && has_language_named(languages, "typescript")) {
            return ProjectTemplate::Web;
        }
        if has_language_named(languages, "rust") {
            if has_lib_rs { ProjectTemplate::Library } else { ProjectTemplate::Rust }
        } else if has_language_named(languages, "python") {
            ProjectTemplate::Python
        } else if has_language_named(languages, "typescript") {
            ProjectTemplate::TypeScript
        } else if has_language_named(languages, "javascript") {
            ProjectTemplate::JavaScript
        } else {
            ProjectTemplate::Custom
        }
    }

    /// The size class of the project's line count.
    pub fn estimate_size(&self, line_count: u64) -> (s: ProjectSize)
        ensures
            s == size_of_lines(line_count),
    {
        if line_count <= 1000 {
            ProjectSize::Small
        } else if line_count <= 10000 {
            ProjectSize::Medium
        } else if line_count <= 100000 {
            ProjectSize::Large
        } else {
            ProjectSize::Huge
        }
    }

    /// The package managers whose marker file exists, given for each file
    /// of [`package_manager_files`] whether it exists.
    pub fn package_managers_from(&self, present: &Vec<bool>) -> (v: Vec<String>)
        requires
            present.len() == 9,
        ensures
            views(v@) == flagged(package_manager_names(), present@),
    {
        let names = strings(&["cargo", "npm", "yarn", "pip", "poetry", "pipenv", "go", "maven", "gradle"]);
        assert(views(names@) =~= package_manager_names());
        pick_flagged(&names, present)
    }

    /// The build tools whose marker file exists, given for each file of
    /// [`build_tool_files`] whether it exists.
    pub fn build_tools_from(&self, present: &Vec<bool>) -> (v: Vec<String>)
        requires
            present.len() == 6,
        ensures
            views(v@) == flagged(build_tool_names(), present@),
    {
        let names = strings(&["make", "cmake", "webpack", "rollup", "vite", "docker"]);
        assert(views(names@) =~= build_tool_names());
        pick_flagged(&names, present)
    }
}

/// Ignore patterns offered when the dead code detector is set up by prompt.
pub open spec fn prompted_dead_code_ignores() -> Seq<Seq<char>> {
    seq!["test/**"@, "tests/**"@, "*_test.rs"@, "*_test.py"@, "*.test.js"@, "*.test.ts"@]
}

/// Ignore patterns offered when the large class detector is set up by prompt.
pub open spec fn prompted_large_class_ignores() -> Seq<Seq<char>> {
    seq!["test/**"@, "tests/**"@, "generated/**"@]
}

impl InitCommand {
    /// The template to use without asking: the one given on the command
    /// line, else the detected one in non-interactive mode; `None` when the
    /// user is to be asked.
    pub fn preset_template(&self, detected: ProjectTemplate) -> (t: Option<ProjectTemplate>)
        ensures
            t == match self.template {
                Some(x) => Some(x),
                None => if self.non_interactive { Some(detected) } else { None },
            },
    {
        match self.template {
            Some(x) => Some(x),
            None => if self.non_interactive { Some(detected) } else { None },
        }
    }

    /// The template picked by an answer to the template menu, and whether
    /// the answer was one the menu offers.
    pub fn template_from_answer(&self, answer: &str, detected: ProjectTemplate) -> (r: (ProjectTemplate, bool))
        ensures
            r.0 == template_choice(answer@, detected),
            r.1 == menu_answer(answer@),
    {
        let a = trim_str(answer);
        if str_eq(a, "1") {
            (ProjectTemplate::Rust, true)
        } else if str_eq(a, "2") {
            (ProjectTemplate::Python, true)
        } else if str_eq(a, "3") {
            (ProjectTemplate::JavaScript, true)
        } else if str_eq(a, "4") {
            (ProjectTemplate::TypeScript, true)
        } else if str_eq(a, "5") {
            (ProjectTemplate::Web, true)
        } else if str_eq(a, "6") {
            (ProjectTemplate::Library, true)
        } else if str_eq(a, "7") {
            (ProjectTemplate::Monorepo, true)
        } else if str_eq(a, "8") {
            (ProjectTemplate::Custom, true)
        } else if str_eq(a, "9") || a.unicode_len() == 0 {
            (detected, true)
        } else {
            (detected, false)
        }
    }

    /// The answer to a yes/no question.
    pub fn yes_no_answer(&self, answer: &str, default: bool) -> (r: bool)
        ensures
            r == yes_no(answer@, default),
    {
        let a = to_lowercase(trim_str(answer));
        proof {
            let t = trimmed(answer@);
            assert(a@ == lowercase(t));
        }
        let s = a.as_str();
        if str_eq(s, "y") || str_eq(s, "yes") {
            true
        } else if str_eq(s, "n") || str_eq(s, "no") {
            false
        } else {
            default
        }
    }

    /// The model picked by an answer to the model menu; `None` when the
    /// user chose to enter a custom model.
    pub fn model_from_answer(&self, answer: &str) -> (r: Option<String>)
        ensures
            crate::text::opt_view(r) == model_choice(answer@),
    {
        let a = trim_str(answer);
        if str_eq(a, "2") {
            Some(owned("codellama:7b-instruct"))
        } else if str_eq(a, "3") {
            Some(owned("llama2:7b-chat"))
        } else if str_eq(a, "4") {
            None
        } else {
            Some(owned("deepseek-coder:6.7b-instruct-q4_0"))
        }
    }

    /// A custom model name as entered.
    pub fn custom_model(&self, answer: &str) -> (m: String)
        ensures
            m@ == trimmed(answer@),
    {
        owned(trim_str(answer))
    }

    /// The thresholds offered as defaults when prompting.
    pub fn default_thresholds(&self, template: ProjectTemplate) -> (r: (u32, u32))
        ensures
            r == prompt_defaults(template),
    {
        match template {
            ProjectTemplate::Rust => (200, 20),
            ProjectTemplate::Python => (300, 30),
            ProjectTemplate::JavaScript | ProjectTemplate::TypeScript => (250, 25),
            ProjectTemplate::Web => (400, 35),
            _ => (250, 25),
        }
    }

    /// The dead code section built from the prompt answers: the default
    /// confidence `0.8` or the entered one, and the library mode answer.
    pub fn dead_code_from_answers(&self, use_default_confidence: bool, entered: Option<F64Bits>, library_mode: bool) -> (dc: DeadCodeConfig)
        ensures
            dc.confidence_threshold == if use_default_confidence { Some(F64Bits { bits: EIGHT_TENTHS_BITS }) } else { entered },
            dc.library_mode == Some(library_mode),
            dc.ignore_patterns matches Some(p) && views(p@) == prompted_dead_code_ignores(),
            dc.keep_alive_patterns matches Some(k) && views(k@) == seq!["main"@, "lib"@, "pub"@],
    {
        let ignores = strings(&["test/**", "tests/**", "*_test.rs", "*_test.py", "*.test.js", "*.test.ts"]);
        let keeps = strings(&["main", "lib", "pub"]);
        assert(views(ignores@) =~= prompted_dead_code_ignores());
        assert(views(keeps@) =~= seq!["main"@, "lib"@, "pub"@]);
        DeadCodeConfig {
            confidence_threshold: if use_default_confidence { Some(F64Bits::from_bits(EIGHT_TENTHS_BITS)) } else { entered },
            library_mode: Some(library_mode),
            ignore_patterns: Some(ignores),
            keep_alive_patterns: Some(keeps),
        }
    }

    /// The large class section built from the prompt answers.
    pub fn large_classes_from_answers(&self, template: ProjectTemplate, max_logical_loc: Option<u32>, max_methods: Option<u32>) -> (lc: LargeClassConfig)
        ensures
            lc.max_logical_loc == max_logical_loc,
            lc.max_methods == max_methods,
            lc.max_fields == Some(50u32),
            lc.max_cyclomatic_complexity == Some(20u32),
            lc.max_cognitive_complexity == Some(25u32),
            lc.max_lcom_score == Some(F64Bits { bits: EIGHT_TENTHS_BITS }),
            lc.max_coupling == Some(30u32),
            lc.ignore_patterns matches Some(p) && views(p@) == prompted_large_class_ignores(),
            lc.language_overrides matches Some(o) && override_views(o@) == language_overrides(template),
    {
        let ignores = strings(&["test/**", "tests/**", "generated/**"]);
        assert(views(ignores@) =~= prompted_large_class_ignores());
        LargeClassConfig {
            max_logical_loc,
            max_methods,
            max_fields: Some(50),
            max_cyclomatic_complexity: Some(20),
            max_cognitive_complexity: Some(25),
            max_lcom_score: Some(F64Bits::from_bits(EIGHT_TENTHS_BITS)),
            max_coupling: Some(30),
            ignore_patterns: Some(ignores),
            language_overrides: Some(self.generate_language_overrides(template)),
        }
    }
}

/// Opening of the generated README, up to the project type.
pub const README_HEAD: &'static str = r#"# Uveddi Analysis Configuration

This project has been set up with Uveddi for automated code analysis.

## Project Information
- **Type**: "#;

/// README text between the project type and the languages.
pub const README_LANGUAGES: &'static str = r#"
- **Languages**: "#;

/// README text between the languages and the estimated size.
pub const README_SIZE: &'static str = r#"
- **Estimated Size**: "#;

/// README text between the size and whether there are tests.
pub const README_TESTS: &'static str = r#"
- **Has Tests**: "#;

/// README text between the tests and whether there are docs.
pub const README_DOCS: &'static str = r#"
- **Has Documentation**: "#;

/// README text between the docs flag and the Git integration note.
pub const README_GIT: &'static str = r#"

## Quick Start

```bash
# Run analysis
uveddi analyze .

# Run with AI explanations
uveddi analyze . --enable-ai

# Generate HTML report
uveddi analyze . --output-format html --output reports/analysis.html

# Check system health
uveddi doctor

# View configuration
uveddi config show
```

## Configuration

The project configuration is stored in `uveddi.toml`. You can:

- Edit the file directly
- Use `uveddi config set key value` to update settings
- Regenerate with `uveddi init --force`

## Git Integration

"#;

/// Closing of the generated README.
pub const README_TAIL: &'static str = r#"

## Troubleshooting

If you encounter issues:

1. Run health check: `uveddi doctor`
2. Check configuration: `uveddi config validate`
3. View detailed help: `uveddi help troubleshooting`

For more information, see the [Uveddi documentation](https://github.com/botzrDev/uveddi).
"#;

/// Git note of the README when hooks are installed.
pub const README_HOOKS_ON: &'static str = "Git pre-commit hooks are installed and will run analysis automatically.";

/// Git note of the README when hooks are not installed.
pub const README_HOOKS_OFF: &'static str = "Git hooks not installed. Run `uveddi init --git-hooks` to enable automated analysis.";

/// The README written into `docs/uveddi`.
pub open spec fn readme_text(
    template: ProjectTemplate,
    languages: Seq<Seq<char>>,
    size: ProjectSize,
    has_tests: bool,
    has_docs: bool,
    git_hooks: bool,
) -> Seq<char> {
    README_HEAD@ + template_name(template) + README_LANGUAGES@ + joined(languages, ", "@)
        + README_SIZE@ + size_name(size) + README_TESTS@ + bool_text(has_tests)
        + README_DOCS@ + bool_text(has_docs) + README_GIT@
        + (if git_hooks { README_HOOKS_ON@ } else { README_HOOKS_OFF@ }) + README_TAIL@
}

fn template_name_str(t: ProjectTemplate) -> (r: &'static str)
    ensures
        r@ == template_name(t),
{
    match t {
        ProjectTemplate::Rust => "Rust",
        ProjectTemplate::Python => "Python",
        ProjectTemplate::JavaScript => "JavaScript",
        ProjectTemplate::TypeScript => "TypeScript",
        ProjectTemplate::Web => "Web",
        ProjectTemplate::Library => "Library",
        ProjectTemplate::Monorepo => "Monorepo",
        ProjectTemplate::Custom => "Custom",
    }
}

fn size_name_str(s: ProjectSize) -> (r: &'static str)
    ensures
        r@ == size_name(s),
{
    match s {
        ProjectSize::Small => "Small",
        ProjectSize::Medium => "Medium",
        ProjectSize::Large => "Large",
        ProjectSize::Huge => "Huge",
    }
}

impl InitCommand {
    /// The README describing the project's analysis set-up.
    pub fn generate_readme_content(&self, template: ProjectTemplate, project_info: &ProjectInfo) -> (s: String)
        ensures
            s@ == readme_text(template, views(project_info.languages@), project_info.estimated_size,
                project_info.has_tests, project_info.has_docs, self.git_hooks),
    {
        let mut s = owned(README_HEAD);
        push_str(&mut s, template_name_str(template));
        push_str(&mut s, README_LANGUAGES);
        let langs = join(&project_info.languages, ", ");
        push_str(&mut s, langs.as_str());
        push_str(&mut s, README_SIZE);
        push_str(&mut s, size_name_str(project_info.estimated_size));
        push_str(&mut s, README_TESTS);
        push_bool(&mut s, project_info.has_tests);
        push_str(&mut s, README_DOCS);
        push_bool(&mut s, project_info.has_docs);
        push_str(&mut s, README_GIT);
        if self.git_hooks {
            push_str(&mut s, README_HOOKS_ON);
        } else {
            push_str(&mut s, README_HOOKS_OFF);
        }
        push_str(&mut s, README_TAIL);
        s
    }
}

impl InitCommand {
    /// The refusal to initialise over an existing configuration: given
    /// whether the configuration file exists and how its path is shown,
    /// the message when it exists and `--force` was not given.
    pub fn existing_config_refusal(&self, config_exists: bool, config_path: &str) -> (r: Option<String>)
        ensures
            r is Some <==> config_exists && !self.force,
            r matches Some(m) ==> m@ == "Configuration already exists at "@ + config_path@
                + ". Use --force to overwrite."@,
    {
        if config_exists && !self.force {
            let mut m = owned("Configuration already exists at ");
            crate::text::push_str(&mut m, config_path);
            crate::text::push_str(&mut m, ". Use --force to overwrite.");
            Some(m)
        } else {
            None
        }
    }
}

} // verus!
