//! `uveddi analyze`: the options of an analysis run and the decisions made
//! from them before and after the analysis itself.

use vstd::prelude::*;
use std::path::PathBuf;
use crate::config::InvalidConfigValue;
use crate::numeric::{F64Bits, ONE_BITS};
use crate::text::{owned, str_eq, contains_seq, contains_chars, chars_of, to_lowercase, lowercase, push_str};

verus! {

/// Arguments of the `analyze` command. Fractional values are carried as
/// [`F64Bits`].
#[derive(Debug)]
pub struct AnalyzeCommand {
    pub path: PathBuf,
    /// `text`, `json`, `markdown` (default) or `html`.
    pub output_format: String,
    pub output: Option<PathBuf>,
    pub enable_ai: bool,
    pub ollama_api_url: Option<String>,
    pub ollama_model: Option<String>,
    pub dead_code_confidence: Option<F64Bits>,
    pub dead_code_library_mode: bool,
    pub dead_code_ignore_patterns: Option<Vec<String>>,
    pub dead_code_keep_alive: Option<Vec<String>>,
    pub large_classes_max_loc: Option<u32>,
    pub large_classes_max_methods: Option<u32>,
    pub large_classes_max_fields: Option<u32>,
    pub large_classes_max_complexity: Option<u32>,
    pub large_classes_max_lcom: Option<F64Bits>,
    pub large_classes_ignore_patterns: Option<Vec<String>>,
    /// Minimum severity score (0-100); 25 by default.
    pub large_classes_min_severity: Option<u32>,
    pub disable_memory_optimization: bool,
    pub memory_limit_gb: Option<F64Bits>,
    /// `small`, `default` (default) or `large`.
    pub memory_profile: Option<String>,
    pub enable_image_rendering: bool,
    pub mermaid_only: bool,
    pub rendering_service_url: String,
    pub no_fallback: bool,
    pub check_rendering_service: bool,
    pub no_diagrams: bool,
    pub max_diagrams: usize,
    pub diagram_output_dir: Option<PathBuf>,
    /// Seconds; 0 disables the timeout.
    pub timeout: u64,
    pub verbose: bool,
    pub progress_format: String,
    pub progress_details: bool,
    pub open_dashboard: bool,
    pub security: bool,
    pub security_only: bool,
    pub min_security_confidence: Option<F64Bits>,
    pub export_sarif: bool,
    pub sarif_output: Option<PathBuf>,
    pub enable_taint_analysis: bool,
    /// Taint analysis depth (1-20); 10 by default.
    pub taint_analysis_depth: Option<u8>,
    pub owasp_categories: Option<Vec<String>>,
}

/// How diagrams are produced.
#[derive(Debug, Clone, Copy, PartialEq, Eq, Structural)]
pub enum DiagramMode {
    /// Mermaid code only, no hosting costs.
    MermaidOnly,
    /// Images only; fails without a rendering service.
    ImageOnly,
    /// Images, falling back to Mermaid when rendering is unavailable.
    ImageWithFallback,
}

/// The diagram mode the flags select.
pub open spec fn diagram_mode(mermaid_only: bool, enable_image_rendering: bool, no_fallback: bool) -> DiagramMode {
    if mermaid_only {
        DiagramMode::MermaidOnly
    } else if enable_image_rendering {
        if no_fallback { DiagramMode::ImageOnly } else { DiagramMode::ImageWithFallback }
    } else {
        DiagramMode::MermaidOnly
    }
}

/// The first conflict among the diagram flags, if any.
pub open spec fn diagram_flag_conflict(c: AnalyzeCommand) -> Option<Seq<char>> {
    if c.mermaid_only && c.enable_image_rendering {
        Some("Cannot use both --mermaid-only and --enable-image-rendering"@)
    } else if c.no_fallback && !c.enable_image_rendering {
        Some("--no-fallback can only be used with --enable-image-rendering"@)
    } else if c.no_diagrams && (c.mermaid_only || c.enable_image_rendering) {
        Some("--no-diagrams cannot be used with --mermaid-only or --enable-image-rendering"@)
    } else if c.diagram_output_dir is Some && !c.enable_image_rendering {
        Some("--diagram-output-dir can only be used with --enable-image-rendering"@)
    } else {
        None
    }
}

/// An optional value lies outside `lo..=hi`.
pub open spec fn out_of_range(v: Option<u32>, lo: u32, hi: u32) -> bool {
    v matches Some(x) && (x < lo || x > hi)
}

/// The memory profiles an analysis accepts.
pub open spec fn known_profile(p: Seq<char>) -> bool {
    p == "small"@ || p == "default"@ || p == "large"@
}

/// The first option out of its allowed values, as `(field, reason)`:
/// the integer thresholds in their ranges, the memory profile among the
/// known ones, and the security options only together with `--security`.
pub open spec fn option_value_error(c: AnalyzeCommand) -> Option<(Seq<char>, Seq<char>)> {
    if out_of_range(c.large_classes_max_loc, 1, 100_000) {
        Some(("large_classes_max_loc"@, "Value must be between 1 and 100000"@))
    } else if out_of_range(c.large_classes_max_methods, 1, 10_000) {
        Some(("large_classes_max_methods"@, "Value must be between 1 and 10000"@))
    } else if out_of_range(c.large_classes_max_fields, 1, 10_000) {
        Some(("large_classes_max_fields"@, "Value must be between 1 and 10000"@))
    } else if out_of_range(c.large_classes_max_complexity, 1, 10_000) {
        Some(("large_classes_max_complexity"@, "Value must be between 1 and 10000"@))
    } else if out_of_range(c.large_classes_min_severity, 0, 100) {
        Some(("large_classes_min_severity"@, "Value must be between 0 and 100"@))
    } else if c.memory_profile matches Some(p) && !known_profile(p@) {
        Some(("memory_profile"@, "Must be one of: small, default, large"@))
    } else if c.taint_analysis_depth matches Some(d) && (d < 1 || d > 20) {
        Some(("taint_analysis_depth"@, "Value must be between 1 and 20"@))
    } else if c.security_only && !c.security {
        Some(("security_only"@, "--security-only requires --security to be enabled"@))
    } else if c.export_sarif && !c.security {
        Some(("export_sarif"@, "--export-sarif requires --security to be enabled"@))
    } else if c.enable_taint_analysis && !c.security {
        Some(("enable_taint_analysis"@, "--enable-taint-analysis requires --security to be enabled"@))
    } else {
        None
    }
}

/// What an analysis failure message points to.
pub open spec fn failure_explanation(message: Seq<char>) -> Seq<char> {
    if contains_seq(message, "database"@) {
        "Database storage failed - check schema compatibility and disk space"@
    } else if contains_seq(message, "parse"@) || contains_seq(message, "AST"@) {
        "Code parsing failed - verify file syntax and language support"@
    } else if contains_seq(message, "memory"@) {
        "Memory limit exceeded - reduce analysis scope or increase memory limits"@
    } else if contains_seq(message, "permission"@) || contains_seq(message, "access"@) {
        "File access denied - check file permissions and access rights"@
    } else {
        "Analysis failed"@
    }
}

/// One gibibyte.
pub const GIB: u64 = 1024 * 1024 * 1024;

/// The memory limit, in whole gigabytes, chosen for a machine with the
/// given memory: 8 from 16 GiB, 4 from 8 GiB, 2 from 4 GiB, 1 below.
pub open spec fn memory_limit_gb_for(total_bytes: u64) -> u64 {
    if total_bytes >= 16 * GIB {
        8
    } else if total_bytes >= 8 * GIB {
        4
    } else if total_bytes >= 4 * GIB {
        2
    } else {
        1
    }
}

/// The bit pattern of a small whole number of gigabytes.
pub open spec fn gb_bits(n: u64) -> u64 {
    if n == 8 {
        0x4020_0000_0000_0000
    } else if n == 4 {
        0x4010_0000_0000_0000
    } else if n == 2 {
        0x4000_0000_0000_0000
    } else {
        ONE_BITS
    }
}

/// The memory profile chosen for a machine with the given memory.
pub open spec fn memory_profile_for(total_bytes: u64) -> Seq<char> {
    if total_bytes >= 16 * GIB {
        "large"@
    } else if total_bytes >= 8 * GIB {
        "default"@
    } else {
        "small"@
    }
}

/// The source file extensions an analysis accepts, compared without case.
pub open spec fn supported_extension(ext: Seq<char>) -> bool {
    let e = lowercase(ext);
    e == "rs"@ || e == "py"@ || e == "js"@ || e == "ts"@ || e == "jsx"@ || e == "tsx"@
        || e == "java"@ || e == "cpp"@ || e == "c"@ || e == "h"@ || e == "hpp"@
}

/// A path that the fallback file discovery skips: inside `.git`, `target`,
/// `node_modules`, `__pycache__`, `build` or `dist`.
pub open spec fn skipped_by_fallback(path: Seq<char>) -> bool {
    contains_seq(path, "/.git/"@) || contains_seq(path, "/target/"@)
        || contains_seq(path, "/node_modules/"@) || contains_seq(path, "/__pycache__/"@)
        || contains_seq(path, "/build/"@) || contains_seq(path, "/dist/"@)
}

fn contains_text(hay: &str, needle: &str) -> (r: bool)
    ensures
        r == contains_seq(hay@, needle@),
{
    contains_chars(&chars_of(hay), &chars_of(needle))
}

fn range_violation(v: Option<u32>, lo: u32, hi: u32) -> (r: bool)
    ensures
        r == out_of_range(v, lo, hi),
{
    match v {
        Some(x) => x < lo || x > hi,
        None => false,
    }
}

fn refusal(field: &str, reason: &str) -> (r: Result<(), InvalidConfigValue>)
    ensures
        r matches Err(e) && e.field@ == field@ && e.reason@ == reason@,
{
    Err(InvalidConfigValue { field: owned(field), reason: owned(reason) })
}

/// Explains an analysis failure from its message.
pub fn explain_failure(message: &str) -> (r: &'static str)
    ensures
        r@ == failure_explanation(message@),
{
    if contains_text(message, "database") {
        "Database storage failed - check schema compatibility and disk space"
    } else if contains_text(message, "parse") || contains_text(message, "AST") {
        "Code parsing failed - verify file syntax and language support"
    } else if contains_text(message, "memory") {
        "Memory limit exceeded - reduce analysis scope or increase memory limits"
    } else if contains_text(message, "permission") || contains_text(message, "access") {
        "File access denied - check file permissions and access rights"
    } else {
        "Analysis failed"
    }
}

/// Whether a file extension is one of the supported source extensions.
pub fn is_supported_extension(ext: &str) -> (r: bool)
    ensures
        r == supported_extension(ext@),
{
    let l = to_lowercase(ext);
    let e = l.as_str();
    str_eq(e, "rs") || str_eq(e, "py") || str_eq(e, "js") || str_eq(e, "ts") || str_eq(e, "jsx")
        || str_eq(e, "tsx") || str_eq(e, "java") || str_eq(e, "cpp") || str_eq(e, "c")
        || str_eq(e, "h") || str_eq(e, "hpp")
}

/// Whether the fallback file discovery skips a path.
pub fn is_skipped_by_fallback(path: &str) -> (r: bool)
    ensures
        r == skipped_by_fallback(path@),
{
    contains_text(path, "/.git/") || contains_text(path, "/target/") || contains_text(path, "/node_modules/")
        || contains_text(path, "/__pycache__/") || contains_text(path, "/build/") || contains_text(path, "/dist/")
}

impl AnalyzeCommand {
    /// The diagram mode the flags select; Mermaid-only by default.
    pub fn get_diagram_mode(&self) -> (m: DiagramMode)
        ensures
            m == diagram_mode(self.mermaid_only, self.enable_image_rendering, self.no_fallback),
    {
        if self.mermaid_only {
            DiagramMode::MermaidOnly
        } else if self.enable_image_rendering {
            if self.no_fallback { DiagramMode::ImageOnly } else { DiagramMode::ImageWithFallback }
        } else {
            DiagramMode::MermaidOnly
        }
    }

    /// Checks the diagram flags for combinations that contradict each other.
    pub fn validate(&self) -> (r: Result<(), String>)
        ensures
            r is Ok <==> diagram_flag_conflict(*self) is None,
            r matches Err(e) ==> e@ == diagram_flag_conflict(*self)->Some_0,
    {
        if self.mermaid_only && self.enable_image_rendering {
            return Err(owned("Cannot use both --mermaid-only and --enable-image-rendering"));
        }
        if self.no_fallback && !self.enable_image_rendering {
            return Err(owned("--no-fallback can only be used with --enable-image-rendering"));
        }
        if self.no_diagrams && (self.mermaid_only || self.enable_image_rendering) {
            return Err(owned("--no-diagrams cannot be used with --mermaid-only or --enable-image-rendering"));
        }
        if self.diagram_output_dir.is_some() && !self.enable_image_rendering {
            return Err(owned("--diagram-output-dir can only be used with --enable-image-rendering"));
        }
        Ok(())
    }

    /// Checks the option values: integer thresholds within their ranges,
    /// a known memory profile, and the security options only with
    /// `--security`. The first offending option is reported.
    pub fn check_option_values(&self) -> (r: Result<(), InvalidConfigValue>)
        ensures
            r is Ok <==> option_value_error(*self) is None,
            r matches Err(e) ==> e.field@ == option_value_error(*self)->Some_0.0
                && e.reason@ == option_value_error(*self)->Some_0.1,
    {
        if range_violation(self.large_classes_max_loc, 1, 100_000) {
            return refusal("large_classes_max_loc", "Value must be between 1 and 100000");
        }
        if range_violation(self.large_classes_max_methods, 1, 10_000) {
            return refusal("large_classes_max_methods", "Value must be between 1 and 10000");
        }
        if range_violation(self.large_classes_max_fields, 1, 10_000) {
            return refusal("large_classes_max_fields", "Value must be between 1 and 10000");
        }
        if range_violation(self.large_classes_max_complexity, 1, 10_000) {
            return refusal("large_classes_max_complexity", "Value must be between 1 and 10000");
        }
        if range_violation(self.large_classes_min_severity, 0, 100) {
            return refusal("large_classes_min_severity", "Value must be between 0 and 100");
        }
        if let Some(p) = &self.memory_profile {
            let s = p.as_str();
            if !(str_eq(s, "small") || str_eq(s, "default") || str_eq(s, "large")) {
                return refusal("memory_profile", "Must be one of: small, default, large");
            }
        }
        if let Some(d) = self.taint_analysis_depth {
            if d < 1 || d > 20 {
                return refusal("taint_analysis_depth", "Value must be between 1 and 20");
            }
        }
        if self.security_only && !self.security {
            return refusal("security_only", "--security-only requires --security to be enabled");
        }
        if self.export_sarif && !self.security {
            return refusal("export_sarif", "--export-sarif requires --security to be enabled");
        }
        if self.enable_taint_analysis && !self.security {
            return refusal("enable_taint_analysis", "--enable-taint-analysis requires --security to be enabled");
        }
        Ok(())
    }

    /// The memory limit and profile an analysis runs with on a machine with
    /// `total_memory_bytes` of memory. With memory optimisation (the
    /// default) a missing limit is chosen from the machine's memory and the
    /// profile is the requested one or the machine's; without it the limit
    /// and profile are the requested ones.
    pub fn memory_settings(&self, total_memory_bytes: u64) -> (r: (Option<F64Bits>, Option<String>))
        ensures
            r.0 == match self.memory_limit_gb {
                Some(l) => Some(l),
                None => if self.disable_memory_optimization {
                    None
                } else {
                    Some(F64Bits { bits: gb_bits(memory_limit_gb_for(total_memory_bytes)) })
                },
            },
            crate::text::opt_view(r.1) == if self.disable_memory_optimization {
                crate::text::opt_view(self.memory_profile)
            } else {
                match self.memory_profile {
                    Some(p) => Some(p@),
                    None => Some(memory_profile_for(total_memory_bytes)),
                }
            },
    {
        let enable = !self.disable_memory_optimization;
        let limit = match self.memory_limit_gb {
            Some(l) => Some(l),
            None => if enable {
                let gb: u64 = if total_memory_bytes >= 16 * GIB {
                    8
                } else if total_memory_bytes >= 8 * GIB {
                    4
                } else if total_memory_bytes >= 4 * GIB {
                    2
                } else {
                    1
                };
                let bits: u64 = if gb == 8 {
                    0x4020_0000_0000_0000
                } else if gb == 4 {
                    0x4010_0000_0000_0000
                } else if gb == 2 {
                    0x4000_0000_0000_0000
                } else {
                    ONE_BITS
                };
                Some(F64Bits::from_bits(bits))
            } else {
                None
            },
        };
        let profile = if enable {
            match &self.memory_profile {
                Some(p) => Some(p.clone()),
                None => Some(if total_memory_bytes >= 16 * GIB {
                    owned("large")
                } else if total_memory_bytes >= 8 * GIB {
                    owned("default")
                } else {
                    owned("small")
                }),
            }
        } else {
            match &self.memory_profile {
                Some(p) => Some(p.clone()),
                None => None,
            }
        };
        (limit, profile)
    }
}

/// What the file system says about the path to analyse.
#[derive(Debug, Clone)]
pub struct PathFacts {
    /// The path as displayed to the user.
    pub display: String,
    pub exists: bool,
    /// The error text when the path's metadata cannot be read.
    pub access_error: Option<String>,
    pub is_file: bool,
    /// The extension of a file path, if it has one.
    pub extension: Option<String>,
    pub is_dir: bool,
    /// The extensions of the files found under a directory, `None` for a
    /// file without one.
    pub found_extensions: Vec<Option<String>>,
}

/// The supported extensions as the messages list them.
pub open spec fn supported_list() -> Seq<char> {
    "rs, py, js, ts, jsx, tsx, java, cpp, c, h, hpp"@
}

/// A found file has a supported extension.
pub open spec fn supported_entry(o: Option<String>) -> bool {
    match o {
        Some(e) => supported_extension(e@),
        None => false,
    }
}

/// One of the files found has a supported extension.
pub open spec fn any_supported(found: Seq<Option<String>>) -> bool {
    exists|i: int| 0 <= i < found.len() && supported_entry(#[trigger] found[i])
}

/// Why the analysis path is refused, if it is: it must exist and be
/// readable; a file must have a supported extension when it has one; a
/// directory must hold at least one supported file.
pub open spec fn path_refusal(f: PathFacts) -> Option<Seq<char>> {
    let d = f.display@;
    if !f.exists {
        Some("Path '"@ + d + "' does not exist.\n💡 Suggestion: Check the path spelling and ensure the directory/file exists"@)
    } else if f.access_error is Some {
        Some("Cannot access path '"@ + d + "': "@ + f.access_error->Some_0@
            + "\n💡 Suggestion: Check file permissions and run with appropriate privileges"@)
    } else if f.is_file && f.extension is Some && !supported_extension(f.extension->Some_0@) {
        Some("Unsupported file type '."@ + lowercase(f.extension->Some_0@) + "' for file '"@ + d
            + "'.\n✅ Supported file types: "@ + supported_list()
            + "\n💡 Suggestion: Specify a directory containing supported files or use a supported file extension"@)
    } else if f.is_dir && !any_supported(f.found_extensions@) {
        Some("Directory '"@ + d + "' contains no supported source files.\n✅ Supported file types: "@ + supported_list()
            + "\n💡 Suggestion: Ensure the directory contains source code files with supported extensions"@)
    } else {
        None
    }
}

fn has_supported_file(found: &Vec<Option<String>>) -> (r: bool)
    ensures
        r == any_supported(found@),
{
    let mut i: usize = 0;
    while i < found.len()
        invariant
            i <= found.len(),
            forall|j: int| 0 <= j < i ==> !supported_entry(#[trigger] found@[j]),
        decreases found.len() - i,
    {
        if let Some(e) = &found[i] {
            if is_supported_extension(e.as_str()) {
                return true;
            }
        }
        i = i + 1;
    }
    false
}

/// Checks the analysis path from what the file system says about it.
pub fn check_analysis_path(facts: &PathFacts) -> (r: Result<(), InvalidConfigValue>)
    ensures
        r is Ok <==> path_refusal(*facts) is None,
        r matches Err(e) ==> e.field@ == "path"@ && e.reason@ == path_refusal(*facts)->Some_0,
{
    proof {
        reveal_strlit("Path '");
        reveal_strlit("' does not exist.\n💡 Suggestion: Check the path spelling and ensure the directory/file exists");
        reveal_strlit("Cannot access path '");
        reveal_strlit("': ");
        reveal_strlit("\n💡 Suggestion: Check file permissions and run with appropriate privileges");
        reveal_strlit("Unsupported file type '.");
        reveal_strlit("' for file '");
        reveal_strlit("'.\n✅ Supported file types: ");
        reveal_strlit("rs, py, js, ts, jsx, tsx, java, cpp, c, h, hpp");
        reveal_strlit("\n💡 Suggestion: Specify a directory containing supported files or use a supported file extension");
        reveal_strlit("Directory '");
        reveal_strlit("' contains no supported source files.\n✅ Supported file types: ");
        reveal_strlit("\n💡 Suggestion: Ensure the directory contains source code files with supported extensions");
    }
    let d = facts.display.as_str();
    let mut reason = String::new();
    if !facts.exists {
        push_str(&mut reason, "Path '");
        push_str(&mut reason, d);
        push_str(&mut reason, "' does not exist.\n💡 Suggestion: Check the path spelling and ensure the directory/file exists");
    } else if let Some(err) = &facts.access_error {
        push_str(&mut reason, "Cannot access path '");
        push_str(&mut reason, d);
        push_str(&mut reason, "': ");
        push_str(&mut reason, err.as_str());
        push_str(&mut reason, "\n💡 Suggestion: Check file permissions and run with appropriate privileges");
    } else if facts.is_file && facts.extension.is_some() && !is_supported_extension(facts.extension.as_ref().unwrap().as_str()) {
        let ext = to_lowercase(facts.extension.as_ref().unwrap().as_str());
        push_str(&mut reason, "Unsupported file type '.");
        push_str(&mut reason, ext.as_str());
        push_str(&mut reason, "' for file '");
        push_str(&mut reason, d);
        push_str(&mut reason, "'.\n✅ Supported file types: ");
        push_str(&mut reason, "rs, py, js, ts, jsx, tsx, java, cpp, c, h, hpp");
        push_str(&mut reason, "\n💡 Suggestion: Specify a directory containing supported files or use a supported file extension");
    } else if facts.is_dir && !has_supported_file(&facts.found_extensions) {
        push_str(&mut reason, "Directory '");
        push_str(&mut reason, d);
        push_str(&mut reason, "' contains no supported source files.\n✅ Supported file types: ");
        push_str(&mut reason, "rs, py, js, ts, jsx, tsx, java, cpp, c, h, hpp");
        push_str(&mut reason, "\n💡 Suggestion: Ensure the directory contains source code files with supported extensions");
    } else {
        return Ok(());
    }
    assert(reason@ =~= path_refusal(*facts)->Some_0);
    Err(InvalidConfigValue { field: owned("path"), reason })
}

} // verus!
