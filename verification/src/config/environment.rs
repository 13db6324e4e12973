//! Configuration read from environment variables.
//!
//! The caller reads the variables; this module decides what configuration
//! they describe. Fractional values arrive already parsed: the outer
//! `Option` tells whether the variable is set, the inner one whether its
//! text is a number.

use vstd::prelude::*;
use crate::config::{Config, DeadCodeConfig, LargeClassConfig};
use crate::numeric::F64Bits;
use crate::text::{parse_u32, parsed_u32, parse_bool, parsed_bool, split_trimmed, split_pieces, trimmed, views, opt_view};

verus! {

/// The environment variables the configuration reads, `None` when unset.
#[derive(Debug, Clone)]
pub struct ConfigEnv {
    /// `OLLAMA_MODEL`.
    pub ollama_model: Option<String>,
    /// `DEAD_CODE_CONFIDENCE_THRESHOLD`, parsed.
    pub dead_code_confidence_threshold: Option<Option<F64Bits>>,
    /// `DEAD_CODE_LIBRARY_MODE`.
    pub dead_code_library_mode: Option<String>,
    /// `DEAD_CODE_IGNORE_PATTERNS`, comma separated.
    pub dead_code_ignore_patterns: Option<String>,
    /// `DEAD_CODE_KEEP_ALIVE_PATTERNS`, comma separated.
    pub dead_code_keep_alive_patterns: Option<String>,
    /// `LARGE_CLASSES_MAX_LOC`.
    pub large_classes_max_loc: Option<String>,
    /// `LARGE_CLASSES_MAX_METHODS`.
    pub large_classes_max_methods: Option<String>,
    /// `LARGE_CLASSES_MAX_FIELDS`.
    pub large_classes_max_fields: Option<String>,
    /// `LARGE_CLASSES_MAX_COMPLEXITY`.
    pub large_classes_max_complexity: Option<String>,
    /// `LARGE_CLASSES_MAX_COGNITIVE_COMPLEXITY`.
    pub large_classes_max_cognitive_complexity: Option<String>,
    /// `LARGE_CLASSES_MAX_LCOM`, parsed.
    pub large_classes_max_lcom: Option<Option<F64Bits>>,
    /// `LARGE_CLASSES_MAX_COUPLING`.
    pub large_classes_max_coupling: Option<String>,
    /// `LARGE_CLASSES_IGNORE_PATTERNS`, comma separated.
    pub large_classes_ignore_patterns: Option<String>,
}

/// An optional number read from an optional variable.
pub open spec fn env_u32(v: Option<String>) -> Option<u32> {
    match v {
        Some(s) => parsed_u32(s@),
        None => None,
    }
}

/// A parsed fraction of an optional variable.
pub open spec fn env_fraction(v: Option<Option<F64Bits>>) -> Option<F64Bits> {
    match v {
        Some(x) => x,
        None => None,
    }
}

/// The comma-separated, trimmed patterns of an optional variable.
pub open spec fn env_patterns(v: Option<String>) -> Option<Seq<Seq<char>>> {
    match v {
        Some(s) => Some(split_pieces(s@, ',').map_values(|p: Seq<char>| trimmed(p))),
        None => None,
    }
}

/// Patterns as characters.
pub open spec fn patterns_view(v: Option<Vec<String>>) -> Option<Seq<Seq<char>>> {
    match v {
        Some(p) => Some(views(p@)),
        None => None,
    }
}

/// The dead code section is configured from the environment.
pub open spec fn dead_code_requested(e: ConfigEnv) -> bool {
    e.dead_code_confidence_threshold is Some || e.dead_code_library_mode is Some
        || e.dead_code_ignore_patterns is Some || e.dead_code_keep_alive_patterns is Some
}

/// The large class section is configured from the environment.
pub open spec fn large_classes_requested(e: ConfigEnv) -> bool {
    e.large_classes_max_loc is Some || e.large_classes_max_methods is Some
        || e.large_classes_max_fields is Some || e.large_classes_ignore_patterns is Some
}

/// The dead code section the variables describe.
pub open spec fn env_dead_code(dc: DeadCodeConfig, e: ConfigEnv) -> bool {
    &&& dc.confidence_threshold == env_fraction(e.dead_code_confidence_threshold)
    &&& dc.library_mode == match e.dead_code_library_mode { Some(s) => parsed_bool(s@), None => None }
    &&& patterns_view(dc.ignore_patterns) == env_patterns(e.dead_code_ignore_patterns)
    &&& patterns_view(dc.keep_alive_patterns) == env_patterns(e.dead_code_keep_alive_patterns)
}

/// The large class section the variables describe.
pub open spec fn env_large_classes(lc: LargeClassConfig, e: ConfigEnv) -> bool {
    &&& lc.max_logical_loc == env_u32(e.large_classes_max_loc)
    &&& lc.max_methods == env_u32(e.large_classes_max_methods)
    &&& lc.max_fields == env_u32(e.large_classes_max_fields)
    &&& lc.max_cyclomatic_complexity == env_u32(e.large_classes_max_complexity)
    &&& lc.max_cognitive_complexity == env_u32(e.large_classes_max_cognitive_complexity)
    &&& lc.max_lcom_score == env_fraction(e.large_classes_max_lcom)
    &&& lc.max_coupling == env_u32(e.large_classes_max_coupling)
    &&& patterns_view(lc.ignore_patterns) == env_patterns(e.large_classes_ignore_patterns)
    &&& lc.language_overrides is None
}

fn number(v: &Option<String>) -> (r: Option<u32>)
    ensures
        r == env_u32(*v),
{
    match v {
        Some(s) => parse_u32(s.as_str()),
        None => None,
    }
}

fn patterns(v: &Option<String>) -> (r: Option<Vec<String>>)
    ensures
        patterns_view(r) == env_patterns(*v),
{
    match v {
        Some(s) => Some(split_trimmed(s.as_str(), ',')),
        None => None,
    }
}

fn fraction(v: Option<Option<F64Bits>>) -> (r: Option<F64Bits>)
    ensures
        r == env_fraction(v),
{
    match v {
        Some(x) => x,
        None => None,
    }
}

impl Config {
    /// The configuration the environment variables describe. The model is
    /// taken as given; the dead code section exists when one of its four
    /// variables is set, the large class section when its line, method,
    /// field or ignore variable is set; numbers that do not parse are
    /// left unset; language overrides cannot be given this way.
    pub fn from_env_values(env: &ConfigEnv) -> (c: Config)
        ensures
            opt_view(c.ollama_model) == opt_view(env.ollama_model),
            c.dead_code is Some <==> dead_code_requested(*env),
            c.dead_code matches Some(dc) ==> env_dead_code(dc, *env),
            c.large_classes is Some <==> large_classes_requested(*env),
            c.large_classes matches Some(lc) ==> env_large_classes(lc, *env),
    {
        let ollama_model = match &env.ollama_model {
            Some(m) => Some(m.clone()),
            None => None,
        };
        let dead_code = if env.dead_code_confidence_threshold.is_some() || env.dead_code_library_mode.is_some()
            || env.dead_code_ignore_patterns.is_some() || env.dead_code_keep_alive_patterns.is_some() {
            Some(DeadCodeConfig {
                confidence_threshold: fraction(env.dead_code_confidence_threshold),
                library_mode: match &env.dead_code_library_mode {
                    Some(s) => parse_bool(s.as_str()),
                    None => None,
                },
                ignore_patterns: patterns(&env.dead_code_ignore_patterns),
                keep_alive_patterns: patterns(&env.dead_code_keep_alive_patterns),
            })
        } else {
            None
        };
        let large_classes = if env.large_classes_max_loc.is_some() || env.large_classes_max_methods.is_some()
            || env.large_classes_max_fields.is_some() || env.large_classes_ignore_patterns.is_some() {
            Some(LargeClassConfig {
                max_logical_loc: number(&env.large_classes_max_loc),
                max_methods: number(&env.large_classes_max_methods),
                max_fields: number(&env.large_classes_max_fields),
                max_cyclomatic_complexity: number(&env.large_classes_max_complexity),
                max_cognitive_complexity: number(&env.large_classes_max_cognitive_complexity),
                max_lcom_score: fraction(env.large_classes_max_lcom),
                max_coupling: number(&env.large_classes_max_coupling),
                ignore_patterns: patterns(&env.large_classes_ignore_patterns),
                language_overrides: None,
            })
        } else {
            None
        };
        Config { ollama_model, dead_code, large_classes }
    }
}

} // verus!
