//! Analysis configuration: the settings a project gives the analyser, the
//! checks that keep their values in range, and the service interfaces the
//! analysis pipeline is built from.
//!
//! Fractional thresholds are carried as [`F64Bits`] and compared exactly as
//! IEEE-754 compares `f64` values.

pub mod monitoring;
pub mod validation;
pub mod environment;

use vstd::prelude::*;
use crate::numeric::{F64Bits, f64_le, ZERO_BITS, ONE_BITS};
use crate::text::{owned, push_str};
use std::path::Path;

verus! {

/// Settings of the dead code detector.
#[derive(Debug, Clone)]
pub struct DeadCodeConfig {
    /// Minimum confidence for reporting, a fraction in `0.0..=1.0`.
    pub confidence_threshold: Option<F64Bits>,
    /// Analyse exported symbols as a library would.
    pub library_mode: Option<bool>,
    /// Paths to leave out (tests, generated code).
    pub ignore_patterns: Option<Vec<String>>,
    /// Symbols always considered live.
    pub keep_alive_patterns: Option<Vec<String>>,
}

/// Per-language thresholds of the large class detector.
#[derive(Debug, Clone)]
pub struct LanguageThresholds {
    pub max_logical_loc: Option<u32>,
    pub max_methods: Option<u32>,
    pub max_fields: Option<u32>,
    pub max_cyclomatic_complexity: Option<u32>,
    pub max_cognitive_complexity: Option<u32>,
    /// Maximum LCOM score, a fraction in `0.0..=1.0`.
    pub max_lcom_score: Option<F64Bits>,
    pub max_coupling: Option<u32>,
}

/// Settings of the large class detector.
#[derive(Debug, Clone)]
pub struct LargeClassConfig {
    pub max_logical_loc: Option<u32>,
    pub max_methods: Option<u32>,
    pub max_fields: Option<u32>,
    pub max_cyclomatic_complexity: Option<u32>,
    pub max_cognitive_complexity: Option<u32>,
    /// Maximum LCOM score, a fraction in `0.0..=1.0`.
    pub max_lcom_score: Option<F64Bits>,
    pub max_coupling: Option<u32>,
    pub ignore_patterns: Option<Vec<String>>,
    /// Language-specific overrides, one entry per language, in the order
    /// in which the configuration lists them.
    pub language_overrides: Option<Vec<(String, LanguageThresholds)>>,
}

/// The analyser's configuration. Every section is optional.
#[derive(Debug, Clone)]
pub struct Config {
    /// The Ollama model used for AI-assisted analysis.
    pub ollama_model: Option<String>,
    pub dead_code: Option<DeadCodeConfig>,
    pub large_classes: Option<LargeClassConfig>,
}

/// A configuration value outside its allowed range.
#[derive(Debug, Clone)]
pub struct InvalidConfigValue {
    /// Dotted path of the offending setting.
    pub field: String,
    /// Why the value is refused.
    pub reason: String,
}

/// The range checks of [`Config::validate`], in the order they are made.
pub enum ConfigViolation {
    ConfidenceThreshold,
    MaxLogicalLoc,
    MaxMethods,
    MaxFields,
    LcomScore,
    OverrideMaxLogicalLoc(Seq<char>),
    OverrideLcomScore(Seq<char>),
}

/// Largest accepted line-of-code threshold.
pub const MAX_LOC_LIMIT: u32 = 100_000;

/// Largest accepted method or field threshold.
pub const MAX_MEMBER_LIMIT: u32 = 10_000;

/// A fraction lies in `0.0..=1.0`.
pub open spec fn unit_fraction(v: F64Bits) -> bool {
    f64_le(ZERO_BITS, v.bits) && f64_le(v.bits, ONE_BITS)
}

/// An optional threshold exceeds `limit`.
pub open spec fn exceeds(v: Option<u32>, limit: u32) -> bool {
    v matches Some(x) && x > limit
}

/// An optional fraction lies outside `0.0..=1.0`.
pub open spec fn outside_unit(v: Option<F64Bits>) -> bool {
    v matches Some(x) && !unit_fraction(x)
}

/// The first language override, in list order, with a value out of range.
pub open spec fn override_violation(o: Seq<(String, LanguageThresholds)>) -> Option<ConfigViolation>
    decreases o.len(),
{
    if o.len() == 0 {
        None
    } else if exceeds(o[0].1.max_logical_loc, MAX_LOC_LIMIT) {
        Some(ConfigViolation::OverrideMaxLogicalLoc(o[0].0@))
    } else if outside_unit(o[0].1.max_lcom_score) {
        Some(ConfigViolation::OverrideLcomScore(o[0].0@))
    } else {
        override_violation(o.drop_first())
    }
}

/// The first range check that a configuration fails, if any.
pub open spec fn first_violation(c: Config) -> Option<ConfigViolation> {
    if c.dead_code matches Some(dc) && outside_unit(dc.confidence_threshold) {
        Some(ConfigViolation::ConfidenceThreshold)
    } else {
        match c.large_classes {
            Some(lc) => large_class_violation(lc),
            None => None,
        }
    }
}

/// The first range check of the large class section that fails, if any.
pub open spec fn large_class_violation(lc: LargeClassConfig) -> Option<ConfigViolation> {
    if exceeds(lc.max_logical_loc, MAX_LOC_LIMIT) {
        Some(ConfigViolation::MaxLogicalLoc)
    } else if exceeds(lc.max_methods, MAX_MEMBER_LIMIT) {
        Some(ConfigViolation::MaxMethods)
    } else if exceeds(lc.max_fields, MAX_MEMBER_LIMIT) {
        Some(ConfigViolation::MaxFields)
    } else if outside_unit(lc.max_lcom_score) {
        Some(ConfigViolation::LcomScore)
    } else {
        match lc.language_overrides {
            Some(o) => override_violation(o@),
            None => None,
        }
    }
}

/// The setting a violation names.
pub open spec fn violation_field(v: ConfigViolation) -> Seq<char> {
    match v {
        ConfigViolation::ConfidenceThreshold => "dead_code.confidence_threshold"@,
        ConfigViolation::MaxLogicalLoc => "large_classes.max_logical_loc"@,
        ConfigViolation::MaxMethods => "large_classes.max_methods"@,
        ConfigViolation::MaxFields => "large_classes.max_fields"@,
        ConfigViolation::LcomScore => "large_classes.max_lcom_score"@,
        ConfigViolation::OverrideMaxLogicalLoc(l) =>
            "large_classes.language_overrides."@ + l + ".max_logical_loc"@,
        ConfigViolation::OverrideLcomScore(l) =>
            "large_classes.language_overrides."@ + l + ".max_lcom_score"@,
    }
}

/// The reason a violation gives.
pub open spec fn violation_reason(v: ConfigViolation) -> Seq<char> {
    match v {
        ConfigViolation::ConfidenceThreshold => "Confidence threshold must be between 0.0 and 1.0"@,
        ConfigViolation::MaxLogicalLoc => "Maximum LOC threshold exceeds reasonable limit of 100,000"@,
        ConfigViolation::MaxMethods => "Maximum methods threshold exceeds reasonable limit of 10,000"@,
        ConfigViolation::MaxFields => "Maximum fields threshold exceeds reasonable limit of 10,000"@,
        ConfigViolation::LcomScore => "LCOM score must be between 0.0 and 1.0"@,
        ConfigViolation::OverrideMaxLogicalLoc(_) =>
            "Maximum LOC threshold exceeds reasonable limit of 100,000"@,
        ConfigViolation::OverrideLcomScore(_) => "LCOM score must be between 0.0 and 1.0"@,
    }
}

fn violation(field: String, reason: &str) -> (e: InvalidConfigValue)
    ensures
        e.field@ == field@,
        e.reason@ == reason@,
{
    InvalidConfigValue { field, reason: owned(reason) }
}

fn override_field(language: &String, setting: &str) -> (s: String)
    ensures
        s@ == "large_classes.language_overrides."@ + language@ + "."@ + setting@,
{
    let mut s = owned("large_classes.language_overrides.");
    push_str(&mut s, language.as_str());
    push_str(&mut s, ".");
    push_str(&mut s, setting);
    s
}

fn optional_exceeds(v: Option<u32>, limit: u32) -> (r: bool)
    ensures
        r == exceeds(v, limit),
{
    match v {
        Some(x) => x > limit,
        None => false,
    }
}

fn optional_outside_unit(v: Option<F64Bits>) -> (r: bool)
    ensures
        r == outside_unit(v),
{
    match v {
        Some(x) => !x.in_unit_interval(),
        None => false,
    }
}

impl Config {
    /// Checks that the numeric settings lie in their allowed ranges: the
    /// fractions in `0.0..=1.0`, the line-of-code thresholds at most
    /// 100,000, the method and field thresholds at most 10,000, for the
    /// main sections and for each language override. The first setting out
    /// of range, in that order, is reported.
    pub fn validate(&self) -> (r: Result<(), InvalidConfigValue>)
        ensures
            r is Ok <==> first_violation(*self) is None,
            r matches Err(e) ==> ({
                let v = first_violation(*self)->Some_0;
                e.field@ == violation_field(v) && e.reason@ == violation_reason(v)
            }),
    {
        proof {
            reveal_strlit("dead_code.confidence_threshold");
            reveal_strlit("large_classes.max_logical_loc");
            reveal_strlit("large_classes.max_methods");
            reveal_strlit("large_classes.max_fields");
            reveal_strlit("large_classes.max_lcom_score");
        }
        if let Some(dc) = &self.dead_code {
            if optional_outside_unit(dc.confidence_threshold) {
                return Err(violation(
                    owned("dead_code.confidence_threshold"),
                    "Confidence threshold must be between 0.0 and 1.0",
                ));
            }
        }
        if let Some(lc) = &self.large_classes {
            if optional_exceeds(lc.max_logical_loc, MAX_LOC_LIMIT) {
                return Err(violation(
                    owned("large_classes.max_logical_loc"),
                    "Maximum LOC threshold exceeds reasonable limit of 100,000",
                ));
            }
            if optional_exceeds(lc.max_methods, MAX_MEMBER_LIMIT) {
                return Err(violation(
                    owned("large_classes.max_methods"),
                    "Maximum methods threshold exceeds reasonable limit of 10,000",
                ));
            }
            if optional_exceeds(lc.max_fields, MAX_MEMBER_LIMIT) {
                return Err(violation(
                    owned("large_classes.max_fields"),
                    "Maximum fields threshold exceeds reasonable limit of 10,000",
                ));
            }
            if optional_outside_unit(lc.max_lcom_score) {
                return Err(violation(
                    owned("large_classes.max_lcom_score"),
                    "LCOM score must be between 0.0 and 1.0",
                ));
            }
            if let Some(overrides) = &lc.language_overrides {
                return validate_overrides(overrides);
            }
        }
        Ok(())
    }
}

fn validate_overrides(o: &Vec<(String, LanguageThresholds)>) -> (r: Result<(), InvalidConfigValue>)
    ensures
        r is Ok <==> override_violation(o@) is None,
        r matches Err(e) ==> ({
            let v = override_violation(o@)->Some_0;
            e.field@ == violation_field(v) && e.reason@ == violation_reason(v)
        }),
{
    let mut i: usize = 0;
    assert(o@.subrange(0, o@.len() as int) =~= o@);
    while i < o.len()
        invariant
            i <= o.len(),
            override_violation(o@) == override_violation(o@.subrange(i as int, o@.len() as int)),
        decreases o.len() - i,
    {
        proof {
            reveal_strlit(".max_logical_loc");
            reveal_strlit("max_logical_loc");
            reveal_strlit(".max_lcom_score");
            reveal_strlit("max_lcom_score");
            reveal_strlit(".");
        }
        let ghost rest = o@.subrange(i as int, o@.len() as int);
        assert(rest.drop_first() =~= o@.subrange(i + 1, o@.len() as int));
        let (language, t) = &o[i];
        if optional_exceeds(t.max_logical_loc, MAX_LOC_LIMIT) {
            return Err(violation(
                override_field(language, "max_logical_loc"),
                "Maximum LOC threshold exceeds reasonable limit of 100,000",
            ));
        }
        if optional_outside_unit(t.max_lcom_score) {
            return Err(violation(
                override_field(language, "max_lcom_score"),
                "LCOM score must be between 0.0 and 1.0",
            ));
        }
        i = i + 1;
    }
    Ok(())
}

/// An AI analysis engine; different providers or mock engines can stand
/// behind it.
pub trait AiEngineService {
    /// Analyses the codebase at the given path.
    fn analyze(&self, codebase_path: &str) -> Result<(), String>;
}

/// A parser producing syntax trees; different back ends or mocks can stand
/// behind it.
pub trait AstService {
    /// The parsed form of a file.
    type Parsed;

    /// Parses one file.
    fn parse_file(&self, file_path: &Path) -> Result<Self::Parsed, String>;
}

/// Access control: API keys and permissions.
pub trait SecurityService {
    /// Whether an API key grants access.
    fn validate_api_key(&self, api_key: &str) -> bool;
    /// Whether an action is permitted on a resource.
    fn check_permissions(&self, resource: &str, action: &str) -> bool;
}

} // verus!
