use uveddi::config::environment::ConfigEnv;
use uveddi::config::monitoring::MonitoringConfig;
use uveddi::config::validation::{ErrorSeverity, ProjectContext, ProjectSize, SmartConfigValidator, TeamSize};
use uveddi::config::{Config, DeadCodeConfig, LanguageThresholds, LargeClassConfig};
use uveddi::numeric::F64Bits;

fn frac(x: f64) -> F64Bits {
    F64Bits::from_bits(x.to_bits())
}

fn optimal_config() -> Config {
    Config {
        ollama_model: Some("deepseek-coder:6.7b-instruct-q4_0".to_string()),
        dead_code: Some(DeadCodeConfig {
            confidence_threshold: Some(frac(0.8)),
            library_mode: Some(false),
            ignore_patterns: Some(vec!["test/**".to_string()]),
            keep_alive_patterns: Some(vec!["main".to_string()]),
        }),
        large_classes: Some(LargeClassConfig {
            max_logical_loc: Some(250),
            max_methods: Some(25),
            max_fields: Some(20),
            max_cyclomatic_complexity: Some(15),
            max_cognitive_complexity: Some(20),
            max_lcom_score: Some(frac(0.8)),
            max_coupling: Some(30),
            ignore_patterns: Some(vec!["test/**".to_string()]),
            language_overrides: None,
        }),
    }
}

#[test]
fn test_empty_config_validation() {
    let config = Config {
        ollama_model: None,
        dead_code: None,
        large_classes: None,
    };

    let validator = SmartConfigValidator::new();
    let result = validator.validate(&config, None);

    assert!(!result.is_valid);
    assert!(!result.errors.is_empty());
    assert!((result.completeness_score_tenths as f64) / 10.0 < 50.0);
}

#[test]
fn test_optimal_config_validation() {
    let config = optimal_config();

    let validator = SmartConfigValidator::new();
    let result = validator.validate(&config, None);

    assert!(result.is_valid);
    assert!((result.completeness_score_tenths as f64) / 10.0 > 80.0);
    assert!((result.performance_score_tenths as f64) / 10.0 > 70.0);
}

#[test]
fn missing_sections_are_high_severity_errors() {
    let config = Config { ollama_model: None, dead_code: None, large_classes: None };
    let result = SmartConfigValidator::new().validate(&config, None);
    assert!(result.errors.iter().any(|e| matches!(e.severity, ErrorSeverity::High)));
    assert!(result.completeness_score_tenths <= 1000);
    assert!(result.performance_score_tenths <= 1000);
}

#[test]
fn validator_with_context_still_accepts_optimal_config() {
    let context = ProjectContext {
        languages: vec!["rust".to_string()],
        estimated_size: ProjectSize::Medium,
        has_tests: true,
        has_ci: true,
        framework: None,
        build_tools: vec!["cargo".to_string()],
        team_size: TeamSize::Small,
    };
    let result = SmartConfigValidator::new().with_context(context).validate(&optimal_config(), None);
    assert!(result.is_valid);
}

#[test]
fn range_checks_accept_a_sound_config() {
    assert!(optimal_config().validate().is_ok());
}

#[test]
fn range_checks_report_the_confidence_threshold() {
    let mut config = optimal_config();
    config.dead_code.as_mut().unwrap().confidence_threshold = Some(frac(1.5));
    let err = config.validate().unwrap_err();
    assert_eq!(err.field, "dead_code.confidence_threshold");
    assert_eq!(err.reason, "Confidence threshold must be between 0.0 and 1.0");
}

#[test]
fn range_checks_refuse_nan_fractions() {
    let mut config = optimal_config();
    config.large_classes.as_mut().unwrap().max_lcom_score = Some(frac(f64::NAN));
    let err = config.validate().unwrap_err();
    assert_eq!(err.field, "large_classes.max_lcom_score");
}

#[test]
fn range_checks_report_the_first_violation() {
    let mut config = optimal_config();
    {
        let lc = config.large_classes.as_mut().unwrap();
        lc.max_logical_loc = Some(100_001);
        lc.max_methods = Some(10_001);
    }
    let err = config.validate().unwrap_err();
    assert_eq!(err.field, "large_classes.max_logical_loc");
    assert_eq!(err.reason, "Maximum LOC threshold exceeds reasonable limit of 100,000");

    let mut config = optimal_config();
    config.large_classes.as_mut().unwrap().max_fields = Some(10_001);
    assert_eq!(config.validate().unwrap_err().field, "large_classes.max_fields");
}

#[test]
fn range_checks_cover_language_overrides() {
    let mut config = optimal_config();
    let overrides = vec![
        ("python".to_string(), LanguageThresholds {
            max_logical_loc: Some(500),
            max_methods: None,
            max_fields: None,
            max_cyclomatic_complexity: None,
            max_cognitive_complexity: None,
            max_lcom_score: Some(frac(0.5)),
            max_coupling: None,
        }),
        ("java".to_string(), LanguageThresholds {
            max_logical_loc: Some(200_000),
            max_methods: None,
            max_fields: None,
            max_cyclomatic_complexity: None,
            max_cognitive_complexity: None,
            max_lcom_score: None,
            max_coupling: None,
        }),
    ];
    config.large_classes.as_mut().unwrap().language_overrides = Some(overrides);
    let err = config.validate().unwrap_err();
    assert_eq!(err.field, "large_classes.language_overrides.java.max_logical_loc");
}

fn empty_env() -> ConfigEnv {
    ConfigEnv {
        ollama_model: None,
        dead_code_confidence_threshold: None,
        dead_code_library_mode: None,
        dead_code_ignore_patterns: None,
        dead_code_keep_alive_patterns: None,
        large_classes_max_loc: None,
        large_classes_max_methods: None,
        large_classes_max_fields: None,
        large_classes_max_complexity: None,
        large_classes_max_cognitive_complexity: None,
        large_classes_max_lcom: None,
        large_classes_max_coupling: None,
        large_classes_ignore_patterns: None,
    }
}

#[test]
fn empty_environment_gives_empty_config() {
    let config = Config::from_env_values(&empty_env());
    assert!(config.ollama_model.is_none());
    assert!(config.dead_code.is_none());
    assert!(config.large_classes.is_none());
}

#[test]
fn environment_values_are_parsed() {
    let mut env = empty_env();
    env.ollama_model = Some("llama3".to_string());
    env.dead_code_library_mode = Some("true".to_string());
    env.dead_code_ignore_patterns = Some("test/**, vendor/** ,build".to_string());
    env.large_classes_max_loc = Some("300".to_string());
    env.large_classes_max_methods = Some("not a number".to_string());
    let config = Config::from_env_values(&env);
    assert_eq!(config.ollama_model.as_deref(), Some("llama3"));
    let dc = config.dead_code.unwrap();
    assert_eq!(dc.library_mode, Some(true));
    assert_eq!(
        dc.ignore_patterns.unwrap(),
        vec!["test/**".to_string(), "vendor/**".to_string(), "build".to_string()]
    );
    let lc = config.large_classes.unwrap();
    assert_eq!(lc.max_logical_loc, Some(300));
    assert_eq!(lc.max_methods, None);
}

#[test]
fn webhook_secret_is_kept() {
    let m = MonitoringConfig::with_webhook_secret("SECRET-REDACTED".to_string());
    assert_eq!(m.github_webhook_secret, "SECRET-REDACTED");
}
