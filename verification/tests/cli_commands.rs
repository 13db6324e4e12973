use std::path::PathBuf;

use uveddi::cli::ci_command::{ci_metrics_of, evaluate_ci_gate, parse_ci_metrics_from_json, CiCheckArgs, CiGateFailure};
use uveddi::json::parse_json;
use uveddi::cli::help_command::{generate_contextual_help, HelpCommand};
use uveddi::cli::hooks_command::TestHookType;
use uveddi::cli::tui_command::{TuiCommand, TuiEnvironment, TuiEnvironmentError};
use uveddi::cli::ui_command::{ExportArgs, OpenArgs, ServeArgs};
use uveddi::cli::enhanced_help::generate_quick_help;
use uveddi::hooks::HookType;

#[test]
fn test_evaluate_ci_gate_pass() {
    assert!(evaluate_ci_gate(30, 0, 50, 1)); // Both under threshold
    assert!(evaluate_ci_gate(50, 1, 50, 1)); // At threshold
    assert!(evaluate_ci_gate(0, 0, 50, 0)); // Zero values
}

#[test]
fn test_evaluate_ci_gate_fail() {
    assert!(!evaluate_ci_gate(60, 0, 50, 1)); // Debt exceeds
    assert!(!evaluate_ci_gate(30, 2, 50, 1)); // Critical exceeds
    assert!(!evaluate_ci_gate(60, 2, 50, 1)); // Both exceed
}

#[test]
fn test_ci_check_args_defaults() {
    let args = CiCheckArgs {
        path: PathBuf::from("/test"),
        max_debt: 50,
        max_critical: 0,
        output_format: "json".to_string(),
    };

    assert_eq!(args.max_debt, 50);
    assert_eq!(args.max_critical, 0);
    assert_eq!(args.output_format, "json");
}

#[test]
fn ci_verdict_uses_json_metrics() {
    let args = CiCheckArgs {
        path: PathBuf::from("/test"),
        max_debt: 50,
        max_critical: 0,
        output_format: "JSON".to_string(),
    };
    assert_eq!(args.verdict(Some((40, 0)), 7), Ok(()));
    assert_eq!(args.verdict(Some((51, 0)), 0), Err(CiGateFailure::ThresholdExceeded));
    assert_eq!(args.verdict(Some((10, 1)), 0), Err(CiGateFailure::ThresholdExceeded));
}

#[test]
fn ci_verdict_falls_back_on_issue_count() {
    let mut args = CiCheckArgs {
        path: PathBuf::from("."),
        max_debt: 50,
        max_critical: 0,
        output_format: "text".to_string(),
    };
    // Stated metrics decide whatever the format; the debt threshold counts too.
    assert_eq!(args.verdict(Some((90, 0)), 3), Err(CiGateFailure::ThresholdExceeded));
    assert_eq!(args.verdict(Some((20, 0)), 3), Ok(()));
    assert_eq!(args.verdict(None, 3), Err(CiGateFailure::IssuesWithoutMetrics));
    assert_eq!(args.verdict(None, 0), Ok(()));
    args.max_critical = 2;
    assert_eq!(args.verdict(None, 3), Ok(()));
    args.output_format = "json".to_string();
    args.max_critical = 0;
    assert_eq!(args.verdict(None, 1), Err(CiGateFailure::IssuesWithoutMetrics));
    assert_eq!(CiGateFailure::IssuesWithoutMetrics.message(), "Quality gate failed (fallback)");
    assert_eq!(CiGateFailure::ThresholdExceeded.message(), "Quality gate failed");
}

#[test]
fn test_contextual_help() {
    let help = generate_contextual_help("first_run");
    assert!(help.contains("Welcome to Uveddi"));
    assert!(help.contains("doctor"));
}

#[test]
fn contextual_help_covers_each_situation() {
    assert!(generate_contextual_help("analysis_failed").contains("Analysis Failed - Troubleshooting Steps"));
    assert!(generate_contextual_help("config_error").contains("Configuration Issue - Quick Fixes"));
    assert_eq!(generate_contextual_help("something_else"), generate_quick_help());
}

#[test]
fn test_help_command_creation() {
    let help_cmd = HelpCommand {
        topic: Some("troubleshooting".to_string()),
        verbose: true,
    };
    assert_eq!(help_cmd.topic, Some("troubleshooting".to_string()));
    assert!(help_cmd.verbose);
}

#[test]
fn help_output_for_topics_and_verbosity() {
    let quiet = HelpCommand { topic: None, verbose: false }.output().unwrap();
    assert_eq!(quiet, format!("{}\n", generate_quick_help()));
    let verbose = HelpCommand { topic: None, verbose: true }.output().unwrap();
    assert!(verbose.starts_with(&quiet));
    assert!(verbose.contains("🔍 Detailed Command Information:\n================================\n"));
    assert!(verbose.contains("Analyze Command (uveddi analyze, uveddi a)"));
    let unknown = HelpCommand { topic: Some("nope".to_string()), verbose: false };
    assert!(unknown.output().is_none());
    assert_eq!(HelpCommand::unknown_topic_message("nope"), "Unknown help topic: nope");
    let topic = HelpCommand { topic: Some("installation".to_string()), verbose: false }.output().unwrap();
    assert!(topic.contains("Installation Help"));
}

#[test]
fn test_test_hook_type_conversion() {
    let test_type = TestHookType::PreCommit;
    let hook_type: HookType = test_type.into();
    assert!(matches!(hook_type, HookType::PreCommit));
}

#[test]
fn hook_type_conversion_keeps_each_kind() {
    assert_eq!(HookType::from(TestHookType::PrePush), HookType::PrePush);
    assert_eq!(HookType::from(TestHookType::CommitMsg), HookType::CommitMsg);
}

#[test]
fn test_tui_command_default() {
    let cmd = TuiCommand::default();
    assert_eq!(cmd.path, PathBuf::from("."));
    assert!(!cmd.skip_analysis);
    assert!(cmd.load_results.is_none());
    assert!(!cmd.debug);
    assert!(!cmd.force);
}

fn environment() -> TuiEnvironment {
    TuiEnvironment {
        interactive: true,
        path_exists: true,
        results_file_exists: None,
        results_file_is_json: false,
        width: 120,
        height: 40,
    }
}

#[test]
fn tui_environment_checks_in_order() {
    let cmd = TuiCommand::default();
    assert!(cmd.check_environment(environment()).is_ok());
    let mut e = environment();
    e.interactive = false;
    e.path_exists = false;
    assert_eq!(cmd.check_environment(e), Err(TuiEnvironmentError::NotInteractive));
    e.interactive = true;
    assert_eq!(cmd.check_environment(e), Err(TuiEnvironmentError::PathMissing));
    e.path_exists = true;
    e.results_file_exists = Some(false);
    assert_eq!(cmd.check_environment(e), Err(TuiEnvironmentError::ResultsFileMissing));
    e.results_file_exists = Some(true);
    let ok = cmd.check_environment(e).unwrap();
    assert!(ok.warn_results_extension);
    e.width = 79;
    assert_eq!(cmd.check_environment(e), Err(TuiEnvironmentError::TerminalTooSmall));
    let forced = TuiCommand { force: true, ..TuiCommand::default() };
    let mut e2 = e;
    e2.interactive = false;
    let ok = forced.check_environment(e2).unwrap();
    assert!(ok.warn_small_terminal);
}

#[test]
fn test_open_args() {
    let args = OpenArgs {
        report_id: "demo".to_string(),
        port: 4000,
        browser: true,
    };

    assert_eq!(args.report_id, "demo");
    assert_eq!(args.port, 4000);
    assert!(args.browser);
}

#[test]
fn open_args_dashboard_url() {
    let args = OpenArgs { report_id: "demo".to_string(), port: 4000, browser: false };
    assert_eq!(args.url(), "http://localhost:4000/dashboard/demo");
}

#[test]
fn test_export_args() {
    let args = ExportArgs {
        report_id: "test-report".to_string(),
        output: PathBuf::from("./output"),
        portable: true,
    };

    assert_eq!(args.report_id, "test-report");
    assert_eq!(args.output, PathBuf::from("./output"));
    assert!(args.portable);
}

#[test]
fn serve_settings_follow_development_mode() {
    let mut args = ServeArgs {
        port: 4000,
        spa_assets: None,
        reports_dir: PathBuf::from("./.uveddi/reports"),
        dev: false,
        database: PathBuf::from(".uveddi/analysis.db"),
    };
    let prod = args.server_settings();
    assert!(!prod.enable_cors && prod.enable_csp && prod.serve_spa);
    assert!(prod.cors_origins.is_empty());
    assert_eq!(prod.cache_max_age, 3600);
    args.dev = true;
    let dev = args.server_settings();
    assert!(dev.enable_cors && !dev.enable_csp);
    assert_eq!(dev.cors_origins, vec!["http://localhost:3000", "http://127.0.0.1:3000", "http://localhost:5173"]);
    assert_eq!(dev.cache_max_age, 0);
}

fn facts_for(path: &std::path::Path, results: Option<(bool, bool)>) -> TuiEnvironment {
    TuiEnvironment {
        interactive: false,
        path_exists: path.exists(),
        results_file_exists: results.map(|r| r.0),
        results_file_is_json: results.map(|r| r.1).unwrap_or(false),
        width: 80,
        height: 24,
    }
}

#[test]
fn test_path_validation() {
    let valid_path = PathBuf::from(".");
    let invalid_path = PathBuf::from("/nonexistent/path");

    let cmd = TuiCommand { path: valid_path, force: true, ..TuiCommand::default() };
    assert!(cmd.check_environment(facts_for(&cmd.path, None)).is_ok());

    let cmd = TuiCommand { path: invalid_path, force: true, ..TuiCommand::default() };
    assert!(cmd.check_environment(facts_for(&cmd.path, None)).is_err());
}

#[test]
fn test_results_file_validation() {
    // an existing results.json file
    let cmd = TuiCommand {
        path: PathBuf::from("."),
        load_results: Some(PathBuf::from("results.json")),
        force: true,
        ..TuiCommand::default()
    };
    assert!(cmd.check_environment(facts_for(&cmd.path, Some((true, true)))).is_ok());

    let missing = PathBuf::from("/nonexistent/results.json");
    let cmd = TuiCommand {
        path: PathBuf::from("."),
        load_results: Some(missing.clone()),
        force: true,
        ..TuiCommand::default()
    };
    assert!(cmd.check_environment(facts_for(&cmd.path, Some((missing.exists(), true)))).is_err());
}

#[test]
fn test_serve_args_defaults() {
    let args = ServeArgs {
        port: 4000,
        spa_assets: None,
        reports_dir: PathBuf::from("./.uveddi/reports"),
        dev: false,
        database: PathBuf::from(".uveddi/analysis.db"),
    };

    assert_eq!(args.port, 4000);
    assert!(!args.dev);
    assert!(args.spa_assets.is_none());
}

#[test]
fn test_parse_ci_metrics_from_valid_json() {
    let json = r#"{
            "summary": {
                "issuesTotal": 23,
                "issuesBySeverity": {
                    "critical": 2,
                    "high": 5,
                    "medium": 8,
                    "low": 8
                },
                "filesAnalyzed": 42,
                "debtScore": 65.5
            },
            "issues": []
        }"#;

    let (debt, critical) = parse_ci_metrics_from_json(json).unwrap();
    assert_eq!(debt, 65);
    assert_eq!(critical, 2);
}

#[test]
fn test_parse_ci_metrics_missing_summary() {
    let json = r#"{
            "issues": [],
            "timing": {}
        }"#;

    let (debt, critical) = parse_ci_metrics_from_json(json).unwrap();
    assert_eq!(debt, 0);
    assert_eq!(critical, 0);
}

#[test]
fn test_parse_ci_metrics_partial_summary() {
    let json = r#"{
            "summary": {
                "issuesTotal": 5
            },
            "issues": []
        }"#;

    let (debt, critical) = parse_ci_metrics_from_json(json).unwrap();
    assert_eq!(debt, 0);
    assert_eq!(critical, 0);
}

#[test]
fn test_parse_ci_metrics_invalid_json() {
    let json = r#"{ invalid json"#;

    let result = parse_ci_metrics_from_json(json);
    assert!(result.is_err());
    assert!(result.unwrap_err().contains("Failed to parse JSON"));
}

#[test]
fn test_parse_ci_metrics_edge_cases() {
    let json = r#"{
            "summary": {
                "debtScore": 42.7,
                "issuesBySeverity": {
                    "critical": 3
                }
            }
        }"#;

    let (debt, critical) = parse_ci_metrics_from_json(json).unwrap();
    assert_eq!(debt, 42);
    assert_eq!(critical, 3);
}

#[test]
fn test_parse_ci_metrics_string_values() {
    let json = r#"{
            "summary": {
                "debtScore": "not-a-number",
                "issuesBySeverity": {
                    "critical": "also-not-a-number"
                }
            }
        }"#;

    let (debt, critical) = parse_ci_metrics_from_json(json).unwrap();
    assert_eq!(debt, 0);
    assert_eq!(critical, 0);
}

#[test]
fn ci_metrics_saturate_and_truncate() {
    let json = r#"{"summary": {"debtScore": -3.5, "issuesBySeverity": {"critical": 4294967296}}}"#;
    assert_eq!(parse_ci_metrics_from_json(json).unwrap(), (0, 0));
    let json = r#"{"summary": {"debtScore": 1e12, "issuesBySeverity": {"critical": -2}}}"#;
    assert_eq!(parse_ci_metrics_from_json(json).unwrap(), (u32::MAX, 0));
    let json = r#"{"summary": {"debtScore": 0.99, "issuesBySeverity": {"critical": 4294967297}}}"#;
    assert_eq!(parse_ci_metrics_from_json(json).unwrap(), (0, 1));
}

#[test]
fn ci_metrics_of_a_parsed_report() {
    let report = parse_json(r#"{"summary": {"debtScore": 12, "issuesBySeverity": {"critical": 7.9}}}"#).unwrap();
    assert_eq!(ci_metrics_of(&report), (12, 7));
    let other = parse_json("[1, 2, 3]").unwrap();
    assert_eq!(ci_metrics_of(&other), (0, 0));
}
