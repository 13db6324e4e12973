use std::path::PathBuf;
use uveddi::cli::analyze_command::{
    check_analysis_path, explain_failure, is_skipped_by_fallback, is_supported_extension, AnalyzeCommand,
    DiagramMode, PathFacts,
};
use uveddi::cli::config_command::{apply_setting, empty_config, remarks_for, UnknownConfigKey};
use uveddi::cli::doctor_command::{DoctorCommand, HealthChecker, ReportFormat};
use uveddi::cli::init_command::{InitCommand, ProjectAnalyzer, ProjectSize, ProjectTemplate};
use uveddi::config::validation::SmartConfigValidator;
use uveddi::numeric::F64Bits;
use uveddi::tools::benchmark_data::generate_complex_rust_code;
use uveddi::tools::cache_profiles::get_test_configurations;
use uveddi::tools::simple_cycle_demo::{
    sample_issues, AnalysisService, EventSystem, MockPersistenceProvider, PersistenceProvider,
};

fn analyze_command() -> AnalyzeCommand {
    AnalyzeCommand {
        path: PathBuf::from("."),
        output_format: "markdown".to_string(),
        output: None,
        enable_ai: false,
        ollama_api_url: None,
        ollama_model: None,
        dead_code_confidence: None,
        dead_code_library_mode: false,
        dead_code_ignore_patterns: None,
        dead_code_keep_alive: None,
        large_classes_max_loc: None,
        large_classes_max_methods: None,
        large_classes_max_fields: None,
        large_classes_max_complexity: None,
        large_classes_max_lcom: None,
        large_classes_ignore_patterns: None,
        large_classes_min_severity: None,
        disable_memory_optimization: false,
        memory_limit_gb: None,
        memory_profile: None,
        enable_image_rendering: false,
        mermaid_only: false,
        rendering_service_url: "http://localhost:3000".to_string(),
        no_fallback: false,
        check_rendering_service: false,
        no_diagrams: false,
        max_diagrams: 10,
        diagram_output_dir: None,
        timeout: 0,
        verbose: false,
        progress_format: "auto".to_string(),
        progress_details: false,
        open_dashboard: false,
        security: false,
        security_only: false,
        min_security_confidence: None,
        export_sarif: false,
        sarif_output: None,
        enable_taint_analysis: false,
        taint_analysis_depth: None,
        owasp_categories: None,
    }
}

#[test]
fn benchmark_code_has_exact_shape() {
    let code = generate_complex_rust_code(1, 2, 3);
    let expected = [
        "// Module 1\n\n",
        "use crate::module_2::Struct2;\n",
        "use crate::module_0::Struct0;\n",
        "use crate::module_1::Struct1;\n",
        "\n",
        "pub struct Struct1 {\n    field_0: u32,\n    field_1: u32,\n}\n\n",
        "impl Struct1 {\n",
        "    pub fn func_0(&self, arg: u32) -> u32 {\n        self.field_0 + arg\n    }\n",
        "    pub fn func_1(&self, arg: u32) -> u32 {\n        self.field_1 + arg\n    }\n",
        "}\n",
    ]
    .concat();
    assert_eq!(code, expected);
}

#[test]
fn cache_profiles_are_the_five_known_ones() {
    let configs = get_test_configurations();
    let names: Vec<&str> = configs.iter().map(|c| c.name.as_str()).collect();
    assert_eq!(names, vec!["minimal", "small", "medium", "large", "unlimited"]);
    assert_eq!(configs[0].max_memory_mb, Some(64));
    assert_eq!(configs[3].max_result_entries, Some(2000));
    assert!(configs[4].max_memory_mb.is_none());
    assert!(configs[4].compression_enabled);
}

#[test]
fn cycle_demo_saves_and_loads_issues() {
    let mut store = MockPersistenceProvider::new();
    store.save_issues(sample_issues());
    assert_eq!(store.count(), 2);
    assert_eq!(store.load_issues()[1].detector, "god_object_detector");

    let mut events = EventSystem::new();
    events.subscribe("logger".to_string());
    assert_eq!(events.publish("x"), "      📡 Published event: x");

    let mut service = AnalysisService::new(MockPersistenceProvider::new(), events);
    let (announcements, loaded) = service.analyze_example();
    assert_eq!(loaded, 2);
    assert_eq!(announcements[0], "      📡 Published event: analysis_started");
    assert_eq!(announcements[1], "      📡 Published event: analysis_completed");
}

#[test]
fn analyzer_classifies_projects() {
    let analyzer = ProjectAnalyzer::new(std::path::Path::new("."));
    assert!(matches!(analyzer.estimate_size(1000), ProjectSize::Small));
    assert!(matches!(analyzer.estimate_size(1001), ProjectSize::Medium));
    assert!(matches!(analyzer.estimate_size(100_000), ProjectSize::Large));
    assert!(matches!(analyzer.estimate_size(100_001), ProjectSize::Huge));

    let rust = vec!["rust".to_string()];
    assert_eq!(analyzer.determine_project_type(&rust, true), ProjectTemplate::Library);
    assert_eq!(analyzer.determine_project_type(&rust, false), ProjectTemplate::Rust);
    let web = vec!["javascript".to_string(), "typescript".to_string()];
    assert_eq!(analyzer.determine_project_type(&web, false), ProjectTemplate::Web);
    let many = vec!["rust".to_string(), "python".to_string(), "go".to_string()];
    assert_eq!(analyzer.determine_project_type(&many, false), ProjectTemplate::Monorepo);

    let mut found = vec![false; 10];
    assert_eq!(analyzer.languages_from_matches(&found), vec!["unknown".to_string()]);
    found[0] = true;
    assert_eq!(analyzer.languages_from_matches(&found), vec!["rust".to_string()]);
}

#[test]
fn init_answers_are_interpreted() {
    let cmd = InitCommand {
        path: PathBuf::from("."),
        non_interactive: false,
        template: None,
        force: false,
        git_hooks: false,
    };
    assert_eq!(cmd.preset_template(ProjectTemplate::Python), None);
    assert_eq!(cmd.template_from_answer(" 2 ", ProjectTemplate::Rust), (ProjectTemplate::Python, true));
    assert_eq!(cmd.template_from_answer("", ProjectTemplate::Rust), (ProjectTemplate::Rust, true));
    assert_eq!(cmd.template_from_answer("x", ProjectTemplate::Web), (ProjectTemplate::Web, false));
    assert!(cmd.yes_no_answer(" YES ", false));
    assert!(!cmd.yes_no_answer("n", true));
    assert!(cmd.yes_no_answer("maybe", true));
    assert_eq!(cmd.model_from_answer("2").as_deref(), Some("codellama:7b-instruct"));
    assert_eq!(cmd.model_from_answer("4"), None);
    assert_eq!(cmd.model_from_answer("").as_deref(), Some("deepseek-coder:6.7b-instruct-q4_0"));
    assert_eq!(cmd.default_thresholds(ProjectTemplate::Python), (300, 30));

    let preset = InitCommand { non_interactive: true, ..cmd };
    assert_eq!(preset.preset_template(ProjectTemplate::Python), Some(ProjectTemplate::Python));
}

#[test]
fn analyze_flags_are_checked() {
    let mut cmd = analyze_command();
    assert!(cmd.validate().is_ok());
    assert_eq!(cmd.get_diagram_mode(), DiagramMode::MermaidOnly);
    cmd.enable_image_rendering = true;
    assert_eq!(cmd.get_diagram_mode(), DiagramMode::ImageWithFallback);
    cmd.no_fallback = true;
    assert_eq!(cmd.get_diagram_mode(), DiagramMode::ImageOnly);
    cmd.mermaid_only = true;
    assert_eq!(
        cmd.validate().unwrap_err(),
        "Cannot use both --mermaid-only and --enable-image-rendering"
    );

    let mut cmd = analyze_command();
    cmd.no_fallback = true;
    assert_eq!(
        cmd.validate().unwrap_err(),
        "--no-fallback can only be used with --enable-image-rendering"
    );
}

#[test]
fn analyze_option_values_are_checked() {
    let mut cmd = analyze_command();
    assert!(cmd.check_option_values().is_ok());
    cmd.large_classes_max_loc = Some(0);
    let err = cmd.check_option_values().unwrap_err();
    assert_eq!(err.field, "large_classes_max_loc");

    let mut cmd = analyze_command();
    cmd.memory_profile = Some("huge".to_string());
    assert_eq!(cmd.check_option_values().unwrap_err().field, "memory_profile");

    let mut cmd = analyze_command();
    cmd.taint_analysis_depth = Some(21);
    assert_eq!(cmd.check_option_values().unwrap_err().field, "taint_analysis_depth");

    let mut cmd = analyze_command();
    cmd.export_sarif = true;
    assert_eq!(
        cmd.check_option_values().unwrap_err().reason,
        "--export-sarif requires --security to be enabled"
    );
}

#[test]
fn memory_settings_follow_machine_memory() {
    const GIB: u64 = 1024 * 1024 * 1024;
    let cmd = analyze_command();
    let (limit, profile) = cmd.memory_settings(16 * GIB);
    assert_eq!(f64::from_bits(limit.unwrap().bits), 8.0);
    assert_eq!(profile.as_deref(), Some("large"));
    let (limit, profile) = cmd.memory_settings(5 * GIB);
    assert_eq!(f64::from_bits(limit.unwrap().bits), 2.0);
    assert_eq!(profile.as_deref(), Some("small"));

    let mut cmd = analyze_command();
    cmd.disable_memory_optimization = true;
    let (limit, profile) = cmd.memory_settings(16 * GIB);
    assert!(limit.is_none());
    assert!(profile.is_none());

    let mut cmd = analyze_command();
    cmd.memory_limit_gb = Some(F64Bits::from_bits(3.5f64.to_bits()));
    assert_eq!(f64::from_bits(cmd.memory_settings(GIB).0.unwrap().bits), 3.5);
}

#[test]
fn failure_messages_are_explained() {
    assert_eq!(
        explain_failure("database is locked"),
        "Database storage failed - check schema compatibility and disk space"
    );
    assert_eq!(
        explain_failure("could not parse AST"),
        "Code parsing failed - verify file syntax and language support"
    );
    assert_eq!(
        explain_failure("out of memory"),
        "Memory limit exceeded - reduce analysis scope or increase memory limits"
    );
    assert_eq!(
        explain_failure("permission denied"),
        "File access denied - check file permissions and access rights"
    );
    assert_eq!(explain_failure("boom"), "Analysis failed");
}

#[test]
fn source_files_are_recognised() {
    assert!(is_supported_extension("RS"));
    assert!(is_supported_extension("tsx"));
    assert!(!is_supported_extension("md"));
    assert!(is_skipped_by_fallback("/repo/target/debug/x.rs"));
    assert!(!is_skipped_by_fallback("/repo/src/x.rs"));
}

#[test]
fn config_set_only_knows_the_model() {
    let c = apply_setting(empty_config(), "ollama_model", "llama3").unwrap();
    assert_eq!(c.ollama_model.as_deref(), Some("llama3"));
    assert!(matches!(apply_setting(empty_config(), "dead_code", "x"), Err(UnknownConfigKey)));
}

#[test]
fn closing_remarks_follow_the_scores() {
    let empty = empty_config();
    let result = SmartConfigValidator::new().validate(&empty, None);
    let remarks = remarks_for(&result);
    assert!(remarks.fix_errors);
    assert!(!remarks.excellent);
}

#[test]
fn doctor_selects_component_groups() {
    let mut cmd = DoctorCommand {
        fix: false,
        parsers: true,
        ai: false,
        system: false,
        output_format: "json".to_string(),
        extended: false,
        quiet: false,
    };
    assert_eq!(cmd.create_health_checker(), HealthChecker::parsers_only());
    assert!(matches!(cmd.report_format(), ReportFormat::Json));
    cmd.ai = true;
    assert_eq!(cmd.create_health_checker(), HealthChecker::new());
    cmd.parsers = false;
    cmd.ai = false;
    cmd.system = true;
    let h = cmd.create_health_checker();
    assert!(h.check_system && !h.check_parsers && !h.check_ai);
    cmd.output_format = "yaml".to_string();
    assert!(matches!(cmd.report_format(), ReportFormat::Human));
}

fn facts(display: &str) -> PathFacts {
    PathFacts {
        display: display.to_string(),
        exists: true,
        access_error: None,
        is_file: false,
        extension: None,
        is_dir: true,
        found_extensions: vec![Some("rs".to_string())],
    }
}

#[test]
fn analysis_path_checks_give_the_first_problem() {
    assert!(check_analysis_path(&facts("src")).is_ok());

    let mut missing = facts("nope");
    missing.exists = false;
    let err = check_analysis_path(&missing).unwrap_err();
    assert_eq!(err.field, "path");
    assert_eq!(
        err.reason,
        "Path 'nope' does not exist.\n💡 Suggestion: Check the path spelling and ensure the directory/file exists"
    );

    let mut locked = facts("secret");
    locked.access_error = Some("permission denied".to_string());
    assert_eq!(
        check_analysis_path(&locked).unwrap_err().reason,
        "Cannot access path 'secret': permission denied\n💡 Suggestion: Check file permissions and run with appropriate privileges"
    );

    let mut doc = facts("README.MD");
    doc.is_file = true;
    doc.is_dir = false;
    doc.extension = Some("MD".to_string());
    assert_eq!(
        check_analysis_path(&doc).unwrap_err().reason,
        "Unsupported file type '.md' for file 'README.MD'.\n✅ Supported file types: rs, py, js, ts, jsx, tsx, java, cpp, c, h, hpp\n💡 Suggestion: Specify a directory containing supported files or use a supported file extension"
    );
    doc.extension = Some("RS".to_string());
    assert!(check_analysis_path(&doc).is_ok());
    doc.extension = None;
    assert!(check_analysis_path(&doc).is_ok());

    let mut docs_dir = facts("docs");
    docs_dir.found_extensions = vec![Some("md".to_string()), None];
    assert_eq!(
        check_analysis_path(&docs_dir).unwrap_err().reason,
        "Directory 'docs' contains no supported source files.\n✅ Supported file types: rs, py, js, ts, jsx, tsx, java, cpp, c, h, hpp\n💡 Suggestion: Ensure the directory contains source code files with supported extensions"
    );
}

#[test]
fn init_refuses_to_overwrite_without_force() {
    let mut cmd = InitCommand {
        path: PathBuf::from("."),
        non_interactive: true,
        template: None,
        force: false,
        git_hooks: false,
    };
    assert_eq!(
        cmd.existing_config_refusal(true, "./uveddi.toml").as_deref(),
        Some("Configuration already exists at ./uveddi.toml. Use --force to overwrite.")
    );
    assert_eq!(cmd.existing_config_refusal(false, "./uveddi.toml"), None);
    cmd.force = true;
    assert_eq!(cmd.existing_config_refusal(true, "./uveddi.toml"), None);
}
