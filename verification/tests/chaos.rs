use std::time::Duration;

use uveddi::chaos::config::{BlastRadius, ChaosConfig, Environment, ExperimentConfig, FailureMode, CircuitBreakerConfig};
use uveddi::chaos::experiments::{ChaosExperiment, ExperimentState, SafetyCheckType, SafetyMonitor, SafetyStatus};
use uveddi::chaos::engine::ChaosEngine;
use uveddi::chaos::failpoints::{FailpointConfig, FailpointManager, FailpointMetrics, FailpointSpec, FailpointType};
use uveddi::numeric::F64Bits;

fn bits(x: f64) -> F64Bits {
    F64Bits { bits: x.to_bits() }
}

#[test]
fn test_default_config() {
    let config = ChaosConfig::default();
    assert!(!config.enabled);
    assert_eq!(config.environment, Environment::Test);
    assert!(config.validate().is_ok());
}

#[test]
fn test_config_validation() {
    let mut config = ChaosConfig::default();

    // Test invalid traffic percentage
    config.safety.max_traffic_percentage = bits(150.0);
    assert!(config.validate().is_err());

    // Test invalid error rate threshold
    config.safety.max_traffic_percentage = bits(10.0);
    config.safety.auto_rollback.error_rate_threshold = bits(-5.0);
    assert!(config.validate().is_err());

    // Test valid config
    config.safety.auto_rollback.error_rate_threshold = bits(5.0);
    assert!(config.validate().is_ok());
}

#[test]
fn config_validation_messages_and_bounds() {
    let mut config = ChaosConfig::default();
    config.safety.max_traffic_percentage = bits(100.0);
    assert!(config.validate().is_ok());
    config.safety.max_traffic_percentage = bits(-0.0);
    assert!(config.validate().is_ok());
    config.safety.max_traffic_percentage = bits(100.5);
    assert_eq!(config.validate(), Err("max_traffic_percentage must be between 0 and 100".to_string()));
    config.safety.max_traffic_percentage = bits(f64::NAN);
    assert!(config.validate().is_ok());
    config.observability.trace_sampling_rate = bits(1.5);
    assert_eq!(config.validate(), Err("trace_sampling_rate must be between 0.0 and 1.0".to_string()));
}

#[test]
fn test_experiment_permissions() {
    let mut config = ChaosConfig::default();
    config.enabled = true;

    // Test environment
    config.environment = Environment::Test;
    assert!(config.is_experiment_allowed(&BlastRadius::UnitTest));
    assert!(config.is_experiment_allowed(&BlastRadius::SingleService));
    assert!(config.is_experiment_allowed(&BlastRadius::MultiService));

    // Staging environment
    config.environment = Environment::Staging;
    assert!(config.is_experiment_allowed(&BlastRadius::UnitTest));
    assert!(config.is_experiment_allowed(&BlastRadius::SingleService));
    assert!(!config.is_experiment_allowed(&BlastRadius::MultiService));

    // Production environment
    config.environment = Environment::Production;
    assert!(config.is_experiment_allowed(&BlastRadius::UnitTest));
    assert!(!config.is_experiment_allowed(&BlastRadius::SingleService));
    assert!(!config.is_experiment_allowed(&BlastRadius::MultiService));
}

#[test]
fn disabled_system_allows_nothing() {
    let config = ChaosConfig::default();
    assert!(!config.is_experiment_allowed(&BlastRadius::UnitTest));
}

#[test]
fn environment_settings_are_applied() {
    let mut config = ChaosConfig::default();
    config.apply_env(Some("true"), Some("production"), Some(42), Some(bits(20.0)));
    assert!(config.enabled);
    assert_eq!(config.environment, Environment::Production);
    assert_eq!(config.max_experiment_duration, Duration::from_secs(42));
    assert_eq!(config.safety.max_traffic_percentage, bits(20.0));
    config.apply_env(Some("yes"), Some("elsewhere"), None, None);
    assert!(!config.enabled);
    assert_eq!(config.environment, Environment::Test);
    assert_eq!(config.max_experiment_duration, Duration::from_secs(42));
}

#[test]
fn circuit_breaker_defaults() {
    let c = CircuitBreakerConfig::default();
    assert!(c.enabled);
    assert_eq!(c.failure_threshold, 5);
    assert_eq!(c.timeout, Duration::from_secs(30));
}

fn experiment_config() -> ExperimentConfig {
    ExperimentConfig {
        blast_radius: BlastRadius::SingleService,
        failure_mode: FailureMode::NetworkLatency(Duration::from_millis(100)),
        duration: Duration::from_secs(60),
        safety_checks: Vec::new(),
    }
}

#[test]
fn test_experiment_creation() {
    let experiment = ChaosExperiment::new(1, "Test Experiment".to_string(), experiment_config());

    assert_eq!(experiment.state, ExperimentState::Created);
    assert_eq!(experiment.name, "Test Experiment");
    assert!(!experiment.is_active());
    assert_eq!(experiment.safety_checks.len(), 3); // Default safety checks
    assert_eq!(experiment.safety_checks[0].check_type, SafetyCheckType::ErrorRate);
    assert_eq!(experiment.safety_checks[2].threshold, bits(0.95));
    assert_eq!(experiment.safety_checks[1].status, SafetyStatus::Unknown);
    assert!(experiment.start_time.is_none());
    assert!(experiment.end_time.is_none());
    assert!(experiment.results.is_none());
}

#[test]
fn test_experiment_state_transitions() {
    let mut experiment = ChaosExperiment::new(2, "Test Experiment".to_string(), experiment_config());

    // Test state transitions
    experiment.update_state(ExperimentState::Running, 1_000);
    assert_eq!(experiment.state, ExperimentState::Running);
    assert!(experiment.is_active());
    assert!(experiment.start_time.is_some());

    experiment.update_state(ExperimentState::Completed, 4_500);
    assert_eq!(experiment.state, ExperimentState::Completed);
    assert!(!experiment.is_active());
    assert!(experiment.end_time.is_some());
    assert_eq!(experiment.duration(9_999), Some(3_500));
}

#[test]
fn experiment_duration_before_start_and_while_running() {
    let mut experiment = ChaosExperiment::new(3, "x".to_string(), experiment_config());
    assert_eq!(experiment.duration(10), None);
    experiment.update_state(ExperimentState::Running, 10);
    experiment.update_state(ExperimentState::Paused, 20);
    assert!(experiment.is_active());
    assert_eq!(experiment.duration(25), Some(15));
    assert_eq!(experiment.duration(5), None);
}

#[test]
fn test_failpoint_manager_creation() {
    let config = FailpointConfig::default();
    let manager = FailpointManager::new(config);

    assert_eq!(manager.get_active_failpoints(0).len(), 0);
}

fn db_error_spec() -> FailpointSpec {
    FailpointSpec {
        description: "Test database error".to_string(),
        probability: bits(0.5),
        failure_type: FailpointType::Return("database_error".to_string()),
        max_triggers: Some(10),
        duration: Some(Duration::from_secs(60)),
    }
}

#[test]
fn test_failpoint_configuration() {
    let mut config = FailpointConfig::default();
    config.enabled = true;

    let mut manager = FailpointManager::new(config);
    manager.configure_failpoint("test_db_error", db_error_spec(), 0);

    let active = manager.get_active_failpoints(0);
    assert_eq!(active.len(), 1);
    assert!(active.iter().any(|s| s.name == "test_db_error"));
    assert_eq!(active[0].trigger_count, 0);
    assert_eq!(active[0].description, "Test database error");

    manager.remove_failpoint("test_db_error");
    assert_eq!(manager.get_active_failpoints(0).len(), 0);
}

#[test]
fn disabled_manager_ignores_configuration() {
    let mut manager = FailpointManager::new(FailpointConfig::default());
    manager.configure_failpoint("test_db_error", db_error_spec(), 0);
    assert!(manager.get_active_failpoints(0).is_empty());
}

#[test]
fn failpoints_expire_and_are_cleaned_up() {
    let mut config = FailpointConfig::default();
    config.enabled = true;
    let mut manager = FailpointManager::new(config);
    manager.configure_failpoint("a", db_error_spec(), 0);
    let mut forever = db_error_spec();
    forever.duration = None;
    manager.configure_failpoint("b", forever, 0);
    let sixty_s: u128 = 60_000_000_000;
    assert!(!manager.get_active_failpoints(sixty_s)[0].is_expired);
    assert!(manager.get_active_failpoints(sixty_s + 1)[0].is_expired);
    manager.cleanup_expired_failpoints(sixty_s + 1);
    let left = manager.get_active_failpoints(sixty_s + 1);
    assert_eq!(left.len(), 1);
    assert_eq!(left[0].name, "b");
    manager.clear_all_failpoints();
    assert!(manager.get_active_failpoints(0).is_empty());
}

#[test]
fn test_failpoint_metrics() {
    let mut manager = FailpointManager::new(FailpointConfig::default());

    assert_eq!(manager.metrics().get_total_triggers(), 0);

    manager.record_trigger("test_failpoint", 1);
    manager.record_trigger("test_failpoint", 2);
    manager.record_trigger("another_failpoint", 3);

    assert_eq!(manager.metrics().get_total_triggers(), 3);

    let triggers_by_name = manager.metrics().get_triggers_by_name();
    let count = |n: &str| triggers_by_name.iter().find(|(k, _)| k == n).map(|(_, c)| *c);
    assert_eq!(count("test_failpoint"), Some(2));
    assert_eq!(count("another_failpoint"), Some(1));
}

#[test]
fn active_failpoint_counts_its_triggers() {
    let mut config = FailpointConfig::default();
    config.enabled = true;
    let mut manager = FailpointManager::new(config);
    manager.configure_failpoint("p", db_error_spec(), 5);
    manager.record_trigger("p", 7);
    manager.record_trigger("q", 8);
    let status = &manager.get_active_failpoints(9)[0];
    assert_eq!(status.trigger_count, 1);
    assert_eq!(status.last_triggered, Some(7));
    assert_eq!(status.created_at, 5);
    assert_eq!(manager.metrics().get_total_triggers(), 2);
}

#[test]
fn metrics_total_is_sum_of_counts() {
    let mut m = FailpointMetrics::new();
    for name in ["a", "b", "a", "c", "a"] {
        m.record_trigger(name);
    }
    let sum: u64 = m.get_triggers_by_name().iter().map(|(_, c)| *c).sum();
    assert_eq!(sum, m.get_total_triggers());
    assert_eq!(m.get_triggers_by_name(), vec![("a".to_string(), 3), ("b".to_string(), 1), ("c".to_string(), 1)]);
}

fn spec_of(failure_type: FailpointType, probability: f64) -> FailpointSpec {
    FailpointSpec {
        description: "d".to_string(),
        probability: bits(probability),
        failure_type,
        max_triggers: None,
        duration: None,
    }
}

#[test]
fn fail_configurations_follow_the_library_syntax() {
    let m = FailpointManager::new(FailpointConfig::default());
    let pct = |p: f64| (p * 100.0) as u32;
    assert_eq!(
        m.build_fail_config(&spec_of(FailpointType::Return("db".to_string()), 0.5), pct(0.5)),
        "50%return(db)"
    );
    assert_eq!(
        m.build_fail_config(&spec_of(FailpointType::Return("db".to_string()), 1.0), pct(1.0)),
        "return(db)"
    );
    assert_eq!(
        m.build_fail_config(&spec_of(FailpointType::Panic("boom".to_string()), 0.25), pct(0.25)),
        "25%panic(boom)"
    );
    assert_eq!(
        m.build_fail_config(&spec_of(FailpointType::Delay(Duration::from_millis(1500)), 1.0), 100),
        "sleep(1500)"
    );
    assert_eq!(m.build_fail_config(&spec_of(FailpointType::Skip, 0.1), pct(0.1)), "10%return");
    assert_eq!(
        m.build_fail_config(&spec_of(FailpointType::ReturnValue("42".to_string()), 1.0), 100),
        "return(42)"
    );
    assert_eq!(
        m.build_fail_config(&spec_of(FailpointType::Custom("off".to_string()), 0.3), pct(0.3)),
        "off"
    );
}

fn radius_config(blast_radius: BlastRadius) -> ExperimentConfig {
    ExperimentConfig { blast_radius, ..experiment_config() }
}

#[test]
fn test_chaos_engine_creation() {
    let config = ChaosConfig::default();
    let engine = ChaosEngine::new(config);

    assert_eq!(engine.get_active_experiments().len(), 0);
}

#[test]
fn test_experiment_lifecycle() {
    let config = ChaosConfig::default();
    let mut engine = ChaosEngine::new(config);

    let experiment = ChaosExperiment::new(7, "test_experiment".to_string(), radius_config(BlastRadius::UnitTest));

    let experiment_id = engine.start_experiment(experiment, "test_service".to_string()).unwrap();
    assert_eq!(engine.get_active_experiments().len(), 1);

    engine.stop_experiment(experiment_id);
    assert_eq!(engine.get_active_experiments().len(), 0);
}

#[test]
fn engine_admits_by_blast_radius() {
    let mut engine = ChaosEngine::new(ChaosConfig::default());
    let single = ChaosExperiment::new(1, "s".to_string(), radius_config(BlastRadius::SingleService));
    assert_eq!(
        engine.start_experiment(single, "billing".to_string()).unwrap_err(),
        "Service billing not in allowed list"
    );
    let single = ChaosExperiment::new(1, "s".to_string(), radius_config(BlastRadius::SingleService));
    assert_eq!(engine.start_experiment(single, "analysis-service".to_string()), Ok(1));
    let multi = ChaosExperiment::new(2, "m".to_string(), radius_config(BlastRadius::MultiService));
    assert_eq!(
        engine.start_experiment(multi, "analysis-service".to_string()).unwrap_err(),
        "Multi-service experiments not enabled"
    );
    assert_eq!(engine.get_active_experiments(), vec![1]);

    let mut config = ChaosConfig::default();
    config.multi_service_experiments_enabled = true;
    let mut engine = ChaosEngine::new(config);
    let multi = ChaosExperiment::new(2, "m".to_string(), radius_config(BlastRadius::MultiService));
    assert!(engine.start_experiment(multi, "anything".to_string()).is_ok());
}

#[test]
fn engine_restart_replaces_and_emergency_stop_clears() {
    let mut engine = ChaosEngine::new(ChaosConfig::default());
    for id in [3u128, 5, 3] {
        let e = ChaosExperiment::new(id, "e".to_string(), radius_config(BlastRadius::UnitTest));
        engine.start_experiment(e, "t".to_string()).unwrap();
    }
    assert_eq!(engine.get_active_experiments(), vec![5, 3]);
    engine.stop_experiment(42);
    assert_eq!(engine.get_active_experiments(), vec![5, 3]);
    assert_eq!(engine.emergency_stop_all(), vec![5, 3]);
    assert!(engine.get_active_experiments().is_empty());
}

#[test]
fn test_safety_monitor_validation() {
    let monitor = SafetyMonitor::new();
    assert_eq!(monitor.abort_threshold, bits(0.8));

    let mut config = experiment_config();
    config.blast_radius = BlastRadius::UnitTest;
    config.duration = Duration::from_secs(3600);
    let experiment = ChaosExperiment::new(10, "Test".to_string(), config);
    assert!(monitor.validate_experiment(&experiment).is_ok());

    let mut config = experiment_config();
    config.blast_radius = BlastRadius::MultiService;
    config.duration = Duration::from_secs(600);
    let experiment = ChaosExperiment::new(11, "Test".to_string(), config);
    assert_eq!(
        monitor.validate_experiment(&experiment),
        Err("System-level experiments limited to 5 minutes".to_string())
    );

    let mut config = experiment_config();
    config.blast_radius = BlastRadius::SingleService;
    config.duration = Duration::from_secs(600);
    let experiment = ChaosExperiment::new(12, "Test".to_string(), config);
    assert!(monitor.validate_experiment(&experiment).is_ok());
    let mut config = experiment_config();
    config.duration = Duration::from_secs(601);
    let experiment = ChaosExperiment::new(13, "Test".to_string(), config);
    assert_eq!(
        monitor.validate_experiment(&experiment),
        Err("Service-level experiments limited to 10 minutes".to_string())
    );
}
