//! Settings of the chaos engineering system and the rules on which
//! experiments an environment admits.

use vstd::prelude::*;
use std::time::Duration;
use crate::numeric::{F64Bits, f64_lt, ZERO_BITS, ONE_BITS};
use crate::text::{owned, views, str_eq};
use crate::time::{from_secs, seconds};

verus! {

/// Where chaos experiments run.
#[derive(Debug, Clone, Copy, PartialEq, Eq, Structural)]
pub enum Environment {
    Test,
    Staging,
    Production,
}

/// The scope an experiment may affect.
#[derive(Debug, Clone, Copy, PartialEq, Eq, Structural)]
pub enum BlastRadius {
    /// Unit tests only.
    UnitTest,
    /// One service instance.
    SingleService,
    /// Several services.
    MultiService,
}

/// A failure to inject.
#[derive(Debug)]
pub enum FailureMode {
    /// Added network latency.
    NetworkLatency(Duration),
    /// The service answers 503.
    ServiceUnavailable,
    /// The database connection fails.
    DatabaseUnavailable,
    /// Memory pressure of the given number of bytes.
    MemoryPressure(usize),
    /// CPU exhaustion.
    CpuExhaustion,
    /// Disk I/O failure.
    DiskIoFailure,
    /// The service times out after the given span.
    ServiceTimeout(Duration),
    /// A failure described by name.
    Custom(String),
}

/// What a safety check watches.
#[derive(Debug, Clone, PartialEq, Eq)]
pub enum SafetyCheckType {
    ErrorRate,
    ResponseLatency,
    ServiceAvailability,
    ResourceUtilization,
    Custom(String),
}

/// What happens when a safety check fails.
#[derive(Debug, Clone, Copy, PartialEq, Eq, Structural)]
pub enum SafetyAction {
    LogWarning,
    StopExperiment,
    EmergencyRollback,
    SendAlert,
}

/// A check made while an experiment runs.
#[derive(Debug, Clone)]
pub struct SafetyCheck {
    pub name: String,
    pub check_type: SafetyCheckType,
    pub threshold: F64Bits,
    pub action: SafetyAction,
}

/// The settings of one experiment.
#[derive(Debug)]
pub struct ExperimentConfig {
    pub blast_radius: BlastRadius,
    pub failure_mode: FailureMode,
    pub duration: Duration,
    pub safety_checks: Vec<SafetyCheck>,
}

/// When to open the circuit on repeated failures.
#[derive(Debug, Clone, Copy)]
pub struct CircuitBreakerConfig {
    pub enabled: bool,
    /// Failures before the circuit opens.
    pub failure_threshold: u32,
    /// Wait before trying to close the circuit.
    pub timeout: Duration,
}

impl Default for CircuitBreakerConfig {
    fn default() -> (c: Self)
        ensures
            c.enabled,
            c.failure_threshold == 5,
            c.timeout == seconds(30),
    {
        CircuitBreakerConfig { enabled: true, failure_threshold: 5, timeout: from_secs(30) }
    }
}

/// When an experiment is rolled back automatically.
#[derive(Debug, Clone, Copy)]
pub struct AutoRollbackConfig {
    pub enabled: bool,
    /// Error rate, in percent, that triggers a rollback.
    pub error_rate_threshold: F64Bits,
    /// Latency, in milliseconds, that triggers a rollback.
    pub latency_threshold_ms: u64,
    /// Window over which the metrics are measured.
    pub measurement_window: Duration,
}

/// `5.0`.
pub const FIVE_BITS: u64 = 0x4014_0000_0000_0000;

/// `10.0`.
pub const TEN_BITS: u64 = 0x4024_0000_0000_0000;

/// `100.0`.
pub const HUNDRED_BITS: u64 = 0x4059_0000_0000_0000;

impl Default for AutoRollbackConfig {
    fn default() -> (c: Self)
        ensures
            c.enabled,
            c.error_rate_threshold == (F64Bits { bits: FIVE_BITS }),
            c.latency_threshold_ms == 1000,
            c.measurement_window == seconds(60),
    {
        AutoRollbackConfig {
            enabled: true,
            error_rate_threshold: F64Bits::from_bits(FIVE_BITS),
            latency_threshold_ms: 1000,
            measurement_window: from_secs(60),
        }
    }
}

/// Limits that keep experiments safe.
#[derive(Debug, Clone, Copy)]
pub struct SafetyConfig {
    /// Some experiment types need manual approval.
    pub require_approval: bool,
    /// Largest share of requests, in percent, an experiment may affect.
    pub max_traffic_percentage: F64Bits,
    pub auto_rollback: AutoRollbackConfig,
    pub circuit_breaker: CircuitBreakerConfig,
}

impl Default for SafetyConfig {
    fn default() -> (c: Self)
        ensures
            c.require_approval,
            c.max_traffic_percentage == (F64Bits { bits: TEN_BITS }),
            c.auto_rollback.enabled,
            c.auto_rollback.error_rate_threshold == (F64Bits { bits: FIVE_BITS }),
            c.auto_rollback.latency_threshold_ms == 1000,
            c.auto_rollback.measurement_window == seconds(60),
            c.circuit_breaker.enabled,
            c.circuit_breaker.failure_threshold == 5,
            c.circuit_breaker.timeout == seconds(30),
    {
        SafetyConfig {
            require_approval: true,
            max_traffic_percentage: F64Bits::from_bits(TEN_BITS),
            auto_rollback: AutoRollbackConfig::default(),
            circuit_breaker: CircuitBreakerConfig::default(),
        }
    }
}

/// Metrics and tracing of experiments.
#[derive(Debug, Clone, Copy)]
pub struct ObservabilityConfig {
    pub metrics_enabled: bool,
    pub tracing_enabled: bool,
    pub metrics_interval: Duration,
    /// Share of traces sampled, a fraction in `0.0..=1.0`.
    pub trace_sampling_rate: F64Bits,
}

impl Default for ObservabilityConfig {
    fn default() -> (c: Self)
        ensures
            c.metrics_enabled,
            c.tracing_enabled,
            c.metrics_interval == seconds(10),
            c.trace_sampling_rate == (F64Bits { bits: ONE_BITS }),
    {
        ObservabilityConfig {
            metrics_enabled: true,
            tracing_enabled: true,
            metrics_interval: from_secs(10),
            trace_sampling_rate: F64Bits::from_bits(ONE_BITS),
        }
    }
}

/// Global settings of the chaos engineering system.
#[derive(Debug)]
pub struct ChaosConfig {
    /// Experiments run only when enabled; disabled by default.
    pub enabled: bool,
    pub environment: Environment,
    pub max_experiment_duration: Duration,
    /// Services experiments may target.
    pub allowed_services: Vec<String>,
    pub multi_service_experiments_enabled: bool,
    pub safety: SafetyConfig,
    pub observability: ObservabilityConfig,
}

impl Default for ChaosConfig {
    fn default() -> (c: Self)
        ensures
            !c.enabled,
            c.environment == Environment::Test,
            c.max_experiment_duration == seconds(300),
            views(c.allowed_services@) == seq!["analysis-service"@, "rendering-service"@],
            !c.multi_service_experiments_enabled,
            c.safety.max_traffic_percentage == (F64Bits { bits: TEN_BITS }),
            c.safety.auto_rollback.error_rate_threshold == (F64Bits { bits: FIVE_BITS }),
            c.observability.trace_sampling_rate == (F64Bits { bits: ONE_BITS }),
    {
        let mut allowed_services: Vec<String> = Vec::new();
        allowed_services.push(owned("analysis-service"));
        allowed_services.push(owned("rendering-service"));
        assert(views(allowed_services@) =~= seq!["analysis-service"@, "rendering-service"@]);
        ChaosConfig {
            enabled: false,
            environment: Environment::Test,
            max_experiment_duration: from_secs(300),
            allowed_services,
            multi_service_experiments_enabled: false,
            safety: SafetyConfig::default(),
            observability: ObservabilityConfig::default(),
        }
    }
}

/// A value lies outside `lo..=hi`, as `x < lo || x > hi` decides for
/// `f64` (so a NaN lies inside).
pub open spec fn outside(x: F64Bits, lo: u64, hi: u64) -> bool {
    f64_lt(x.bits, lo) || f64_lt(hi, x.bits)
}

/// The first setting out of range, if any.
pub open spec fn chaos_config_error(c: ChaosConfig) -> Option<Seq<char>> {
    if outside(c.safety.max_traffic_percentage, ZERO_BITS, HUNDRED_BITS) {
        Some("max_traffic_percentage must be between 0 and 100"@)
    } else if outside(c.safety.auto_rollback.error_rate_threshold, ZERO_BITS, HUNDRED_BITS) {
        Some("error_rate_threshold must be between 0 and 100"@)
    } else if outside(c.observability.trace_sampling_rate, ZERO_BITS, ONE_BITS) {
        Some("trace_sampling_rate must be between 0.0 and 1.0"@)
    } else {
        None
    }
}

/// The experiments an environment admits, for an enabled system: any in
/// test, those confined to one service in staging, unit-test ones only in
/// production.
pub open spec fn admits(env: Environment, radius: BlastRadius) -> bool {
    match env {
        Environment::Test => true,
        Environment::Staging => radius != BlastRadius::MultiService,
        Environment::Production => radius == BlastRadius::UnitTest,
    }
}

/// The environment a name selects; unknown names select the test
/// environment.
pub open spec fn environment_named(s: Seq<char>) -> Environment {
    if s == "staging"@ {
        Environment::Staging
    } else if s == "production"@ {
        Environment::Production
    } else {
        Environment::Test
    }
}

fn out_of_bounds(x: F64Bits, lo: u64, hi: u64) -> (r: bool)
    ensures
        r == outside(x, lo, hi),
{
    x.lt(&F64Bits::from_bits(lo)) || F64Bits::from_bits(hi).lt(&x)
}

impl ChaosConfig {
    /// Checks the percentages and the sampling rate.
    pub fn validate(&self) -> (r: Result<(), String>)
        ensures
            r is Ok <==> chaos_config_error(*self) is None,
            r matches Err(e) ==> e@ == chaos_config_error(*self)->Some_0,
    {
        if out_of_bounds(self.safety.max_traffic_percentage, ZERO_BITS, HUNDRED_BITS) {
            return Err(owned("max_traffic_percentage must be between 0 and 100"));
        }
        if out_of_bounds(self.safety.auto_rollback.error_rate_threshold, ZERO_BITS, HUNDRED_BITS) {
            return Err(owned("error_rate_threshold must be between 0 and 100"));
        }
        if out_of_bounds(self.observability.trace_sampling_rate, ZERO_BITS, ONE_BITS) {
            return Err(owned("trace_sampling_rate must be between 0.0 and 1.0"));
        }
        Ok(())
    }

    /// Whether an experiment of the given scope may run here: never when
    /// the system is disabled.
    pub fn is_experiment_allowed(&self, blast_radius: &BlastRadius) -> (r: bool)
        ensures
            r == (self.enabled && admits(self.environment, *blast_radius)),
    {
        if !self.enabled {
            return false;
        }
        match (self.environment, *blast_radius) {
            (Environment::Test, _) => true,
            (Environment::Staging, BlastRadius::UnitTest) => true,
            (Environment::Staging, BlastRadius::SingleService) => true,
            (Environment::Production, BlastRadius::UnitTest) => true,
            _ => false,
        }
    }

    /// Applies settings read from the environment: `enabled` is on only
    /// for the text `true`; the environment name selects the environment
    /// (test when unknown); a duration in whole seconds replaces the
    /// maximum experiment duration; a percentage replaces the traffic
    /// limit. Absent settings, and a duration that is not a number, leave
    /// the value as it was.
    pub fn apply_env(&mut self, enabled: Option<&str>, environment: Option<&str>, max_duration_seconds: Option<u64>, max_traffic_percentage: Option<F64Bits>)
        ensures
            final(self).enabled == match enabled {
                Some(e) => e@ == "true"@,
                None => old(self).enabled,
            },
            final(self).environment == match environment {
                Some(e) => environment_named(e@),
                None => old(self).environment,
            },
            final(self).max_experiment_duration == match max_duration_seconds {
                Some(s) => seconds(s),
                None => old(self).max_experiment_duration,
            },
            final(self).safety.max_traffic_percentage == match max_traffic_percentage {
                Some(p) => p,
                None => old(self).safety.max_traffic_percentage,
            },
            final(self).allowed_services == old(self).allowed_services,
            final(self).multi_service_experiments_enabled == old(self).multi_service_experiments_enabled,
            final(self).safety.auto_rollback == old(self).safety.auto_rollback,
            final(self).safety.circuit_breaker == old(self).safety.circuit_breaker,
            final(self).safety.require_approval == old(self).safety.require_approval,
            final(self).observability == old(self).observability,
    {
        if let Some(e) = enabled {
            self.enabled = str_eq(e, "true");
        }
        if let Some(e) = environment {
            self.environment = if str_eq(e, "staging") {
                Environment::Staging
            } else if str_eq(e, "production") {
                Environment::Production
            } else {
                Environment::Test
            };
        }
        if let Some(s) = max_duration_seconds {
            self.max_experiment_duration = from_secs(s);
        }
        if let Some(p) = max_traffic_percentage {
            self.safety.max_traffic_percentage = p;
        }
    }
}

} // verus!
