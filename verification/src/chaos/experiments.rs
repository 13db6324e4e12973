//! The lifecycle of a chaos experiment and the checks watched while it
//! runs. Times are milliseconds on a clock the caller supplies.

use vstd::prelude::*;
use crate::chaos::config::{ExperimentConfig, BlastRadius};
use std::time::Duration;
use crate::time::{nanos, as_nanos};
use crate::numeric::{F64Bits, EIGHT_TENTHS_BITS};
use crate::text::{owned, views};

verus! {

/// Where an experiment is in its lifecycle.
#[derive(Debug, Clone, Copy, PartialEq, Eq, Structural)]
pub enum ExperimentState {
    Created,
    Running,
    Paused,
    Completed,
    Failed,
    Aborted,
}

/// What a safety check of a running experiment watches.
#[derive(Debug, Clone, PartialEq, Eq)]
pub enum SafetyCheckType {
    ErrorRate,
    ResponseTime,
    Availability,
    ResourceUtilization,
    Custom(String),
}

/// The last reading of a safety check.
#[derive(Debug, Clone, Copy, PartialEq, Eq, Structural)]
pub enum SafetyStatus {
    Passing,
    Warning,
    Critical,
    Unknown,
}

/// A safety check of a running experiment and its last reading.
#[derive(Debug, Clone)]
pub struct SafetyCheck {
    pub name: String,
    pub check_type: SafetyCheckType,
    pub threshold: F64Bits,
    pub current_value: Option<F64Bits>,
    pub status: SafetyStatus,
}

/// A chaos experiment.
#[derive(Debug)]
pub struct ChaosExperiment {
    /// Unique identifier, chosen by the caller.
    pub id: u128,
    pub name: String,
    pub config: ExperimentConfig,
    pub state: ExperimentState,
    /// When the experiment last started running.
    pub start_time: Option<u64>,
    /// When the experiment last ended.
    pub end_time: Option<u64>,
    /// What the experiment produced, once it has completed.
    pub results: Option<ExperimentResult>,
    pub safety_checks: Vec<SafetyCheck>,
}

/// What a completed experiment produced.
#[derive(Debug)]
pub struct ExperimentResult {
    pub success: bool,
    pub duration: Duration,
    /// Named measurements, each name once.
    pub metrics: Vec<(String, F64Bits)>,
    pub observations: Vec<String>,
    pub recovery_time: Option<Duration>,
    pub blast_radius_actual: BlastRadius,
    pub error_details: Option<String>,
}

/// `0.05`.
pub const FIVE_HUNDREDTHS_BITS: u64 = 0x3FA9_9999_9999_999A;

/// `2000.0`.
pub const TWO_THOUSAND_BITS: u64 = 0x409F_4000_0000_0000;

/// `0.95`.
pub const AVAILABILITY_BITS: u64 = 0x3FEE_6666_6666_6666;

/// The states in which an experiment is active.
pub open spec fn active_state(s: ExperimentState) -> bool {
    s == ExperimentState::Running || s == ExperimentState::Paused
}

/// The states that end an experiment.
pub open spec fn ending_state(s: ExperimentState) -> bool {
    s == ExperimentState::Completed || s == ExperimentState::Failed || s == ExperimentState::Aborted
}

/// The checks every new experiment watches: error rate at 5%, 95th
/// percentile response time at 2000 ms, availability at 95%, none read yet.
pub open spec fn default_checks(c: Seq<SafetyCheck>) -> bool {
    &&& c.len() == 3
    &&& views(seq![c[0].name, c[1].name, c[2].name]) == seq!["Error Rate"@, "Response Time P95"@, "Service Availability"@]
    &&& c[0].check_type == SafetyCheckType::ErrorRate && c[0].threshold.bits == FIVE_HUNDREDTHS_BITS
    &&& c[1].check_type == SafetyCheckType::ResponseTime && c[1].threshold.bits == TWO_THOUSAND_BITS
    &&& c[2].check_type == SafetyCheckType::Availability && c[2].threshold.bits == AVAILABILITY_BITS
    &&& forall|i: int| 0 <= i < 3 ==> (#[trigger] c[i]).current_value is None && c[i].status == SafetyStatus::Unknown
}

fn safety_check(name: &str, check_type: SafetyCheckType, threshold: u64) -> (c: SafetyCheck)
    ensures
        c.name@ == name@,
        c.check_type == check_type,
        c.threshold.bits == threshold,
        c.current_value is None,
        c.status == SafetyStatus::Unknown,
{
    SafetyCheck {
        name: owned(name),
        check_type,
        threshold: F64Bits::from_bits(threshold),
        current_value: None,
        status: SafetyStatus::Unknown,
    }
}

impl ChaosExperiment {
    /// A new experiment, created and not yet started, watching the
    /// default safety checks.
    pub fn new(id: u128, name: String, config: ExperimentConfig) -> (e: Self)
        ensures
            e.id == id,
            e.name@ == name@,
            e.config == config,
            e.state == ExperimentState::Created,
            e.start_time is None,
            e.end_time is None,
            e.results is None,
            default_checks(e.safety_checks@),
    {
        let mut checks: Vec<SafetyCheck> = Vec::new();
        checks.push(safety_check("Error Rate", SafetyCheckType::ErrorRate, FIVE_HUNDREDTHS_BITS));
        checks.push(safety_check("Response Time P95", SafetyCheckType::ResponseTime, TWO_THOUSAND_BITS));
        checks.push(safety_check("Service Availability", SafetyCheckType::Availability, AVAILABILITY_BITS));
        let e = ChaosExperiment {
            id,
            name,
            config,
            state: ExperimentState::Created,
            start_time: None,
            end_time: None,
            results: None,
            safety_checks: checks,
        };
        assert(views(seq![e.safety_checks@[0].name, e.safety_checks@[1].name, e.safety_checks@[2].name])
            =~= seq!["Error Rate"@, "Response Time P95"@, "Service Availability"@]);
        e
    }

    /// Moves the experiment to a new state at time `now`: starting to run
    /// records the start, reaching an end state records the end.
    pub fn update_state(&mut self, new_state: ExperimentState, now: u64)
        ensures
            final(self).state == new_state,
            final(self).start_time == if new_state == ExperimentState::Running { Some(now) } else { old(self).start_time },
            final(self).end_time == if ending_state(new_state) { Some(now) } else { old(self).end_time },
            final(self).id == old(self).id,
            final(self).name == old(self).name,
            final(self).config == old(self).config,
            final(self).results == old(self).results,
            final(self).safety_checks == old(self).safety_checks,
    {
        self.state = new_state;
        match new_state {
            ExperimentState::Running => {
                self.start_time = Some(now);
            },
            ExperimentState::Completed | ExperimentState::Failed | ExperimentState::Aborted => {
                self.end_time = Some(now);
            },
            _ => {},
        }
    }

    /// The experiment is running or paused.
    pub fn is_active(&self) -> (r: bool)
        ensures
            r == active_state(self.state),
    {
        self.state == ExperimentState::Running || self.state == ExperimentState::Paused
    }

    /// How long the experiment has run, up to its end or to `now` when it
    /// has not ended; `None` before it started or when the end precedes
    /// the start.
    pub fn duration(&self, now: u64) -> (d: Option<u64>)
        ensures
            d == match self.start_time {
                Some(s) => {
                    let end = match self.end_time { Some(e) => e, None => now };
                    if end >= s { Some((end - s) as u64) } else { None }
                },
                None => None,
            },
    {
        match self.start_time {
            Some(s) => {
                let end = match self.end_time {
                    Some(e) => e,
                    None => now,
                };
                if end >= s { Some(end - s) } else { None }
            },
            None => None,
        }
    }
}

/// Ten minutes in nanoseconds: the longest a single-service experiment may run.
pub const SERVICE_LIMIT_NANOS: u128 = 600_000_000_000;

/// Five minutes in nanoseconds: the longest a multi-service experiment may run.
pub const SYSTEM_LIMIT_NANOS: u128 = 300_000_000_000;

/// Why the safety monitor refuses an experiment, if it does: an experiment
/// confined to unit tests is always safe; one on a single service may run
/// at most ten minutes, one across several services at most five.
pub open spec fn safety_refusal(blast_radius: BlastRadius, duration_nanos: u128) -> Option<Seq<char>> {
    match blast_radius {
        BlastRadius::UnitTest => None,
        BlastRadius::SingleService => if duration_nanos > SERVICE_LIMIT_NANOS {
            Some("Service-level experiments limited to 10 minutes"@)
        } else {
            None
        },
        BlastRadius::MultiService => if duration_nanos > SYSTEM_LIMIT_NANOS {
            Some("System-level experiments limited to 5 minutes"@)
        } else {
            None
        },
    }
}

/// Watches the safety conditions of experiments.
#[derive(Debug)]
pub struct SafetyMonitor {
    pub checks: Vec<SafetyCheck>,
    /// Share of failing checks at which an experiment is aborted.
    pub abort_threshold: F64Bits,
}

impl SafetyMonitor {
    /// A monitor with no checks that aborts once 80% of the checks fail.
    pub fn new() -> (m: Self)
        ensures
            m.checks@.len() == 0,
            m.abort_threshold.bits == EIGHT_TENTHS_BITS,
    {
        SafetyMonitor { checks: Vec::new(), abort_threshold: F64Bits::from_bits(EIGHT_TENTHS_BITS) }
    }

    /// Checks an experiment's scope and duration before it starts.
    pub fn validate_experiment(&self, experiment: &ChaosExperiment) -> (r: Result<(), String>)
        ensures
            r is Ok <==> safety_refusal(experiment.config.blast_radius, nanos(experiment.config.duration)) is None,
            r matches Err(m) ==> Some(m@) == safety_refusal(experiment.config.blast_radius, nanos(experiment.config.duration)),
    {
        let d = as_nanos(&experiment.config.duration);
        match experiment.config.blast_radius {
            BlastRadius::UnitTest => Ok(()),
            BlastRadius::SingleService => {
                if d > SERVICE_LIMIT_NANOS {
                    Err(owned("Service-level experiments limited to 10 minutes"))
                } else {
                    Ok(())
                }
            },
            BlastRadius::MultiService => {
                if d > SYSTEM_LIMIT_NANOS {
                    Err(owned("System-level experiments limited to 5 minutes"))
                } else {
                    Ok(())
                }
            },
        }
    }
}

} // verus!
