//! Fault injection points: their specifications, the ones currently
//! active, and how often each was triggered. Times are nanoseconds on a
//! clock the caller supplies.

use vstd::prelude::*;
use std::time::Duration;
use crate::numeric::{F64Bits, ZERO_BITS, ONE_BITS, f64_lt};
use crate::text::{owned, str_eq, decimal, push_decimal, push_decimal_wide, push_str};
use crate::time::{from_secs, seconds, nanos, as_nanos};

verus! {

/// The failure a fault injection point produces.
#[derive(Debug)]
pub enum FailpointType {
    /// Return an error with the given message.
    Return(String),
    /// Panic with the given message.
    Panic(String),
    /// Delay by the given span.
    Delay(Duration),
    /// Return the given value.
    ReturnValue(String),
    /// Skip the guarded code.
    Skip,
    /// A behaviour described in the injection library's own terms.
    Custom(String),
}

/// How one fault injection point behaves.
#[derive(Debug)]
pub struct FailpointSpec {
    pub description: String,
    /// Probability of activation, a fraction in `0.0..=1.0`.
    pub probability: F64Bits,
    pub failure_type: FailpointType,
    /// Most triggers before the point should be retired.
    pub max_triggers: Option<u32>,
    /// How long the point stays active.
    pub duration: Option<Duration>,
}

/// Settings of the fault injection system.
#[derive(Debug)]
pub struct FailpointConfig {
    /// Points are configured only when enabled; disabled by default.
    pub enabled: bool,
    pub default_probability: F64Bits,
    pub max_duration: Duration,
    /// Points configured up front, by name.
    pub failpoints: Vec<(String, FailpointSpec)>,
}

impl Default for FailpointConfig {
    fn default() -> (c: Self)
        ensures
            !c.enabled,
            c.default_probability.bits == ZERO_BITS,
            c.max_duration == seconds(300),
            c.failpoints@.len() == 0,
    {
        FailpointConfig {
            enabled: false,
            default_probability: F64Bits::from_bits(ZERO_BITS),
            max_duration: from_secs(300),
            failpoints: Vec::new(),
        }
    }
}

/// Number of triggers recorded under a name.
pub open spec fn count_of(v: Seq<(String, u64)>, name: Seq<char>) -> int
    decreases v.len(),
{
    if v.len() == 0 {
        0
    } else {
        count_of(v.drop_last(), name) + if v.last().0@ == name { v.last().1 as int } else { 0int }
    }
}

/// Sum of all recorded counts.
pub open spec fn sum_counts(v: Seq<(String, u64)>) -> int
    decreases v.len(),
{
    if v.len() == 0 {
        0
    } else {
        sum_counts(v.drop_last()) + v.last().1 as int
    }
}

/// No name occurs twice.
pub open spec fn distinct_names(v: Seq<(String, u64)>) -> bool {
    forall|i: int, j: int| 0 <= i < j < v.len() ==> (#[trigger] v[i]).0@ != (#[trigger] v[j]).0@
}

/// Trigger counts of the fault injection points.
#[derive(Debug, Clone)]
pub struct FailpointMetrics {
    total_triggers: u64,
    triggers_by_name: Vec<(String, u64)>,
}

proof fn lemma_count_absent(v: Seq<(String, u64)>, name: Seq<char>)
    requires
        forall|i: int| 0 <= i < v.len() ==> (#[trigger] v[i]).0@ != name,
    ensures
        count_of(v, name) == 0,
    decreases v.len(),
{
    if v.len() > 0 {
        lemma_count_absent(v.drop_last(), name);
    }
}

proof fn lemma_count_update(v: Seq<(String, u64)>, i: int, c: u64, name: Seq<char>)
    requires
        0 <= i < v.len(),
    ensures
        count_of(v.update(i, (v[i].0, c)), name)
            == count_of(v, name) + if v[i].0@ == name { c - v[i].1 } else { 0int },
        sum_counts(v.update(i, (v[i].0, c))) == sum_counts(v) + c - v[i].1,
    decreases v.len(),
{
    let w = v.update(i, (v[i].0, c));
    if i < v.len() - 1 {
        assert(w.drop_last() =~= v.drop_last().update(i, (v[i].0, c)));
        lemma_count_update(v.drop_last(), i, c, name);
    } else {
        assert(w.drop_last() =~= v.drop_last());
    }
}

proof fn lemma_entry_within_sum(v: Seq<(String, u64)>, i: int)
    requires
        0 <= i < v.len(),
    ensures
        v[i].1 <= sum_counts(v),
    decreases v.len(),
{
    lemma_sum_nonnegative(v.drop_last());
    if i < v.len() - 1 {
        lemma_entry_within_sum(v.drop_last(), i);
    }
}

proof fn lemma_sum_nonnegative(v: Seq<(String, u64)>)
    ensures
        sum_counts(v) >= 0,
    decreases v.len(),
{
    if v.len() > 0 {
        lemma_sum_nonnegative(v.drop_last());
    }
}

impl FailpointMetrics {
    /// The counts kept by name, in first-trigger order.
    pub closed spec fn entries(&self) -> Seq<(String, u64)> {
        self.triggers_by_name@
    }

    /// The total number of triggers.
    pub closed spec fn total(&self) -> u64 {
        self.total_triggers
    }

    /// Each name is counted once and the total is the sum of the counts.
    pub closed spec fn wf(&self) -> bool {
        &&& distinct_names(self.triggers_by_name@)
        &&& self.total_triggers as int == sum_counts(self.triggers_by_name@)
    }

    /// No trigger recorded yet.
    pub fn new() -> (m: Self)
        ensures
            m.wf(),
            m.total() == 0,
            m.entries().len() == 0,
    {
        FailpointMetrics { total_triggers: 0, triggers_by_name: Vec::new() }
    }

    /// Records one trigger of the named point.
    pub fn record_trigger(&mut self, name: &str)
        requires
            old(self).wf(),
            old(self).total() < u64::MAX,
        ensures
            final(self).wf(),
            final(self).total() == old(self).total() + 1,
            count_of(final(self).entries(), name@) == count_of(old(self).entries(), name@) + 1,
            forall|n: Seq<char>| n != name@ ==> count_of(#[trigger] final(self).entries(), n) == count_of(old(self).entries(), n),
    {
        let ghost v0 = self.triggers_by_name@;
        let mut i: usize = 0;
        while i < self.triggers_by_name.len()
            invariant
                i <= self.triggers_by_name.len(),
                self.triggers_by_name@ == v0,
                v0 == old(self).triggers_by_name@,
                self.total_triggers == old(self).total_triggers,
                self.total_triggers < u64::MAX,
                self.total_triggers as int == sum_counts(v0),
                distinct_names(v0),
                forall|j: int| 0 <= j < i ==> (#[trigger] v0[j]).0@ != name@,
            decreases self.triggers_by_name.len() - i,
        {
            if str_eq(self.triggers_by_name[i].0.as_str(), name) {
                proof {
                    lemma_entry_within_sum(v0, i as int);
                }
                let c = self.triggers_by_name[i].1 + 1;
                let key = self.triggers_by_name[i].0.clone();
                self.triggers_by_name.set(i, (key, c));
                self.total_triggers = self.total_triggers + 1;
                proof {
                    assert(self.triggers_by_name@ =~= v0.update(i as int, (v0[i as int].0, c)));
                    assert forall|n: Seq<char>| true implies
                        #[trigger] count_of(self.triggers_by_name@, n)
                            == count_of(v0, n) + if v0[i as int].0@ == n { 1int } else { 0int } by {
                        lemma_count_update(v0, i as int, c, n);
                    }
                    lemma_count_update(v0, i as int, c, name@);
                    assert(distinct_names(self.triggers_by_name@)) by {
                        assert forall|a: int, b: int| 0 <= a < b < self.triggers_by_name@.len() implies
                            (#[trigger] self.triggers_by_name@[a]).0@ != (#[trigger] self.triggers_by_name@[b]).0@ by {
                            assert(self.triggers_by_name@[a].0 == v0[a].0);
                            assert(self.triggers_by_name@[b].0 == v0[b].0);
                        }
                    }
                }
                return;
            }
            i = i + 1;
        }
        self.triggers_by_name.push((owned(name), 1));
        self.total_triggers = self.total_triggers + 1;
        proof {
            let v1 = self.triggers_by_name@;
            assert(v1.drop_last() =~= v0);
            assert(sum_counts(v1) == sum_counts(v0) + 1);
            lemma_count_absent(v0, name@);
            assert forall|n: Seq<char>| n != name@ implies
                count_of(#[trigger] self.triggers_by_name@, n) == count_of(v0, n) by {
                assert(v1.drop_last() =~= v0);
            }
            assert(distinct_names(v1)) by {
                assert forall|a: int, b: int| 0 <= a < b < v1.len() implies
                    (#[trigger] v1[a]).0@ != (#[trigger] v1[b]).0@ by {
                    if b == v1.len() - 1 {
                        assert(v1[a] == v0[a]);
                    } else {
                        assert(v1[a] == v0[a]);
                        assert(v1[b] == v0[b]);
                    }
                }
            }
        }
    }

    /// The total number of triggers recorded.
    pub fn get_total_triggers(&self) -> (n: u64)
        ensures
            n == self.total(),
    {
        self.total_triggers
    }

    /// The trigger count of each point triggered so far, one entry per
    /// name.
    pub fn get_triggers_by_name(&self) -> (v: Vec<(String, u64)>)
        ensures
            v@ == self.entries(),
    {
        let mut v: Vec<(String, u64)> = Vec::new();
        let mut i: usize = 0;
        while i < self.triggers_by_name.len()
            invariant
                i <= self.triggers_by_name.len(),
                v@ == self.triggers_by_name@.subrange(0, i as int),
            decreases self.triggers_by_name.len() - i,
        {
            let (name, count) = &self.triggers_by_name[i];
            v.push((name.clone(), *count));
            assert(v@ =~= self.triggers_by_name@.subrange(0, i + 1));
            i = i + 1;
        }
        assert(self.triggers_by_name@.subrange(0, self.triggers_by_name@.len() as int) =~= self.triggers_by_name@);
        v
    }
}

/// The trigger counts keep one entry per name.
pub proof fn lemma_names_distinct(m: FailpointMetrics)
    requires
        m.wf(),
    ensures
        distinct_names(m.entries()),
{
}

/// The total number of triggers equals the sum of the per-name counts.
pub proof fn lemma_total_is_sum(m: FailpointMetrics)
    requires
        m.wf(),
    ensures
        m.total() as int == sum_counts(m.entries()),
{
}


/// A fault injection point that is currently active.
#[derive(Debug)]
pub struct ActiveFailpoint {
    pub spec: FailpointSpec,
    /// When the point was configured.
    pub created_at: u128,
    /// How often it was triggered since.
    pub trigger_count: u32,
    /// When it was last triggered.
    pub last_triggered: Option<u128>,
}

/// What is known of an active fault injection point.
#[derive(Debug, Clone)]
pub struct FailpointStatus {
    pub name: String,
    pub description: String,
    pub probability: F64Bits,
    pub trigger_count: u32,
    pub created_at: u128,
    pub last_triggered: Option<u128>,
    /// The point has outlived its duration.
    pub is_expired: bool,
}

/// Time elapsed since `created_at`, none when the clock reads earlier.
pub open spec fn elapsed(created_at: u128, now: u128) -> int {
    if now >= created_at { now - created_at } else { 0 }
}

/// An active point has outlived its duration at time `now`.
pub open spec fn expired(fp: ActiveFailpoint, now: u128) -> bool {
    match fp.spec.duration {
        Some(d) => elapsed(fp.created_at, now) > nanos(d),
        None => false,
    }
}

/// The names of the active points.
pub open spec fn active_names(v: Seq<(String, ActiveFailpoint)>) -> Seq<Seq<char>> {
    v.map_values(|e: (String, ActiveFailpoint)| e.0@)
}

/// The names of a list without `name`.
pub open spec fn without(names: Seq<Seq<char>>, name: Seq<char>) -> Seq<Seq<char>>
    decreases names.len(),
{
    if names.len() == 0 {
        seq![]
    } else {
        without(names.drop_last(), name) + if names.last() == name { seq![] } else { seq![names.last()] }
    }
}

/// `e` is one of the entries of `v`.
pub open spec fn holds_entry(v: Seq<(String, ActiveFailpoint)>, e: (String, ActiveFailpoint)) -> bool {
    exists|m: int| 0 <= m < v.len() && #[trigger] v[m] == e
}

/// No name occurs twice in a list of names.
pub open spec fn unique(names: Seq<Seq<char>>) -> bool {
    forall|i: int, j: int| 0 <= i < j < names.len() ==> names[i] != names[j]
}

/// The configuration text the fault injection library reads for a point:
/// below certainty it starts with the percentage, then says what the point
/// does; a custom configuration is taken as written.
pub open spec fn fail_config_text(t: FailpointType, below_one: bool, percent: u32) -> Seq<char> {
    let p = if below_one { decimal(percent as nat) + "%"@ } else { Seq::<char>::empty() };
    match t {
        FailpointType::Return(m) => p + "return("@ + m@ + ")"@,
        FailpointType::Panic(m) => p + "panic("@ + m@ + ")"@,
        FailpointType::Delay(d) => p + "sleep("@ + decimal((nanos(d) / 1_000_000) as nat) + ")"@,
        FailpointType::Skip => p + "return"@,
        FailpointType::ReturnValue(v) => p + "return("@ + v@ + ")"@,
        FailpointType::Custom(c) => c@,
    }
}

/// Below certainty a point fires with the given percentage whatever its
/// failure kind: for every kind but a custom configuration, the text is
/// the percentage, `%`, and then the text the point has at certainty; a
/// custom configuration is taken as written either way.
pub proof fn lemma_probability_prefix(t: FailpointType, percent: u32)
    ensures
        !(t is Custom) ==> fail_config_text(t, true, percent)
            == decimal(percent as nat) + "%"@ + fail_config_text(t, false, percent),
        !(t is Custom) ==> (decimal(percent as nat) + "%"@).is_prefix_of(fail_config_text(t, true, percent)),
        t is Custom ==> fail_config_text(t, true, percent) == fail_config_text(t, false, percent),
{
    let p = decimal(percent as nat) + "%"@;
    if !(t is Custom) {
        let rest = fail_config_text(t, false, percent);
        assert(Seq::<char>::empty() + rest =~= rest);
        match t {
            FailpointType::Return(m) => {
                assert(fail_config_text(t, true, percent) =~= p + rest);
            },
            FailpointType::Panic(m) => {
                assert(fail_config_text(t, true, percent) =~= p + rest);
            },
            FailpointType::Delay(d) => {
                assert(fail_config_text(t, true, percent) =~= p + rest);
            },
            FailpointType::Skip => {
                assert(fail_config_text(t, true, percent) =~= p + rest);
            },
            FailpointType::ReturnValue(v) => {
                assert(fail_config_text(t, true, percent) =~= p + rest);
            },
            FailpointType::Custom(c) => {},
        }
        assert(p.is_prefix_of(p + rest)) by {
            assert((p + rest).subrange(0, p.len() as int) =~= p);
        }
    }
}

/// Configures, tracks and counts fault injection points.
#[derive(Debug)]
pub struct FailpointManager {
    config: FailpointConfig,
    active: Vec<(String, ActiveFailpoint)>,
    metrics: FailpointMetrics,
}

fn is_expired_at(fp: &ActiveFailpoint, now: u128) -> (r: bool)
    ensures
        r == expired(*fp, now),
{
    match &fp.spec.duration {
        Some(d) => {
            let e: u128 = if now >= fp.created_at { now - fp.created_at } else { 0 };
            e > as_nanos(d)
        },
        None => false,
    }
}

impl FailpointManager {
    /// The manager's settings.
    pub closed spec fn config_spec(&self) -> FailpointConfig {
        self.config
    }

    /// The active points, in configuration order.
    pub closed spec fn active(&self) -> Seq<(String, ActiveFailpoint)> {
        self.active@
    }

    /// The trigger counts.
    pub closed spec fn metrics_spec(&self) -> FailpointMetrics {
        self.metrics
    }

    /// Active names are distinct and the counts are consistent.
    pub closed spec fn wf(&self) -> bool {
        unique(active_names(self.active@)) && self.metrics.wf()
    }

    /// In a well-formed manager no name is active twice, and the counts
    /// are well formed: one entry per name, with the total their sum.
    pub proof fn lemma_wf_unique(&self)
        requires
            self.wf(),
        ensures
            unique(active_names(self.active())),
            self.metrics_spec().wf(),
            distinct_names(self.metrics_spec().entries()),
            self.metrics_spec().total() as int == sum_counts(self.metrics_spec().entries()),
    {
    }

    /// A manager with no active point and no trigger recorded.
    pub fn new(config: FailpointConfig) -> (m: Self)
        ensures
            m.wf(),
            m.config_spec() == config,
            m.active().len() == 0,
            m.metrics_spec().total() == 0,
            m.metrics_spec().entries().len() == 0,
    {
        FailpointManager { config, active: Vec::new(), metrics: FailpointMetrics::new() }
    }

    /// The trigger counts.
    pub fn metrics(&self) -> (m: &FailpointMetrics)
        ensures
            *m == self.metrics_spec(),
    {
        &self.metrics
    }

    fn position(&self, name: &str) -> (r: Option<usize>)
        ensures
            r matches Some(i) ==> i < self.active@.len() && self.active@[i as int].0@ == name@,
            r is None ==> forall|j: int| 0 <= j < self.active@.len() ==> (#[trigger] self.active@[j]).0@ != name@,
    {
        let mut i: usize = 0;
        while i < self.active.len()
            invariant
                i <= self.active.len(),
                forall|j: int| 0 <= j < i ==> (#[trigger] self.active@[j]).0@ != name@,
            decreases self.active.len() - i,
        {
            if str_eq(self.active[i].0.as_str(), name) {
                return Some(i);
            }
            i = i + 1;
        }
        None
    }

    /// Activates a point at time `now`, replacing an active point of the
    /// same name. Nothing happens while the system is disabled.
    pub fn configure_failpoint(&mut self, name: &str, spec: FailpointSpec, now: u128)
        requires
            old(self).wf(),
        ensures
            final(self).wf(),
            final(self).config_spec() == old(self).config_spec(),
            final(self).metrics_spec() == old(self).metrics_spec(),
            !old(self).config_spec().enabled ==> final(self).active() == old(self).active(),
            old(self).config_spec().enabled ==> active_names(final(self).active())
                == if active_names(old(self).active()).contains(name@) {
                    active_names(old(self).active())
                } else {
                    active_names(old(self).active()).push(name@)
                },
            old(self).config_spec().enabled ==> exists|i: int| 0 <= i < final(self).active().len()
                && (#[trigger] final(self).active()[i]).0@ == name@
                && final(self).active()[i].1 == (ActiveFailpoint {
                    spec,
                    created_at: now,
                    trigger_count: 0,
                    last_triggered: None,
                }),
            forall|j: int| 0 <= j < old(self).active().len() && (#[trigger] old(self).active()[j]).0@ != name@
                ==> final(self).active()[j] == old(self).active()[j],
    {
        if !self.config.enabled {
            return;
        }
        let ghost names0 = active_names(self.active@);
        let entry = ActiveFailpoint { spec, created_at: now, trigger_count: 0, last_triggered: None };
        match self.position(name) {
            Some(i) => {
                let key = self.active[i].0.clone();
                self.active.set(i, (key, entry));
                proof {
                    assert(active_names(self.active@) =~= names0);
                    assert(names0.contains(name@)) by {
                        assert(names0[i as int] == name@);
                    }
                    assert(self.active@[i as int].0@ == name@);
                }
            },
            None => {
                self.active.push((owned(name), entry));
                proof {
                    assert(active_names(self.active@) =~= names0.push(name@));
                    assert(!names0.contains(name@)) by {
                        if names0.contains(name@) {
                            let k = choose|k: int| 0 <= k < names0.len() && names0[k] == name@;
                            assert(self.active@[k].0@ == name@);
                        }
                    }
                    let n = self.active@.len() - 1;
                    assert(self.active@[n].0@ == name@);
                }
            },
        }
    }

    /// Deactivates the named point.
    pub fn remove_failpoint(&mut self, name: &str)
        requires
            old(self).wf(),
        ensures
            final(self).wf(),
            final(self).config_spec() == old(self).config_spec(),
            final(self).metrics_spec() == old(self).metrics_spec(),
            active_names(final(self).active()) == without(active_names(old(self).active()), name@),
            (exists|i: int| 0 <= i < old(self).active().len() && (#[trigger] old(self).active()[i]).0@ == name@
                && final(self).active() == old(self).active().remove(i))
                || (final(self).active() == old(self).active()
                    && forall|i: int| 0 <= i < old(self).active().len() ==> (#[trigger] old(self).active()[i]).0@ != name@),
    {
        let ghost names0 = active_names(self.active@);
        match self.position(name) {
            Some(i) => {
                let ghost v0 = self.active@;
                let _removed = self.active.remove(i);
                proof {
                    assert(active_names(self.active@) =~= names0.remove(i as int));
                    lemma_without_at(names0, name@, i as int);
                    assert(unique(active_names(self.active@))) by {
                        assert forall|x: int, y: int| 0 <= x < y < active_names(self.active@).len() implies
                            active_names(self.active@)[x] != active_names(self.active@)[y] by {
                            let ox = if x < i { x } else { x + 1 };
                            let oy = if y < i { y } else { y + 1 };
                            assert(active_names(self.active@)[x] == names0[ox]);
                            assert(active_names(self.active@)[y] == names0[oy]);
                        }
                    }
                }
            },
            None => {
                proof {
                    assert forall|k: int| 0 <= k < names0.len() implies names0[k] != name@ by {
                        assert(self.active@[k].0@ == names0[k]);
                    }
                    lemma_without_absent(names0, name@);
                }
            },
        }
    }

    /// Deactivates every point.
    pub fn clear_all_failpoints(&mut self)
        requires
            old(self).wf(),
        ensures
            final(self).wf(),
            final(self).config_spec() == old(self).config_spec(),
            final(self).metrics_spec() == old(self).metrics_spec(),
            final(self).active().len() == 0,
    {
        self.active = Vec::new();
        assert(unique(active_names(self.active@)));
    }

    /// The status of each active point at time `now`, in configuration
    /// order.
    pub fn get_active_failpoints(&self, now: u128) -> (v: Vec<FailpointStatus>)
        ensures
            v@.len() == self.active().len(),
            forall|i: int| 0 <= i < v@.len() ==> {
                let s = #[trigger] v@[i];
                let e = self.active()[i];
                &&& s.name@ == e.0@
                &&& s.description@ == e.1.spec.description@
                &&& s.probability == e.1.spec.probability
                &&& s.trigger_count == e.1.trigger_count
                &&& s.created_at == e.1.created_at
                &&& s.last_triggered == e.1.last_triggered
                &&& s.is_expired == expired(e.1, now)
            },
    {
        let mut v: Vec<FailpointStatus> = Vec::new();
        let mut i: usize = 0;
        while i < self.active.len()
            invariant
                i <= self.active.len(),
                v@.len() == i,
                forall|k: int| 0 <= k < i ==> {
                    let s = #[trigger] v@[k];
                    let e = self.active@[k];
                    &&& s.name@ == e.0@
                    &&& s.description@ == e.1.spec.description@
                    &&& s.probability == e.1.spec.probability
                    &&& s.trigger_count == e.1.trigger_count
                    &&& s.created_at == e.1.created_at
                    &&& s.last_triggered == e.1.last_triggered
                    &&& s.is_expired == expired(e.1, now)
                },
            decreases self.active.len() - i,
        {
            let (name, fp) = &self.active[i];
            v.push(FailpointStatus {
                name: name.clone(),
                description: fp.spec.description.clone(),
                probability: fp.spec.probability,
                trigger_count: fp.trigger_count,
                created_at: fp.created_at,
                last_triggered: fp.last_triggered,
                is_expired: is_expired_at(fp, now),
            });
            i = i + 1;
        }
        v
    }

    /// Records a trigger of the named point at time `now`: an active point
    /// counts it and notes the time; the metrics count every trigger.
    pub fn record_trigger(&mut self, name: &str, now: u128)
        requires
            old(self).wf(),
            old(self).metrics_spec().total() < u64::MAX,
            forall|i: int| 0 <= i < old(self).active().len() && (#[trigger] old(self).active()[i]).0@ == name@
                ==> old(self).active()[i].1.trigger_count < u32::MAX,
        ensures
            final(self).wf(),
            final(self).config_spec() == old(self).config_spec(),
            active_names(final(self).active()) == active_names(old(self).active()),
            forall|i: int| 0 <= i < final(self).active().len() ==> {
                let e = #[trigger] final(self).active()[i];
                let o = old(self).active()[i];
                &&& e.0 == o.0
                &&& e.1.spec == o.1.spec
                &&& e.1.created_at == o.1.created_at
                &&& if o.0@ == name@ {
                    e.1.trigger_count == o.1.trigger_count + 1 && e.1.last_triggered == Some(now)
                } else {
                    e.1.trigger_count == o.1.trigger_count && e.1.last_triggered == o.1.last_triggered
                }
            },
            final(self).metrics_spec().total() == old(self).metrics_spec().total() + 1,
            count_of(final(self).metrics_spec().entries(), name@) == count_of(old(self).metrics_spec().entries(), name@) + 1,
            forall|n: Seq<char>| n != name@ ==> count_of(#[trigger] final(self).metrics_spec().entries(), n)
                == count_of(old(self).metrics_spec().entries(), n),
    {
        match self.position(name) {
            Some(i) => {
                let ghost v0 = self.active@;
                let (key, mut fp) = self.active.remove(i);
                fp.trigger_count = fp.trigger_count + 1;
                fp.last_triggered = Some(now);
                self.active.insert(i, (key, fp));
                proof {
                    assert(active_names(self.active@) =~= active_names(v0));
                    assert forall|k: int| 0 <= k < self.active@.len() && k != i implies
                        #[trigger] self.active@[k] == v0[k] by {}
                    assert forall|k: int| 0 <= k < self.active@.len() && k != i implies
                        (#[trigger] v0[k]).0@ != name@ by {
                        assert(active_names(v0)[k] == v0[k].0@);
                        assert(active_names(v0)[i as int] == v0[i as int].0@);
                    }
                }
            },
            None => {},
        }
        self.metrics.record_trigger(name);
    }

    /// Deactivates every point that has outlived its duration at `now`.
    pub fn cleanup_expired_failpoints(&mut self, now: u128)
        requires
            old(self).wf(),
        ensures
            final(self).wf(),
            final(self).config_spec() == old(self).config_spec(),
            final(self).metrics_spec() == old(self).metrics_spec(),
            forall|i: int| 0 <= i < final(self).active().len() ==> !expired(#[trigger] final(self).active()[i].1, now),
            forall|i: int| 0 <= i < old(self).active().len() && !expired(#[trigger] old(self).active()[i].1, now)
                ==> active_names(final(self).active()).contains(old(self).active()[i].0@),
    {
        let ghost v0 = self.active@;
        proof {
            assert forall|k: int| 0 <= k < v0.len() implies active_names(self.active@).contains(#[trigger] v0[k].0@) by {
                assert(active_names(self.active@)[k] == v0[k].0@);
            }
            assert forall|k: int| 0 <= k < self.active@.len() implies holds_entry(v0, #[trigger] self.active@[k]) by {
                assert(v0[k] == self.active@[k]);
            }
        }
        let mut i: usize = 0;
        while i < self.active.len()
            invariant
                i <= self.active.len(),
                unique(active_names(self.active@)),
                unique(active_names(v0)),
                forall|k: int| 0 <= k < i ==> !expired(#[trigger] self.active@[k].1, now),
                forall|k: int| 0 <= k < v0.len() && !expired(#[trigger] v0[k].1, now)
                    ==> active_names(self.active@).contains(v0[k].0@),
                forall|k: int| 0 <= k < self.active@.len() ==> holds_entry(v0, #[trigger] self.active@[k]),
                self.metrics == old(self).metrics,
                self.config == old(self).config,
            decreases self.active.len() - i,
        {
            if is_expired_at(&self.active[i].1, now) {
                let ghost before = self.active@;
                let _gone = self.active.remove(i);
                proof {
                    assert(active_names(self.active@) =~= active_names(before).remove(i as int));
                    assert forall|x: int, y: int| 0 <= x < y < active_names(self.active@).len() implies
                        active_names(self.active@)[x] != active_names(self.active@)[y] by {
                        let ox = if x < i { x } else { x + 1 };
                        let oy = if y < i { y } else { y + 1 };
                        assert(active_names(self.active@)[x] == active_names(before)[ox]);
                        assert(active_names(self.active@)[y] == active_names(before)[oy]);
                    }
                    assert forall|k: int| 0 <= k < v0.len() && !expired(#[trigger] v0[k].1, now) implies
                        active_names(self.active@).contains(v0[k].0@) by {
                        let p = choose|p: int| 0 <= p < active_names(before).len() && active_names(before)[p] == v0[k].0@;
                        assert(p != i as int) by {
                            if p == i as int {
                                assert(holds_entry(v0, before[p]));
                                let m = choose|m: int| 0 <= m < v0.len() && #[trigger] v0[m] == before[p];
                                assert(active_names(before)[p] == before[p].0@);
                                assert(active_names(v0)[m] == v0[m].0@);
                                assert(active_names(v0)[k] == v0[k].0@);
                                if m != k {
                                    if m < k {
                                        assert(active_names(v0)[m] != active_names(v0)[k]);
                                    } else {
                                        assert(active_names(v0)[k] != active_names(v0)[m]);
                                    }
                                }
                                assert(expired(before[p].1, now));
                            }
                        }
                        let q = if p < i { p } else { p - 1 };
                        assert(active_names(self.active@)[q] == v0[k].0@);
                    }
                    assert forall|k: int| 0 <= k < self.active@.len() implies holds_entry(v0, #[trigger] self.active@[k]) by {
                        let ok = if k < i { k } else { k + 1 };
                        assert(self.active@[k] == before[ok]);
                        assert(holds_entry(v0, before[ok]));
                    }
                }
            } else {
                i = i + 1;
            }
        }
    }
}

proof fn lemma_without_absent(names: Seq<Seq<char>>, name: Seq<char>)
    requires
        forall|k: int| 0 <= k < names.len() ==> names[k] != name,
    ensures
        without(names, name) == names,
    decreases names.len(),
{
    if names.len() > 0 {
        lemma_without_absent(names.drop_last(), name);
        assert(names.drop_last().push(names.last()) =~= names);
    }
}

proof fn lemma_without_at(names: Seq<Seq<char>>, name: Seq<char>, i: int)
    requires
        0 <= i < names.len(),
        names[i] == name,
        unique(names),
    ensures
        without(names, name) == names.remove(i),
    decreases names.len(),
{
    let d = names.drop_last();
    if i == names.len() - 1 {
        lemma_without_absent(d, name);
        assert(names.remove(i) =~= d);
    } else {
        lemma_without_at(d, name, i);
        assert(names.last() != name);
        assert(d.remove(i).push(names.last()) =~= names.remove(i));
    }
}


impl FailpointManager {
    /// The configuration text of a point for the fault injection library.
    /// `percent` is the point's probability times 100, truncated, as the
    /// caller computes it in floating point; it is used only when the
    /// probability is below 1.0.
    pub fn build_fail_config(&self, spec: &FailpointSpec, percent: u32) -> (s: String)
        ensures
            s@ == fail_config_text(spec.failure_type, f64_lt(spec.probability.bits, ONE_BITS), percent),
    {
        proof {
            reveal_strlit("%");
            reveal_strlit("return(");
            reveal_strlit("panic(");
            reveal_strlit("sleep(");
            reveal_strlit(")");
            reveal_strlit("return");
        }
        let below_one = spec.probability.lt(&F64Bits::from_bits(ONE_BITS));
        if let FailpointType::Custom(config) = &spec.failure_type {
            return config.clone();
        }
        let mut s = String::new();
        if below_one {
            push_decimal(&mut s, percent as u64);
            push_str(&mut s, "%");
        }
        let ghost prefix = s@;
        match &spec.failure_type {
            FailpointType::Return(msg) => {
                push_str(&mut s, "return(");
                push_str(&mut s, msg.as_str());
                push_str(&mut s, ")");
            },
            FailpointType::Panic(msg) => {
                push_str(&mut s, "panic(");
                push_str(&mut s, msg.as_str());
                push_str(&mut s, ")");
            },
            FailpointType::Delay(duration) => {
                let ms = as_nanos(duration) / 1_000_000;
                push_str(&mut s, "sleep(");
                push_decimal_wide(&mut s, ms);
                push_str(&mut s, ")");
            },
            FailpointType::Skip => {
                push_str(&mut s, "return");
            },
            FailpointType::ReturnValue(value) => {
                push_str(&mut s, "return(");
                push_str(&mut s, value.as_str());
                push_str(&mut s, ")");
            },
            FailpointType::Custom(config) => {},
        }
        assert(s@ =~= fail_config_text(spec.failure_type, below_one, percent));
        s
    }
}

} // verus!
