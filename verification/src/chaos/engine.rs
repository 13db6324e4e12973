//! The chaos engine: which experiments it admits and which are active.

use vstd::prelude::*;
use crate::chaos::config::{BlastRadius, ChaosConfig};
use crate::chaos::experiments::ChaosExperiment;
use crate::text::{owned, push_str, views, contains_str};

verus! {

/// Why an experiment is refused, if it is: a single-service experiment
/// must target an allowed service, and multi-service experiments must be
/// enabled.
pub open spec fn engine_refusal(config: ChaosConfig, radius: BlastRadius, target: Seq<char>) -> Option<Seq<char>> {
    match radius {
        BlastRadius::UnitTest => None,
        BlastRadius::SingleService => if views(config.allowed_services@).contains(target) {
            None
        } else {
            Some("Service "@ + target + " not in allowed list"@)
        },
        BlastRadius::MultiService => if config.multi_service_experiments_enabled {
            None
        } else {
            Some("Multi-service experiments not enabled"@)
        },
    }
}

/// Identifier and target of each active experiment, in start order.
pub open spec fn active_view(v: Seq<(u128, String, ChaosExperiment)>) -> Seq<(u128, Seq<char>)> {
    v.map_values(|e: (u128, String, ChaosExperiment)| (e.0, e.1@))
}

/// Identifiers of the active experiments, in start order.
pub open spec fn active_ids(v: Seq<(u128, Seq<char>)>) -> Seq<u128> {
    v.map_values(|e: (u128, Seq<char>)| e.0)
}

/// No identifier occurs twice.
pub open spec fn unique_ids(v: Seq<(u128, Seq<char>)>) -> bool {
    forall|i: int, j: int| 0 <= i < j < v.len() ==> (#[trigger] v[i]).0 != (#[trigger] v[j]).0
}

/// The active experiments without the one under `id`.
pub open spec fn without_id(v: Seq<(u128, Seq<char>)>, id: u128) -> Seq<(u128, Seq<char>)>
    decreases v.len(),
{
    if v.len() == 0 {
        v
    } else if v[0].0 == id {
        without_id(v.drop_first(), id)
    } else {
        seq![v[0]] + without_id(v.drop_first(), id)
    }
}

/// Admits chaos experiments and keeps track of the active ones.
pub struct ChaosEngine {
    config: ChaosConfig,
    active: Vec<(u128, String, ChaosExperiment)>,
}

impl ChaosEngine {
    /// The engine's settings.
    pub closed spec fn config_view(&self) -> ChaosConfig {
        self.config
    }

    /// Identifier and target of each active experiment, in start order.
    pub closed spec fn active(&self) -> Seq<(u128, Seq<char>)> {
        active_view(self.active@)
    }

    /// Identifiers of the active experiments are unique.
    pub closed spec fn wf(&self) -> bool {
        unique_ids(self.active())
    }

    /// An engine with no active experiment.
    pub fn new(config: ChaosConfig) -> (e: Self)
        ensures
            e.wf(),
            e.config_view() == config,
            e.active().len() == 0,
    {
        let e = ChaosEngine { config, active: Vec::new() };
        assert(e.active() =~= Seq::empty());
        e
    }

    /// Checks an experiment against the blast radius rules.
    pub fn validate_experiment(&self, blast_radius: &BlastRadius, target: &str) -> (r: Result<(), String>)
        ensures
            r is Ok <==> engine_refusal(self.config_view(), *blast_radius, target@) is None,
            r matches Err(m) ==> m@ == engine_refusal(self.config_view(), *blast_radius, target@)->Some_0,
    {
        proof {
            reveal_strlit("Service ");
            reveal_strlit(" not in allowed list");
        }
        match blast_radius {
            BlastRadius::UnitTest => Ok(()),
            BlastRadius::SingleService => {
                if contains_str(&self.config.allowed_services, target) {
                    Ok(())
                } else {
                    let mut m = owned("Service ");
                    push_str(&mut m, target);
                    push_str(&mut m, " not in allowed list");
                    Err(m)
                }
            },
            BlastRadius::MultiService => {
                if self.config.multi_service_experiments_enabled {
                    Ok(())
                } else {
                    Err(owned("Multi-service experiments not enabled"))
                }
            },
        }
    }

    fn position(&self, id: u128) -> (r: Option<usize>)
        ensures
            r matches Some(i) ==> i < self.active@.len() && self.active@[i as int].0 == id,
            r is None ==> forall|j: int| 0 <= j < self.active@.len() ==> (#[trigger] self.active@[j]).0 != id,
    {
        let mut i: usize = 0;
        while i < self.active.len()
            invariant
                i <= self.active@.len(),
                forall|j: int| 0 <= j < i ==> (#[trigger] self.active@[j]).0 != id,
            decreases self.active@.len() - i,
        {
            if self.active[i].0 == id {
                return Some(i);
            }
            i = i + 1;
        }
        None
    }

    /// Admits an experiment on `target` and records it as active under its
    /// identifier, replacing an active experiment with the same identifier;
    /// a refused experiment leaves the engine as it was.
    pub fn start_experiment(&mut self, experiment: ChaosExperiment, target: String) -> (r: Result<u128, String>)
        requires
            old(self).wf(),
        ensures
            final(self).wf(),
            final(self).config_view() == old(self).config_view(),
            r is Ok <==> engine_refusal(old(self).config_view(), experiment.config.blast_radius, target@) is None,
            r matches Err(m) ==> m@ == engine_refusal(old(self).config_view(), experiment.config.blast_radius, target@)->Some_0
                && final(self).active() == old(self).active(),
            r matches Ok(id) ==> id == experiment.id
                && final(self).active() == without_id(old(self).active(), id).push((id, target@)),
    {
        let id = experiment.id;
        match self.validate_experiment(&experiment.config.blast_radius, target.as_str()) {
            Err(m) => Err(m),
            Ok(()) => {
                self.remove_id(id);
                let ghost removed = self.active();
                self.active.push((id, target, experiment));
                proof {
                    assert(self.active() =~= removed.push((id, self.active().last().1)));
                    lemma_push_unique(removed, id, self.active().last().1);
                }
                Ok(id)
            },
        }
    }

    /// Stops the experiment under `id`, if it is active.
    pub fn stop_experiment(&mut self, id: u128)
        requires
            old(self).wf(),
        ensures
            final(self).wf(),
            final(self).config_view() == old(self).config_view(),
            final(self).active() == without_id(old(self).active(), id),
    {
        self.remove_id(id);
    }

    fn remove_id(&mut self, id: u128)
        requires
            old(self).wf(),
        ensures
            final(self).wf(),
            final(self).config_view() == old(self).config_view(),
            final(self).active() == without_id(old(self).active(), id),
            forall|j: int| 0 <= j < final(self).active().len() ==> (#[trigger] final(self).active()[j]).0 != id,
    {
        let ghost before = self.active();
        match self.position(id) {
            Some(i) => {
                self.active.remove(i);
                proof {
                    assert(self.active() =~= before.remove(i as int));
                    lemma_without_at(before, id, i as int);
                    lemma_remove_unique(before, i as int);
                }
            },
            None => {
                proof {
                    assert forall|j: int| 0 <= j < before.len() implies (#[trigger] before[j]).0 != id by {
                        assert(before[j].0 == self.active@[j].0);
                    }
                    lemma_without_absent_id(before, id);
                }
            },
        }
    }

    /// The identifiers of the active experiments, in start order.
    pub fn get_active_experiments(&self) -> (v: Vec<u128>)
        ensures
            v@ == active_ids(self.active()),
    {
        let mut v: Vec<u128> = Vec::new();
        let mut i: usize = 0;
        while i < self.active.len()
            invariant
                i <= self.active@.len(),
                v@ == active_ids(active_view(self.active@)).subrange(0, i as int),
            decreases self.active@.len() - i,
        {
            v.push(self.active[i].0);
            i = i + 1;
        }
        assert(active_ids(active_view(self.active@)).subrange(0, self.active@.len() as int) =~= active_ids(active_view(self.active@)));
        v
    }

    /// Stops every active experiment; gives the identifiers stopped, in
    /// start order.
    pub fn emergency_stop_all(&mut self) -> (v: Vec<u128>)
        requires
            old(self).wf(),
        ensures
            final(self).wf(),
            final(self).config_view() == old(self).config_view(),
            final(self).active().len() == 0,
            v@ == active_ids(old(self).active()),
    {
        let v = self.get_active_experiments();
        self.active.clear();
        assert(self.active() =~= Seq::empty());
        v
    }
}

proof fn lemma_without_absent_id(v: Seq<(u128, Seq<char>)>, id: u128)
    requires
        forall|j: int| 0 <= j < v.len() ==> (#[trigger] v[j]).0 != id,
    ensures
        without_id(v, id) == v,
    decreases v.len(),
{
    if v.len() > 0 {
        let d = v.drop_first();
        assert forall|j: int| 0 <= j < d.len() implies (#[trigger] d[j]).0 != id by {
            assert(d[j] == v[j + 1]);
        }
        lemma_without_absent_id(d, id);
        assert(v[0].0 != id);
        assert(seq![v[0]] + d =~= v);
    }
}

proof fn lemma_without_at(v: Seq<(u128, Seq<char>)>, id: u128, i: int)
    requires
        unique_ids(v),
        0 <= i < v.len(),
        v[i].0 == id,
    ensures
        without_id(v, id) == v.remove(i),
    decreases v.len(),
{
    let d = v.drop_first();
    assert(unique_ids(d)) by {
        assert forall|a: int, b: int| 0 <= a < b < d.len() implies (#[trigger] d[a]).0 != (#[trigger] d[b]).0 by {
            assert(d[a] == v[a + 1] && d[b] == v[b + 1]);
        }
    }
    if i == 0 {
        assert forall|j: int| 0 <= j < d.len() implies (#[trigger] d[j]).0 != id by {
            assert(d[j] == v[j + 1]);
        }
        lemma_without_absent_id(d, id);
        assert(v.remove(0) =~= d);
    } else {
        assert(v[0].0 != id);
        assert(d[i - 1] == v[i]);
        lemma_without_at(d, id, i - 1);
        assert(seq![v[0]] + d.remove(i - 1) =~= v.remove(i));
    }
}

proof fn lemma_remove_unique(v: Seq<(u128, Seq<char>)>, i: int)
    requires
        unique_ids(v),
        0 <= i < v.len(),
    ensures
        unique_ids(v.remove(i)),
        forall|j: int| 0 <= j < v.remove(i).len() ==> (#[trigger] v.remove(i)[j]).0 != v[i].0,
{
    let w = v.remove(i);
    assert forall|a: int, b: int| 0 <= a < b < w.len() implies (#[trigger] w[a]).0 != (#[trigger] w[b]).0 by {
        let x = if a < i { a } else { a + 1 };
        let y = if b < i { b } else { b + 1 };
        assert(w[a] == v[x] && w[b] == v[y]);
    }
    assert forall|j: int| 0 <= j < w.len() implies (#[trigger] w[j]).0 != v[i].0 by {
        let x = if j < i { j } else { j + 1 };
        assert(w[j] == v[x]);
    }
}

proof fn lemma_push_unique(v: Seq<(u128, Seq<char>)>, id: u128, t: Seq<char>)
    requires
        unique_ids(v),
        forall|i: int| 0 <= i < v.len() ==> (#[trigger] v[i]).0 != id,
    ensures
        unique_ids(v.push((id, t))),
{
    let w = v.push((id, t));
    assert forall|a: int, b: int| 0 <= a < b < w.len() implies (#[trigger] w[a]).0 != (#[trigger] w[b]).0 by {
        assert(w[a] == v[a]);
        if b < v.len() {
            assert(w[b] == v[b]);
        }
    }
}

} // verus!
