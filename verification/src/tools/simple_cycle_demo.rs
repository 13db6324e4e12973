//! Dependency inversion between analysis and storage: the analysis
//! service talks to storage through an interface and announces its
//! progress as events.

use vstd::prelude::*;
use crate::text::{owned, push_str};

verus! {

/// A detected issue.
#[derive(Debug, Clone)]
pub struct Issue {
    pub id: u32,
    pub detector: String,
    pub severity: String,
    pub message: String,
    pub file_path: String,
    pub line: u32,
}

impl Issue {
    /// A copy of the issue.
    pub fn copy(&self) -> (i: Issue)
        ensures
            i == *self,
    {
        Issue {
            id: self.id,
            detector: self.detector.clone(),
            severity: self.severity.clone(),
            message: self.message.clone(),
            file_path: self.file_path.clone(),
            line: self.line,
        }
    }
}

/// Storage of issues, as the analysis sees it.
pub trait PersistenceProvider {
    /// Adds issues to the store.
    fn save_issues(&mut self, issues: Vec<Issue>);
    /// The issues stored so far.
    fn load_issues(&self) -> Vec<Issue>;
}

/// An in-memory store.
#[derive(Debug, Clone)]
pub struct MockPersistenceProvider {
    issues: Vec<Issue>,
}

impl MockPersistenceProvider {
    /// The issues held, in the order they were saved.
    pub closed spec fn stored(&self) -> Seq<Issue> {
        self.issues@
    }

    /// An empty store.
    pub fn new() -> (p: Self)
        ensures
            p.stored().len() == 0,
    {
        MockPersistenceProvider { issues: Vec::new() }
    }

    /// Number of issues held.
    pub fn count(&self) -> (n: usize)
        ensures
            n == self.stored().len(),
    {
        self.issues.len()
    }
}

impl PersistenceProvider for MockPersistenceProvider {
    fn save_issues(&mut self, issues: Vec<Issue>)
        ensures
            final(self).stored() == old(self).stored() + issues@,
    {
        let mut more = issues;
        self.issues.append(&mut more);
    }

    fn load_issues(&self) -> (v: Vec<Issue>)
        ensures
            v@ == self.stored(),
    {
        let mut v: Vec<Issue> = Vec::new();
        let mut i: usize = 0;
        while i < self.issues.len()
            invariant
                i <= self.issues.len(),
                v@ == self.issues@.subrange(0, i as int),
            decreases self.issues.len() - i,
        {
            v.push(self.issues[i].copy());
            assert(v@ =~= self.issues@.subrange(0, i + 1));
            i = i + 1;
        }
        assert(self.issues@.subrange(0, self.issues.len() as int) =~= self.issues@);
        v
    }
}

/// Publishes analysis events to its subscribers.
#[derive(Debug, Clone)]
pub struct EventSystem {
    subscribers: Vec<String>,
}

impl EventSystem {
    /// The subscribers, in subscription order.
    pub closed spec fn subscriber_names(&self) -> Seq<Seq<char>> {
        crate::text::views(self.subscribers@)
    }

    /// An event system without subscribers.
    pub fn new() -> (e: Self)
        ensures
            e.subscriber_names().len() == 0,
    {
        EventSystem { subscribers: Vec::new() }
    }

    /// Adds a subscriber.
    pub fn subscribe(&mut self, subscriber: String)
        ensures
            final(self).subscriber_names() == old(self).subscriber_names().push(subscriber@),
    {
        let ghost before = self.subscribers@;
        self.subscribers.push(subscriber);
        proof {
            crate::text::lemma_views_push(before, subscriber);
        }
    }

    /// The announcement of an event.
    pub fn publish(&self, event: &str) -> (line: String)
        ensures
            line@ == "      📡 Published event: "@ + event@,
    {
        let mut line = owned("      📡 Published event: ");
        push_str(&mut line, event);
        line
    }
}

/// Runs an analysis against injected storage and events.
pub struct AnalysisService<P: PersistenceProvider> {
    pub persistence: P,
    pub event_bus: EventSystem,
}

fn issue(id: u32, detector: &str, severity: &str, message: &str, file_path: &str, line: u32) -> (i: Issue)
    ensures
        i.id == id,
        i.detector@ == detector@,
        i.severity@ == severity@,
        i.message@ == message@,
        i.file_path@ == file_path@,
        i.line == line,
{
    Issue {
        id,
        detector: owned(detector),
        severity: owned(severity),
        message: owned(message),
        file_path: owned(file_path),
        line,
    }
}

/// The sample issues the example analysis reports.
pub fn sample_issues() -> (v: Vec<Issue>)
    ensures
        v@.len() == 2,
        v@[0].id == 1 && v@[0].detector@ == "circular_dependency_detector"@ && v@[0].line == 42,
        v@[1].id == 2 && v@[1].detector@ == "god_object_detector"@ && v@[1].line == 156,
{
    let mut v: Vec<Issue> = Vec::new();
    v.push(issue(1, "circular_dependency_detector", "Critical",
        "Circular dependency between analysis and database", "src/analysis/engine.rs", 42));
    v.push(issue(2, "god_object_detector", "High",
        "Class has too many responsibilities", "src/analysis/services.rs", 156));
    v
}

impl<P: PersistenceProvider> AnalysisService<P> {
    /// A service using the given storage and events.
    pub fn new(persistence: P, event_bus: EventSystem) -> (s: Self)
        ensures
            s.persistence == persistence,
            s.event_bus == event_bus,
    {
        AnalysisService { persistence, event_bus }
    }

    /// Runs the example analysis: announces the start, saves the sample
    /// issues, loads the store back, announces completion. Returns the
    /// announcements and the number of issues loaded.
    pub fn analyze_example(&mut self) -> (r: (Vec<String>, usize))
        ensures
            r.0@.len() == 2,
            r.0@[0]@ == "      📡 Published event: "@ + "analysis_started"@,
            r.0@[1]@ == "      📡 Published event: "@ + "analysis_completed"@,
    {
        let mut events: Vec<String> = Vec::new();
        events.push(self.event_bus.publish("analysis_started"));
        self.persistence.save_issues(sample_issues());
        let loaded = self.persistence.load_issues();
        events.push(self.event_bus.publish("analysis_completed"));
        (events, loaded.len())
    }
}

} // verus!
