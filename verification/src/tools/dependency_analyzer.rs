//! Module dependency graph with circular-dependency detection.
//!
//! Modules are interned: every name that occurs in a dependency gets a node
//! id. A module that has been the source of `add_dependency` is a *key* of the
//! graph, as in a map from module to the set of modules it depends on. Keys
//! and each key's dependencies are kept in insertion order, so the search for
//! cycles visits them in that order.

use vstd::prelude::*;
use crate::text::owned;

verus! {

/// A walk in a dependency map: each element depends on the next.
pub open spec fn is_walk(m: Map<Seq<char>, Set<Seq<char>>>, p: Seq<Seq<char>>) -> bool {
    forall|i: int| 0 <= i < p.len() - 1 ==> #[trigger] m.dom().contains(p[i]) && m[p[i]].contains(p[i + 1])
}

/// Module `a` reaches module `b` through zero or more dependencies.
pub open spec fn reaches(m: Map<Seq<char>, Set<Seq<char>>>, a: Seq<char>, b: Seq<char>) -> bool {
    exists|p: Seq<Seq<char>>| p.len() >= 1 && p[0] == a && p.last() == b && #[trigger] is_walk(m, p)
}

/// The dependency map holds a circular dependency.
pub open spec fn has_cycle(m: Map<Seq<char>, Set<Seq<char>>>) -> bool {
    exists|p: Seq<Seq<char>>| p.len() >= 2 && p[0] == p.last() && #[trigger] is_walk(m, p)
}

/// Dependency graph between modules.
pub struct DependencyGraph {
    names: Vec<String>,
    is_key: Vec<bool>,
    keys: Vec<usize>,
    deps: Vec<Vec<usize>>,
}

/// Search state of the depth-first search: which nodes have been visited and
/// which are on the current recursion stack. The ghost part records the
/// stack as a path and the finishing order of completed nodes.
struct DfsState {
    visited: Vec<bool>,
    on_stack: Vec<bool>,
    path: Ghost<Seq<int>>,
    fin: Ghost<Map<int, int>>,
    count: Ghost<int>,
}

/// Number of `false` entries.
spec fn unvisited(s: Seq<bool>) -> nat
    decreases s.len(),
{
    if s.len() == 0 {
        0
    } else {
        unvisited(s.drop_last()) + (if s.last() { 0nat } else { 1nat })
    }
}

proof fn lemma_unvisited_mono(a: Seq<bool>, b: Seq<bool>)
    requires
        a.len() == b.len(),
        forall|i: int| 0 <= i < a.len() && a[i] ==> b[i],
    ensures
        unvisited(b) <= unvisited(a),
    decreases a.len(),
{
    if a.len() > 0 {
        lemma_unvisited_mono(a.drop_last(), b.drop_last());
    }
}

proof fn lemma_unvisited_set(a: Seq<bool>, i: int)
    requires
        0 <= i < a.len(),
        !a[i],
    ensures
        unvisited(a.update(i, true)) + 1 == unvisited(a),
    decreases a.len(),
{
    let b = a.update(i, true);
    if i == a.len() - 1 {
        assert(b.drop_last() =~= a.drop_last());
    } else {
        assert(b.drop_last() =~= a.drop_last().update(i, true));
        lemma_unvisited_set(a.drop_last(), i);
    }
}

impl DependencyGraph {
    /// Internal consistency: names are distinct, ids are in range, each
    /// dependency list is free of repetition, and `keys` lists exactly the
    /// key nodes, each once.
    pub closed spec fn wf(&self) -> bool {
        let n = self.names.len();
        &&& self.is_key.len() == n
        &&& self.deps.len() == n
        &&& forall|i: int, j: int| 0 <= i < n && 0 <= j < n && i != j ==> self.names[i]@ != self.names[j]@
        &&& forall|i: int, k: int| 0 <= i < n && 0 <= k < self.deps[i].len() ==> self.deps[i][k] < n
        &&& forall|i: int| 0 <= i < n ==> self.deps[i]@.no_duplicates()
        &&& forall|i: int| 0 <= i < n && !self.is_key[i] ==> self.deps[i].len() == 0
        &&& self.keys@.no_duplicates()
        &&& forall|k: int| 0 <= k < self.keys.len() ==> self.keys[k] < n
        &&& forall|i: int| 0 <= i < n ==> (self.is_key[i] <==> self.keys@.contains(i as usize))
    }

    spec fn edge(&self, a: int, b: int) -> bool {
        0 <= a < self.names.len() && 0 <= b < self.names.len() && self.deps[a]@.contains(b as usize)
    }

    /// The id of a module name (meaningful when the name occurs in the graph).
    spec fn id_of(&self, m: Seq<char>) -> int {
        choose|i: int| 0 <= i < self.names.len() && self.names[i]@ == m
    }

    spec fn is_key_name(&self, m: Seq<char>) -> bool {
        exists|i: int| 0 <= i < self.names.len() && self.names[i]@ == m && self.is_key[i]
    }

    /// The graph as a map from each module to the set of modules it depends on.
    pub closed spec fn model(&self) -> Map<Seq<char>, Set<Seq<char>>> {
        Map::new(
            |m: Seq<char>| self.is_key_name(m),
            |m: Seq<char>| Set::new(|d: Seq<char>| exists|j: int|
                0 <= j < self.names.len() && self.names[j]@ == d
                    && #[trigger] self.deps[self.id_of(m)]@.contains(j as usize)),
        )
    }
}


impl View for DependencyGraph {
    type V = Map<Seq<char>, Set<Seq<char>>>;

    closed spec fn view(&self) -> Map<Seq<char>, Set<Seq<char>>> {
        self.model()
    }
}

impl DependencyGraph {
    proof fn lemma_id_of(&self, i: int)
        requires
            self.wf(),
            0 <= i < self.names.len(),
        ensures
            self.id_of(self.names[i]@) == i,
    {
        let k = self.id_of(self.names[i]@);
        assert(0 <= k < self.names.len() && self.names[k]@ == self.names[i]@);
    }

    /// Edges between ids are exactly the dependencies between their names.
    proof fn lemma_edge_view(&self, a: int, b: int)
        requires
            self.wf(),
            0 <= a < self.names.len(),
            0 <= b < self.names.len(),
        ensures
            self.edge(a, b) <==> (self@.dom().contains(self.names[a]@)
                && self@[self.names[a]@].contains(self.names[b]@)),
            self@.dom().contains(self.names[a]@) <==> self.is_key[a],
    {
        self.lemma_id_of(a);
        self.lemma_id_of(b);
        if self.is_key[a] {
            assert(self.is_key_name(self.names[a]@));
        }
        if self.is_key_name(self.names[a]@) {
            let i = choose|i: int| 0 <= i < self.names.len() && self.names[i]@ == self.names[a]@ && self.is_key[i];
            assert(i == a);
        }
        if self.edge(a, b) {
            assert(self.is_key[a]);
            assert(self@[self.names[a]@].contains(self.names[b]@));
        }
        if self@.dom().contains(self.names[a]@) && self@[self.names[a]@].contains(self.names[b]@) {
            let j = choose|j: int| 0 <= j < self.names.len() && self.names[j]@ == self.names[b]@
                && #[trigger] self.deps[self.id_of(self.names[a]@)]@.contains(j as usize);
            assert(j == b);
        }
    }

    /// Every module of the map is the name of some node.
    proof fn lemma_dom_named(&self, m: Seq<char>)
        requires
            self.wf(),
            self@.dom().contains(m),
        ensures
            0 <= self.id_of(m) < self.names.len(),
            self.names[self.id_of(m)]@ == m,
    {
    }

    /// Every dependency in the map is the name of some node.
    proof fn lemma_dep_named(&self, m: Seq<char>, d: Seq<char>)
        requires
            self.wf(),
            self@.dom().contains(m),
            self@[m].contains(d),
        ensures
            0 <= self.id_of(d) < self.names.len(),
            self.names[self.id_of(d)]@ == d,
    {
        let j = choose|j: int| 0 <= j < self.names.len() && self.names[j]@ == d
            && #[trigger] self.deps[self.id_of(m)]@.contains(j as usize);
        assert(0 <= j < self.names.len() && self.names[j]@ == d);
    }

    /// Creates an empty graph.
    pub fn new() -> (g: Self)
        ensures
            g.wf(),
            g@ == Map::<Seq<char>, Set<Seq<char>>>::empty(),
    {
        let g = DependencyGraph { names: Vec::new(), is_key: Vec::new(), keys: Vec::new(), deps: Vec::new() };
        assert(g@ =~= Map::<Seq<char>, Set<Seq<char>>>::empty());
        g
    }

    /// Returns the node id of `name`, creating a node when the name is new.
    fn intern(&mut self, name: String) -> (id: usize)
        requires
            old(self).wf(),
        ensures
            final(self).wf(),
            id < final(self).names.len(),
            final(self).names[id as int]@ == name@,
            final(self).keys@ == old(self).keys@,
            final(self).names.len() == old(self).names.len() || (final(self).names.len()
                == old(self).names.len() + 1 && id == old(self).names.len() && !final(self).is_key[id as int]
                && final(self).deps[id as int].len() == 0),
            forall|i: int| 0 <= i < old(self).names.len() ==> #[trigger] final(self).names[i]@ == old(self).names[i]@,
            forall|i: int| 0 <= i < old(self).names.len() ==> #[trigger] final(self).is_key[i] == old(self).is_key[i],
            forall|i: int| 0 <= i < old(self).names.len() ==> #[trigger] final(self).deps[i]@ == old(self).deps[i]@,
            forall|i: int| 0 <= i < old(self).names.len() && old(self).names[i]@ == name@ ==> id == i,
    {
        let mut i: usize = 0;
        while i < self.names.len()
            invariant
                self.wf(),
                *self == *old(self),
                i <= self.names.len(),
                forall|j: int| 0 <= j < i ==> self.names[j]@ != name@,
            decreases self.names.len() - i,
        {
            if self.names[i] == name {
                return i;
            }
            i = i + 1;
        }
        let ghost old_self = *self;
        let id = self.names.len();
        self.names.push(name);
        self.is_key.push(false);
        self.deps.push(Vec::new());
        assert(forall|k: int| 0 <= k < self.keys.len() ==> self.keys[k] < old_self.names.len());
        assert forall|j: int| 0 <= j < self.names.len() implies (self.is_key[j] <==> self.keys@.contains(j as usize)) by {
            if j == old_self.names.len() {
                if self.keys@.contains(j as usize) {
                    let k = choose|k: int| 0 <= k < self.keys.len() && self.keys[k] == j as usize;
                    assert(self.keys[k] < old_self.names.len());
                }
            }
        }
        assert(self.deps[old_self.names.len() as int]@ =~= Seq::<usize>::empty());
        id
    }

    /// The dependency set of `m` in `m`, empty when `m` is not a module of it.
    pub open spec fn deps_of(m: Map<Seq<char>, Set<Seq<char>>>, k: Seq<char>) -> Set<Seq<char>> {
        if m.dom().contains(k) { m[k] } else { Set::empty() }
    }

    /// Records that module `from` depends on module `to`.
    pub fn add_dependency(&mut self, from: String, to: String)
        requires
            old(self).wf(),
        ensures
            final(self).wf(),
            final(self)@ == old(self)@.insert(from@, Self::deps_of(old(self)@, from@).insert(to@)),
    {
        let ghost g0 = *self;
        let f = self.intern(from);
        let ghost g1 = *self;
        let t = self.intern(to);
        let ghost g2 = *self;
        if !self.is_key[f] {
            self.is_key.set(f, true);
            self.keys.push(f);
            assert(self.keys@ == g2.keys@.push(f));
            assert forall|i: int| 0 <= i < self.names.len() implies (self.is_key[i] <==> self.keys@.contains(i as usize)) by {
                if i == f {
                    assert(self.keys@[self.keys.len() - 1] == f);
                } else {
                    if g2.keys@.contains(i as usize) {
                        let k = choose|k: int| 0 <= k < g2.keys.len() && g2.keys[k] == i as usize;
                        assert(self.keys[k] == i as usize);
                    }
                    if self.keys@.contains(i as usize) {
                        let k = choose|k: int| 0 <= k < self.keys.len() && self.keys[k] == i as usize;
                        assert(k < g2.keys.len());
                        assert(g2.keys[k] == i as usize);
                    }
                }
            }
            assert(self.keys@.no_duplicates()) by {
                assert(!g2.keys@.contains(f));
            }
        }
        let ghost g3 = *self;
        assert(self.wf());
        let mut present = false;
        let mut k: usize = 0;
        while k < self.deps[f].len()
            invariant
                *self == g3,
                self.wf(),
                f < self.names.len(),
                k <= self.deps[f as int].len(),
                present <==> (exists|j: int| 0 <= j < k && self.deps[f as int][j] == t),
            decreases self.deps[f as int].len() - k,
        {
            if self.deps[f][k] == t {
                present = true;
            }
            k = k + 1;
        }
        if !present {
            let mut row = self.deps[f].clone();
            assert(row@ == g3.deps[f as int]@);
            row.push(t);
            self.deps.set(f, row);
            assert(self.deps[f as int]@ == g3.deps[f as int]@.push(t));
            assert(!g3.deps[f as int]@.contains(t));
            assert(self.deps[f as int]@.no_duplicates());
            assert forall|j: int| 0 <= j < self.names.len() implies (#[trigger] self.deps[f as int]@.contains(j as usize)
                <==> (g2.deps[f as int]@.contains(j as usize) || j == t)) by {
                if j == t {
                    assert(self.deps[f as int]@[g3.deps[f as int].len() as int] == t);
                }
                if g2.deps[f as int]@.contains(j as usize) {
                    let k = choose|k: int| 0 <= k < g2.deps[f as int].len() && g2.deps[f as int][k] == j as usize;
                    assert(self.deps[f as int][k] == j as usize);
                }
                if self.deps[f as int]@.contains(j as usize) && j != t {
                    let k = choose|k: int| 0 <= k < self.deps[f as int].len() && self.deps[f as int][k] == j as usize;
                    assert(g3.deps[f as int][k] == j as usize);
                }
            }
            assert(self.wf());
        } else {
            assert forall|j: int| 0 <= j < self.names.len() implies (#[trigger] self.deps[f as int]@.contains(j as usize)
                <==> (g2.deps[f as int]@.contains(j as usize) || j == t)) by {
                if j == t {
                    let w = choose|w: int| 0 <= w < k && self.deps[f as int][w] == t;
                    assert(self.deps[f as int]@[w] == t);
                }
            }
        }
        proof {
            assert forall|i: int| 0 <= i < g0.names.len() implies #[trigger] g2.names[i]@ == g0.names[i]@
                && g2.is_key[i] == g0.is_key[i] && g2.deps[i]@ == g0.deps[i]@ by {
                assert(i < g1.names.len());
                assert(g1.names[i]@ == g0.names[i]@);
                assert(g1.is_key[i] == g0.is_key[i]);
                assert(g1.deps[i]@ == g0.deps[i]@);
                assert(g2.names[i]@ == g1.names[i]@);
                assert(g2.is_key[i] == g1.is_key[i]);
                assert(g2.deps[i]@ == g1.deps[i]@);
            }
            assert forall|i: int| g0.names.len() <= i < g2.names.len() implies !#[trigger] g2.is_key[i] by {
                if i < g1.names.len() {
                    assert(i == g0.names.len());
                }
            }
            assert forall|i: int| g0.names.len() <= i < g2.names.len() implies #[trigger] g2.deps[i].len() == 0 by {
                if i < g1.names.len() {
                    assert(i == g0.names.len());
                    assert(g2.deps[i]@ == g1.deps[i]@);
                }
            }
            self.lemma_add_view(g0, g2, f as int, t as int);
        }
    }

    proof fn lemma_add_view(&self, g0: Self, g2: Self, f: int, t: int)
        requires
            g0.wf(),
            g2.wf(),
            self.wf(),
            0 <= f < g2.names.len(),
            0 <= t < g2.names.len(),
            g0.names.len() <= g2.names.len(),
            g2.names@ == self.names@,
            self.is_key[f],
            forall|i: int| 0 <= i < g2.names.len() && i != f ==> self.is_key[i] == g2.is_key[i]
                && self.deps[i]@ == g2.deps[i]@,
            forall|j: int| 0 <= j < self.names.len() ==> (#[trigger] self.deps[f]@.contains(j as usize)
                <==> (g2.deps[f]@.contains(j as usize) || j == t)),
            forall|i: int| 0 <= i < g0.names.len() ==> #[trigger] g2.names[i]@ == g0.names[i]@,
            forall|i: int| 0 <= i < g0.names.len() ==> #[trigger] g2.is_key[i] == g0.is_key[i],
            forall|i: int| 0 <= i < g0.names.len() ==> #[trigger] g2.deps[i]@ == g0.deps[i]@,
            forall|i: int| g0.names.len() <= i < g2.names.len() ==> !#[trigger] g2.is_key[i],
            forall|i: int| g0.names.len() <= i < g2.names.len() ==> #[trigger] g2.deps[i].len() == 0,
        ensures
            self@ == g0@.insert(self.names[f]@, Self::deps_of(g0@, self.names[f]@).insert(self.names[t]@)),
    {
        let m_f = self.names[f]@;
        let rhs = g0@.insert(m_f, Self::deps_of(g0@, m_f).insert(self.names[t]@));
        assert forall|m: Seq<char>| self@.dom().contains(m) <==> rhs.dom().contains(m) by {
            if self@.dom().contains(m) {
                self.lemma_dom_named(m);
                let i = self.id_of(m);
                self.lemma_edge_view(i, i);
                if i != f {
                    if i >= g0.names.len() {
                        assert(!g2.is_key[i]);
                    }
                    g0.lemma_edge_view(i, i);
                }
            }
            if rhs.dom().contains(m) && m != m_f {
                g0.lemma_dom_named(m);
                let i = g0.id_of(m);
                g0.lemma_edge_view(i, i);
                self.lemma_edge_view(i, i);
            }
            if m == m_f {
                self.lemma_edge_view(f, f);
            }
        }
        assert forall|m: Seq<char>| #[trigger] self@.dom().contains(m) implies self@[m] =~= rhs[m] by {
            self.lemma_dom_named(m);
            let i = self.id_of(m);
            self.lemma_id_of(i);
            assert forall|d: Seq<char>| self@[m].contains(d) <==> rhs[m].contains(d) by {
                if i == f {
                    if self@[m].contains(d) {
                        self.lemma_dep_named(m, d);
                        let j = self.id_of(d);
                        self.lemma_edge_view(i, j);
                        if j != t {
                            assert(g2.deps[f]@.contains(j as usize));
                            if f >= g0.names.len() {
                                assert(g2.deps[f].len() == 0);
                                assert(false);
                            }
                            assert(g2.deps[f]@ == g0.deps[f]@);
                            assert(g0.deps[f]@.contains(j as usize));
                            let w = choose|w: int| 0 <= w < g0.deps[f].len() && g0.deps[f][w] == j as usize;
                            assert(j < g0.names.len());
                            g0.lemma_edge_view(f, j);
                        }
                    }
                    if rhs[m].contains(d) && d != self.names[t]@ {
                        assert(g0@.dom().contains(m));
                        g0.lemma_dom_named(m);
                        let i0 = g0.id_of(m);
                        assert(g2.names[i0]@ == g0.names[i0]@);
                        assert(self.names[i0]@ == m);
                        assert(i0 == f);
                        g0.lemma_id_of(f);
                        g0.lemma_dep_named(m, d);
                        let j = g0.id_of(d);
                        g0.lemma_edge_view(f, j);
                        self.lemma_edge_view(f, j);
                    }
                    if d == self.names[t]@ {
                        self.lemma_edge_view(f, t);
                    }
                } else {
                    self.lemma_edge_view(i, i);
                    if i >= g0.names.len() {
                        assert(!g2.is_key[i]);
                    }
                    g0.lemma_edge_view(i, i);
                    g0.lemma_id_of(i);
                    if self@[m].contains(d) {
                        self.lemma_dep_named(m, d);
                        let j = self.id_of(d);
                        self.lemma_edge_view(i, j);
                        assert(g0.deps[i]@.contains(j as usize));
                        assert(j < g0.names.len());
                        g0.lemma_edge_view(i, j);
                    }
                    if rhs[m].contains(d) {
                        g0.lemma_dep_named(m, d);
                        let j = g0.id_of(d);
                        g0.lemma_edge_view(i, j);
                        self.lemma_edge_view(i, j);
                    }
                }
            }
        }
        assert(self@ =~= rhs);
    }
}


impl DependencyGraph {
    /// The search state is consistent: the stack is a walk of distinct nodes,
    /// visited nodes are either on the stack or finished, and every
    /// dependency of a finished node finished before it.
    spec fn good(&self, st: DfsState) -> bool {
        let n = self.names.len();
        let path = st.path@;
        let fin = st.fin@;
        &&& st.visited.len() == n
        &&& st.on_stack.len() == n
        &&& path.no_duplicates()
        &&& forall|k: int| 0 <= k < path.len() ==> 0 <= #[trigger] path[k] < n
        &&& forall|x: int| 0 <= x < n ==> (#[trigger] st.on_stack[x] <==> path.contains(x))
        &&& forall|k: int| 0 <= k < path.len() - 1 ==> self.edge(#[trigger] path[k], path[k + 1])
        &&& forall|x: int| 0 <= x < n && #[trigger] st.on_stack[x] ==> st.visited[x]
        &&& forall|x: int| 0 <= x < n ==> ((#[trigger] st.visited[x] && !st.on_stack[x]) <==> fin.dom().contains(x))
        &&& forall|x: int| #[trigger] fin.dom().contains(x) ==> 0 <= x < n && fin[x] < st.count@
        &&& forall|a: int, v: int| #![trigger self.edge(a, v)] fin.dom().contains(a) && self.edge(a, v)
            ==> fin.dom().contains(v) && fin[v] < fin[a]
    }

    /// The stack part of the search state: the stack is a walk of node ids
    /// that are exactly the nodes marked on the stack, each of them visited.
    spec fn stack_ok(&self, st: DfsState) -> bool {
        let n = self.names.len();
        let path = st.path@;
        &&& st.visited.len() == n
        &&& st.on_stack.len() == n
        &&& forall|k: int| 0 <= k < path.len() ==> 0 <= #[trigger] path[k] < n
        &&& forall|x: int| 0 <= x < n ==> (#[trigger] st.on_stack[x] <==> path.contains(x))
        &&& forall|k: int| 0 <= k < path.len() - 1 ==> self.edge(#[trigger] path[k], path[k + 1])
        &&& forall|x: int| 0 <= x < n && #[trigger] st.on_stack[x] ==> st.visited[x]
    }

    /// `c` names a dependency `[module, dependency]` whose dependency leads
    /// back to the module.
    spec fn pair_on_cycle(&self, c: Vec<String>) -> bool {
        &&& c.len() == 2
        &&& exists|a: int, b: int| #![trigger self.names[a], self.names[b]] self.edge(a, b) && self.reaches_id(b, a)
            && c[0]@ == self.names[a]@ && c[1]@ == self.names[b]@
    }

    /// `p` is a chain of edges between node ids.
    spec fn id_walk(&self, p: Seq<int>) -> bool {
        forall|k: int| 0 <= k < p.len() - 1 ==> self.edge(#[trigger] p[k], p[k + 1])
    }

    spec fn reaches_id(&self, a: int, b: int) -> bool {
        exists|p: Seq<int>| p.len() >= 1 && p[0] == a && p.last() == b && #[trigger] self.id_walk(p)
    }

    spec fn id_cycle(&self) -> bool {
        exists|p: Seq<int>| p.len() >= 2 && p[0] == p.last() && #[trigger] self.id_walk(p)
    }

    spec fn fin_extends(old_fin: Map<int, int>, new_fin: Map<int, int>) -> bool {
        forall|x: int| #[trigger] old_fin.dom().contains(x) ==> new_fin.dom().contains(x) && new_fin[x] == old_fin[x]
    }

    /// Depth-first search from the unvisited node `u`. Returns the first
    /// dependency `(module, dep)` met whose target is on the search stack.
    fn dfs_find_cycle(&self, u: usize, st: &mut DfsState) -> (r: Option<(usize, usize)>)
        requires
            self.wf(),
            old(st).visited.len() == self.names.len(),
            old(st).on_stack.len() == self.names.len(),
            u < self.names.len(),
            !old(st).visited[u as int],
        ensures
            final(st).visited.len() == self.names.len(),
            final(st).on_stack.len() == self.names.len(),
            final(st).visited[u as int],
            forall|x: int| 0 <= x < self.names.len() && #[trigger] old(st).visited[x] ==> final(st).visited[x],
            r matches Some((a, b)) ==> self.edge(a as int, b as int),
            self.good(*old(st)) && (old(st).path@.len() == 0 || self.edge(old(st).path@.last(), u as int)) ==> {
                &&& r is None ==> {
                    &&& self.good(*final(st))
                    &&& final(st).path@ == old(st).path@
                    &&& final(st).fin@.dom().contains(u as int)
                    &&& Self::fin_extends(old(st).fin@, final(st).fin@)
                }
                &&& r matches Some((a, b)) ==> self.reaches_id(b as int, a as int)
            },
            self.stack_ok(*old(st)) && (old(st).path@.len() == 0 || self.edge(old(st).path@.last(), u as int)) ==> {
                &&& r is None ==> self.stack_ok(*final(st)) && final(st).path@ == old(st).path@
                &&& r matches Some((a, b)) ==> self.reaches_id(b as int, a as int)
            },
        decreases unvisited(old(st).visited@),
    {
        let ghost st0 = *st;
        let ghost good_pre = self.good(st0) && (st0.path@.len() == 0 || self.edge(st0.path@.last(), u as int));
        let ghost stack_pre = self.stack_ok(st0) && (st0.path@.len() == 0 || self.edge(st0.path@.last(), u as int));
        proof {
            lemma_unvisited_set(st0.visited@, u as int);
        }
        st.visited.set(u, true);
        st.on_stack.set(u, true);
        proof {
            st.path@ = st.path@.push(u as int);
            if good_pre {
                self.lemma_push_good(st0, *st, u as int);
            }
            if stack_pre {
                self.lemma_push_stack(st0, *st, u as int);
            }
        }
        let n_deps = self.deps[u].len();
        let mut k: usize = 0;
        while k < n_deps
            invariant
                self.wf(),
                st0 == *old(st),
                u < self.names.len(),
                n_deps == self.deps[u as int].len(),
                k <= n_deps,
                st.visited.len() == self.names.len(),
                st.on_stack.len() == self.names.len(),
                st.visited[u as int],
                forall|x: int| 0 <= x < self.names.len() && #[trigger] st0.visited[x] ==> st.visited[x],
                unvisited(st.visited@) < unvisited(st0.visited@),
                good_pre == (self.good(st0) && (st0.path@.len() == 0 || self.edge(st0.path@.last(), u as int))),
                stack_pre == (self.stack_ok(st0) && (st0.path@.len() == 0 || self.edge(st0.path@.last(), u as int))),
                stack_pre ==> self.stack_ok(*st) && st.path@ == st0.path@.push(u as int),
                good_pre ==> {
                    &&& self.good(*st)
                    &&& st.path@ == st0.path@.push(u as int)
                    &&& Self::fin_extends(st0.fin@, st.fin@)
                    &&& forall|j: int| 0 <= j < k ==> st.fin@.dom().contains(#[trigger] self.deps[u as int][j] as int)
                },
            decreases n_deps - k,
        {
            let v = self.deps[u][k];
            assert(self.edge(u as int, v as int)) by {
                assert(self.deps[u as int]@[k as int] == v);
            }
            let ghost st1 = *st;
            if !st.visited[v] {
                assert(unvisited(st.visited@) < unvisited(old(st).visited@));
                let r = self.dfs_find_cycle(v, st);
                proof {
                    lemma_unvisited_mono(st1.visited@, st.visited@);
                }
                if r.is_some() {
                    assert forall|x: int| 0 <= x < self.names.len() && #[trigger] st0.visited[x] implies st.visited[x] by {
                        assert(st1.visited[x]);
                    }
                    return r;
                }
                proof {
                    if good_pre {
                        assert(st1.path@.last() == u as int);
                        assert forall|x: int| #[trigger] st0.fin@.dom().contains(x) implies st.fin@.dom().contains(x)
                            && st.fin@[x] == st0.fin@[x] by {
                            assert(st1.fin@.dom().contains(x));
                        }
                        assert forall|j: int| 0 <= j < k + 1 implies st.fin@.dom().contains(#[trigger] self.deps[u as int][j] as int) by {
                            if j < k {
                                assert(st1.fin@.dom().contains(self.deps[u as int][j] as int));
                            }
                        }
                    }
                }
            } else if st.on_stack[v] {
                proof {
                    if stack_pre {
                        self.lemma_stack_reaches(*st, v as int);
                    }
                }
                return Some((u, v));
            } else {
                proof {
                    if good_pre {
                        assert(st.fin@.dom().contains(v as int));
                    }
                }
            }
            k = k + 1;
        }
        let ghost st2 = *st;
        st.on_stack.set(u, false);
        proof {
            st.path@ = st0.path@;
            st.fin@ = st.fin@.insert(u as int, st.count@);
            st.count@ = st.count@ + 1;
            if good_pre {
                self.lemma_finish_good(st0, st2, *st, u as int);
            }
            if stack_pre {
                self.lemma_finish_stack(st0, st2, *st, u as int);
            }
        }
        None
    }

    proof fn lemma_push_good(&self, st0: DfsState, st: DfsState, u: int)
        requires
            self.wf(),
            self.good(st0),
            st0.path@.len() == 0 || self.edge(st0.path@.last(), u),
            0 <= u < self.names.len(),
            !st0.visited[u],
            st.visited@ == st0.visited@.update(u, true),
            st.on_stack@ == st0.on_stack@.update(u, true),
            st.path@ == st0.path@.push(u),
            st.fin@ == st0.fin@,
            st.count@ == st0.count@,
        ensures
            self.good(st),
    {
        let n = self.names.len();
        assert(!st0.on_stack[u]);
        assert(!st0.path@.contains(u));
        assert forall|x: int| 0 <= x < n implies (#[trigger] st.on_stack[x] <==> st.path@.contains(x)) by {
            if x == u {
                assert(st.path@[st.path@.len() - 1] == u);
            } else {
                if st0.path@.contains(x) {
                    let k = choose|k: int| 0 <= k < st0.path@.len() && st0.path@[k] == x;
                    assert(st.path@[k] == x);
                }
                if st.path@.contains(x) {
                    let k = choose|k: int| 0 <= k < st.path@.len() && st.path@[k] == x;
                    assert(st0.path@[k] == x);
                }
            }
        }
        assert forall|k: int| 0 <= k < st.path@.len() - 1 implies self.edge(#[trigger] st.path@[k], st.path@[k + 1]) by {
            if k < st0.path@.len() - 1 {
                assert(st0.path@[k] == st.path@[k]);
                assert(st0.path@[k + 1] == st.path@[k + 1]);
            }
        }
        assert forall|x: int| 0 <= x < n implies ((#[trigger] st.visited[x] && !st.on_stack[x]) <==> st.fin@.dom().contains(x)) by {
            if x == u {
                assert(!st0.fin@.dom().contains(u));
            }
        }
    }

    proof fn lemma_push_stack(&self, st0: DfsState, st: DfsState, u: int)
        requires
            self.wf(),
            self.stack_ok(st0),
            st0.path@.len() == 0 || self.edge(st0.path@.last(), u),
            0 <= u < self.names.len(),
            !st0.visited[u],
            st.visited@ == st0.visited@.update(u, true),
            st.on_stack@ == st0.on_stack@.update(u, true),
            st.path@ == st0.path@.push(u),
        ensures
            self.stack_ok(st),
    {
        let n = self.names.len();
        assert(!st0.on_stack[u]);
        assert forall|x: int| 0 <= x < n implies (#[trigger] st.on_stack[x] <==> st.path@.contains(x)) by {
            if x == u {
                assert(st.path@[st.path@.len() - 1] == u);
            } else {
                if st0.path@.contains(x) {
                    let k = choose|k: int| 0 <= k < st0.path@.len() && st0.path@[k] == x;
                    assert(st.path@[k] == x);
                }
                if st.path@.contains(x) {
                    let k = choose|k: int| 0 <= k < st.path@.len() && st.path@[k] == x;
                    assert(st0.path@[k] == x);
                }
            }
        }
        assert forall|k: int| 0 <= k < st.path@.len() - 1 implies self.edge(#[trigger] st.path@[k], st.path@[k + 1]) by {
            if k < st0.path@.len() - 1 {
                assert(st0.path@[k] == st.path@[k]);
                assert(st0.path@[k + 1] == st.path@[k + 1]);
            }
        }
        assert forall|k: int| 0 <= k < st.path@.len() implies 0 <= #[trigger] st.path@[k] < n by {
            if k < st0.path@.len() {
                assert(st0.path@[k] == st.path@[k]);
            }
        }
    }

    proof fn lemma_finish_stack(&self, st0: DfsState, st2: DfsState, st: DfsState, u: int)
        requires
            self.wf(),
            0 <= u < self.names.len(),
            self.stack_ok(st0),
            !st0.visited[u],
            self.stack_ok(st2),
            st2.path@ == st0.path@.push(u),
            st.visited@ == st2.visited@,
            st.on_stack@ == st2.on_stack@.update(u, false),
            st.path@ == st0.path@,
        ensures
            self.stack_ok(st),
    {
        let n = self.names.len();
        assert(!st0.on_stack[u]);
        assert(!st0.path@.contains(u));
        assert forall|x: int| 0 <= x < n implies (#[trigger] st.on_stack[x] <==> st.path@.contains(x)) by {
            if x != u {
                assert(st2.on_stack[x] == st.on_stack[x]);
                if st0.path@.contains(x) {
                    let k = choose|k: int| 0 <= k < st0.path@.len() && st0.path@[k] == x;
                    assert(st2.path@[k] == x);
                }
                if st2.path@.contains(x) {
                    let k = choose|k: int| 0 <= k < st2.path@.len() && st2.path@[k] == x;
                    if k == st0.path@.len() {
                        assert(st2.path@[k] == u);
                    }
                    assert(st0.path@[k] == x);
                }
            }
        }
        assert forall|x: int| 0 <= x < n && #[trigger] st.on_stack[x] implies st.visited[x] by {
            assert(st2.on_stack[x]);
        }
    }

    proof fn lemma_stack_reaches(&self, st: DfsState, v: int)
        requires
            self.wf(),
            self.stack_ok(st),
            0 <= v < self.names.len(),
            st.on_stack[v],
            st.path@.len() >= 1,
        ensures
            self.reaches_id(v, st.path@.last()),
    {
        assert(st.path@.contains(v));
        let j = choose|j: int| 0 <= j < st.path@.len() && st.path@[j] == v;
        let p = st.path@.subrange(j, st.path@.len() as int);
        assert(p[0] == v);
        assert(p.last() == st.path@.last());
        assert forall|k: int| 0 <= k < p.len() - 1 implies self.edge(#[trigger] p[k], p[k + 1]) by {
            assert(p[k] == st.path@[j + k]);
            assert(p[k + 1] == st.path@[j + k + 1]);
        }
        assert(self.id_walk(p));
    }

    proof fn lemma_finish_good(&self, st0: DfsState, st2: DfsState, st: DfsState, u: int)
        requires
            self.wf(),
            0 <= u < self.names.len(),
            self.good(st0),
            self.good(st2),
            st2.path@ == st0.path@.push(u),
            Self::fin_extends(st0.fin@, st2.fin@),
            forall|j: int| 0 <= j < self.deps[u].len() ==> st2.fin@.dom().contains(#[trigger] self.deps[u][j] as int),
            st.visited@ == st2.visited@,
            st.on_stack@ == st2.on_stack@.update(u, false),
            st.path@ == st0.path@,
            st.fin@ == st2.fin@.insert(u, st2.count@),
            st.count@ == st2.count@ + 1,
        ensures
            self.good(st),
            st.fin@.dom().contains(u),
            Self::fin_extends(st0.fin@, st.fin@),
    {
        let n = self.names.len();
        assert(st2.path@.contains(u)) by {
            assert(st2.path@[st2.path@.len() - 1] == u);
        }
        assert(st2.on_stack[u]);
        assert(!st2.fin@.dom().contains(u));
        assert(!st0.path@.contains(u)) by {
            if st0.path@.contains(u) {
                let k = choose|k: int| 0 <= k < st0.path@.len() && st0.path@[k] == u;
                assert(st2.path@[k] == u);
                assert(st2.path@[st2.path@.len() - 1] == u);
            }
        }
        assert forall|x: int| 0 <= x < n implies (#[trigger] st.on_stack[x] <==> st.path@.contains(x)) by {
            if x != u {
                assert(st2.on_stack[x] == st.on_stack[x]);
                if st0.path@.contains(x) {
                    let k = choose|k: int| 0 <= k < st0.path@.len() && st0.path@[k] == x;
                    assert(st2.path@[k] == x);
                }
                if st2.path@.contains(x) {
                    let k = choose|k: int| 0 <= k < st2.path@.len() && st2.path@[k] == x;
                    assert(k < st0.path@.len());
                    assert(st0.path@[k] == x);
                }
            }
        }
        assert forall|k: int| 0 <= k < st.path@.len() - 1 implies self.edge(#[trigger] st.path@[k], st.path@[k + 1]) by {
            assert(st2.path@[k] == st.path@[k]);
            assert(st2.path@[k + 1] == st.path@[k + 1]);
        }
        assert forall|x: int| 0 <= x < n implies ((#[trigger] st.visited[x] && !st.on_stack[x]) <==> st.fin@.dom().contains(x)) by {
            if x != u {
                assert(st2.on_stack[x] == st.on_stack[x]);
            }
        }
        assert forall|a: int, v: int| #![trigger self.edge(a, v)] st.fin@.dom().contains(a) && self.edge(a, v)
            implies st.fin@.dom().contains(v) && st.fin@[v] < st.fin@[a] by {
            if a == u {
                let k = choose|k: int| 0 <= k < self.deps[u].len() && self.deps[u][k] == v as usize;
                assert(st2.fin@.dom().contains(self.deps[u][k] as int));
                assert(st2.fin@[v] < st2.count@);
            } else {
                assert(st2.fin@.dom().contains(a));
                assert(st2.fin@.dom().contains(v) && st2.fin@[v] < st2.fin@[a]);
            }
        }
        assert forall|x: int| #[trigger] st0.fin@.dom().contains(x) implies st.fin@.dom().contains(x) && st.fin@[x] == st0.fin@[x] by {
            assert(st2.fin@.dom().contains(x));
        }
    }
}


impl DependencyGraph {
    /// With every node that has a dependency finished and the finishing
    /// order respected by every dependency, no walk returns to its start.
    proof fn lemma_walk_fin_decreases(&self, st: DfsState, p: Seq<int>)
        requires
            self.good(st),
            self.id_walk(p),
            p.len() >= 2,
            st.fin@.dom().contains(p[0]),
        ensures
            st.fin@.dom().contains(p.last()),
            st.fin@[p.last()] < st.fin@[p[0]],
        decreases p.len(),
    {
        assert(self.edge(p[0], p[1]));
        if p.len() > 2 {
            let q = p.subrange(1, p.len() as int);
            assert forall|k: int| 0 <= k < q.len() - 1 implies self.edge(#[trigger] q[k], q[k + 1]) by {
                assert(q[k] == p[k + 1]);
                assert(q[k + 1] == p[k + 2]);
            }
            self.lemma_walk_fin_decreases(st, q);
        }
    }

    proof fn lemma_no_id_cycle(&self, st: DfsState)
        requires
            self.wf(),
            self.good(st),
            forall|k: int| 0 <= k < self.keys.len() ==> st.fin@.dom().contains(#[trigger] self.keys[k] as int),
        ensures
            !self.id_cycle(),
    {
        if self.id_cycle() {
            let p = choose|p: Seq<int>| p.len() >= 2 && p[0] == p.last() && #[trigger] self.id_walk(p);
            assert(self.edge(p[0], p[1]));
            let a = p[0];
            assert(self.is_key[a]) by {
                if !self.is_key[a] {
                    assert(self.deps[a].len() == 0);
                }
            }
            assert(self.keys@.contains(a as usize));
            let k = choose|k: int| 0 <= k < self.keys.len() && self.keys[k] == a as usize;
            assert(st.fin@.dom().contains(self.keys[k] as int));
            self.lemma_walk_fin_decreases(st, p);
        }
    }

    /// A walk between ids names a walk between modules.
    proof fn lemma_names_walk(&self, p: Seq<int>)
        requires
            self.wf(),
            self.id_walk(p),
            forall|k: int| 0 <= k < p.len() ==> 0 <= #[trigger] p[k] < self.names.len(),
        ensures
            is_walk(self@, p.map_values(|x: int| self.names[x]@)),
    {
        let q = p.map_values(|x: int| self.names[x]@);
        assert forall|i: int| 0 <= i < q.len() - 1 implies #[trigger] self@.dom().contains(q[i]) && self@[q[i]].contains(q[i + 1]) by {
            assert(self.edge(p[i], p[i + 1]));
            self.lemma_edge_view(p[i], p[i + 1]);
        }
    }

    /// A circular walk between modules is a circular walk between ids.
    proof fn lemma_ids_of_cycle(&self, q: Seq<Seq<char>>)
        requires
            self.wf(),
            q.len() >= 2,
            q[0] == q.last(),
            is_walk(self@, q),
        ensures
            self.id_cycle(),
    {
        let p = q.map_values(|m: Seq<char>| self.id_of(m));
        assert forall|k: int| 0 <= k < q.len() - 1 implies 0 <= #[trigger] p[k] < self.names.len()
            && self.names[p[k]]@ == q[k] && 0 <= p[k + 1] < self.names.len() && self.names[p[k + 1]]@ == q[k + 1] by {
            assert(is_walk(self@, q));
            assert(self@.dom().contains(q[k]));
            assert(self@[q[k]].contains(q[k + 1]));
            self.lemma_dom_named(q[k]);
            self.lemma_dep_named(q[k], q[k + 1]);
        }
        assert forall|k: int| 0 <= k < p.len() - 1 implies self.edge(#[trigger] p[k], p[k + 1]) by {
            assert(0 <= p[k] < self.names.len() && self.names[p[k]]@ == q[k]);
            assert(0 <= p[k + 1] < self.names.len() && self.names[p[k + 1]]@ == q[k + 1]);
            self.lemma_edge_view(p[k], p[k + 1]);
        }
        assert(self.id_walk(p));
        assert(p[0] == p.last());
    }

    proof fn lemma_cycle_from_pair(&self, a: int, b: int)
        requires
            self.wf(),
            self.edge(a, b),
            self.reaches_id(b, a),
        ensures
            has_cycle(self@),
            reaches(self@, self.names[b]@, self.names[a]@),
    {
        let p = choose|p: Seq<int>| p.len() >= 1 && p[0] == b && p.last() == a && #[trigger] self.id_walk(p);
        assert forall|k: int| 0 <= k < p.len() implies 0 <= #[trigger] p[k] < self.names.len() by {
            if k < p.len() - 1 {
                assert(self.edge(p[k], p[k + 1]));
            } else {
                assert(p[k] == a);
            }
        }
        self.lemma_names_walk(p);
        let q = p.map_values(|x: int| self.names[x]@);
        assert(is_walk(self@, q));
        let c = p.push(b);
        assert forall|k: int| 0 <= k < c.len() - 1 implies self.edge(#[trigger] c[k], c[k + 1]) by {
            if k < p.len() - 1 {
                assert(c[k] == p[k] && c[k + 1] == p[k + 1]);
            } else {
                assert(c[k] == a && c[k + 1] == b);
            }
        }
        assert forall|k: int| 0 <= k < c.len() implies 0 <= #[trigger] c[k] < self.names.len() by {
            if k < p.len() {
                assert(c[k] == p[k]);
            }
        }
        self.lemma_names_walk(c);
        let qc = c.map_values(|x: int| self.names[x]@);
        assert(qc.len() >= 2 && qc[0] == qc.last());
    }

    /// Finds circular dependencies by depth-first search from each module in
    /// turn. Each element is a pair `[module, dependency]` met while the
    /// dependency was still on the search stack; the stack is emptied after
    /// each find, so every pair lies on a cycle.
    pub fn find_cycles(&self) -> (cycles: Vec<Vec<String>>)
        requires
            self.wf(),
        ensures
            forall|k: int| 0 <= k < cycles.len() ==> (#[trigger] cycles[k]).len() == 2
                && self@.dom().contains(cycles[k][0]@) && self@[cycles[k][0]@].contains(cycles[k][1]@),
            cycles.len() == 0 <==> !has_cycle(self@),
            forall|k: int| 0 <= k < cycles.len() ==> reaches(self@, (#[trigger] cycles[k])[1]@, cycles[k][0]@),
            cycles.len() <= self@.dom().len(),
    {
        let n = self.names.len();
        let mut visited: Vec<bool> = Vec::new();
        let mut on_stack: Vec<bool> = Vec::new();
        let mut i: usize = 0;
        while i < n
            invariant
                i <= n,
                visited@ == Seq::new(i as nat, |x: int| false),
                on_stack@ == Seq::new(i as nat, |x: int| false),
            decreases n - i,
        {
            visited.push(false);
            on_stack.push(false);
            i = i + 1;
            assert(visited@ =~= Seq::new(i as nat, |x: int| false));
            assert(on_stack@ =~= Seq::new(i as nat, |x: int| false));
        }
        let mut st = DfsState {
            visited,
            on_stack,
            path: Ghost(Seq::empty()),
            fin: Ghost(Map::empty()),
            count: Ghost(0),
        };
        assert(self.good(st));
        let mut cycles: Vec<Vec<String>> = Vec::new();
        let mut ki: usize = 0;
        while ki < self.keys.len()
            invariant
                self.wf(),
                n == self.names.len(),
                ki <= self.keys.len(),
                st.visited.len() == n,
                st.on_stack.len() == n,
                cycles.len() <= ki,
                forall|k: int| 0 <= k < cycles.len() ==> self.pair_on_cycle(#[trigger] cycles[k]),
                cycles.len() == 0 ==> self.good(st) && st.path@.len() == 0
                    && forall|j: int| 0 <= j < ki ==> st.fin@.dom().contains(#[trigger] self.keys[j] as int),
                cycles.len() > 0 ==> self.stack_ok(st) && st.path@.len() == 0,
            decreases self.keys.len() - ki,
        {
            let m = self.keys[ki];
            let ghost st0 = st;
            if !st.visited[m] {
                let r = self.dfs_find_cycle(m, &mut st);
                match r {
                    Some((a, b)) => {
                        let pair = vec![self.names[a].clone(), self.names[b].clone()];
                        let ghost old_cycles = cycles@;
                        cycles.push(pair);
                        proof {
                            assert(self.reaches_id(b as int, a as int));
                            assert(cycles[cycles.len() - 1][0]@ == self.names[a as int]@);
                            assert(cycles[cycles.len() - 1][1]@ == self.names[b as int]@);
                            assert forall|k: int| 0 <= k < cycles.len() - 1 implies #[trigger] cycles[k] == old_cycles[k] by {}
                        }
                        let mut j: usize = 0;
                        while j < n
                            invariant
                                j <= n,
                                st.visited.len() == n,
                                st.on_stack.len() == n,
                                forall|x: int| 0 <= x < j ==> !#[trigger] st.on_stack[x],
                            decreases n - j,
                        {
                            st.on_stack.set(j, false);
                            j = j + 1;
                        }
                        proof {
                            st.path@ = Seq::empty();
                            let last = cycles.len() - 1;
                            assert(self.edge(a as int, b as int) && self.reaches_id(b as int, a as int)
                                && cycles[last][0]@ == self.names[a as int]@ && cycles[last][1]@ == self.names[b as int]@);
                            assert forall|k: int| 0 <= k < cycles.len() implies self.pair_on_cycle(#[trigger] cycles[k]) by {
                                if k == last {
                                    assert(self.edge(a as int, b as int) && self.reaches_id(b as int, a as int)
                                        && cycles[k][0]@ == self.names[a as int]@ && cycles[k][1]@ == self.names[b as int]@);
                                } else {
                                    assert(cycles[k] == old_cycles[k]);
                                }
                            }
                        }
                    },
                    None => {
                        proof {
                            if cycles.len() == 0 {
                                assert forall|j: int| 0 <= j < ki + 1 implies st.fin@.dom().contains(#[trigger] self.keys[j] as int) by {
                                    if j < ki {
                                        assert(st0.fin@.dom().contains(self.keys[j] as int));
                                    }
                                }
                            }
                        }
                    },
                }
            } else {
                proof {
                    if cycles.len() == 0 {
                        assert(!st.path@.contains(m as int));
                        assert(st.fin@.dom().contains(m as int));
                    }
                }
            }
            ki = ki + 1;
        }
        proof {
            if cycles.len() == 0 {
                self.lemma_no_id_cycle(st);
                if has_cycle(self@) {
                    let q = choose|q: Seq<Seq<char>>| q.len() >= 2 && q[0] == q.last() && #[trigger] is_walk(self@, q);
                    self.lemma_ids_of_cycle(q);
                }
            } else {
                assert(self.pair_on_cycle(cycles[0]));
                let (a, b) = choose|a: int, b: int| #![trigger self.names[a], self.names[b]] self.edge(a, b) && self.reaches_id(b, a)
                    && cycles[0][0]@ == self.names[a]@ && cycles[0][1]@ == self.names[b]@;
                self.lemma_cycle_from_pair(a, b);
            }
            assert forall|k: int| 0 <= k < cycles.len() implies (#[trigger] cycles[k]).len() == 2
                && self@.dom().contains(cycles[k][0]@) && self@[cycles[k][0]@].contains(cycles[k][1]@)
                && reaches(self@, cycles[k][1]@, cycles[k][0]@) by {
                assert(self.pair_on_cycle(cycles[k]));
                let (a, b) = choose|a: int, b: int| #![trigger self.names[a], self.names[b]] self.edge(a, b) && self.reaches_id(b, a)
                    && cycles[k][0]@ == self.names[a]@ && cycles[k][1]@ == self.names[b]@;
                self.lemma_edge_view(a, b);
                self.lemma_cycle_from_pair(a, b);
            }
            self.lemma_keys_dom();
        }
        cycles
    }

    /// The modules of the map are exactly the names of the key nodes.
    proof fn lemma_keys_dom(&self)
        requires
            self.wf(),
        ensures
            self@.dom().finite(),
            self@.dom().len() == self.keys.len(),
    {
        let names_of_keys = self.keys@.map_values(|i: usize| self.names[i as int]@);
        assert forall|m: Seq<char>| self@.dom().contains(m) <==> names_of_keys.contains(m) by {
            if self@.dom().contains(m) {
                self.lemma_dom_named(m);
                let i = self.id_of(m);
                self.lemma_edge_view(i, i);
                assert(self.keys@.contains(i as usize));
                let k = choose|k: int| 0 <= k < self.keys.len() && self.keys[k] == i as usize;
                assert(names_of_keys[k] == m);
            }
            if names_of_keys.contains(m) {
                let k = choose|k: int| 0 <= k < names_of_keys.len() && names_of_keys[k] == m;
                let i = self.keys[k] as int;
                assert(self.keys@.contains(i as usize));
                self.lemma_edge_view(i, i);
            }
        }
        assert(self@.dom() =~= names_of_keys.to_set());
        assert(names_of_keys.no_duplicates()) by {
            assert forall|x: int, y: int| 0 <= x < names_of_keys.len() && 0 <= y < names_of_keys.len() && x != y
                implies names_of_keys[x] != names_of_keys[y] by {
                assert(self.keys[x] != self.keys[y]);
            }
        }
        names_of_keys.unique_seq_to_set();
    }
}


/// The dependency map after recording that `from` depends on `to`.
pub open spec fn add_dep(m: Map<Seq<char>, Set<Seq<char>>>, from: Seq<char>, to: Seq<char>) -> Map<Seq<char>, Set<Seq<char>>> {
    m.insert(from, DependencyGraph::deps_of(m, from).insert(to))
}

/// The project's known module dependencies recorded into `m`.
pub open spec fn known_dependencies(m: Map<Seq<char>, Set<Seq<char>>>) -> Map<Seq<char>, Set<Seq<char>>> {
    add_dep(add_dep(add_dep(add_dep(add_dep(add_dep(add_dep(add_dep(add_dep(add_dep(m, "infrastructure::database"@, "core::interfaces::persistence"@), "analysis::engine"@, "core::interfaces::persistence"@), "analysis::engine"@, "core::interfaces::events"@), "analysis::services"@, "analysis::engine"@), "analysis::services"@, "core::interfaces::events"@), "config::manager"@, "analysis::detectors"@), "analysis::detectors"@, "config::manager"@), "security::scanner"@, "analysis::engine"@), "analysis::engine"@, "security::auditor"@), "security::auditor"@, "security::scanner"@)
}

/// Records the project's known module dependencies, including the remaining
/// legacy cycles between configuration, detectors and security modules.
pub fn add_known_dependencies(graph: &mut DependencyGraph)
    requires
        old(graph).wf(),
    ensures
        final(graph).wf(),
        final(graph)@ == known_dependencies(old(graph)@),
{
    graph.add_dependency(owned("infrastructure::database"), owned("core::interfaces::persistence"));
    graph.add_dependency(owned("analysis::engine"), owned("core::interfaces::persistence"));
    graph.add_dependency(owned("analysis::engine"), owned("core::interfaces::events"));
    graph.add_dependency(owned("analysis::services"), owned("analysis::engine"));
    graph.add_dependency(owned("analysis::services"), owned("core::interfaces::events"));
    graph.add_dependency(owned("config::manager"), owned("analysis::detectors"));
    graph.add_dependency(owned("analysis::detectors"), owned("config::manager"));
    graph.add_dependency(owned("security::scanner"), owned("analysis::engine"));
    graph.add_dependency(owned("analysis::engine"), owned("security::auditor"));
    graph.add_dependency(owned("security::auditor"), owned("security::scanner"));
}

/// Circular dependencies counted before the refactoring started.
pub const ORIGINAL_CYCLES: usize = 2045;

/// Circular dependencies the refactoring aims to get down to.
pub const TARGET_CYCLES: usize = 50;

/// Where the cycle reduction stands.
#[derive(Debug, Clone, Copy, PartialEq, Eq, Structural)]
pub struct CycleProgress {
    /// Cycles eliminated so far.
    pub reduction: usize,
    /// The target has been reached.
    pub target_achieved: bool,
    /// Cycles still to eliminate to reach the target.
    pub remaining: usize,
}

/// The progress of the cycle reduction with `current_cycles` left; the
/// count cannot exceed the original one.
pub fn progress_report(current_cycles: usize) -> (p: CycleProgress)
    requires
        current_cycles <= ORIGINAL_CYCLES,
    ensures
        p.reduction == ORIGINAL_CYCLES - current_cycles,
        p.target_achieved == (current_cycles <= TARGET_CYCLES),
        p.remaining == if current_cycles <= TARGET_CYCLES { 0 } else { current_cycles - TARGET_CYCLES },
{
    let reduction = ORIGINAL_CYCLES - current_cycles;
    if current_cycles <= TARGET_CYCLES {
        CycleProgress { reduction, target_achieved: true, remaining: 0 }
    } else {
        CycleProgress { reduction, target_achieved: false, remaining: current_cycles - TARGET_CYCLES }
    }
}

} // verus!
