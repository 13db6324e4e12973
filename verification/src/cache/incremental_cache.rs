//! Incremental analysis cache: per-file analysis results kept between runs
//! and dropped when their file, or a file they depend on, changes.

use vstd::prelude::*;
use lru::LruCache;
use crate::analysis::incremental::FileState;
use crate::database::models::{ArchitecturalIssue, copy_issues};

verus! {

/// Which entries make room for new ones.
#[derive(Debug, Clone, Copy, PartialEq, Eq, Structural)]
pub enum CacheEvictionPolicy {
    /// Least recently used first.
    LRU,
    /// Least recently used, weighted by size.
    LRUSize,
    /// Oldest first.
    TimeBasedFIFO,
    /// Least frequently used first.
    LFU,
}

/// Settings of the incremental cache.
#[derive(Debug, Clone, Copy, PartialEq, Eq, Structural)]
pub struct IncrementalCacheConfig {
    /// Most analysis results kept.
    pub max_analysis_results: usize,
    /// Memory budget in megabytes; 0 for none.
    pub max_memory_mb: usize,
    /// Hours an entry stays valid; 0 for ever.
    pub ttl_hours: u32,
    pub enable_compression: bool,
    pub eviction_policy: CacheEvictionPolicy,
    pub enable_statistics: bool,
}

impl Default for IncrementalCacheConfig {
    fn default() -> (c: Self)
        ensures
            c == (IncrementalCacheConfig {
                max_analysis_results: 10_000,
                max_memory_mb: 512,
                ttl_hours: 24,
                enable_compression: false,
                eviction_policy: CacheEvictionPolicy::LRU,
                enable_statistics: true,
            }),
    {
        IncrementalCacheConfig {
            max_analysis_results: 10_000,
            max_memory_mb: 512,
            ttl_hours: 24,
            enable_compression: false,
            eviction_policy: CacheEvictionPolicy::LRU,
            enable_statistics: true,
        }
    }
}

/// A point in time as the system clock gives it: whole seconds since the
/// Unix epoch and the nanoseconds past them.
#[derive(Debug, Clone, Copy, PartialEq, Eq, Structural)]
pub struct Timestamp {
    pub secs: i64,
    pub nanos: u32,
}

/// Nanoseconds since the Unix epoch.
pub open spec fn instant_nanos(t: Timestamp) -> int {
    t.secs * 1_000_000_000 + t.nanos
}

/// `a` is not later than `b`.
pub open spec fn not_after(a: Timestamp, b: Timestamp) -> bool {
    a.secs < b.secs || (a.secs == b.secs && a.nanos <= b.nanos)
}

/// Division that rounds toward zero.
pub open spec fn div_toward_zero(a: int, d: int) -> int {
    if a >= 0 { a / d } else { -((-a) / d) }
}

/// Whole hours from `then` to `now`, rounded toward zero, as a duration
/// between two clock readings counts them.
pub open spec fn hours_between(then: Timestamp, now: Timestamp) -> int {
    div_toward_zero(div_toward_zero(instant_nanos(now) - instant_nanos(then), 1_000_000_000), 3600)
}

/// A cached analysis result of one file.
#[derive(Debug, Clone)]
pub struct CachedAnalysisEntry {
    /// Issues found in the file.
    pub issues: Vec<ArchitecturalIssue>,
    /// The file's state when it was analysed.
    pub file_state: FileState,
    pub cached_at: Timestamp,
    pub last_accessed: Timestamp,
    /// Times the entry was stored or read.
    pub access_count: u64,
    pub analysis_duration_ms: u64,
    /// Estimated memory taken by the entry.
    pub estimated_size_bytes: usize,
    /// Whether the entry may still be used.
    pub is_valid: bool,
}

/// Counters of the cache's activity.
#[derive(Debug, Clone, Copy, PartialEq, Eq, Structural)]
pub struct CacheStatistics {
    pub hits: u64,
    pub misses: u64,
    pub invalidations: u64,
    pub evictions: u64,
    /// Entries held.
    pub entry_count: usize,
    /// Estimated memory held by the entries, in bytes.
    pub memory_usage_bytes: usize,
}

impl Default for CacheStatistics {
    fn default() -> (s: Self)
        ensures
            s == (CacheStatistics { hits: 0, misses: 0, invalidations: 0, evictions: 0, entry_count: 0, memory_usage_bytes: 0 }),
    {
        CacheStatistics { hits: 0, misses: 0, invalidations: 0, evictions: 0, entry_count: 0, memory_usage_bytes: 0 }
    }
}

/// `lru::LruCache`, held unopened; what it contains is `lru_entries`.
#[verifier::external_type_specification]
#[verifier::external_body]
#[verifier::reject_recursive_types(K)]
#[verifier::reject_recursive_types(V)]
#[verifier::reject_recursive_types(S)]
pub struct ExLruCache<K, V, S>(LruCache<K, V, S>);

/// The hasher `lru::LruCache` uses by default, held unopened.
#[verifier::external_type_specification]
#[verifier::external_body]
pub struct ExLruHasher(lru::DefaultHasher);

/// The entries of an LRU cache of analysis results, most recently used
/// first.
pub uninterp spec fn lru_entries(c: LruCache<String, CachedAnalysisEntry>) -> Seq<(Seq<char>, CachedAnalysisEntry)>;

/// The number of entries an LRU cache of analysis results was made to hold.
pub uninterp spec fn lru_capacity(c: LruCache<String, CachedAnalysisEntry>) -> nat;

/// Position of the entry under `k`, the first one from the front, or -1.
pub open spec fn key_pos<A>(s: Seq<(Seq<char>, A)>, k: Seq<char>) -> int
    decreases s.len(),
{
    if s.len() == 0 {
        -1
    } else if s[0].0 == k {
        0
    } else {
        let p = key_pos(s.drop_first(), k);
        if p < 0 { -1 } else { p + 1 }
    }
}

/// The entries after `k` was stored with `v`: `k` moves to the front, and
/// a full cache without `k` drops its least recently used entry.
pub open spec fn after_put(s: Seq<(Seq<char>, CachedAnalysisEntry)>, cap: nat, k: Seq<char>, v: CachedAnalysisEntry) -> Seq<(Seq<char>, CachedAnalysisEntry)> {
    let p = key_pos(s, k);
    if p >= 0 {
        seq![(k, v)] + s.remove(p)
    } else if s.len() < cap {
        seq![(k, v)] + s
    } else {
        seq![(k, v)] + s.drop_last()
    }
}

/// The entries after the one under `k`, if any, was taken out.
pub open spec fn after_pop<A>(s: Seq<(Seq<char>, A)>, k: Seq<char>) -> Seq<(Seq<char>, A)> {
    let p = key_pos(s, k);
    if p >= 0 { s.remove(p) } else { s }
}

/// The value under `k`, if any.
pub open spec fn value_at<A>(s: Seq<(Seq<char>, A)>, k: Seq<char>) -> Option<A> {
    let p = key_pos(s, k);
    if p >= 0 { Some(s[p].1) } else { None }
}

/// Taking out the least recently used entry of `s` gave `r` and left `t`.
pub open spec fn popped_lru(s: Seq<(Seq<char>, CachedAnalysisEntry)>, r: Option<(String, CachedAnalysisEntry)>, t: Seq<(Seq<char>, CachedAnalysisEntry)>) -> bool {
    if s.len() == 0 {
        r is None && t == s
    } else {
        match r {
            Some(kv) => kv.0@ == s.last().0 && kv.1 == s.last().1 && t == s.drop_last(),
            None => false,
        }
    }
}

/// Keys of the entries, in order.
pub open spec fn entry_keys<A>(s: Seq<(Seq<char>, A)>) -> Seq<Seq<char>> {
    s.map_values(|e: (Seq<char>, A)| e.0)
}

/// `LruCache::new`: an empty cache that holds at most `cap` entries.
#[verifier::external_body]
fn lru_new(cap: usize) -> (c: LruCache<String, CachedAnalysisEntry>)
    requires
        cap > 0,
    ensures
        lru_entries(c) == Seq::<(Seq<char>, CachedAnalysisEntry)>::empty(),
        lru_capacity(c) == cap,
{
    LruCache::new(std::num::NonZeroUsize::new(cap).unwrap())
}

/// `LruCache::put`: stores `v` under `k` as the most recently used entry;
/// a full cache without `k` drops its least recently used entry first.
/// Gives back the value `k` held before.
#[verifier::external_body]
fn lru_put(c: &mut LruCache<String, CachedAnalysisEntry>, k: String, v: CachedAnalysisEntry) -> (r: Option<CachedAnalysisEntry>)
    requires
        lru_entries(*old(c)).len() <= lru_capacity(*old(c)),
    ensures
        lru_entries(*final(c)) == after_put(lru_entries(*old(c)), lru_capacity(*old(c)), k@, v),
        lru_capacity(*final(c)) == lru_capacity(*old(c)),
        r == value_at(lru_entries(*old(c)), k@),
{
    c.put(k, v)
}

/// `LruCache::pop`: takes out the entry under `k` and gives its value.
#[verifier::external_body]
fn lru_pop(c: &mut LruCache<String, CachedAnalysisEntry>, k: &str) -> (r: Option<CachedAnalysisEntry>)
    ensures
        lru_entries(*final(c)) == after_pop(lru_entries(*old(c)), k@),
        lru_capacity(*final(c)) == lru_capacity(*old(c)),
        r == value_at(lru_entries(*old(c)), k@),
{
    c.pop(k)
}

/// `LruCache::pop_lru`: takes out the least recently used entry.
#[verifier::external_body]
fn lru_pop_lru(c: &mut LruCache<String, CachedAnalysisEntry>) -> (r: Option<(String, CachedAnalysisEntry)>)
    ensures
        popped_lru(lru_entries(*old(c)), r, lru_entries(*final(c))),
        lru_capacity(*final(c)) == lru_capacity(*old(c)),
{
    c.pop_lru()
}

/// `LruCache::peek`: the value under `k`, without marking it used.
#[verifier::external_body]
fn lru_peek<'a>(c: &'a LruCache<String, CachedAnalysisEntry>, k: &str) -> (r: Option<&'a CachedAnalysisEntry>)
    ensures
        r is Some <==> key_pos(lru_entries(*c), k@) >= 0,
        r matches Some(v) ==> *v == lru_entries(*c)[key_pos(lru_entries(*c), k@)].1,
{
    c.peek(k)
}

/// `LruCache::len`: the number of entries.
#[verifier::external_body]
fn lru_len(c: &LruCache<String, CachedAnalysisEntry>) -> (r: usize)
    ensures
        r == lru_entries(*c).len(),
{
    c.len()
}

/// `LruCache::clear`: takes out every entry.
#[verifier::external_body]
fn lru_clear(c: &mut LruCache<String, CachedAnalysisEntry>)
    ensures
        lru_entries(*final(c)) == Seq::<(Seq<char>, CachedAnalysisEntry)>::empty(),
        lru_capacity(*final(c)) == lru_capacity(*old(c)),
{
    c.clear()
}

/// `LruCache::iter`, keeping the keys: most recently used first.
#[verifier::external_body]
fn lru_keys(c: &LruCache<String, CachedAnalysisEntry>) -> (r: Vec<String>)
    ensures
        crate::text::views(r@) == entry_keys(lru_entries(*c)),
{
    c.iter().map(|(k, _)| k.clone()).collect()
}

/// `Utc::now`: the current time of the system clock.
#[verifier::external_body]
fn clock_now() -> (t: Timestamp) {
    let now = chrono::Utc::now();
    Timestamp { secs: now.timestamp(), nanos: now.timestamp_subsec_nanos() }
}

/// No key occurs twice.
pub open spec fn distinct_keys<A>(s: Seq<(Seq<char>, A)>) -> bool {
    forall|i: int, j: int| 0 <= i < j < s.len() ==> (#[trigger] s[i]).0 != (#[trigger] s[j]).0
}

proof fn lemma_key_pos<A>(s: Seq<(Seq<char>, A)>, k: Seq<char>)
    ensures
        -1 <= key_pos(s, k) < s.len(),
        key_pos(s, k) >= 0 ==> s[key_pos(s, k)].0 == k,
        key_pos(s, k) >= 0 ==> forall|i: int| 0 <= i < key_pos(s, k) ==> (#[trigger] s[i]).0 != k,
        key_pos(s, k) < 0 ==> forall|i: int| 0 <= i < s.len() ==> (#[trigger] s[i]).0 != k,
    decreases s.len(),
{
    if s.len() > 0 && s[0].0 != k {
        lemma_key_pos(s.drop_first(), k);
        assert forall|i: int| 1 <= i < s.len() implies s[i] == s.drop_first()[i - 1] by {}
    }
}

proof fn lemma_key_pos_distinct<A>(s: Seq<(Seq<char>, A)>, i: int)
    requires
        distinct_keys(s),
        0 <= i < s.len(),
    ensures
        key_pos(s, s[i].0) == i,
{
    lemma_key_pos(s, s[i].0);
    let p = key_pos(s, s[i].0);
    if p != i {
        if p < i {
            assert(s[p].0 != s[i].0);
        }
    }
}

proof fn lemma_remove_distinct<A>(s: Seq<(Seq<char>, A)>, p: int)
    requires
        distinct_keys(s),
        0 <= p < s.len(),
    ensures
        distinct_keys(s.remove(p)),
        key_pos(s.remove(p), s[p].0) < 0,
        s.remove(p).len() == s.len() - 1,
{
    let t = s.remove(p);
    assert forall|i: int, j: int| 0 <= i < j < t.len() implies (#[trigger] t[i]).0 != (#[trigger] t[j]).0 by {
        let a = if i < p { i } else { i + 1 };
        let b = if j < p { j } else { j + 1 };
        assert(t[i] == s[a] && t[j] == s[b]);
    }
    lemma_key_pos(t, s[p].0);
    if key_pos(t, s[p].0) >= 0 {
        let q = key_pos(t, s[p].0);
        let a = if q < p { q } else { q + 1 };
        assert(t[q] == s[a]);
    }
}

proof fn lemma_prepend_distinct<A>(s: Seq<(Seq<char>, A)>, k: Seq<char>, v: A)
    requires
        distinct_keys(s),
        key_pos(s, k) < 0,
    ensures
        distinct_keys(seq![(k, v)] + s),
        s.len() > 0 ==> distinct_keys(seq![(k, v)] + s.drop_last()),
{
    lemma_key_pos(s, k);
    let t = seq![(k, v)] + s;
    assert forall|i: int, j: int| 0 <= i < j < t.len() implies (#[trigger] t[i]).0 != (#[trigger] t[j]).0 by {
        assert(t[j] == s[j - 1]);
        if i > 0 {
            assert(t[i] == s[i - 1]);
        }
    }
    if s.len() > 0 {
        let d = s.drop_last();
        let u = seq![(k, v)] + d;
        assert forall|i: int, j: int| 0 <= i < j < u.len() implies (#[trigger] u[i]).0 != (#[trigger] u[j]).0 by {
            assert(u[j] == s[j - 1]);
            if i > 0 {
                assert(u[i] == s[i - 1]);
            }
        }
    }
}

/// After storing under `k`, the entries still have distinct keys, `k`
/// leads them, and they fit the capacity.
proof fn lemma_after_put(s: Seq<(Seq<char>, CachedAnalysisEntry)>, cap: nat, k: Seq<char>, v: CachedAnalysisEntry)
    requires
        distinct_keys(s),
        s.len() <= cap,
        cap > 0,
    ensures
        distinct_keys(after_put(s, cap, k, v)),
        after_put(s, cap, k, v).len() <= cap,
        after_put(s, cap, k, v)[0] == (k, v),
{
    lemma_key_pos(s, k);
    let p = key_pos(s, k);
    if p >= 0 {
        lemma_remove_distinct(s, p);
        lemma_prepend_distinct(s.remove(p), k, v);
    } else {
        lemma_prepend_distinct(s, k, v);
    }
}

/// The entries of `s` whose keys are not among `ks`, in order.
pub open spec fn without_keys<A>(s: Seq<(Seq<char>, A)>, ks: Seq<Seq<char>>) -> Seq<(Seq<char>, A)>
    decreases s.len(),
{
    if s.len() == 0 {
        s
    } else if ks.contains(s[0].0) {
        without_keys(s.drop_first(), ks)
    } else {
        seq![s[0]] + without_keys(s.drop_first(), ks)
    }
}

/// `s` with `v` stored under `k`: in place where `k` is, else at the end.
pub open spec fn assoc_set<A>(s: Seq<(Seq<char>, A)>, k: Seq<char>, v: A) -> Seq<(Seq<char>, A)> {
    let p = key_pos(s, k);
    if p >= 0 { s.update(p, (k, v)) } else { s.push((k, v)) }
}

proof fn lemma_without_absent<A>(s: Seq<(Seq<char>, A)>, ks: Seq<Seq<char>>, k: Seq<char>)
    requires
        forall|i: int| 0 <= i < s.len() ==> (#[trigger] s[i]).0 != k,
    ensures
        without_keys(s, ks.push(k)) == without_keys(s, ks),
    decreases s.len(),
{
    if s.len() > 0 {
        assert(s[0].0 != k);
        assert(ks.push(k).contains(s[0].0) == ks.contains(s[0].0)) by {
            if ks.push(k).contains(s[0].0) {
                let j = choose|j: int| 0 <= j < ks.push(k).len() && ks.push(k)[j] == s[0].0;
                assert(j < ks.len());
                assert(ks[j] == s[0].0);
            }
            if ks.contains(s[0].0) {
                let j = choose|j: int| 0 <= j < ks.len() && ks[j] == s[0].0;
                assert(ks.push(k)[j] == s[0].0);
            }
        }
        let d = s.drop_first();
        assert forall|i: int| 0 <= i < d.len() implies (#[trigger] d[i]).0 != k by {
            assert(d[i] == s[i + 1]);
        }
        lemma_without_absent(d, ks, k);
    }
}

proof fn lemma_without_len<A>(s: Seq<(Seq<char>, A)>, ks: Seq<Seq<char>>)
    ensures
        without_keys(s, ks).len() <= s.len(),
        distinct_keys(s) ==> distinct_keys(without_keys(s, ks)),
        forall|i: int| 0 <= i < without_keys(s, ks).len() ==> s.contains(#[trigger] without_keys(s, ks)[i]),
    decreases s.len(),
{
    if s.len() > 0 {
        let d = s.drop_first();
        lemma_without_len(d, ks);
        let w = without_keys(d, ks);
        assert forall|i: int| 0 <= i < w.len() implies s.contains(#[trigger] w[i]) by {
            let j = choose|j: int| 0 <= j < d.len() && d[j] == w[i];
            assert(s[j + 1] == w[i]);
        }
        if !ks.contains(s[0].0) {
            let t = seq![s[0]] + w;
            assert forall|i: int| 0 <= i < t.len() implies s.contains(#[trigger] t[i]) by {
                if i == 0 {
                    assert(s[0] == t[0]);
                } else {
                    assert(t[i] == w[i - 1]);
                }
            }
            if distinct_keys(s) {
                assert(distinct_keys(d)) by {
                    assert forall|a: int, b: int| 0 <= a < b < d.len() implies (#[trigger] d[a]).0 != (#[trigger] d[b]).0 by {
                        assert(d[a] == s[a + 1] && d[b] == s[b + 1]);
                    }
                }
                assert forall|a: int, b: int| 0 <= a < b < t.len() implies (#[trigger] t[a]).0 != (#[trigger] t[b]).0 by {
                    assert(t[b] == w[b - 1]);
                    let j = choose|j: int| 0 <= j < d.len() && d[j] == w[b - 1];
                    assert(d[j] == s[j + 1]);
                    if a > 0 {
                        assert(t[a] == w[a - 1]);
                    }
                }
            }
        } else if distinct_keys(s) {
            assert(distinct_keys(d)) by {
                assert forall|a: int, b: int| 0 <= a < b < d.len() implies (#[trigger] d[a]).0 != (#[trigger] d[b]).0 by {
                    assert(d[a] == s[a + 1] && d[b] == s[b + 1]);
                }
            }
        }
    }
}

/// Taking out one more key from a sequence with distinct keys.
proof fn lemma_pop_without<A>(s: Seq<(Seq<char>, A)>, ks: Seq<Seq<char>>, k: Seq<char>)
    requires
        distinct_keys(s),
    ensures
        after_pop(without_keys(s, ks), k) == without_keys(s, ks.push(k)),
    decreases s.len(),
{
    if s.len() > 0 {
        let d = s.drop_first();
        assert(distinct_keys(d)) by {
            assert forall|a: int, b: int| 0 <= a < b < d.len() implies (#[trigger] d[a]).0 != (#[trigger] d[b]).0 by {
                assert(d[a] == s[a + 1] && d[b] == s[b + 1]);
            }
        }
        let w = without_keys(d, ks);
        if ks.contains(s[0].0) {
            assert(ks.push(k).contains(s[0].0)) by {
                let j = choose|j: int| 0 <= j < ks.len() && ks[j] == s[0].0;
                assert(ks.push(k)[j] == s[0].0);
            }
            lemma_pop_without(d, ks, k);
        } else if s[0].0 == k {
            assert(ks.push(k)[ks.len() as int] == k);
            let t = seq![s[0]] + w;
            assert(t.drop_first() =~= w);
            assert(key_pos(t, k) == 0);
            assert(t.remove(0) =~= w);
            assert forall|i: int| 0 <= i < d.len() implies (#[trigger] d[i]).0 != k by {
                assert(d[i] == s[i + 1]);
            }
            lemma_without_absent(d, ks, k);
        } else {
            assert(!ks.push(k).contains(s[0].0)) by {
                if ks.push(k).contains(s[0].0) {
                    let j = choose|j: int| 0 <= j < ks.push(k).len() && ks.push(k)[j] == s[0].0;
                    assert(j < ks.len());
                    assert(ks[j] == s[0].0);
                }
            }
            lemma_pop_without(d, ks, k);
            let t = seq![s[0]] + w;
            assert(t.drop_first() =~= w);
            lemma_key_pos(w, k);
            let p = key_pos(w, k);
            if p >= 0 {
                assert(key_pos(t, k) == p + 1);
                assert(t.remove(p + 1) =~= seq![s[0]] + w.remove(p));
            } else {
                assert(key_pos(t, k) == -1);
            }
        }
    }
}

/// Bytes in a megabyte.
pub const MEGABYTE: usize = 1_048_576;

/// Estimated bytes one cached issue takes.
pub const ISSUE_SIZE_BYTES: usize = 200;

/// Memory use, in megabytes, that eviction brings the cache down to:
/// 80% of the budget.
pub open spec fn eviction_target_mb(config: IncrementalCacheConfig) -> int {
    config.max_memory_mb * 80 / 100
}

/// Taking out least recently used entries while memory use is above the
/// target: the entries left, the memory use, and how many were taken.
pub open spec fn lru_eviction(s: Seq<(Seq<char>, CachedAnalysisEntry)>, mem: usize, target: int) -> (Seq<(Seq<char>, CachedAnalysisEntry)>, usize, nat)
    decreases s.len(),
{
    if s.len() == 0 || mem / MEGABYTE <= target {
        (s, mem, 0)
    } else {
        let r = lru_eviction(s.drop_last(), mem.saturating_sub(s.last().1.estimated_size_bytes), target);
        (r.0, r.1, r.2 + 1)
    }
}

/// Position of the first of the earliest timestamps.
pub open spec fn oldest_pos(ts: Seq<Timestamp>) -> int
    decreases ts.len(),
{
    if ts.len() <= 1 {
        0
    } else {
        let p = oldest_pos(ts.drop_last());
        if not_after(ts[p], ts.last()) { p } else { ts.len() - 1 }
    }
}

/// The first of the earliest timestamps has a position in the sequence.
pub proof fn lemma_oldest_pos(ts: Seq<Timestamp>)
    requires
        ts.len() > 0,
    ensures
        0 <= oldest_pos(ts) < ts.len(),
    decreases ts.len(),
{
    if ts.len() > 1 {
        lemma_oldest_pos(ts.drop_last());
    }
}

/// When each entry was cached, in order.
pub open spec fn cached_times(s: Seq<(Seq<char>, CachedAnalysisEntry)>) -> Seq<Timestamp> {
    s.map_values(|e: (Seq<char>, CachedAnalysisEntry)| e.1.cached_at)
}

/// Taking out the oldest entries, the most recently used first among
/// equally old ones, while memory use is above the target: the entries
/// left, the memory use, and how many were taken.
pub open spec fn fifo_eviction(s: Seq<(Seq<char>, CachedAnalysisEntry)>, mem: usize, target: int) -> (Seq<(Seq<char>, CachedAnalysisEntry)>, usize, nat)
    decreases s.len(),
{
    if s.len() == 0 || mem / MEGABYTE <= target {
        (s, mem, 0)
    } else {
        let p = oldest_pos(cached_times(s));
        proof {
            lemma_oldest_pos(cached_times(s));
        }
        let r = fifo_eviction(s.remove(p), mem.saturating_sub(s[p].1.estimated_size_bytes), target);
        (r.0, r.1, r.2 + 1)
    }
}

/// What making room does under the configured policy: the entries left,
/// the memory use, and how many entries were taken out.  Oldest-first
/// takes out the oldest entries; every other policy falls back to taking
/// out the least recently used ones.
pub open spec fn eviction(config: IncrementalCacheConfig, s: Seq<(Seq<char>, CachedAnalysisEntry)>, mem: usize) -> (Seq<(Seq<char>, CachedAnalysisEntry)>, usize, nat) {
    match config.eviction_policy {
        CacheEvictionPolicy::TimeBasedFIFO => fifo_eviction(s, mem, eviction_target_mb(config)),
        _ => lru_eviction(s, mem, eviction_target_mb(config)),
    }
}

/// Estimated memory of an entry holding `n` issues, capped at `usize::MAX`.
pub open spec fn estimated_size(n: nat) -> usize {
    let total = vstd::layout::size_of::<CachedAnalysisEntry>() + n * ISSUE_SIZE_BYTES;
    if total > usize::MAX { usize::MAX } else { total as usize }
}

/// Storing an entry of `size` bytes would take memory use past the budget;
/// a budget of 0 is no limit.
pub open spec fn exceeds_memory(config: IncrementalCacheConfig, mem: usize, size: usize) -> bool {
    config.max_memory_mb != 0 && mem / MEGABYTE + size / MEGABYTE > config.max_memory_mb
}

/// An entry may be used at `now`: it is marked valid and, with a time to
/// live, is not more whole hours old than that.
pub open spec fn entry_valid(config: IncrementalCacheConfig, e: CachedAnalysisEntry, now: Timestamp) -> bool {
    &&& !(config.ttl_hours > 0 && hours_between(e.cached_at, now) > config.ttl_hours)
    &&& e.is_valid
}

/// Multi-layer cache of per-file analysis results, with the files each file
/// depends on and the files' modification times.
pub struct IncrementalCache {
    config: IncrementalCacheConfig,
    analysis_cache: LruCache<String, CachedAnalysisEntry>,
    dependency_cache: Vec<(String, Vec<String>)>,
    mtime_cache: Vec<(String, u64)>,
    stats: CacheStatistics,
}

impl IncrementalCache {
    /// Cached results, most recently used first.
    pub closed spec fn entries(&self) -> Seq<(Seq<char>, CachedAnalysisEntry)> {
        lru_entries(self.analysis_cache)
    }

    /// Most results held at once.
    pub closed spec fn capacity(&self) -> nat {
        lru_capacity(self.analysis_cache)
    }

    pub closed spec fn config_view(&self) -> IncrementalCacheConfig {
        self.config
    }

    pub closed spec fn stats_view(&self) -> CacheStatistics {
        self.stats
    }

    /// For each file with recorded dependencies, the files it depends on.
    pub closed spec fn dependencies(&self) -> Seq<(Seq<char>, Seq<Seq<char>>)> {
        self.dependency_cache@.map_values(|e: (String, Vec<String>)| (e.0@, crate::text::views(e.1@)))
    }

    /// Modification times of the cached files.
    pub closed spec fn mtimes(&self) -> Seq<(Seq<char>, u64)> {
        self.mtime_cache@.map_values(|e: (String, u64)| (e.0@, e.1))
    }

    /// Keys are unique in each layer and results fit the capacity, which
    /// is the configured number of results.
    pub closed spec fn wf(&self) -> bool {
        &&& distinct_keys(self.entries())
        &&& self.entries().len() <= self.capacity()
        &&& self.capacity() == self.config.max_analysis_results
        &&& self.capacity() > 0
        &&& distinct_keys(self.dependencies())
        &&& distinct_keys(self.mtimes())
    }

    /// A well-formed cache holds at most as many entries as its configured
    /// capacity, each file at most once, and records each file's
    /// dependencies and modification time at most once.
    pub proof fn lemma_wf_bounds(&self)
        requires
            self.wf(),
        ensures
            self.capacity() == self.config_view().max_analysis_results,
            self.entries().len() <= self.capacity(),
            distinct_keys(self.entries()),
            distinct_keys(self.dependencies()),
            distinct_keys(self.mtimes()),
    {
    }

    /// An empty cache with the given settings.
    pub fn new(config: IncrementalCacheConfig) -> (c: Self)
        requires
            config.max_analysis_results > 0,
        ensures
            c.wf(),
            c.config_view() == config,
            c.capacity() == config.max_analysis_results,
            c.entries().len() == 0,
            c.dependencies().len() == 0,
            c.mtimes().len() == 0,
            c.stats_view() == (CacheStatistics { hits: 0, misses: 0, invalidations: 0, evictions: 0, entry_count: 0, memory_usage_bytes: 0 }),
    {
        let analysis_cache = lru_new(config.max_analysis_results);
        let c = IncrementalCache {
            config,
            analysis_cache,
            dependency_cache: Vec::new(),
            mtime_cache: Vec::new(),
            stats: CacheStatistics::default(),
        };
        assert(c.dependencies() =~= Seq::empty());
        assert(c.mtimes() =~= Seq::empty());
        c
    }

    /// Estimated memory of an entry holding `issues`.
    fn estimate_entry_size(&self, issues: &Vec<ArchitecturalIssue>) -> (r: usize)
        ensures
            r == estimated_size(issues@.len()),
    {
        let base = core::mem::size_of::<CachedAnalysisEntry>();
        match issues.len().checked_mul(ISSUE_SIZE_BYTES) {
            Some(issues_size) => base.saturating_add(issues_size),
            None => usize::MAX,
        }
    }

    /// Whether storing `entry` would take memory use past the budget.
    fn would_exceed_memory_limit(&self, entry: &CachedAnalysisEntry) -> (r: bool)
        ensures
            r == exceeds_memory(self.config, self.stats.memory_usage_bytes, entry.estimated_size_bytes),
    {
        if self.config.max_memory_mb == 0 {
            return false;
        }
        let current_memory_mb = self.stats.memory_usage_bytes / MEGABYTE;
        let entry_memory_mb = entry.estimated_size_bytes / MEGABYTE;
        current_memory_mb + entry_memory_mb > self.config.max_memory_mb
    }

    /// Whether `entry` may be used at `now`.
    fn is_entry_valid(&self, entry: &CachedAnalysisEntry, now: Timestamp) -> (r: bool)
        ensures
            r == entry_valid(self.config, *entry, now),
    {
        if self.config.ttl_hours > 0 {
            let age_nanos: i128 = (now.secs as i128 - entry.cached_at.secs as i128) * 1_000_000_000
                + (now.nanos as i128 - entry.cached_at.nanos as i128);
            let hours: i128 = if age_nanos >= 0 {
                age_nanos / 1_000_000_000 / 3600
            } else {
                -((-age_nanos) / 1_000_000_000 / 3600)
            };
            assert(hours == hours_between(entry.cached_at, now)) by {
                let a = instant_nanos(now) - instant_nanos(entry.cached_at);
                assert(age_nanos == a);
                if a >= 0 {
                    assert(a / 1_000_000_000 >= 0);
                    assert(a / 1_000_000_000 / 3600 == div_toward_zero(div_toward_zero(a, 1_000_000_000), 3600));
                } else {
                    assert((-a) / 1_000_000_000 >= 0);
                }
            }
            if hours > self.config.ttl_hours as i128 {
                return false;
            }
        }
        entry.is_valid
    }
}

proof fn lemma_lru_eviction_count(s: Seq<(Seq<char>, CachedAnalysisEntry)>, mem: usize, target: int)
    ensures
        lru_eviction(s, mem, target).2 <= s.len(),
        distinct_keys(s) ==> distinct_keys(lru_eviction(s, mem, target).0),
        lru_eviction(s, mem, target).0.len() <= s.len(),
    decreases s.len(),
{
    if s.len() > 0 && mem / MEGABYTE > target {
        let d = s.drop_last();
        lemma_lru_eviction_count(d, mem.saturating_sub(s.last().1.estimated_size_bytes), target);
        if distinct_keys(s) {
            assert(distinct_keys(d)) by {
                assert forall|a: int, b: int| 0 <= a < b < d.len() implies (#[trigger] d[a]).0 != (#[trigger] d[b]).0 by {
                    assert(d[a] == s[a] && d[b] == s[b]);
                }
            }
        }
    }
}

proof fn lemma_fifo_eviction_count(s: Seq<(Seq<char>, CachedAnalysisEntry)>, mem: usize, target: int)
    ensures
        fifo_eviction(s, mem, target).2 <= s.len(),
        distinct_keys(s) ==> distinct_keys(fifo_eviction(s, mem, target).0),
        fifo_eviction(s, mem, target).0.len() <= s.len(),
    decreases s.len(),
{
    if s.len() > 0 && mem / MEGABYTE > target {
        let p = oldest_pos(cached_times(s));
        lemma_oldest_pos(cached_times(s));
        lemma_fifo_eviction_count(s.remove(p), mem.saturating_sub(s[p].1.estimated_size_bytes), target);
        if distinct_keys(s) {
            lemma_remove_distinct(s, p);
        }
    }
}

/// Takes out least recently used entries while memory use is above
/// `target` megabytes; gives how many it took.
fn evict_lru(cache: &mut LruCache<String, CachedAnalysisEntry>, mem: &mut usize, target: u128) -> (n: u64)
    ensures
        lru_entries(*final(cache)) == lru_eviction(lru_entries(*old(cache)), *old(mem), target as int).0,
        *final(mem) == lru_eviction(lru_entries(*old(cache)), *old(mem), target as int).1,
        n == lru_eviction(lru_entries(*old(cache)), *old(mem), target as int).2,
        lru_capacity(*final(cache)) == lru_capacity(*old(cache)),
{
    let _len = lru_len(cache);
    let ghost goal = lru_eviction(lru_entries(*cache), *mem, target as int);
    let ghost cap = lru_capacity(*cache);
    proof {
        lemma_lru_eviction_count(lru_entries(*cache), *mem, target as int);
    }
    let mut n: u64 = 0;
    let mut go = true;
    while go
        invariant
            lru_capacity(*cache) == cap,
            goal.2 <= usize::MAX,
            go ==> n + lru_eviction(lru_entries(*cache), *mem, target as int).2 == goal.2,
            go ==> lru_eviction(lru_entries(*cache), *mem, target as int).0 == goal.0,
            go ==> lru_eviction(lru_entries(*cache), *mem, target as int).1 == goal.1,
            !go ==> lru_entries(*cache) == goal.0 && *mem == goal.1 && n == goal.2,
        decreases lru_entries(*cache).len() + if go { 1int } else { 0int },
    {
        proof {
            lemma_lru_eviction_count(lru_entries(*cache), *mem, target as int);
        }
        if lru_len(cache) == 0 || ((*mem / MEGABYTE) as u128) <= target {
            go = false;
        } else {
            match lru_pop_lru(cache) {
                Some(kv) => {
                    n = n + 1;
                    *mem = (*mem).saturating_sub(kv.1.estimated_size_bytes);
                },
                None => {
                    go = false;
                },
            }
        }
    }
    n
}

/// Position of the first of the earliest cached-at times in `ages`.
fn oldest_index(ages: &Vec<(String, Timestamp)>) -> (p: usize)
    requires
        ages@.len() > 0,
    ensures
        p == oldest_pos(ages@.map_values(|a: (String, Timestamp)| a.1)),
        p < ages@.len(),
{
    let ghost ts = ages@.map_values(|a: (String, Timestamp)| a.1);
    let mut best: usize = 0;
    let mut i: usize = 1;
    while i < ages.len()
        invariant
            1 <= i <= ages@.len(),
            ts == ages@.map_values(|a: (String, Timestamp)| a.1),
            best == oldest_pos(ts.subrange(0, i as int)),
            best < i,
        decreases ages@.len() - i,
    {
        let sub = Ghost(ts.subrange(0, i + 1));
        proof {
            assert(sub@.drop_last() =~= ts.subrange(0, i as int));
            assert(sub@.last() == ages@[i as int].1);
            assert(sub@[best as int] == ages@[best as int].1);
        }
        let b = ages[best].1;
        let c = ages[i].1;
        if !(b.secs < c.secs || (b.secs == c.secs && b.nanos <= c.nanos)) {
            best = i;
        }
        i = i + 1;
    }
    assert(ts.subrange(0, ages@.len() as int) =~= ts);
    best
}

/// Takes out the oldest entries, the most recently used first among
/// equally old ones, while memory use is above `target` megabytes; gives
/// how many it took.
fn evict_oldest(cache: &mut LruCache<String, CachedAnalysisEntry>, mem: &mut usize, target: u128) -> (n: u64)
    requires
        distinct_keys(lru_entries(*old(cache))),
    ensures
        lru_entries(*final(cache)) == fifo_eviction(lru_entries(*old(cache)), *old(mem), target as int).0,
        *final(mem) == fifo_eviction(lru_entries(*old(cache)), *old(mem), target as int).1,
        n == fifo_eviction(lru_entries(*old(cache)), *old(mem), target as int).2,
        lru_capacity(*final(cache)) == lru_capacity(*old(cache)),
{
    let ghost s0 = lru_entries(*cache);
    let keys = lru_keys(cache);
    proof {
        assert(crate::text::views(keys@).len() == keys@.len());
        assert(entry_keys(s0).len() == s0.len());
    }
    let mut ages: Vec<(String, Timestamp)> = Vec::new();
    let mut i: usize = 0;
    while i < keys.len()
        invariant
            lru_entries(*cache) == s0,
            distinct_keys(s0),
            crate::text::views(keys@) == entry_keys(s0),
            keys@.len() == s0.len(),
            i <= keys@.len(),
            ages@.len() == i,
            forall|j: int| 0 <= j < i ==> (#[trigger] ages@[j]).0@ == s0[j].0 && ages@[j].1 == s0[j].1.cached_at,
        decreases keys@.len() - i,
    {
        proof {
            assert(crate::text::views(keys@)[i as int] == keys@[i as int]@);
            assert(entry_keys(s0)[i as int] == s0[i as int].0);
            lemma_key_pos_distinct(s0, i as int);
        }
        let key = keys[i].clone();
        match lru_peek(cache, keys[i].as_str()) {
            Some(e) => {
                ages.push((key, e.cached_at));
            },
            None => {
                ages.push((key, Timestamp { secs: 0, nanos: 0 }));
            },
        }
        i = i + 1;
    }
    proof {
        assert(crate::text::views(keys@).len() == keys@.len());
        assert(entry_keys(s0).len() == s0.len());
    }
    let ghost goal = fifo_eviction(s0, *mem, target as int);
    let ghost cap = lru_capacity(*cache);
    proof {
        lemma_fifo_eviction_count(s0, *mem, target as int);
    }
    let mut n: u64 = 0;
    let mut go = true;
    while go
        invariant
            lru_capacity(*cache) == cap,
            goal.2 <= usize::MAX,
            distinct_keys(lru_entries(*cache)),
            ages@.len() == lru_entries(*cache).len(),
            forall|j: int| 0 <= j < ages@.len() ==> (#[trigger] ages@[j]).0@ == lru_entries(*cache)[j].0
                && ages@[j].1 == lru_entries(*cache)[j].1.cached_at,
            go ==> n + fifo_eviction(lru_entries(*cache), *mem, target as int).2 == goal.2,
            go ==> fifo_eviction(lru_entries(*cache), *mem, target as int).0 == goal.0,
            go ==> fifo_eviction(lru_entries(*cache), *mem, target as int).1 == goal.1,
            !go ==> lru_entries(*cache) == goal.0 && *mem == goal.1 && n == goal.2,
        decreases lru_entries(*cache).len() + if go { 1int } else { 0int },
    {
        let ghost cur = lru_entries(*cache);
        proof {
            lemma_fifo_eviction_count(cur, *mem, target as int);
        }
        if ages.len() == 0 || ((*mem / MEGABYTE) as u128) <= target {
            go = false;
        } else {
            let p = oldest_index(&ages);
            proof {
                assert(ages@.map_values(|a: (String, Timestamp)| a.1) =~= cached_times(cur));
                lemma_key_pos_distinct(cur, p as int);
                lemma_remove_distinct(cur, p as int);
            }
            let ghost ages_before = ages@;
            let key = ages.remove(p);
            match lru_pop(cache, key.0.as_str()) {
                Some(e) => {
                    n = n + 1;
                    *mem = (*mem).saturating_sub(e.estimated_size_bytes);
                },
                None => {},
            }
            proof {
                assert forall|j: int| 0 <= j < ages@.len() implies (#[trigger] ages@[j]).0@ == lru_entries(*cache)[j].0
                    && ages@[j].1 == lru_entries(*cache)[j].1.cached_at by {
                    let k = if j < p { j } else { j + 1 };
                    assert(ages@[j] == ages_before[k]);
                    assert(lru_entries(*cache)[j] == cur[k]);
                }
            }
        }
    }
    n
}

proof fn lemma_key_pos_first<A>(s: Seq<(Seq<char>, A)>, k: Seq<char>, i: int)
    requires
        0 <= i <= s.len(),
        i < s.len() ==> s[i].0 == k,
        forall|j: int| 0 <= j < i ==> (#[trigger] s[j]).0 != k,
    ensures
        key_pos(s, k) == if i < s.len() { i } else { -1 },
{
    lemma_key_pos(s, k);
    let p = key_pos(s, k);
    if p >= 0 && p < i {
        assert(s[p].0 != k);
    }
    if p < 0 && i < s.len() {
        assert(s[i].0 != k);
    }
}

/// Position of the first pair whose key is `k`.
fn find_key<A>(v: &Vec<(String, A)>, k: &str) -> (r: Option<usize>)
    ensures
        r matches Some(i) ==> i < v@.len() && v@[i as int].0@ == k@,
        r matches Some(i) ==> forall|j: int| 0 <= j < i ==> (#[trigger] v@[j]).0@ != k@,
        r is None ==> forall|j: int| 0 <= j < v@.len() ==> (#[trigger] v@[j]).0@ != k@,
{
    let mut i: usize = 0;
    while i < v.len()
        invariant
            i <= v@.len(),
            forall|j: int| 0 <= j < i ==> (#[trigger] v@[j]).0@ != k@,
        decreases v@.len() - i,
    {
        if crate::text::str_eq(v[i].0.as_str(), k) {
            return Some(i);
        }
        i = i + 1;
    }
    None
}

/// The view of a modification-time table.
pub open spec fn mtime_view(v: Seq<(String, u64)>) -> Seq<(Seq<char>, u64)> {
    v.map_values(|e: (String, u64)| (e.0@, e.1))
}

/// The view of a dependency table.
pub open spec fn dependency_view(v: Seq<(String, Vec<String>)>) -> Seq<(Seq<char>, Seq<Seq<char>>)> {
    v.map_values(|e: (String, Vec<String>)| (e.0@, crate::text::views(e.1@)))
}

fn set_mtime(v: &mut Vec<(String, u64)>, k: String, t: u64)
    requires
        distinct_keys(mtime_view(old(v)@)),
    ensures
        mtime_view(final(v)@) == assoc_set(mtime_view(old(v)@), k@, t),
        distinct_keys(mtime_view(final(v)@)),
{
    let ghost s = mtime_view(v@);
    match find_key(v, k.as_str()) {
        Some(i) => {
            proof {
                lemma_key_pos_first(s, k@, i as int);
            }
            v.set(i, (k, t));
            proof {
                assert(mtime_view(v@) =~= s.update(i as int, (s[i as int].0, t)));
                let u = mtime_view(v@);
                assert forall|a: int, b: int| 0 <= a < b < u.len() implies (#[trigger] u[a]).0 != (#[trigger] u[b]).0 by {
                    assert(u[a].0 == s[a].0 && u[b].0 == s[b].0);
                }
            }
        },
        None => {
            proof {
                lemma_key_pos_first(s, k@, s.len() as int);
            }
            v.push((k, t));
            proof {
                assert(mtime_view(v@) =~= s.push((k@, t)));
                let u = mtime_view(v@);
                assert forall|a: int, b: int| 0 <= a < b < u.len() implies (#[trigger] u[a]).0 != (#[trigger] u[b]).0 by {
                    assert(u[a].0 == s[a].0);
                    if b < s.len() {
                        assert(u[b].0 == s[b].0);
                    }
                }
            }
        },
    }
}

fn remove_mtime(v: &mut Vec<(String, u64)>, k: &str)
    requires
        distinct_keys(mtime_view(old(v)@)),
    ensures
        mtime_view(final(v)@) == after_pop(mtime_view(old(v)@), k@),
        distinct_keys(mtime_view(final(v)@)),
{
    let ghost s = mtime_view(v@);
    match find_key(v, k) {
        Some(i) => {
            proof {
                lemma_key_pos_first(s, k@, i as int);
                lemma_remove_distinct(s, i as int);
            }
            v.remove(i);
            assert(mtime_view(v@) =~= s.remove(i as int));
        },
        None => {
            proof {
                lemma_key_pos_first(s, k@, s.len() as int);
            }
        },
    }
}

/// The files, in table order, that depend on at least one of `changed`.
pub open spec fn dependents_of(deps: Seq<(Seq<char>, Seq<Seq<char>>)>, changed: Seq<Seq<char>>) -> Seq<Seq<char>>
    decreases deps.len(),
{
    if deps.len() == 0 {
        seq![]
    } else {
        let rest = dependents_of(deps.drop_last(), changed);
        if exists|j: int| 0 <= j < deps.last().1.len() && changed.contains(#[trigger] deps.last().1[j]) {
            rest.push(deps.last().0)
        } else {
            rest
        }
    }
}

/// Keys, in order, of the entries that may no longer be used at `now`.
pub open spec fn invalid_keys(s: Seq<(Seq<char>, CachedAnalysisEntry)>, config: IncrementalCacheConfig, now: Timestamp) -> Seq<Seq<char>>
    decreases s.len(),
{
    if s.len() == 0 {
        seq![]
    } else {
        let rest = invalid_keys(s.drop_last(), config, now);
        if entry_valid(config, s.last().1, now) { rest } else { rest.push(s.last().0) }
    }
}

/// The entry stored for a fresh analysis result.
pub open spec fn stored_entry(issues: Vec<ArchitecturalIssue>, file_state: FileState, duration_ms: u64, now: Timestamp, size: usize) -> CachedAnalysisEntry {
    CachedAnalysisEntry {
        issues,
        file_state,
        cached_at: now,
        last_accessed: now,
        access_count: 1,
        analysis_duration_ms: duration_ms,
        estimated_size_bytes: size,
        is_valid: true,
    }
}

/// An entry as a read at `now` leaves it.
pub open spec fn touched(e: CachedAnalysisEntry, now: Timestamp) -> CachedAnalysisEntry {
    CachedAnalysisEntry { last_accessed: now, access_count: e.access_count.wrapping_add(1), ..e }
}

/// Statistics after a counted read: a hit, or a miss that may also be an
/// invalidation; counted only with statistics enabled.
pub open spec fn after_lookup(st: CacheStatistics, enabled: bool, hit: bool, invalidated: bool) -> CacheStatistics {
    if !enabled {
        st
    } else if hit {
        CacheStatistics { hits: st.hits.wrapping_add(1), ..st }
    } else if invalidated {
        CacheStatistics { misses: st.misses.wrapping_add(1), invalidations: st.invalidations.wrapping_add(1), ..st }
    } else {
        CacheStatistics { misses: st.misses.wrapping_add(1), ..st }
    }
}

/// What a read of `path` at `now` does: a valid entry is given back and
/// becomes the most recently used, an expired one is dropped, a missing one
/// is a miss.
pub open spec fn lookup_outcome(old_c: IncrementalCache, new_c: IncrementalCache, path: Seq<char>, now: Timestamp, r: Option<Vec<ArchitecturalIssue>>) -> bool {
    let s = old_c.entries();
    let p = key_pos(s, path);
    let cfg = old_c.config_view();
    &&& new_c.wf()
    &&& new_c.config_view() == cfg
    &&& new_c.capacity() == old_c.capacity()
    &&& new_c.dependencies() == old_c.dependencies()
    &&& new_c.mtimes() == old_c.mtimes()
    &&& p < 0 ==> {
        &&& r is None
        &&& new_c.entries() == s
        &&& new_c.stats_view() == after_lookup(old_c.stats_view(), cfg.enable_statistics, false, false)
    }
    &&& p >= 0 && entry_valid(cfg, s[p].1, now) ==> {
        &&& (r matches Some(v) && v@ == s[p].1.issues@)
        &&& new_c.entries() == seq![(path, touched(s[p].1, now))] + s.remove(p)
        &&& new_c.stats_view() == after_lookup(old_c.stats_view(), cfg.enable_statistics, true, false)
    }
    &&& p >= 0 && !entry_valid(cfg, s[p].1, now) ==> {
        &&& r is None
        &&& new_c.entries() == s.remove(p)
        &&& new_c.stats_view() == after_lookup(old_c.stats_view(), cfg.enable_statistics, false, true)
    }
}

impl IncrementalCache {
    /// Makes room under the configured eviction policy.
    fn evict_entries_for_space(&mut self)
        requires
            old(self).wf(),
        ensures
            final(self).wf(),
            final(self).config_view() == old(self).config_view(),
            final(self).capacity() == old(self).capacity(),
            final(self).dependencies() == old(self).dependencies(),
            final(self).mtimes() == old(self).mtimes(),
            final(self).entries() == eviction(old(self).config_view(), old(self).entries(), old(self).stats_view().memory_usage_bytes).0,
            final(self).stats_view() == (CacheStatistics {
                memory_usage_bytes: eviction(old(self).config_view(), old(self).entries(), old(self).stats_view().memory_usage_bytes).1,
                evictions: if old(self).config_view().enable_statistics {
                    old(self).stats_view().evictions.wrapping_add(eviction(old(self).config_view(), old(self).entries(), old(self).stats_view().memory_usage_bytes).2 as u64)
                } else {
                    old(self).stats_view().evictions
                },
                ..old(self).stats_view()
            }),
    {
        let target: u128 = (self.config.max_memory_mb as u128) * 80 / 100;
        let mut mem = self.stats.memory_usage_bytes;
        let ghost s = self.entries();
        let mut evicted_count: u64 = 0;
        proof {
            lemma_lru_eviction_count(s, mem, target as int);
            lemma_fifo_eviction_count(s, mem, target as int);
        }
        match self.config.eviction_policy {
            CacheEvictionPolicy::TimeBasedFIFO => {
                evicted_count = evict_oldest(&mut self.analysis_cache, &mut mem, target);
            },
            _ => {
                evicted_count = evict_lru(&mut self.analysis_cache, &mut mem, target);
            },
        }
        self.stats.memory_usage_bytes = mem;
        if self.config.enable_statistics {
            self.stats.evictions = self.stats.evictions.wrapping_add(evicted_count);
        }
    }

    /// Reads the cached result of a file at time `now`.
    pub fn get_analysis_result_at(&mut self, file_path: &str, now: Timestamp) -> (r: Option<Vec<ArchitecturalIssue>>)
        requires
            old(self).wf(),
        ensures
            lookup_outcome(*old(self), *final(self), file_path@, now, r),
    {
        let ghost s = self.entries();
        proof {
            lemma_key_pos(s, file_path@);
        }
        let popped = lru_pop(&mut self.analysis_cache, file_path);
        match popped {
            Some(mut entry) => {
                let ghost p = key_pos(s, file_path@);
                proof {
                    lemma_remove_distinct(s, p);
                }
                entry.last_accessed = now;
                entry.access_count = entry.access_count.wrapping_add(1);
                if self.is_entry_valid(&entry, now) {
                    if self.config.enable_statistics {
                        self.stats.hits = self.stats.hits.wrapping_add(1);
                    }
                    let issues = copy_issues(&entry.issues);
                    let key = crate::text::owned(file_path);
                    proof {
                        lemma_after_put(s.remove(p), self.capacity(), key@, entry);
                    }
                    let _ = lru_put(&mut self.analysis_cache, key, entry);
                    Some(issues)
                } else {
                    if self.config.enable_statistics {
                        self.stats.misses = self.stats.misses.wrapping_add(1);
                        self.stats.invalidations = self.stats.invalidations.wrapping_add(1);
                    }
                    None
                }
            },
            None => {
                if self.config.enable_statistics {
                    self.stats.misses = self.stats.misses.wrapping_add(1);
                }
                None
            },
        }
    }

    /// Reads the cached result of a file now: as `get_analysis_result_at`
    /// at the clock's current time.
    pub fn get_analysis_result(&mut self, file_path: &str) -> (r: Option<Vec<ArchitecturalIssue>>)
        requires
            old(self).wf(),
        ensures
            exists|now: Timestamp| #[trigger] lookup_outcome(*old(self), *final(self), file_path@, now, r),
    {
        let now = clock_now();
        let r = self.get_analysis_result_at(file_path, now);
        assert(lookup_outcome(*old(self), *self, file_path@, now, r));
        r
    }
}

/// What storing a result at `now` does: room is made first when the
/// entry would take memory use past the budget, then the entry becomes the
/// most recently used, and the file's modification time is recorded.
pub open spec fn store_outcome(
    old_c: IncrementalCache,
    new_c: IncrementalCache,
    path: Seq<char>,
    issues: Vec<ArchitecturalIssue>,
    file_state: FileState,
    duration_ms: u64,
    now: Timestamp,
) -> bool {
    let cfg = old_c.config_view();
    let st = old_c.stats_view();
    let size = estimated_size(issues@.len());
    let over = exceeds_memory(cfg, st.memory_usage_bytes, size);
    let ev = if over { eviction(cfg, old_c.entries(), st.memory_usage_bytes) } else { (old_c.entries(), st.memory_usage_bytes, 0nat) };
    let entries = after_put(ev.0, old_c.capacity(), path, stored_entry(issues, file_state, duration_ms, now, size));
    &&& new_c.wf()
    &&& new_c.config_view() == cfg
    &&& new_c.capacity() == old_c.capacity()
    &&& new_c.dependencies() == old_c.dependencies()
    &&& new_c.entries() == entries
    &&& new_c.mtimes() == assoc_set(old_c.mtimes(), path, file_state.last_modified)
    &&& new_c.stats_view() == (CacheStatistics {
        evictions: if over && cfg.enable_statistics { st.evictions.wrapping_add(ev.2 as u64) } else { st.evictions },
        entry_count: if cfg.enable_statistics { entries.len() as usize } else { st.entry_count },
        memory_usage_bytes: if cfg.enable_statistics { ev.1.wrapping_add(size) } else { ev.1 },
        ..st
    })
}

impl IncrementalCache {
    /// Stores the analysis result of a file at time `now`.
    pub fn store_analysis_result_at(
        &mut self,
        file_path: String,
        issues: Vec<ArchitecturalIssue>,
        file_state: FileState,
        analysis_duration_ms: u64,
        now: Timestamp,
    )
        requires
            old(self).wf(),
        ensures
            store_outcome(*old(self), *final(self), file_path@, issues, file_state, analysis_duration_ms, now),
    {
        let estimated_size = self.estimate_entry_size(&issues);
        let last_modified = file_state.last_modified;
        let entry = CachedAnalysisEntry {
            issues,
            file_state,
            cached_at: now,
            last_accessed: now,
            access_count: 1,
            analysis_duration_ms,
            estimated_size_bytes: estimated_size,
            is_valid: true,
        };
        if self.would_exceed_memory_limit(&entry) {
            self.evict_entries_for_space();
        }
        let key = crate::text::owned(file_path.as_str());
        proof {
            lemma_after_put(self.entries(), self.capacity(), key@, entry);
        }
        let _ = lru_put(&mut self.analysis_cache, key, entry);
        let cache_len = lru_len(&self.analysis_cache);
        set_mtime(&mut self.mtime_cache, file_path, last_modified);
        if self.config.enable_statistics {
            self.stats.entry_count = cache_len;
            self.stats.memory_usage_bytes = self.stats.memory_usage_bytes.wrapping_add(estimated_size);
        }
    }

    /// Stores the analysis result of a file now: as
    /// `store_analysis_result_at` at the clock's current time.
    pub fn store_analysis_result(
        &mut self,
        file_path: String,
        issues: Vec<ArchitecturalIssue>,
        file_state: FileState,
        analysis_duration_ms: u64,
    )
        requires
            old(self).wf(),
        ensures
            exists|now: Timestamp| #[trigger] store_outcome(*old(self), *final(self), file_path@, issues, file_state, analysis_duration_ms, now),
    {
        let now = clock_now();
        let ghost p = file_path@;
        let ghost i = issues;
        let ghost f = file_state;
        self.store_analysis_result_at(file_path, issues, file_state, analysis_duration_ms, now);
        assert(store_outcome(*old(self), *self, p, i, f, analysis_duration_ms, now));
    }

    /// The files that depend on at least one of `changed_files`.
    fn find_dependent_files(&self, changed_files: &Vec<String>) -> (r: Vec<String>)
        ensures
            crate::text::views(r@) == dependents_of(self.dependencies(), crate::text::views(changed_files@)),
    {
        let ghost changed = crate::text::views(changed_files@);
        let ghost deps = self.dependencies();
        let mut dependent_files: Vec<String> = Vec::new();
        let mut i: usize = 0;
        while i < self.dependency_cache.len()
            invariant
                i <= self.dependency_cache@.len(),
                deps == dependency_view(self.dependency_cache@),
                changed == crate::text::views(changed_files@),
                crate::text::views(dependent_files@) == dependents_of(deps.subrange(0, i as int), changed),
            decreases self.dependency_cache@.len() - i,
        {
            let ghost sub = deps.subrange(0, i + 1);
            proof {
                assert(sub.drop_last() =~= deps.subrange(0, i as int));
                assert(sub.last() == deps[i as int]);
            }
            let list = &self.dependency_cache[i].1;
            let mut any = false;
            let mut j: usize = 0;
            while j < list.len() && !any
                invariant
                    j <= list@.len(),
                    deps[i as int].1 == crate::text::views(list@),
                    changed == crate::text::views(changed_files@),
                    any <==> exists|q: int| 0 <= q < j && changed.contains(#[trigger] deps[i as int].1[q]),
                decreases list@.len() - j,
            {
                if crate::text::contains_str(changed_files, list[j].as_str()) {
                    assert(deps[i as int].1[j as int] == list@[j as int]@);
                    any = true;
                }
                j = j + 1;
            }
            proof {
                if !any {
                    assert(j == list@.len());
                    assert forall|q: int| 0 <= q < deps[i as int].1.len() implies !changed.contains(#[trigger] deps[i as int].1[q]) by {}
                }
            }
            if any {
                let f = self.dependency_cache[i].0.clone();
                let ghost before = dependent_files@;
                dependent_files.push(f);
                proof {
                    crate::text::lemma_views_push(before, dependent_files@.last());
                    assert(dependent_files@ == before.push(dependent_files@.last()));
                    assert(dependent_files@.last()@ == deps[i as int].0);
                }
            }
            i = i + 1;
        }
        assert(deps.subrange(0, self.dependency_cache@.len() as int) =~= deps);
        dependent_files
    }
}

proof fn lemma_without_none<A>(s: Seq<(Seq<char>, A)>)
    ensures
        without_keys(s, Seq::<Seq<char>>::empty()) == s,
    decreases s.len(),
{
    if s.len() > 0 {
        lemma_without_none(s.drop_first());
        assert(seq![s[0]] + s.drop_first() =~= s);
    }
}

/// Takes the entries under `keys` out of the cache; gives how many there were.
fn pop_keys(cache: &mut LruCache<String, CachedAnalysisEntry>, keys: &Vec<String>, Ghost(s0): Ghost<Seq<(Seq<char>, CachedAnalysisEntry)>>, Ghost(done): Ghost<Seq<Seq<char>>>) -> (n: u64)
    requires
        distinct_keys(s0),
        lru_entries(*old(cache)) == without_keys(s0, done),
    ensures
        lru_entries(*final(cache)) == without_keys(s0, done + crate::text::views(keys@)),
        n == lru_entries(*old(cache)).len() - lru_entries(*final(cache)).len(),
        lru_capacity(*final(cache)) == lru_capacity(*old(cache)),
{
    let ghost start = lru_entries(*cache);
    let _len = lru_len(cache);
    let mut n: u64 = 0;
    let mut i: usize = 0;
    proof {
        assert(done + crate::text::views(keys@).subrange(0, 0) =~= done);
    }
    while i < keys.len()
        invariant
            i <= keys@.len(),
            distinct_keys(s0),
            start.len() <= usize::MAX,
            lru_capacity(*cache) == lru_capacity(*old(cache)),
            start == lru_entries(*old(cache)),
            lru_entries(*cache) == without_keys(s0, done + crate::text::views(keys@).subrange(0, i as int)),
            lru_entries(*cache).len() <= start.len(),
            n == start.len() - lru_entries(*cache).len(),
        decreases keys@.len() - i,
    {
        let ghost ks = done + crate::text::views(keys@).subrange(0, i as int);
        let ghost cur = lru_entries(*cache);
        proof {
            lemma_pop_without(s0, ks, keys@[i as int]@);
            assert(ks.push(keys@[i as int]@) =~= done + crate::text::views(keys@).subrange(0, i + 1));
            lemma_key_pos(cur, keys@[i as int]@);
        }
        match lru_pop(cache, keys[i].as_str()) {
            Some(_) => {
                n = n + 1;
            },
            None => {},
        }
        i = i + 1;
    }
    assert(crate::text::views(keys@).subrange(0, keys@.len() as int) =~= crate::text::views(keys@));
    n
}

/// Takes the modification times of `keys` out of the table.
fn remove_mtimes(v: &mut Vec<(String, u64)>, keys: &Vec<String>, Ghost(m0): Ghost<Seq<(Seq<char>, u64)>>, Ghost(done): Ghost<Seq<Seq<char>>>)
    requires
        distinct_keys(m0),
        mtime_view(old(v)@) == without_keys(m0, done),
    ensures
        mtime_view(final(v)@) == without_keys(m0, done + crate::text::views(keys@)),
{
    let mut i: usize = 0;
    proof {
        assert(done + crate::text::views(keys@).subrange(0, 0) =~= done);
    }
    while i < keys.len()
        invariant
            i <= keys@.len(),
            distinct_keys(m0),
            mtime_view(v@) == without_keys(m0, done + crate::text::views(keys@).subrange(0, i as int)),
        decreases keys@.len() - i,
    {
        let ghost ks = done + crate::text::views(keys@).subrange(0, i as int);
        proof {
            lemma_pop_without(m0, ks, keys@[i as int]@);
            lemma_without_len(m0, ks);
            assert(ks.push(keys@[i as int]@) =~= done + crate::text::views(keys@).subrange(0, i + 1));
        }
        remove_mtime(v, keys[i].as_str());
        i = i + 1;
    }
    assert(crate::text::views(keys@).subrange(0, keys@.len() as int) =~= crate::text::views(keys@));
}

/// Statistics after an invalidation that took out `n` entries, leaving `len`.
pub open spec fn after_invalidation(st: CacheStatistics, enabled: bool, n: nat, len: nat) -> CacheStatistics {
    if enabled {
        CacheStatistics { invalidations: st.invalidations.wrapping_add(n as u64), entry_count: len as usize, ..st }
    } else {
        st
    }
}

/// What invalidating `changed` does: the results and modification times of
/// the changed files and of the files that depend on them are dropped.
pub open spec fn invalidation_outcome(old_c: IncrementalCache, new_c: IncrementalCache, changed: Seq<Seq<char>>) -> bool {
    let ks = changed + dependents_of(old_c.dependencies(), changed);
    let entries = without_keys(old_c.entries(), ks);
    &&& new_c.wf()
    &&& new_c.config_view() == old_c.config_view()
    &&& new_c.capacity() == old_c.capacity()
    &&& new_c.dependencies() == old_c.dependencies()
    &&& new_c.entries() == entries
    &&& new_c.mtimes() == without_keys(old_c.mtimes(), ks)
    &&& new_c.stats_view() == after_invalidation(old_c.stats_view(), old_c.config_view().enable_statistics,
        (old_c.entries().len() - entries.len()) as nat, entries.len())
}

/// What a check at `now` does: entries that may no longer be used are
/// dropped and, if there were any, counted as invalidations.
pub open spec fn repair_outcome(old_c: IncrementalCache, new_c: IncrementalCache, now: Timestamp) -> bool {
    let bad = invalid_keys(old_c.entries(), old_c.config_view(), now);
    let entries = without_keys(old_c.entries(), bad);
    &&& new_c.wf()
    &&& new_c.config_view() == old_c.config_view()
    &&& new_c.capacity() == old_c.capacity()
    &&& new_c.dependencies() == old_c.dependencies()
    &&& new_c.mtimes() == old_c.mtimes()
    &&& new_c.entries() == entries
    &&& new_c.stats_view() == after_invalidation(old_c.stats_view(), bad.len() > 0, bad.len(), entries.len())
}

impl IncrementalCache {
    /// Drops the results of the changed files and of the files that depend
    /// on them.
    pub fn invalidate_files(&mut self, changed_files: &Vec<String>)
        requires
            old(self).wf(),
        ensures
            invalidation_outcome(*old(self), *final(self), crate::text::views(changed_files@)),
    {
        let ghost s0 = self.entries();
        let ghost m0 = self.mtimes();
        proof {
            lemma_without_none(s0);
            lemma_without_none(m0);
        }
        let first = pop_keys(&mut self.analysis_cache, changed_files, Ghost(s0), Ghost(Seq::empty()));
        let dependent_files = self.find_dependent_files(changed_files);
        let ghost done = Seq::<Seq<char>>::empty() + crate::text::views(changed_files@);
        let second = pop_keys(&mut self.analysis_cache, &dependent_files, Ghost(s0), Ghost(done));
        proof {
            assert(done =~= crate::text::views(changed_files@));
            assert(mtime_view(self.mtime_cache@) == m0);
        }
        remove_mtimes(&mut self.mtime_cache, changed_files, Ghost(m0), Ghost(Seq::empty()));
        remove_mtimes(&mut self.mtime_cache, &dependent_files, Ghost(m0), Ghost(done));
        let cache_len = lru_len(&self.analysis_cache);
        proof {
            let ks = crate::text::views(changed_files@) + dependents_of(self.dependencies(), crate::text::views(changed_files@));
            lemma_without_len(s0, ks);
            lemma_without_len(m0, ks);
        }
        if self.config.enable_statistics {
            self.stats.invalidations = self.stats.invalidations.wrapping_add(first + second);
            self.stats.entry_count = cache_len;
        }
    }

    /// Records the files `file_path` depends on, replacing what was
    /// recorded before.
    pub fn update_dependencies(&mut self, file_path: String, dependencies: Vec<String>)
        requires
            old(self).wf(),
        ensures
            final(self).wf(),
            final(self).config_view() == old(self).config_view(),
            final(self).capacity() == old(self).capacity(),
            final(self).entries() == old(self).entries(),
            final(self).mtimes() == old(self).mtimes(),
            final(self).stats_view() == old(self).stats_view(),
            final(self).dependencies() == assoc_set(old(self).dependencies(), file_path@, crate::text::views(dependencies@)),
    {
        let ghost s = self.dependencies();
        let ghost k = file_path@;
        let ghost d = crate::text::views(dependencies@);
        match find_key(&self.dependency_cache, file_path.as_str()) {
            Some(i) => {
                proof {
                    lemma_key_pos_first(s, k, i as int);
                }
                self.dependency_cache.set(i, (file_path, dependencies));
                proof {
                    assert(self.dependencies() =~= s.update(i as int, (k, d)));
                    let u = self.dependencies();
                    assert forall|a: int, b: int| 0 <= a < b < u.len() implies (#[trigger] u[a]).0 != (#[trigger] u[b]).0 by {
                        assert(u[a].0 == s[a].0 && u[b].0 == s[b].0);
                    }
                }
            },
            None => {
                proof {
                    lemma_key_pos_first(s, k, s.len() as int);
                }
                self.dependency_cache.push((file_path, dependencies));
                proof {
                    assert(self.dependencies() =~= s.push((k, d)));
                    let u = self.dependencies();
                    assert forall|a: int, b: int| 0 <= a < b < u.len() implies (#[trigger] u[a]).0 != (#[trigger] u[b]).0 by {
                        assert(u[a].0 == s[a].0);
                        if b < s.len() {
                            assert(u[b].0 == s[b].0);
                        }
                    }
                }
            },
        }
    }

    /// Drops the entries that may no longer be used at `now`.
    pub fn validate_and_repair_at(&mut self, now: Timestamp)
        requires
            old(self).wf(),
        ensures
            repair_outcome(*old(self), *final(self), now),
    {
        let ghost s0 = self.entries();
        let ghost cfg = self.config;
        let keys = lru_keys(&self.analysis_cache);
        proof {
            assert(crate::text::views(keys@).len() == keys@.len());
            assert(entry_keys(s0).len() == s0.len());
        }
        let mut to_remove: Vec<String> = Vec::new();
        let mut i: usize = 0;
        while i < keys.len()
            invariant
                self.entries() == s0,
                self.config == cfg,
                distinct_keys(s0),
                crate::text::views(keys@) == entry_keys(s0),
                keys@.len() == s0.len(),
                i <= keys@.len(),
                crate::text::views(to_remove@) == invalid_keys(s0.subrange(0, i as int), cfg, now),
            decreases keys@.len() - i,
        {
            let ghost sub = s0.subrange(0, i + 1);
            proof {
                assert(crate::text::views(keys@)[i as int] == keys@[i as int]@);
                assert(entry_keys(s0)[i as int] == s0[i as int].0);
                lemma_key_pos_distinct(s0, i as int);
                assert(sub.drop_last() =~= s0.subrange(0, i as int));
                assert(sub.last() == s0[i as int]);
            }
            match lru_peek(&self.analysis_cache, keys[i].as_str()) {
                Some(entry) => {
                    if !self.is_entry_valid(entry, now) {
                        let ghost before = to_remove@;
                        to_remove.push(keys[i].clone());
                        proof {
                            crate::text::lemma_views_push(before, to_remove@.last());
                            assert(to_remove@ == before.push(to_remove@.last()));
                        }
                    }
                },
                None => {},
            }
            i = i + 1;
        }
        proof {
            assert(s0.subrange(0, s0.len() as int) =~= s0);
            lemma_without_none(s0);
            assert(Seq::<Seq<char>>::empty() + crate::text::views(to_remove@) =~= crate::text::views(to_remove@));
        }
        let _repaired = pop_keys(&mut self.analysis_cache, &to_remove, Ghost(s0), Ghost(Seq::empty()));
        let repairs_made = to_remove.len() as u64;
        let cache_len = lru_len(&self.analysis_cache);
        proof {
            lemma_without_len(s0, crate::text::views(to_remove@));
        }
        if repairs_made > 0 {
            self.stats.invalidations = self.stats.invalidations.wrapping_add(repairs_made);
            self.stats.entry_count = cache_len;
        }
    }

    /// Drops the entries that may no longer be used now: as
    /// `validate_and_repair_at` at the clock's current time.
    pub fn validate_and_repair(&mut self)
        requires
            old(self).wf(),
        ensures
            exists|now: Timestamp| #[trigger] repair_outcome(*old(self), *final(self), now),
    {
        let now = clock_now();
        self.validate_and_repair_at(now);
        assert(repair_outcome(*old(self), *self, now));
    }

    /// Empties every layer; statistics, when kept, start over.
    pub fn clear(&mut self)
        requires
            old(self).wf(),
        ensures
            final(self).wf(),
            final(self).config_view() == old(self).config_view(),
            final(self).capacity() == old(self).capacity(),
            final(self).entries().len() == 0,
            final(self).dependencies().len() == 0,
            final(self).mtimes().len() == 0,
            final(self).stats_view() == if old(self).config_view().enable_statistics {
                CacheStatistics { hits: 0, misses: 0, invalidations: 0, evictions: 0, entry_count: 0, memory_usage_bytes: 0 }
            } else {
                old(self).stats_view()
            },
    {
        lru_clear(&mut self.analysis_cache);
        self.dependency_cache.clear();
        self.mtime_cache.clear();
        if self.config.enable_statistics {
            self.stats = CacheStatistics::default();
        }
        assert(self.dependencies() =~= Seq::empty());
        assert(self.mtimes() =~= Seq::empty());
    }

    /// The statistics, with the number of entries held now.
    pub fn get_statistics(&self) -> (r: CacheStatistics)
        ensures
            r == (CacheStatistics { entry_count: self.entries().len() as usize, ..self.stats_view() }),
    {
        let mut result = self.stats;
        result.entry_count = lru_len(&self.analysis_cache);
        result
    }
}

/// A result stored at `stored` is read back, unchanged, by the next read of
/// the same file, as long as it has not outlived the time to live.
pub proof fn lemma_read_after_store(
    c0: IncrementalCache,
    c1: IncrementalCache,
    c2: IncrementalCache,
    path: Seq<char>,
    issues: Vec<ArchitecturalIssue>,
    file_state: FileState,
    duration_ms: u64,
    stored: Timestamp,
    read: Timestamp,
    r: Option<Vec<ArchitecturalIssue>>,
)
    requires
        c0.wf(),
        store_outcome(c0, c1, path, issues, file_state, duration_ms, stored),
        lookup_outcome(c1, c2, path, read, r),
        !(c0.config_view().ttl_hours > 0 && hours_between(stored, read) > c0.config_view().ttl_hours),
    ensures
        r matches Some(v) && v@ == issues@,
        c2.stats_view().hits == if c0.config_view().enable_statistics { c1.stats_view().hits.wrapping_add(1) } else { c1.stats_view().hits },
{
    let cfg = c0.config_view();
    let st = c0.stats_view();
    let s = c0.entries();
    lemma_lru_eviction_count(s, st.memory_usage_bytes, eviction_target_mb(cfg));
    lemma_fifo_eviction_count(s, st.memory_usage_bytes, eviction_target_mb(cfg));
    let size = estimated_size(issues@.len());
    let over = exceeds_memory(cfg, st.memory_usage_bytes, size);
    let ev = if over { eviction(cfg, s, st.memory_usage_bytes) } else { (s, st.memory_usage_bytes, 0nat) };
    let e = stored_entry(issues, file_state, duration_ms, stored, size);
    lemma_after_put(ev.0, c0.capacity(), path, e);
    let entries = c1.entries();
    assert(entries[0] == (path, e));
    lemma_key_pos_first(entries, path, 0);
}

/// After a file is invalidated, reading it finds nothing.
pub proof fn lemma_read_after_invalidation(
    c0: IncrementalCache,
    c1: IncrementalCache,
    c2: IncrementalCache,
    changed: Seq<Seq<char>>,
    path: Seq<char>,
    now: Timestamp,
    r: Option<Vec<ArchitecturalIssue>>,
)
    requires
        c0.wf(),
        invalidation_outcome(c0, c1, changed),
        changed.contains(path),
        lookup_outcome(c1, c2, path, now, r),
    ensures
        r is None,
        c2.entries() == c1.entries(),
{
    let ks = changed + dependents_of(c0.dependencies(), changed);
    assert(ks.contains(path)) by {
        let j = choose|j: int| 0 <= j < changed.len() && changed[j] == path;
        assert(ks[j] == path);
    }
    lemma_without_len(c0.entries(), ks);
    lemma_without_lacks(c0.entries(), ks, path);
    lemma_key_pos(c1.entries(), path);
}

proof fn lemma_without_keeps<A>(s: Seq<(Seq<char>, A)>, ks: Seq<Seq<char>>, e: (Seq<char>, A))
    requires
        s.contains(e),
        !ks.contains(e.0),
    ensures
        without_keys(s, ks).contains(e),
    decreases s.len(),
{
    let d = s.drop_first();
    if s[0] == e {
        assert(without_keys(s, ks)[0] == e);
    } else {
        let k = choose|k: int| 0 <= k < s.len() && s[k] == e;
        assert(d[k - 1] == e);
        lemma_without_keeps(d, ks, e);
        let w = without_keys(d, ks);
        let m = choose|m: int| 0 <= m < w.len() && w[m] == e;
        if !ks.contains(s[0].0) {
            assert((seq![s[0]] + w)[m + 1] == e);
        }
    }
}

proof fn lemma_dependents_of_has(deps: Seq<(Seq<char>, Seq<Seq<char>>)>, changed: Seq<Seq<char>>, i: int, j: int)
    requires
        0 <= i < deps.len(),
        0 <= j < deps[i].1.len(),
        changed.contains(deps[i].1[j]),
    ensures
        dependents_of(deps, changed).contains(deps[i].0),
    decreases deps.len(),
{
    let rest = dependents_of(deps.drop_last(), changed);
    if i == deps.len() - 1 {
        assert(deps.last().1[j] == deps[i].1[j]);
        assert(dependents_of(deps, changed) == rest.push(deps.last().0));
        assert(rest.push(deps.last().0)[rest.len() as int] == deps[i].0);
    } else {
        assert(deps.drop_last()[i] == deps[i]);
        lemma_dependents_of_has(deps.drop_last(), changed, i, j);
        let m = choose|m: int| 0 <= m < rest.len() && rest[m] == deps[i].0;
        if exists|q: int| 0 <= q < deps.last().1.len() && changed.contains(#[trigger] deps.last().1[q]) {
            assert(rest.push(deps.last().0)[m] == deps[i].0);
        }
    }
}

proof fn lemma_dependents_of_only(deps: Seq<(Seq<char>, Seq<Seq<char>>)>, changed: Seq<Seq<char>>, f: Seq<char>)
    requires
        dependents_of(deps, changed).contains(f),
    ensures
        exists|i: int, j: int| 0 <= i < deps.len() && 0 <= j < deps[i].1.len() && deps[i].0 == f
            && changed.contains(#[trigger] deps[i].1[j]),
    decreases deps.len(),
{
    let rest = dependents_of(deps.drop_last(), changed);
    let n = deps.len() - 1;
    if exists|q: int| 0 <= q < deps.last().1.len() && changed.contains(#[trigger] deps.last().1[q]) {
        let q = choose|q: int| 0 <= q < deps.last().1.len() && changed.contains(#[trigger] deps.last().1[q]);
        if deps.last().0 == f {
            assert(deps[n].1[q] == deps.last().1[q]);
            return;
        }
        let m = choose|m: int| 0 <= m < rest.push(deps.last().0).len() && rest.push(deps.last().0)[m] == f;
        assert(rest[m] == f);
    }
    lemma_dependents_of_only(deps.drop_last(), changed, f);
    let (i, j) = choose|i: int, j: int| 0 <= i < deps.drop_last().len() && 0 <= j < deps.drop_last()[i].1.len()
        && deps.drop_last()[i].0 == f && changed.contains(#[trigger] deps.drop_last()[i].1[j]);
    assert(deps[i] == deps.drop_last()[i]);
    assert(changed.contains(deps[i].1[j]));
}

/// Invalidating a set of changed files takes out the cached result of every
/// changed file and of every file whose recorded dependencies name a
/// changed file, wherever that file stands in its dependency list; every
/// other cached result stays.
pub proof fn lemma_invalidation_reaches_dependents(c0: IncrementalCache, c1: IncrementalCache, changed: Seq<Seq<char>>)
    requires
        c0.wf(),
        invalidation_outcome(c0, c1, changed),
    ensures
        forall|k: int| 0 <= k < c1.entries().len() ==> !changed.contains(#[trigger] c1.entries()[k].0),
        forall|i: int, j: int, k: int|
            0 <= i < c0.dependencies().len() && 0 <= j < c0.dependencies()[i].1.len()
            && changed.contains(#[trigger] c0.dependencies()[i].1[j]) && 0 <= k < c1.entries().len()
            ==> #[trigger] c1.entries()[k].0 != c0.dependencies()[i].0,
        forall|e: (Seq<char>, CachedAnalysisEntry)|
            #[trigger] c0.entries().contains(e) && !changed.contains(e.0)
            && !(exists|i: int, j: int| 0 <= i < c0.dependencies().len() && 0 <= j < c0.dependencies()[i].1.len()
                && c0.dependencies()[i].0 == e.0 && changed.contains(#[trigger] c0.dependencies()[i].1[j]))
            ==> c1.entries().contains(e),
{
    let deps = c0.dependencies();
    let dep = dependents_of(deps, changed);
    let ks = changed + dep;
    assert forall|k: int| 0 <= k < c1.entries().len() implies !changed.contains(#[trigger] c1.entries()[k].0) by {
        let f = c1.entries()[k].0;
        if changed.contains(f) {
            let q = choose|q: int| 0 <= q < changed.len() && changed[q] == f;
            assert(ks[q] == f);
            lemma_without_lacks(c0.entries(), ks, f);
        }
    }
    assert forall|i: int, j: int, k: int|
        0 <= i < deps.len() && 0 <= j < deps[i].1.len()
        && changed.contains(#[trigger] deps[i].1[j]) && 0 <= k < c1.entries().len()
        implies #[trigger] c1.entries()[k].0 != deps[i].0 by {
        lemma_dependents_of_has(deps, changed, i, j);
        let m = choose|m: int| 0 <= m < dep.len() && dep[m] == deps[i].0;
        assert(ks[changed.len() + m] == deps[i].0);
        lemma_without_lacks(c0.entries(), ks, deps[i].0);
    }
    assert forall|e: (Seq<char>, CachedAnalysisEntry)|
        #[trigger] c0.entries().contains(e) && !changed.contains(e.0)
        && !(exists|i: int, j: int| 0 <= i < deps.len() && 0 <= j < deps[i].1.len()
            && deps[i].0 == e.0 && changed.contains(#[trigger] deps[i].1[j]))
        implies c1.entries().contains(e) by {
        if ks.contains(e.0) {
            let q = choose|q: int| 0 <= q < ks.len() && ks[q] == e.0;
            if q >= changed.len() {
                assert(dep[q - changed.len()] == e.0);
                lemma_dependents_of_only(deps, changed, e.0);
            } else {
                assert(changed[q] == e.0);
            }
        }
        lemma_without_keeps(c0.entries(), ks, e);
    }
}

proof fn lemma_without_lacks<A>(s: Seq<(Seq<char>, A)>, ks: Seq<Seq<char>>, k: Seq<char>)
    requires
        ks.contains(k),
    ensures
        forall|i: int| 0 <= i < without_keys(s, ks).len() ==> (#[trigger] without_keys(s, ks)[i]).0 != k,
    decreases s.len(),
{
    if s.len() > 0 {
        lemma_without_lacks(s.drop_first(), ks, k);
        let w = without_keys(s.drop_first(), ks);
        if !ks.contains(s[0].0) {
            let t = seq![s[0]] + w;
            assert forall|i: int| 0 <= i < t.len() implies (#[trigger] t[i]).0 != k by {
                if i > 0 {
                    assert(t[i] == w[i - 1]);
                }
            }
        }
    }
}

/// Making room stops only when memory use is at or under the target, or
/// when there is nothing left to take out; every entry left was there
/// before.
pub proof fn lemma_eviction_reaches_target(config: IncrementalCacheConfig, s: Seq<(Seq<char>, CachedAnalysisEntry)>, mem: usize)
    ensures
        eviction(config, s, mem).1 / MEGABYTE <= eviction_target_mb(config) || eviction(config, s, mem).0.len() == 0,
        eviction(config, s, mem).0.len() + eviction(config, s, mem).2 == s.len(),
        forall|i: int| 0 <= i < eviction(config, s, mem).0.len() ==> s.contains(#[trigger] eviction(config, s, mem).0[i]),
{
    let t = eviction_target_mb(config);
    if config.eviction_policy == CacheEvictionPolicy::TimeBasedFIFO {
        lemma_fifo_eviction_target(s, mem, t);
    } else {
        lemma_lru_eviction_target(s, mem, t);
    }
}

proof fn lemma_lru_eviction_target(s: Seq<(Seq<char>, CachedAnalysisEntry)>, mem: usize, t: int)
    ensures
        lru_eviction(s, mem, t).1 / MEGABYTE <= t || lru_eviction(s, mem, t).0.len() == 0,
        lru_eviction(s, mem, t).0.len() + lru_eviction(s, mem, t).2 == s.len(),
        forall|i: int| 0 <= i < lru_eviction(s, mem, t).0.len() ==> s.contains(#[trigger] lru_eviction(s, mem, t).0[i]),
    decreases s.len(),
{
    if s.len() > 0 && mem / MEGABYTE > t {
        let d = s.drop_last();
        lemma_lru_eviction_target(d, mem.saturating_sub(s.last().1.estimated_size_bytes), t);
        let r = lru_eviction(d, mem.saturating_sub(s.last().1.estimated_size_bytes), t);
        assert forall|i: int| 0 <= i < r.0.len() implies s.contains(#[trigger] r.0[i]) by {
            let j = choose|j: int| 0 <= j < d.len() && d[j] == r.0[i];
            assert(s[j] == d[j]);
        }
    } else {
        assert forall|i: int| 0 <= i < s.len() implies s.contains(#[trigger] s[i]) by {}
    }
}

proof fn lemma_fifo_eviction_target(s: Seq<(Seq<char>, CachedAnalysisEntry)>, mem: usize, t: int)
    ensures
        fifo_eviction(s, mem, t).1 / MEGABYTE <= t || fifo_eviction(s, mem, t).0.len() == 0,
        fifo_eviction(s, mem, t).0.len() + fifo_eviction(s, mem, t).2 == s.len(),
        forall|i: int| 0 <= i < fifo_eviction(s, mem, t).0.len() ==> s.contains(#[trigger] fifo_eviction(s, mem, t).0[i]),
    decreases s.len(),
{
    if s.len() > 0 && mem / MEGABYTE > t {
        let p = oldest_pos(cached_times(s));
        lemma_oldest_pos(cached_times(s));
        let d = s.remove(p);
        lemma_fifo_eviction_target(d, mem.saturating_sub(s[p].1.estimated_size_bytes), t);
        let r = fifo_eviction(d, mem.saturating_sub(s[p].1.estimated_size_bytes), t);
        assert forall|i: int| 0 <= i < r.0.len() implies s.contains(#[trigger] r.0[i]) by {
            let j = choose|j: int| 0 <= j < d.len() && d[j] == r.0[i];
            let k = if j < p { j } else { j + 1 };
            assert(s[k] == d[j]);
        }
    } else {
        assert forall|i: int| 0 <= i < s.len() implies s.contains(#[trigger] s[i]) by {}
    }
}

} // verus!
