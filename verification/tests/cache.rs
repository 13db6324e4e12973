use uveddi::analysis::incremental::FileState;
use uveddi::cache::incremental_cache::{
    CacheEvictionPolicy, IncrementalCache, IncrementalCacheConfig, Timestamp,
};
use uveddi::database::models::ArchitecturalIssue;

fn file_state() -> FileState {
    FileState {
        last_modified: 12345,
        content_hash: "test_hash".to_string(),
        file_size: 1024,
        dependencies: Vec::new(),
        dependents: Vec::new(),
        last_analyzed: 0,
        exists: true,
    }
}

fn issue(description: &str) -> ArchitecturalIssue {
    ArchitecturalIssue {
        issue_id: None,
        analysis_run_id: 1,
        anti_pattern_type_id: 1,
        file_path: "test_file.py".to_string(),
        start_line: Some(10),
        end_line: Some(20),
        severity: "CRITICAL".to_string(),
        description: description.to_string(),
        code_snippet: None,
        ai_explanation: None,
    }
}

/// Enough issues for an entry of a little over one megabyte.
fn big_issue_list() -> Vec<ArchitecturalIssue> {
    (0..6000).map(|i| issue(&format!("issue {}", i))).collect()
}

fn at(secs: i64) -> Timestamp {
    Timestamp { secs, nanos: 0 }
}

#[test]
fn test_cache_creation() {
    let config = IncrementalCacheConfig::default();
    let cache = IncrementalCache::new(config);

    let stats = cache.get_statistics();
    assert_eq!(stats.entry_count, 0);
    assert_eq!(stats.hits, 0);
    assert_eq!(stats.misses, 0);
}

#[test]
fn test_cache_store_and_retrieve() {
    let config = IncrementalCacheConfig::default();
    let mut cache = IncrementalCache::new(config);

    let file_path = "test.rs".to_string();
    let issues = vec![];

    cache.store_analysis_result(file_path.clone(), issues, file_state(), 100);

    let cached_result = cache.get_analysis_result(&file_path);
    assert!(cached_result.is_some());
    assert_eq!(cached_result.unwrap().len(), 0);

    let stats = cache.get_statistics();
    assert_eq!(stats.hits, 1);
    assert_eq!(stats.misses, 0);
}

#[test]
fn test_cache_miss() {
    let config = IncrementalCacheConfig::default();
    let mut cache = IncrementalCache::new(config);

    let result = cache.get_analysis_result("nonexistent.rs");
    assert!(result.is_none());

    let stats = cache.get_statistics();
    assert_eq!(stats.hits, 0);
    assert_eq!(stats.misses, 1);
}

#[test]
fn test_cache_invalidation() {
    let config = IncrementalCacheConfig::default();
    let mut cache = IncrementalCache::new(config);

    let file_path = "test.rs".to_string();
    cache.store_analysis_result(file_path.clone(), vec![], file_state(), 100);

    let changed_files = vec![file_path.clone()];
    cache.invalidate_files(&changed_files);

    let result = cache.get_analysis_result(&file_path);
    assert!(result.is_none());

    let stats = cache.get_statistics();
    assert_eq!(stats.invalidations, 1);
}

#[test]
fn stored_issues_are_read_back_unchanged() {
    let mut cache = IncrementalCache::new(IncrementalCacheConfig::default());
    let issues = vec![issue("God Object detected"), issue("Cycle detected")];
    cache.store_analysis_result_at("src/a.rs".to_string(), issues.clone(), file_state(), 5, at(1000));
    let back = cache.get_analysis_result_at("src/a.rs", at(1001)).unwrap();
    assert_eq!(back.len(), 2);
    assert_eq!(back[0].description, "God Object detected");
    assert_eq!(back[1].description, "Cycle detected");
    assert_eq!(cache.get_statistics().entry_count, 1);
}

#[test]
fn entries_expire_after_their_time_to_live() {
    let mut config = IncrementalCacheConfig::default();
    config.ttl_hours = 1;
    let mut cache = IncrementalCache::new(config);
    cache.store_analysis_result_at("a.rs".to_string(), vec![], file_state(), 5, at(0));
    // exactly one hour old: still valid
    assert!(cache.get_analysis_result_at("a.rs", at(3600)).is_some());
    // one hour and 59 minutes: one whole hour, still valid
    assert!(cache.get_analysis_result_at("a.rs", Timestamp { secs: 7199, nanos: 999_999_999 }).is_some());
    // two whole hours: expired and dropped
    assert!(cache.get_analysis_result_at("a.rs", at(7200)).is_none());
    let stats = cache.get_statistics();
    assert_eq!(stats.hits, 2);
    assert_eq!(stats.misses, 1);
    assert_eq!(stats.invalidations, 1);
    assert_eq!(stats.entry_count, 0);
    // gone for good
    assert!(cache.get_analysis_result_at("a.rs", at(0)).is_none());
}

#[test]
fn no_time_to_live_keeps_entries() {
    let mut config = IncrementalCacheConfig::default();
    config.ttl_hours = 0;
    let mut cache = IncrementalCache::new(config);
    cache.store_analysis_result_at("a.rs".to_string(), vec![], file_state(), 5, at(0));
    assert!(cache.get_analysis_result_at("a.rs", at(10_000_000)).is_some());
}

#[test]
fn capacity_drops_least_recently_used() {
    let mut config = IncrementalCacheConfig::default();
    config.max_analysis_results = 2;
    let mut cache = IncrementalCache::new(config);
    cache.store_analysis_result_at("a.rs".to_string(), vec![], file_state(), 1, at(0));
    cache.store_analysis_result_at("b.rs".to_string(), vec![], file_state(), 1, at(0));
    // reading a.rs makes b.rs the least recently used
    assert!(cache.get_analysis_result_at("a.rs", at(1)).is_some());
    cache.store_analysis_result_at("c.rs".to_string(), vec![], file_state(), 1, at(2));
    assert!(cache.get_analysis_result_at("b.rs", at(3)).is_none());
    assert!(cache.get_analysis_result_at("a.rs", at(3)).is_some());
    assert!(cache.get_analysis_result_at("c.rs", at(3)).is_some());
    assert_eq!(cache.get_statistics().entry_count, 2);
}

#[test]
fn memory_budget_evicts_least_recently_used() {
    let mut config = IncrementalCacheConfig::default();
    config.max_memory_mb = 1;
    config.eviction_policy = CacheEvictionPolicy::LRU;
    let mut cache = IncrementalCache::new(config);
    cache.store_analysis_result_at("a.rs".to_string(), big_issue_list(), file_state(), 1, at(0));
    let after_first = cache.get_statistics();
    assert!(after_first.memory_usage_bytes > 1_048_576);
    assert_eq!(after_first.evictions, 0);
    cache.store_analysis_result_at("b.rs".to_string(), big_issue_list(), file_state(), 1, at(1));
    let stats = cache.get_statistics();
    assert_eq!(stats.evictions, 1);
    assert_eq!(stats.entry_count, 1);
    assert_eq!(stats.memory_usage_bytes, after_first.memory_usage_bytes);
    assert!(cache.get_analysis_result_at("a.rs", at(2)).is_none());
    assert_eq!(cache.get_analysis_result_at("b.rs", at(2)).unwrap().len(), 6000);
}

#[test]
fn memory_budget_evicts_oldest_first() {
    let mut config = IncrementalCacheConfig::default();
    config.max_memory_mb = 3;
    config.eviction_policy = CacheEvictionPolicy::TimeBasedFIFO;
    let mut cache = IncrementalCache::new(config);
    cache.store_analysis_result_at("a.rs".to_string(), big_issue_list(), file_state(), 1, at(300));
    cache.store_analysis_result_at("b.rs".to_string(), big_issue_list(), file_state(), 1, at(100));
    cache.store_analysis_result_at("c.rs".to_string(), big_issue_list(), file_state(), 1, at(200));
    cache.store_analysis_result_at("d.rs".to_string(), big_issue_list(), file_state(), 1, at(400));
    assert_eq!(cache.get_statistics().evictions, 1);
    assert!(cache.get_analysis_result_at("b.rs", at(500)).is_none());
    assert!(cache.get_analysis_result_at("a.rs", at(500)).is_some());
    assert!(cache.get_analysis_result_at("c.rs", at(500)).is_some());
    assert!(cache.get_analysis_result_at("d.rs", at(500)).is_some());
}

#[test]
fn memory_budget_with_lru_drops_the_least_recent() {
    let mut config = IncrementalCacheConfig::default();
    config.max_memory_mb = 3;
    config.eviction_policy = CacheEvictionPolicy::LRU;
    let mut cache = IncrementalCache::new(config);
    cache.store_analysis_result_at("a.rs".to_string(), big_issue_list(), file_state(), 1, at(300));
    cache.store_analysis_result_at("b.rs".to_string(), big_issue_list(), file_state(), 1, at(100));
    cache.store_analysis_result_at("c.rs".to_string(), big_issue_list(), file_state(), 1, at(200));
    cache.store_analysis_result_at("d.rs".to_string(), big_issue_list(), file_state(), 1, at(400));
    assert!(cache.get_analysis_result_at("a.rs", at(500)).is_none());
    assert!(cache.get_analysis_result_at("b.rs", at(500)).is_some());
}

#[test]
fn other_policies_fall_back_to_lru() {
    for policy in [CacheEvictionPolicy::LFU, CacheEvictionPolicy::LRUSize] {
        let mut config = IncrementalCacheConfig::default();
        config.max_memory_mb = 1;
        config.eviction_policy = policy;
        let mut cache = IncrementalCache::new(config);
        cache.store_analysis_result_at("a.rs".to_string(), big_issue_list(), file_state(), 1, at(0));
        cache.store_analysis_result_at("b.rs".to_string(), big_issue_list(), file_state(), 1, at(1));
        assert_eq!(cache.get_statistics().evictions, 1);
        assert_eq!(cache.get_statistics().entry_count, 1);
        assert!(cache.get_analysis_result_at("a.rs", at(2)).is_none());
        assert!(cache.get_analysis_result_at("b.rs", at(2)).is_some());
    }
}

#[test]
fn invalidation_reaches_dependent_files() {
    let mut cache = IncrementalCache::new(IncrementalCacheConfig::default());
    cache.update_dependencies("main.rs".to_string(), vec!["lib.rs".to_string()]);
    cache.update_dependencies("other.rs".to_string(), vec!["util.rs".to_string()]);
    cache.store_analysis_result_at("main.rs".to_string(), vec![], file_state(), 1, at(0));
    cache.store_analysis_result_at("lib.rs".to_string(), vec![], file_state(), 1, at(0));
    cache.store_analysis_result_at("other.rs".to_string(), vec![], file_state(), 1, at(0));
    cache.invalidate_files(&vec!["lib.rs".to_string()]);
    let stats = cache.get_statistics();
    assert_eq!(stats.invalidations, 2);
    assert_eq!(stats.entry_count, 1);
    assert!(cache.get_analysis_result_at("main.rs", at(1)).is_none());
    assert!(cache.get_analysis_result_at("other.rs", at(1)).is_some());
}

#[test]
fn updated_dependencies_replace_earlier_ones() {
    let mut cache = IncrementalCache::new(IncrementalCacheConfig::default());
    cache.update_dependencies("main.rs".to_string(), vec!["lib.rs".to_string()]);
    cache.update_dependencies("main.rs".to_string(), vec!["util.rs".to_string()]);
    cache.store_analysis_result_at("main.rs".to_string(), vec![], file_state(), 1, at(0));
    cache.invalidate_files(&vec!["lib.rs".to_string()]);
    assert!(cache.get_analysis_result_at("main.rs", at(1)).is_some());
    cache.invalidate_files(&vec!["util.rs".to_string()]);
    assert!(cache.get_analysis_result_at("main.rs", at(1)).is_none());
}

#[test]
fn repair_drops_expired_entries() {
    let mut config = IncrementalCacheConfig::default();
    config.ttl_hours = 1;
    let mut cache = IncrementalCache::new(config);
    cache.store_analysis_result_at("old.rs".to_string(), vec![], file_state(), 1, at(0));
    cache.store_analysis_result_at("new.rs".to_string(), vec![], file_state(), 1, at(10_000));
    cache.validate_and_repair_at(at(10_800));
    let stats = cache.get_statistics();
    assert_eq!(stats.invalidations, 1);
    assert_eq!(stats.entry_count, 1);
    assert!(cache.get_analysis_result_at("new.rs", at(10_800)).is_some());
}

#[test]
fn repair_without_expired_entries_changes_nothing() {
    let mut cache = IncrementalCache::new(IncrementalCacheConfig::default());
    cache.store_analysis_result_at("a.rs".to_string(), vec![], file_state(), 1, at(0));
    cache.validate_and_repair_at(at(60));
    assert_eq!(cache.get_statistics().invalidations, 0);
    assert_eq!(cache.get_statistics().entry_count, 1);
}

#[test]
fn clear_empties_the_cache_and_statistics() {
    let mut cache = IncrementalCache::new(IncrementalCacheConfig::default());
    cache.store_analysis_result_at("a.rs".to_string(), vec![], file_state(), 1, at(0));
    assert!(cache.get_analysis_result_at("a.rs", at(1)).is_some());
    cache.clear();
    let stats = cache.get_statistics();
    assert_eq!(stats.hits, 0);
    assert_eq!(stats.entry_count, 0);
    assert_eq!(stats.memory_usage_bytes, 0);
    assert!(cache.get_analysis_result_at("a.rs", at(2)).is_none());
}

#[test]
fn disabled_statistics_stay_zero() {
    let mut config = IncrementalCacheConfig::default();
    config.enable_statistics = false;
    let mut cache = IncrementalCache::new(config);
    cache.store_analysis_result_at("a.rs".to_string(), vec![], file_state(), 1, at(0));
    assert!(cache.get_analysis_result_at("a.rs", at(1)).is_some());
    assert!(cache.get_analysis_result_at("b.rs", at(1)).is_none());
    let stats = cache.get_statistics();
    assert_eq!(stats.hits, 0);
    assert_eq!(stats.misses, 0);
    assert_eq!(stats.memory_usage_bytes, 0);
    assert_eq!(stats.entry_count, 1);
}
