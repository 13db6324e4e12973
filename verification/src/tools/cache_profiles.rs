//! Cache configurations compared by the cache memory profiler.

use vstd::prelude::*;
use crate::text::owned;

verus! {

/// One cache configuration under test.
#[derive(Debug, Clone)]
pub struct CacheConfiguration {
    pub name: String,
    pub max_memory_mb: Option<usize>,
    pub max_ast_entries: Option<usize>,
    pub max_result_entries: Option<usize>,
    pub enable_disk_cache: bool,
    pub compression_enabled: bool,
}

/// A configuration's settings without its name.
pub open spec fn settings(c: CacheConfiguration) -> (Option<usize>, Option<usize>, Option<usize>, bool, bool) {
    (c.max_memory_mb, c.max_ast_entries, c.max_result_entries, c.enable_disk_cache, c.compression_enabled)
}

/// The profiler's configurations: minimal, small, medium, large and
/// unlimited, growing in memory and entries, with disk caching from medium
/// on and compression from large on.
pub open spec fn test_configurations(v: Seq<CacheConfiguration>) -> bool {
    &&& v.len() == 5
    &&& v[0].name@ == "minimal"@ && settings(v[0]) == (Some(64usize), Some(100usize), Some(100usize), false, false)
    &&& v[1].name@ == "small"@ && settings(v[1]) == (Some(128usize), Some(500usize), Some(500usize), false, false)
    &&& v[2].name@ == "medium"@ && settings(v[2]) == (Some(256usize), Some(1000usize), Some(1000usize), true, false)
    &&& v[3].name@ == "large"@ && settings(v[3]) == (Some(512usize), Some(2000usize), Some(2000usize), true, true)
    &&& v[4].name@ == "unlimited"@ && settings(v[4]) == (None::<usize>, None::<usize>, None::<usize>, true, true)
}

fn configuration(name: &str, memory: Option<usize>, entries: Option<usize>, disk: bool, compression: bool) -> (c: CacheConfiguration)
    ensures
        c.name@ == name@,
        settings(c) == (memory, entries, entries, disk, compression),
{
    CacheConfiguration {
        name: owned(name),
        max_memory_mb: memory,
        max_ast_entries: entries,
        max_result_entries: entries,
        enable_disk_cache: disk,
        compression_enabled: compression,
    }
}

/// The configurations the profiler compares.
pub fn get_test_configurations() -> (v: Vec<CacheConfiguration>)
    ensures
        test_configurations(v@),
{
    let mut v: Vec<CacheConfiguration> = Vec::new();
    v.push(configuration("minimal", Some(64), Some(100), false, false));
    v.push(configuration("small", Some(128), Some(500), false, false));
    v.push(configuration("medium", Some(256), Some(1000), true, false));
    v.push(configuration("large", Some(512), Some(2000), true, true));
    v.push(configuration("unlimited", None, None, true, true));
    v
}

} // verus!
