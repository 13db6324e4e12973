//! Caching of analysis results between runs.

pub mod incremental_cache;
