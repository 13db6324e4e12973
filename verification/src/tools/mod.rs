//! Stand-alone developer tools of the project: the module dependency
//! analyzer and the demo services.

pub mod dependency_analyzer;
pub mod community_demo;
pub mod benchmark_data;
pub mod cache_profiles;
pub mod simple_cycle_demo;
