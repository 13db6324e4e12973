//! State kept by incremental analysis.

pub mod incremental;
