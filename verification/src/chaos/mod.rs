//! Chaos engineering: which experiments an environment allows, the
//! lifecycle of an experiment, the engine that admits experiments, and
//! fault injection points with their trigger counts.

pub mod config;
pub mod experiments;
pub mod engine;
pub mod failpoints;
