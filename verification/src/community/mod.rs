//! Community member management: roles, activities and permissions.

pub mod models;
pub mod community_standalone;
pub mod analytics;
pub mod database;
pub mod store;
pub mod members;
