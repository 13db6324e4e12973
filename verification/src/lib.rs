//! Verified core of the uveddi architectural analysis tool.

pub mod text;
pub mod numeric;
pub mod json;
pub mod paths;
pub mod hooks;
pub mod time;
pub mod chaos;
pub mod analysis;
pub mod database;
pub mod cache;
pub mod tools;
pub mod cli;
pub mod community;
pub mod config;
