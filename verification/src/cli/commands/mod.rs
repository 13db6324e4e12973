//! Account and maintenance commands.

pub mod license;
pub mod migrate;
