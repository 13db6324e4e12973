//! Records stored by the analysis database.

pub mod models;
