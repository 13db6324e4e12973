//! `uveddi migrate`: applying, rolling back and planning schema migrations.

use vstd::prelude::*;

verus! {

/// The `migrate` command.
#[derive(Debug, Clone)]
pub struct MigrateCommand {
    pub subcommand: MigrateSubcommand,
}

/// Subcommands of `migrate`. Each names its database file
/// (`uveddi_cache.db` by default).
#[derive(Debug, Clone)]
pub enum MigrateSubcommand {
    /// Apply all pending migrations.
    Up { database: String },
    /// Roll back to a specific version.
    Down { version: u32, database: String },
    /// Show the migration plan without applying it.
    Plan { database: String },
    /// Show the current migration version.
    Status { database: String },
}

} // verus!
