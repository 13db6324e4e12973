//! `uveddi plugin`: WebAssembly plugin management.

use vstd::prelude::*;
use std::path::PathBuf;

verus! {

/// The `plugin` command.
#[derive(Debug)]
pub struct PluginCommand {
    pub action: PluginAction,
}

/// Subcommands of `plugin`.
#[derive(Debug)]
pub enum PluginAction {
    /// List installed plugins.
    List,
    /// Install a plugin from its WASM binary and `plugin.toml` manifest.
    Install { binary: PathBuf, manifest: PathBuf },
    /// Uninstall a plugin by name or id.
    Uninstall { plugin: String },
    /// Show plugin information.
    Info { plugin: String },
    /// Show plugin statistics.
    Stats,
    /// Monitor plugin resource usage.
    Monitor,
    /// Verify a plugin without installing it.
    Verify { binary: PathBuf, manifest: PathBuf },
}

} // verus!
