//! `uveddi license`: activating, inspecting and removing a license.

use vstd::prelude::*;

verus! {

/// The `license` command.
#[derive(Debug, Clone)]
pub struct LicenseCommand {
    pub action: LicenseAction,
}

/// Subcommands of `license`.
#[derive(Debug, Clone)]
pub enum LicenseAction {
    /// Activate a license key (`UVDD-XXXX-XXXX-XXXX-XXXX`) on this machine.
    Activate { key: String },
    /// Show the current license status.
    Status,
    /// Remove the license from this machine.
    Deactivate,
    /// Show detailed license information.
    Info,
}

} // verus!
