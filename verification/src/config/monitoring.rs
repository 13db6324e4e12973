//! Settings of the monitoring service.

use vstd::prelude::*;
use crate::text::owned;

verus! {

/// Where the monitoring service stores its data and how it is reached.
#[derive(Debug, Clone)]
pub struct MonitoringConfig {
    pub database_url: String,
    pub websocket_port: u16,
    pub github_webhook_secret: String,
}

impl MonitoringConfig {
    /// The default settings, with the webhook secret given by the caller
    /// (the `GITHUB_WEBHOOK_SECRET` environment variable, or empty).
    pub fn with_webhook_secret(github_webhook_secret: String) -> (c: Self)
        ensures
            c.database_url@ == "postgresql://localhost:5432/uveddi_monitoring"@,
            c.websocket_port == 8081,
            c.github_webhook_secret@ == github_webhook_secret@,
    {
        MonitoringConfig {
            database_url: owned("postgresql://localhost:5432/uveddi_monitoring"),
            websocket_port: 8081,
            github_webhook_secret,
        }
    }
}

} // verus!
