//! `uveddi ui`: the interactive report server and its reports.

use vstd::prelude::*;
use std::path::PathBuf;
use crate::text::{owned, push_str, push_decimal, decimal};

verus! {

/// The `ui` command.
#[derive(Debug)]
pub struct UiCommand {
    pub action: UiAction,
}

/// Subcommands of `ui`.
#[derive(Debug)]
pub enum UiAction {
    /// Start the interactive reporting server.
    Serve(ServeArgs),
    /// Generate and open a specific report.
    Open(OpenArgs),
    /// Export a report as a portable bundle.
    Export(ExportArgs),
}

/// Arguments of `ui serve`.
#[derive(Debug)]
pub struct ServeArgs {
    /// Port to run the server on; 4000 by default.
    pub port: u16,
    /// Path to the single-page application's static assets.
    pub spa_assets: Option<PathBuf>,
    /// Reports storage directory; `./.uveddi/reports` by default.
    pub reports_dir: PathBuf,
    /// Development mode: CORS for local front-end servers, relaxed content
    /// security policy, no asset caching.
    pub dev: bool,
    /// Database file; `.uveddi/analysis.db` by default.
    pub database: PathBuf,
}

/// Arguments of `ui open`.
#[derive(Debug)]
pub struct OpenArgs {
    /// Report to open.
    pub report_id: String,
    /// Port of the server; 4000 by default.
    pub port: u16,
    /// Open the browser automatically; on by default.
    pub browser: bool,
}

/// Arguments of `ui export`.
#[derive(Debug)]
pub struct ExportArgs {
    /// Report to export.
    pub report_id: String,
    /// Output directory of the bundle; `./report-bundle` by default.
    pub output: PathBuf,
    /// Include all assets for offline viewing.
    pub portable: bool,
}

/// How the report server is set up.
#[derive(Debug, Clone)]
pub struct ServerSettings {
    pub enable_cors: bool,
    pub cors_origins: Vec<String>,
    pub serve_spa: bool,
    pub enable_csp: bool,
    /// Seconds assets may be cached.
    pub cache_max_age: u32,
}

/// The origins of the local front-end development servers.
pub open spec fn dev_origins() -> Seq<Seq<char>> {
    seq!["http://localhost:3000"@, "http://127.0.0.1:3000"@, "http://localhost:5173"@]
}

impl ServeArgs {
    /// The server settings: development mode opens CORS to the local
    /// front-end servers, relaxes the content security policy and disables
    /// caching; otherwise assets are cached for an hour.
    pub fn server_settings(&self) -> (s: ServerSettings)
        ensures
            s.enable_cors == self.dev,
            s.cors_origins@.map_values(|o: String| o@) == if self.dev { dev_origins() } else { seq![] },
            s.serve_spa,
            s.enable_csp == !self.dev,
            s.cache_max_age == if self.dev { 0u32 } else { 3600u32 },
    {
        let mut cors_origins: Vec<String> = Vec::new();
        if self.dev {
            cors_origins.push(owned("http://localhost:3000"));
            cors_origins.push(owned("http://127.0.0.1:3000"));
            cors_origins.push(owned("http://localhost:5173"));
        }
        assert(cors_origins@.map_values(|o: String| o@) =~= if self.dev { dev_origins() } else { seq![] });
        ServerSettings {
            enable_cors: self.dev,
            cors_origins,
            serve_spa: true,
            enable_csp: !self.dev,
            cache_max_age: if self.dev { 0 } else { 3600 },
        }
    }
}

/// The address of a report's dashboard on the local server.
pub open spec fn dashboard_url(port: u16, report_id: Seq<char>) -> Seq<char> {
    "http://localhost:"@ + decimal(port as nat) + "/dashboard/"@ + report_id
}

impl OpenArgs {
    /// The address of the report's dashboard.
    pub fn url(&self) -> (s: String)
        ensures
            s@ == dashboard_url(self.port, self.report_id@),
    {
        let mut s = owned("http://localhost:");
        push_decimal(&mut s, self.port as u64);
        push_str(&mut s, "/dashboard/");
        push_str(&mut s, self.report_id.as_str());
        s
    }
}

} // verus!
