//! `uveddi tui`: launching the terminal interface, after checking that the
//! environment can host it.

use vstd::prelude::*;
use std::path::PathBuf;
use crate::paths::{path_from, path_of};

verus! {

/// Arguments of the `tui` command.
#[derive(Debug)]
pub struct TuiCommand {
    /// Project path to analyse (the current directory by default).
    pub path: PathBuf,
    /// Skip the automatic analysis on startup.
    pub skip_analysis: bool,
    /// Load results of a previous run from a JSON file.
    pub load_results: Option<PathBuf>,
    /// Enable debug logging and diagnostics.
    pub debug: bool,
    /// Run even in a non-interactive environment.
    pub force: bool,
}

impl Default for TuiCommand {
    fn default() -> (c: Self)
        ensures
            c.path == path_of("."@),
            !c.skip_analysis,
            c.load_results is None,
            !c.debug,
            !c.force,
    {
        TuiCommand {
            path: path_from("."),
            skip_analysis: false,
            load_results: None,
            debug: false,
            force: false,
        }
    }
}

/// What the environment of a TUI launch looks like.
#[derive(Debug, Clone, Copy, PartialEq, Eq, Structural)]
pub struct TuiEnvironment {
    /// Standard error is an interactive terminal.
    pub interactive: bool,
    /// The target path exists.
    pub path_exists: bool,
    /// Whether the results file to load exists, when one was given.
    pub results_file_exists: Option<bool>,
    /// The results file, when one was given, has a `.json` extension.
    pub results_file_is_json: bool,
    /// Terminal width in columns.
    pub width: u16,
    /// Terminal height in rows.
    pub height: u16,
}

/// Why the TUI cannot start.
#[derive(Debug, Clone, Copy, PartialEq, Eq, Structural)]
pub enum TuiEnvironmentError {
    NotInteractive,
    PathMissing,
    ResultsFileMissing,
    TerminalTooSmall,
}

/// What the launch check concludes.
#[derive(Debug, Clone, Copy, PartialEq, Eq, Structural)]
pub struct TuiLaunchCheck {
    /// Warn that the results file lacks a `.json` extension.
    pub warn_results_extension: bool,
    /// Warn that the terminal is smaller than 80x24 (forced launch only).
    pub warn_small_terminal: bool,
}

/// The terminal is smaller than the recommended 80 columns by 24 rows.
pub open spec fn small_terminal(e: TuiEnvironment) -> bool {
    e.width < 80 || e.height < 24
}

/// The launch check: the checks run in order (interactive terminal unless
/// forced, target path, results file, terminal size); the first that fails
/// stops the launch, and a forced launch only warns about the terminal size.
pub open spec fn tui_check(force: bool, e: TuiEnvironment) -> Result<TuiLaunchCheck, TuiEnvironmentError> {
    if !force && !e.interactive {
        Err(TuiEnvironmentError::NotInteractive)
    } else if !e.path_exists {
        Err(TuiEnvironmentError::PathMissing)
    } else if e.results_file_exists == Some(false) {
        Err(TuiEnvironmentError::ResultsFileMissing)
    } else if small_terminal(e) && !force {
        Err(TuiEnvironmentError::TerminalTooSmall)
    } else {
        Ok(TuiLaunchCheck {
            warn_results_extension: e.results_file_exists == Some(true) && !e.results_file_is_json,
            warn_small_terminal: small_terminal(e),
        })
    }
}

impl TuiCommand {
    /// Checks that the environment is suitable for the TUI.
    pub fn check_environment(&self, env: TuiEnvironment) -> (r: Result<TuiLaunchCheck, TuiEnvironmentError>)
        ensures
            r == tui_check(self.force, env),
    {
        if !self.force && !env.interactive {
            return Err(TuiEnvironmentError::NotInteractive);
        }
        if !env.path_exists {
            return Err(TuiEnvironmentError::PathMissing);
        }
        let warn_results_extension = match env.results_file_exists {
            Some(false) => return Err(TuiEnvironmentError::ResultsFileMissing),
            Some(true) => !env.results_file_is_json,
            None => false,
        };
        let small = env.width < 80 || env.height < 24;
        if small && !self.force {
            return Err(TuiEnvironmentError::TerminalTooSmall);
        }
        Ok(TuiLaunchCheck { warn_results_extension, warn_small_terminal: small })
    }
}

} // verus!
