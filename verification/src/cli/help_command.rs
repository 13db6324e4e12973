//! `uveddi help`: general help, topic help and help for the situation the
//! user is in.

use vstd::prelude::*;
use crate::cli::enhanced_help::{generate_quick_help, generate_topic_help, topic_help, QUICK_HELP};
use crate::text::{owned, push_str, str_eq, opt_view};

verus! {

/// The `help` command.
#[derive(Debug, Clone)]
pub struct HelpCommand {
    /// Help topic to display: installation, configuration,
    /// troubleshooting, ci-cd, plugins or examples.
    pub topic: Option<String>,
    /// Show verbose help with all available options.
    pub verbose: bool,
}

/// Details of each command, shown by `help --verbose`.
pub const COMMAND_DETAILS: &'static str = r#"
📝 Analyze Command (uveddi analyze, uveddi a):
  Primary code analysis command with comprehensive options
  
  Basic Usage:
    uveddi analyze ./src                    # Basic analysis
    uveddi a ./src --output-format json     # Short form with JSON
    
  Advanced Options:
    --enable-ai                            # AI-powered insights
    --progress-format terminal             # Rich progress display
    --security                             # Security vulnerability scan
    --memory-optimization                  # For large codebases
    --timeout 600                          # 10-minute timeout

🏥 Doctor Command (uveddi doctor, uveddi dr):
  System health diagnostics and auto-fix capabilities
  
  Usage:
    uveddi doctor                          # Full health check
    uveddi dr --fix                        # Auto-fix issues
    uveddi doctor --parsers                # Check only parsers
    uveddi doctor --ai                     # Check only AI integration
    --output-format json                   # Machine-readable output

⚙️  Config Command (uveddi config, uveddi cfg):
  Configuration management
  
  Usage:
    uveddi config show                     # Display current config
    uveddi cfg set key value               # Update setting
    uveddi config validate                 # Check config validity
    uveddi config reset                    # Restore defaults

🚀 Serve Command:
  Launch web dashboard and services
  
  Usage:
    uveddi serve                           # Start with defaults
    uveddi serve --port 8888 --development # Dev mode

🖥️  TUI Command:
  Terminal user interface for interactive analysis
  
  Usage:
    uveddi tui                             # Launch TUI

🔧 Plugin Command (requires wasm-plugins feature):
  WebAssembly plugin management
  
  Usage:
    uveddi plugin list                     # List installed plugins
    uveddi plugin install plugin.wasm     # Install new plugin
    uveddi plugin info <id>                # Plugin details

📈 CI Command:
  CI/CD integration helpers
  
  Usage:
    uveddi ci setup github-actions        # Generate GitHub Actions
    uveddi ci setup gitlab                # Generate GitLab CI
"#;

/// Help for a first run.
pub const FIRST_RUN_HELP: &'static str = r#"
👋 Welcome to Uveddi!

This appears to be your first time running Uveddi. Here's how to get started:

1. 🏥 Check System Health:
   uveddi doctor
   
2. 📊 Analyze Your Code:
   uveddi analyze ./src
   
3. ⚙️  Configure Settings:
   uveddi config show

💡 Quick Tips:
   • Use 'uveddi help <topic>' for detailed guidance
   • Add --progress-details to see file-by-file progress
   • Try --enable-ai for intelligent explanations (requires Ollama)

🚀 Ready to analyze? Run: uveddi analyze ./your-project-path
"#;

/// Help after a failed analysis.
pub const ANALYSIS_FAILED_HELP: &'static str = r#"
🔧 Analysis Failed - Troubleshooting Steps:

1. 🏥 Run Health Check:
   uveddi doctor
   
2. 🔍 Check File Permissions:
   uveddi doctor --system --fix
   
3. 📝 Try Simpler Analysis:
   uveddi analyze ./src --output-format text --progress-format silent
   
4. 🐛 Get Detailed Error Info:
   uveddi analyze ./src --verbose

💡 Common Solutions:
   • Increase timeout: --timeout 600
   • Disable AI: Remove --enable-ai flag  
   • Check disk space and memory availability
   • Verify all source files are accessible

📚 More help: uveddi help troubleshooting
"#;

/// Help after a configuration error.
pub const CONFIG_ERROR_HELP: &'static str = r#"
⚙️  Configuration Issue - Quick Fixes:

1. 🔍 Check Current Config:
   uveddi config show
   
2. ✅ Validate Configuration:
   uveddi config validate
   
3. 🔄 Reset to Defaults:
   uveddi config reset
   
4. 📂 Check Config Files:
   ~/.config/uveddi/config.toml
   ./uveddi.toml

💡 Common Config Issues:
   • Invalid file paths in config
   • Malformed TOML syntax
   • Missing required sections
   • Conflicting environment variables

📚 More help: uveddi help configuration
"#;

/// Heading printed before the command details.
pub const DETAILS_HEADING: &'static str = "\n🔍 Detailed Command Information:\n================================\n";

/// Help for the user's situation: a first run, a failed analysis, a
/// configuration error; the quick help otherwise.
pub open spec fn contextual_help(context: Seq<char>) -> Seq<char> {
    if context == "first_run"@ {
        FIRST_RUN_HELP@
    } else if context == "analysis_failed"@ {
        ANALYSIS_FAILED_HELP@
    } else if context == "config_error"@ {
        CONFIG_ERROR_HELP@
    } else {
        QUICK_HELP@
    }
}

/// Help tailored to the user's current situation.
pub fn generate_contextual_help(context: &str) -> (s: String)
    ensures
        s@ == contextual_help(context@),
{
    if str_eq(context, "first_run") {
        owned(FIRST_RUN_HELP)
    } else if str_eq(context, "analysis_failed") {
        owned(ANALYSIS_FAILED_HELP)
    } else if str_eq(context, "config_error") {
        owned(CONFIG_ERROR_HELP)
    } else {
        generate_quick_help()
    }
}

/// What `help` prints: the quick help, followed for `--verbose` by the
/// command details; or the text of the requested topic. Each printed block
/// ends with a newline.
pub open spec fn help_output(topic: Option<Seq<char>>, verbose: bool) -> Option<Seq<char>> {
    match topic {
        Some(t) => match topic_help(t) {
            Some(text) => Some(text + "\n"@),
            None => None,
        },
        None => Some(QUICK_HELP@ + "\n"@ + if verbose {
            DETAILS_HEADING@ + COMMAND_DETAILS@ + "\n"@
        } else {
            seq![]
        }),
    }
}

impl HelpCommand {
    /// The text the command prints, or `None` for an unknown topic (the
    /// command then lists the available topics and fails).
    pub fn output(&self) -> (r: Option<String>)
        ensures
            opt_view(r) == help_output(opt_view(self.topic), self.verbose),
    {
        match &self.topic {
            Some(topic) => match generate_topic_help(topic.as_str()) {
                Some(text) => {
                    let mut s = text;
                    push_str(&mut s, "\n");
                    Some(s)
                },
                None => None,
            },
            None => {
                let mut s = generate_quick_help();
                push_str(&mut s, "\n");
                if self.verbose {
                    push_str(&mut s, DETAILS_HEADING);
                    push_str(&mut s, COMMAND_DETAILS);
                    push_str(&mut s, "\n");
                }
                assert(s@ =~= help_output(opt_view(self.topic), self.verbose)->Some_0);
                Some(s)
            },
        }
    }

    /// The error message for an unknown topic.
    pub fn unknown_topic_message(topic: &str) -> (s: String)
        ensures
            s@ == "Unknown help topic: "@ + topic@,
    {
        let mut s = owned("Unknown help topic: ");
        push_str(&mut s, topic);
        s
    }
}

} // verus!
