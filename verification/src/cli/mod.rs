//! Command-line front end: commands, arguments and help.

pub mod enhanced_help;
pub mod ci_command;
pub mod help_command;
pub mod hooks_command;
pub mod tui_command;
pub mod ui_command;
pub mod commands;
pub mod plugin_command;
pub mod doctor_command;
pub mod config_command;
pub mod init_local_ai_command;
pub mod init_command;
pub mod analyze_command;
