use uveddi::cli::enhanced_help::{
    enhance_cli_error, extract_invalid_command, generate_quick_help, generate_topic_help, suggest_command,
    CliError,
};

#[test]
fn test_command_suggestions() {
    assert_eq!(suggest_command("analze"), vec!["analyze"]); // typo
    assert_eq!(suggest_command("doctr"), vec!["doctor"]); // typo
    assert!(suggest_command("totally-wrong-command").is_empty()); // too different
}

#[test]
fn test_error_enhancement() {
    let error = enhance_cli_error("no such subcommand 'analze'", None);
    assert!(error.message.contains("analze"));
    assert!(!error.suggestions.is_empty());
}

#[test]
fn test_help_generation() {
    let help = generate_quick_help();
    assert!(help.contains("analyze"));
    assert!(help.contains("doctor"));
}

#[test]
fn suggestions_are_ranked_and_capped() {
    // "ci" is at distance 0, "ui" at 1, then "a", "dr", "cfg" at 2: three come back.
    assert_eq!(suggest_command("ci"), vec!["ci", "ui", "a"]);
    // "cfg" itself, then "ci" at distance 2; everything else is further away.
    assert_eq!(suggest_command("cfg"), vec!["cfg", "ci"]);
}

#[test]
fn unknown_command_error_has_try_lines() {
    let error = enhance_cli_error("error: unrecognized subcommand 'DOCTR'", None);
    assert_eq!(error.message, "Unknown command: 'doctr'");
    assert_eq!(error.suggestions[0], "Try 'uveddi doctor'");
    assert_eq!(error.help_topic, Some("commands".to_string()));
}

#[test]
fn error_kinds_are_classified() {
    assert_eq!(enhance_cli_error("No such file or directory", None).message, "File or directory not found");
    assert_eq!(enhance_cli_error("Permission denied (os error 13)", None).message, "Permission denied");
    assert_eq!(enhance_cli_error("bad config value", None).help_topic, Some("configuration".to_string()));
    assert_eq!(enhance_cli_error("request timed out", None).message, "Operation timed out");
    assert_eq!(enhance_cli_error("OUT OF MEMORY", None).message, "Memory limit exceeded");
    let other = enhance_cli_error("Something Weird", None);
    assert_eq!(other.message, "Something Weird");
    assert_eq!(other.suggestions.len(), 2);
}

#[test]
fn invalid_command_extraction() {
    assert_eq!(extract_invalid_command("no such subcommand 'foo'"), Some("foo".to_string()));
    assert_eq!(extract_invalid_command("'bar' isn't a valid subcommand"), Some("bar".to_string()));
    assert_eq!(extract_invalid_command("no quotes here"), None);
}

#[test]
fn topic_help_lookup() {
    assert!(generate_topic_help("installation").unwrap().contains("Installation Help"));
    assert!(generate_topic_help("ai-integration").is_some());
    assert!(generate_topic_help("plugins").unwrap().contains("plugin install"));
    assert!(generate_topic_help("nope").is_none());
}

#[test]
fn error_display_lists_everything() {
    let e = CliError::new("boom".to_string())
        .with_context("ctx".to_string())
        .with_suggestion("one".to_string())
        .with_suggestions(vec!["two".to_string()])
        .with_help_topic("topic".to_string());
    assert_eq!(
        e.to_display_string(),
        "❌ boom\n📍 Context: ctx\n\n💡 Suggestions:\n   • one\n   • two\n\n📚 For more help: uveddi help topic\n"
    );
    assert_eq!(CliError::new("x".to_string()).to_display_string(), "❌ x\n");
}
