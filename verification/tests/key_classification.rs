use ht_mcp::keys::is_special_key;

#[test]
fn test_special_key_detection_valid_keys() {
    // Basic keys
    assert!(is_special_key("Enter"));
    assert!(is_special_key("Tab"));
    assert!(is_special_key("Space"));
    assert!(is_special_key("Escape"));

    // Arrow keys
    assert!(is_special_key("Left"));
    assert!(is_special_key("Right"));
    assert!(is_special_key("Up"));
    assert!(is_special_key("Down"));

    // Function keys
    assert!(is_special_key("F1"));
    assert!(is_special_key("F12"));

    // Home/End/Page keys
    assert!(is_special_key("Home"));
    assert!(is_special_key("End"));
    assert!(is_special_key("PageUp"));
    assert!(is_special_key("PageDown"));

    // Control sequences (short)
    assert!(is_special_key("C-x"));
    assert!(is_special_key("C-c"));
    assert!(is_special_key("^c"));
    assert!(is_special_key("^C"));

    // Alt sequences (short)
    assert!(is_special_key("A-x"));
    assert!(is_special_key("A-1"));

    // Shift sequences (short)
    assert!(is_special_key("S-Left"));

    // Single characters
    assert!(is_special_key("a"));
    assert!(is_special_key("1"));
    assert!(is_special_key("!"));
}

#[test]
fn test_special_key_detection_text_content() {
    // Simple text
    assert!(!is_special_key("hello world"));
    assert!(!is_special_key("multiple words here"));

    // Git commands (the main use case)
    assert!(!is_special_key("git commit -m"));
    assert!(!is_special_key("git status"));
    assert!(!is_special_key("echo 'test'"));
    assert!(!is_special_key("cd /path/to/dir"));

    // Quoted strings
    assert!(!is_special_key("\"quoted string\""));
    assert!(!is_special_key("'single quoted'"));
    assert!(!is_special_key("git commit -m \"message\""));

    // Long strings
    assert!(!is_special_key("This is a very long string"));
    assert!(!is_special_key("git commit -m \"Long commit message here\""));

    // URLs and markup
    assert!(!is_special_key("https://example.com"));
    assert!(!is_special_key("[Memex](https://memex.tech)"));
    assert!(!is_special_key("<noreply@memex.tech>"));

    // Email addresses
    assert!(!is_special_key("Signed-off-by: Memex <noreply@memex.tech>"));

    // Empty string
    assert!(!is_special_key(""));
}

#[test]
fn test_complex_git_commit_messages() {
    // A multiline commit body with emoji, markdown and trailers
    let complex_commit_1 = r#"Update project rules with completed MCP submissions and documentation references

🤖 Built with [Memex](https://memex.tech)
Signed-off-by: Memex <noreply@memex.tech>

Issue: Terminal seemed to have problems with multiline commit message or emoji encoding
Date: Current session
Context: Updating the project notes with submission status and documentation references"#;

    assert!(!is_special_key(complex_commit_1));

    // Another complex format with emoji and URLs
    let complex_commit_2 = r#"🚀 Add proof of concept feature

This is a multiline commit message with:
- Emoji 😀 and special characters
- Long description text
- URLs: https://github.com/memextech/ht-mcp

Signed-off-by: Memex <noreply@memex.tech>"#;

    assert!(!is_special_key(complex_commit_2));

    // Commit with various special characters and formatting
    let complex_commit_3 = r#"Fix: Handle special characters & symbols properly

- Support for & (ampersand)
- Support for @ symbols in emails
- Support for <angle brackets>
- Support for [square brackets] and (parentheses)
- URLs: https://example.com?param=value&other=123

🤖 Built with [Memex](https://memex.tech)
Signed-off-by: Memex <noreply@memex.tech>"#;

    assert!(!is_special_key(complex_commit_3));
}

#[test]
fn test_complex_commit_message_cases() {
    // A full quoted commit command with escaped newlines
    let complex_commit = "git commit -m \"Fix complex key parsing\\n\\n🤖 Built with [Memex](https://memex.tech)\\nSigned-off-by: Memex <noreply@memex.tech>\"";
    assert!(!is_special_key(complex_commit));

    // Emoji handling
    assert!(!is_special_key("🤖 Built with [Memex](https://memex.tech)"));
    assert!(!is_special_key("Signed-off-by: Memex <noreply@memex.tech>"));

    // Markdown URLs
    assert!(!is_special_key("[Memex](https://memex.tech)"));
    assert!(!is_special_key("Visit [our site](https://example.com)"));

    // Multi-line markers (escaped)
    assert!(!is_special_key("First line\\nSecond line"));
}

#[test]
fn test_edge_cases() {
    // Control sequences that are too long should be text
    assert!(!is_special_key("C-very-long-sequence"));

    // Multiple spaces indicate commands
    assert!(!is_special_key("command with multiple spaces"));

    // Valid C-Space vs invalid space combinations
    assert!(is_special_key("C-Space"));
    assert!(!is_special_key("not valid space"));

    // Whitespace characters as single chars
    assert!(!is_special_key(" ")); // Space char should use "Space" key name
    assert!(!is_special_key("\t")); // Tab char should use "Tab" key name
}
