use rusty_extract::guid::{
    build_guid_with_version_prefix, fallback_guid_from_encrypted_output, resolve_guid_body,
    should_generate_new_guid, strip_guid_braces, VERSION_ID,
};

#[test]
fn regeneration_triggered_by_empty_or_whitespace_only_guid() {
    assert!(should_generate_new_guid(""));
    assert!(should_generate_new_guid("   "));
    assert!(should_generate_new_guid("\t\n"));
    assert!(!should_generate_new_guid("2R4-abc123"));
}

#[test]
fn brace_strip_removes_exactly_one_character_from_each_end() {
    assert_eq!(
        strip_guid_braces("{12345678-1234-1234-1234-123456789012}"),
        "12345678-1234-1234-1234-123456789012"
    );
}

/// Faithful to the source: any single leading/trailing character is
/// removed, not specifically braces.
#[test]
fn brace_strip_is_unconditional_not_brace_specific() {
    assert_eq!(strip_guid_braces("Xabc123Y"), "abc123");
    assert_eq!(strip_guid_braces("ab"), "");
    assert_eq!(strip_guid_braces("a"), "");
    assert_eq!(strip_guid_braces(""), "");
}

#[test]
fn fallback_truncates_to_last_twenty_five_characters() {
    let encrypted = "0".repeat(30) + "ABCDEFGHIJKLMNOPQRSTUVWXY";
    let result = fallback_guid_from_encrypted_output(&encrypted);
    assert_eq!(result.chars().count(), 25);
    assert_eq!(result, "ABCDEFGHIJKLMNOPQRSTUVWXY");
}

#[test]
fn fallback_returns_whole_string_if_shorter_than_twenty_five() {
    assert_eq!(fallback_guid_from_encrypted_output("short"), "short");
}

#[test]
fn resolve_prefers_winapi_result_and_skips_the_fallback_entirely() {
    let mut fallback_called = false;
    let body = resolve_guid_body(Some("{deadbeef-0000-0000-0000-000000000000}"), || {
        fallback_called = true;
        "should-not-be-used".to_string()
    });
    assert_eq!(body, "deadbeef-0000-0000-0000-000000000000");
    assert!(!fallback_called);
}

#[test]
fn resolve_falls_back_when_winapi_result_is_empty() {
    let body = resolve_guid_body(Some(""), || "fallback-value".to_string());
    assert_eq!(body, "fallback-value");

    let body_none = resolve_guid_body(None, || "fallback-value".to_string());
    assert_eq!(body_none, "fallback-value");
}

/// A brace-only string strips down to empty, which also triggers the
/// fallback -- matching the source's `$sOptGuid = ""` re-check.
#[test]
fn resolve_falls_back_when_winapi_result_strips_to_empty() {
    let body = resolve_guid_body(Some("{}"), || "fallback-value".to_string());
    assert_eq!(body, "fallback-value");
}

#[test]
fn version_prefix_is_hyphen_joined() {
    assert_eq!(
        build_guid_with_version_prefix(VERSION_ID, "abc123"),
        "2R4-abc123"
    );
}
