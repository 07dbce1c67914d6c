use rusty_extract::gui::update_prompt::{ChangelogFetchOutcome, resolve_changelog_text};
#[test]
fn successful_fetch_shows_the_fetched_text() {
    assert_eq!(
        resolve_changelog_text(Some("- Fixed a bug\n- Added a feature".to_string())),
        ChangelogFetchOutcome::Loaded("- Fixed a bug\n- Added a feature".to_string())
    );
}

#[test]
fn failed_fetch_falls_back_to_the_failure_message() {
    assert_eq!(resolve_changelog_text(None), ChangelogFetchOutcome::Failed);
}
