use rusty_extract::password_search::{find_password, nth_line_from_end, probe_shows_protected, test_output_shows_success};
#[test]
fn nth_line_from_end_minus_one_returns_from_second_to_last_crlf_onward() {
    assert_eq!(nth_line_from_end("a\r\nb\r\nc", -1), "\r\nb\r\nc");
}

#[test]
fn nth_line_from_end_falls_back_to_whole_string_when_too_few_crlfs() {
    assert_eq!(
        nth_line_from_end("only one line, no CRLF", -1),
        "only one line, no CRLF"
    );
    assert_eq!(nth_line_from_end("a\r\nb", -3), "a\r\nb");
}

#[test]
fn probe_shows_protected_with_line_zero_searches_whole_output() {
    let output = "Listing archive: x.7z\r\nEncrypted = +\r\nPath = x.7z";
    assert!(probe_shows_protected(
        output,
        0,
        "Encrypted = +",
        Some("Wrong password?")
    ));
}

#[test]
fn probe_shows_protected_matches_second_marker() {
    let output = "some header\r\nWrong password? y/n";
    assert!(probe_shows_protected(
        output,
        0,
        "Encrypted = +",
        Some("Wrong password?")
    ));
}

#[test]
fn probe_shows_protected_is_case_insensitive() {
    assert!(probe_shows_protected(
        "ARCHIVE IS ENCRYPTED",
        0,
        "encrypted",
        None
    ));
}

#[test]
fn probe_shows_protected_false_when_neither_marker_present() {
    assert!(!probe_shows_protected(
        "plain listing, nothing special",
        0,
        "encrypted",
        Some("password?")
    ));
}

#[test]
fn probe_shows_protected_narrows_to_nth_line_from_end_when_line_negative() {
    // The marker is on an earlier line than the one `line = -1` selects
    // (the text starting at the second-to-last CRLF), so it must NOT be
    // found — proving the narrowing actually applies.
    let output = "Archive encrypted.\r\nheader2\r\nlast line has nothing";
    assert!(!probe_shows_protected(output, -1, "encrypted", None));
}

#[test]
fn test_output_shows_success_is_case_insensitive() {
    assert!(test_output_shows_success(
        "Everything went all ok here",
        "All OK"
    ));
}

#[test]
fn find_password_returns_first_match() {
    let passwords = vec![
        "wrong1".to_string(),
        "right".to_string(),
        "wrong2".to_string(),
    ];
    let tried = std::cell::RefCell::new(Vec::new());
    let found = find_password(&passwords, "All OK", |p| {
        tried.borrow_mut().push(p.to_string());
        if p == "right" {
            "Everything is All OK".to_string()
        } else {
            "Wrong password".to_string()
        }
    });
    assert_eq!(found, Some("right"));
    assert_eq!(
        *tried.borrow(),
        vec!["wrong1".to_string(), "right".to_string()]
    );
}

#[test]
fn find_password_returns_none_when_list_exhausted() {
    let passwords = vec!["a".to_string(), "b".to_string()];
    let found = find_password(&passwords, "All OK", |_| "Wrong password".to_string());
    assert_eq!(found, None);
}

#[test]
fn find_password_returns_none_for_empty_list() {
    let passwords: Vec<String> = vec![];
    let found = find_password(&passwords, "All OK", |_| "Everything is Ok".to_string());
    assert_eq!(found, None);
}
