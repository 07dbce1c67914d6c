use rusty_extract::filetype_report::{build_scan_log_entry, format_filetype_results, ScannerResult};

/// type text only, no scanner names, entries separated by a blank
/// line.
#[test]
fn no_header_joins_type_text_only() {
    let entries = [
        ScannerResult {
            scanner: "TrID",
            type_text: "ZIP archive",
        },
        ScannerResult {
            scanner: "file",
            type_text: "Zip archive data",
        },
    ];
    assert_eq!(
        format_filetype_results(&entries, false, 50),
        "ZIP archive\r\n\r\nZip archive data"
    );
}

/// A single entry with no header
/// produces just its type text, no leading separator.
#[test]
fn no_header_single_entry_has_no_leading_separator() {
    let entries = [ScannerResult {
        scanner: "TrID",
        type_text: "ZIP archive",
    }];
    assert_eq!(format_filetype_results(&entries, false, 50), "ZIP archive");
}

/// An empty entry list produces an
/// empty string regardless of header/width settings.
#[test]
fn empty_entries_produce_empty_string() {
    assert_eq!(format_filetype_results(&[], true, 50), "");
    assert_eq!(format_filetype_results(&[], false, 50), "");
}

/// scanner name between dashes using `Floor((width - len(name)) /
/// 2)` padding on each side.
#[test]
fn header_centers_scanner_name_with_floor_division() {
    let entries = [ScannerResult {
        scanner: "TrID",
        type_text: "ZIP archive",
    }];
    // " TrID " has length 6; (50 - 6) / 2 = 22 exactly.
    let dashes = "-".repeat(22);
    assert_eq!(
        format_filetype_results(&entries, true, 50),
        format!("{dashes} TrID {dashes}\r\n\r\nZIP archive")
    );
}

/// An odd remainder floors down,
/// producing a header one character shorter than `width`, not
/// rounded.
#[test]
fn header_floor_rounding_on_odd_remainder() {
    let entries = [ScannerResult {
        scanner: "7-Zip",
        type_text: "7z archive",
    }];
    // " 7-Zip " has length 7; (50 - 7) / 2 = 21.5, Floor = 21.
    let dashes = "-".repeat(21);
    assert_eq!(
        format_filetype_results(&entries, true, 50),
        format!("{dashes} 7-Zip {dashes}\r\n\r\n7z archive")
    );
}

/// A scanner name longer than
/// `width` yields a negative `Floor` padding length, which
/// reproduces as no dashes at all rather than a panic or a
/// truncated name.
#[test]
fn header_name_longer_than_width_has_no_padding() {
    let entries = [ScannerResult {
        scanner: "A Very Long Scanner Name Indeed",
        type_text: "some type",
    }];
    assert_eq!(
        format_filetype_results(&entries, true, 10),
        " A Very Long Scanner Name Indeed \r\n\r\nsome type"
    );
}

/// entirely and uses the bare scanner name, with no surrounding
/// spaces.
#[test]
fn zero_width_uses_bare_scanner_name() {
    let entries = [ScannerResult {
        scanner: "TrID",
        type_text: "ZIP archive",
    }];
    assert_eq!(
        format_filetype_results(&entries, true, 0),
        "TrID\r\n\r\nZIP archive"
    );
}

/// Multiple entries with headers
/// are separated by a full blank-line gap between one entry's type
/// text and the next entry's header.
#[test]
fn multiple_header_entries_are_separated() {
    let entries = [
        ScannerResult {
            scanner: "AB",
            type_text: "type one",
        },
        ScannerResult {
            scanner: "CD",
            type_text: "type two",
        },
    ];
    let result = format_filetype_results(&entries, true, 10);
    assert_eq!(
        result,
        "--- AB ---\r\n\r\ntype one\r\n\r\n--- CD ---\r\n\r\ntype two"
    );
}

/// The scan log entry format
/// matches the source's exact concatenation — file path, blank line,
/// filetype text, a 60-dash separator line, each `\r\n`-terminated.
#[test]
fn build_scan_log_entry_matches_source_format() {
    let dashes = "-".repeat(60);
    assert_eq!(
        build_scan_log_entry(r"C:\downloads\archive.zip", "ZIP archive"),
        format!("C:\\downloads\\archive.zip\r\n\r\nZIP archive\r\n{dashes}\r\n")
    );
}

/// The separator is exactly 60
/// dashes, matching the source's literal string length.
#[test]
fn build_scan_log_entry_separator_is_sixty_dashes() {
    let entry = build_scan_log_entry("file.exe", "unknown type");
    let separator_line = entry.lines().nth(3).unwrap();
    assert_eq!(separator_line.len(), 60);
    assert!(separator_line.chars().all(|c| c == '-'));
}
