use rusty_extract::extract::unity::{inner_tar_invocation, is_destination_within_outdir, resolve_asset_destination};
use rusty_extract::extract::WindowMode;

/// The inner-tar invocation matches
/// UniExtract.au3:3177's effective `7z.exe x "<tar_file>"` call.
#[test]
fn inner_tar_invocation_matches_source() {
    let inv = inner_tar_invocation(
        r"C:\UniExtract\bin\7z.exe",
        r"C:\Temp\unity_tmp\archtemp.tar",
        r"C:\Temp\unity_tmp",
    );
    assert_eq!(inv.program, r"C:\UniExtract\bin\7z.exe");
    assert_eq!(
        inv.args,
        vec![
            "x".to_string(),
            r"C:\Temp\unity_tmp\archtemp.tar".to_string()
        ]
    );
    assert_eq!(inv.working_dir, r"C:\Temp\unity_tmp");
    assert_eq!(inv.window, WindowMode::Minimized);
}

/// A relative asset pathname resolves
/// against `outdir`.
#[test]
fn resolve_asset_destination_resolves_relative_pathname() {
    assert_eq!(
        resolve_asset_destination(r"Assets\Scripts\Foo.cs", r"C:\downloads\unpacked"),
        r"C:\downloads\unpacked\Assets\Scripts\Foo.cs"
    );
}

/// A destination containing `outdir`
/// as a substring passes the check.
#[test]
fn is_destination_within_outdir_accepts_contained_path() {
    assert!(is_destination_within_outdir(
        r"C:\downloads\unpacked\Assets\Foo.cs",
        r"C:\downloads\unpacked"
    ));
}

/// The check is case-insensitive,
/// matching AutoIt's `StringInStr` default.
#[test]
fn is_destination_within_outdir_is_case_insensitive() {
    assert!(is_destination_within_outdir(
        r"C:\DOWNLOADS\UNPACKED\Assets\Foo.cs",
        r"C:\downloads\unpacked"
    ));
}

/// A destination that doesn't
/// contain `outdir` at all is rejected.
#[test]
fn is_destination_within_outdir_rejects_unrelated_path() {
    assert!(!is_destination_within_outdir(
        r"C:\elsewhere\Assets\Foo.cs",
        r"C:\downloads\unpacked"
    ));
}
