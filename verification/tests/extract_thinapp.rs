use rusty_extract::extract::WindowMode;
use rusty_extract::extract::thinapp::{invocation, relocated_file_path};
#[test]
fn relocated_file_path_matches_source_shape() {
    assert_eq!(
        relocated_file_path(r"C:\temp\", "game_installer.exe"),
        r"C:\temp\game_installer.exe"
    );
}

/// The constructed invocation matches
/// UniExtract.au3:3107-3128's effective `Extractor.exe
/// "<tempoutdir><filename_full>"` call — program, the single relocated
/// path as the argument, `tempoutdir` as the working directory, and
/// the hidden window `@SW_HIDE` selects.
#[test]
fn thinapp_matches_source_invocation() {
    let inv = invocation(
        r"C:\UniExtract\bin\Extractor.exe",
        r"C:\temp\uextmp\",
        "game_installer.exe",
    );
    assert_eq!(inv.program, r"C:\UniExtract\bin\Extractor.exe");
    assert_eq!(
        inv.args,
        vec![r"C:\temp\uextmp\game_installer.exe".to_string()]
    );
    assert_eq!(inv.working_dir, r"C:\temp\uextmp\");
    assert_eq!(inv.window, WindowMode::Hidden);
}
