use rusty_extract::extract::WindowMode;
use rusty_extract::extract::zoo::{invocation};
/// Matches UniExtract.au3:3390-3394's
/// `_Run($zoo & ' -x ' & $filenamefull, $tempoutdir, @SW_HIDE)` — same
/// program, same `-x`/`filenamefull` arguments, same `$tempoutdir`
/// working directory, same hidden window. The surrounding
/// `_FileMove`/`MoveFiles` staging calls are out of scope (see the
/// function's doc comment).
#[test]
fn zoo_matches_source_invocation() {
    let inv = invocation(
        r"C:\UniExtract\bin\unzoo.exe",
        "archive.zoo",
        r"C:\downloads\archive_temp",
    );
    assert_eq!(inv.program, r"C:\UniExtract\bin\unzoo.exe");
    assert_eq!(inv.args, vec!["-x".to_string(), "archive.zoo".to_string()]);
    assert_eq!(inv.working_dir, r"C:\downloads\archive_temp");
    assert_eq!(inv.window, WindowMode::Hidden);
}
