use rusty_extract::extract::WindowMode;
use rusty_extract::extract::ttarch::{invocation};
/// The constructed invocation
/// matches UniExtract.au3:3147's `ttarchext.exe -m <index> "<file>"
/// "<outdir>"` call — program, args (including the game index as a
/// bare numeric token, not quoted), `outdir` as both the working
/// directory and the trailing destination argument, and the hidden
/// window.
#[test]
fn ttarch_matches_source_invocation() {
    let inv = invocation(
        r"C:\UniExtract\bin\ttarchext.exe",
        7,
        r"C:\downloads\archive.ttarch",
        r"C:\downloads\archive_unpacked",
    );
    assert_eq!(inv.program, r"C:\UniExtract\bin\ttarchext.exe");
    assert_eq!(
        inv.args,
        vec![
            "-m".to_string(),
            "7".to_string(),
            r"C:\downloads\archive.ttarch".to_string(),
            r"C:\downloads\archive_unpacked".to_string(),
        ]
    );
    assert_eq!(inv.working_dir, r"C:\downloads\archive_unpacked");
    assert_eq!(inv.window, WindowMode::Hidden);
}
