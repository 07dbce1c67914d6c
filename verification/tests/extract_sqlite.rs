use rusty_extract::extract::WindowMode;
use rusty_extract::extract::sqlite::{invocation};
/// The constructed invocation matches
/// UniExtract.au3:3032-3033's effective `sqlite3.exe "<file>" .dump`
/// call — program, args, the `$filedir` working directory (not
/// `$outdir`), and the hidden window.
#[test]
fn sqlite_matches_source_invocation() {
    let inv = invocation(
        r"C:\UniExtract\bin\sqlite3.exe",
        r"C:\downloads\data.db",
        r"C:\downloads",
    );
    assert_eq!(inv.program, r"C:\UniExtract\bin\sqlite3.exe");
    assert_eq!(
        inv.args,
        vec![r"C:\downloads\data.db".to_string(), ".dump".to_string()]
    );
    assert_eq!(inv.working_dir, r"C:\downloads");
    assert_eq!(inv.window, WindowMode::Hidden);
}
