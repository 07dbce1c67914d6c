use rusty_extract::extract::WindowMode;
use rusty_extract::extract::wolf::{invocation};
/// Matches UniExtract.au3:3377-3382's
/// `_RunInTempOutdir($tempoutdir, $wolf & ' ' & Quote($file), $outdir,
/// @SW_MINIMIZE, True, True, False)` — same program, same argument, the
/// `$outdir` working directory (not `$tempoutdir`), and the minimized
/// window.
#[test]
fn wolf_matches_source_invocation() {
    let inv = invocation(
        r"C:\UniExtract\bin\WolfDec.exe",
        r"C:\downloads\archive.wolf",
        r"C:\downloads\archive_unpacked",
    );
    assert_eq!(inv.program, r"C:\UniExtract\bin\WolfDec.exe");
    assert_eq!(inv.args, vec![r"C:\downloads\archive.wolf".to_string()]);
    assert_eq!(inv.working_dir, r"C:\downloads\archive_unpacked");
    assert_eq!(inv.window, WindowMode::Minimized);
}
