use rusty_extract::extract::WindowMode;
use rusty_extract::extract::unzip::{invocation};
/// The constructed invocation matches
/// UniExtract.au3:3384-3388's `_Run($zip & ' -x "' & $file & '"',
/// $outdir, @SW_MINIMIZE, True, False)` — same program, same `-x`
/// switch and file argument order, same working directory, same
/// minimized window.
#[test]
fn unzip_matches_source_invocation() {
    let inv = invocation(
        r"C:\UniExtract\bin\unzip.exe",
        r"C:\downloads\archive.zip",
        r"C:\downloads\archive_unpacked",
    );
    assert_eq!(inv.program, r"C:\UniExtract\bin\unzip.exe");
    assert_eq!(
        inv.args,
        vec!["-x".to_string(), r"C:\downloads\archive.zip".to_string()]
    );
    assert_eq!(inv.working_dir, r"C:\downloads\archive_unpacked");
    assert_eq!(inv.window, WindowMode::Minimized);
}
