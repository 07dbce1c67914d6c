use rusty_extract::extract::WindowMode;
use rusty_extract::extract::wix::{invocation};
/// The constructed invocation matches
/// UniExtract.au3:3373-3375's `_Run($wix & ' -x "' & $outdir & '" "' &
/// $file & '"', $outdir, @SW_MINIMIZE, True, True, False)` — same
/// program, same arguments in order, same `$outdir` working directory,
/// same minimized window.
#[test]
fn wix_matches_source_invocation() {
    let inv = invocation(
        r"C:\UniExtract\bin\dark.exe",
        r"C:\downloads\archive_unpacked",
        r"C:\downloads\archive.msi",
    );
    assert_eq!(inv.program, r"C:\UniExtract\bin\dark.exe");
    assert_eq!(
        inv.args,
        vec![
            "-x".to_string(),
            r"C:\downloads\archive_unpacked".to_string(),
            r"C:\downloads\archive.msi".to_string(),
        ]
    );
    assert_eq!(inv.working_dir, r"C:\downloads\archive_unpacked");
    assert_eq!(inv.window, WindowMode::Minimized);
}
