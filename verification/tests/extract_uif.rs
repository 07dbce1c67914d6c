use rusty_extract::extract::WindowMode;
use rusty_extract::extract::uif::{invocation};
/// Matches UniExtract.au3:3161-3163's
/// `_Run($uif & ' "' & $file & '" "' & $outdir & "\" & $filename & '"',
/// $filedir, True, True, True)` — program, argument order (the input
/// file followed by the explicit output path built from `outdir` and
/// `filename`), the `$filedir` working directory, and the
/// `True` → `WindowMode::Show` window mapping (same precedent as
/// `extract::rpa`). `_CreateTrayMessageBox` is not part of the
/// invocation.
#[test]
fn uif_matches_source_invocation() {
    let inv = invocation(
        r"C:\UniExtract\bin\uif2iso.exe",
        r"C:\downloads\image.uif",
        r"C:\downloads\image_unpacked",
        "image.iso",
        r"C:\downloads",
    );
    assert_eq!(inv.program, r"C:\UniExtract\bin\uif2iso.exe");
    assert_eq!(
        inv.args,
        vec![
            r"C:\downloads\image.uif".to_string(),
            r"C:\downloads\image_unpacked\image.iso".to_string(),
        ]
    );
    assert_eq!(inv.working_dir, r"C:\downloads");
    assert_eq!(inv.window, WindowMode::Show);
}
