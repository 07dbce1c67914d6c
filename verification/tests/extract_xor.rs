use rusty_extract::extract::WindowMode;
use rusty_extract::extract::xor::{invocation};
/// Matches UniExtract.au3:2598's
/// `_Run($xor & ' "' & $ret2 & '" "' & $outdir & '\' & $filename &
/// '.cab" 0x8D')` — program, argument order (including the literal
/// `0x8D` key byte), and `_Run`'s own defaults for working directory
/// (`$outdir`) and window (`@SW_MINIMIZE`), since all three optional
/// `_Run` arguments are omitted in the source.
#[test]
fn xor_matches_source_invocation() {
    let inv = invocation(
        r"C:\UniExtract\bin\xor.exe",
        r"C:\downloads\archive_unpacked\overlay.bin",
        r"C:\downloads\archive_unpacked",
        "archive",
    );
    assert_eq!(inv.program, r"C:\UniExtract\bin\xor.exe");
    assert_eq!(
        inv.args,
        vec![
            r"C:\downloads\archive_unpacked\overlay.bin".to_string(),
            r"C:\downloads\archive_unpacked\archive.cab".to_string(),
            "0x8D".to_string(),
        ]
    );
    assert_eq!(inv.working_dir, r"C:\downloads\archive_unpacked");
    assert_eq!(inv.window, WindowMode::Minimized);
}
