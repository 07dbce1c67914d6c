use rusty_extract::extract::WindowMode;
use rusty_extract::extract::unreal::{invocation};
/// Matches UniExtract.au3:3211-3214's
/// `_Run($unreal & ' -export -all -sounds -3rdparty -path="' & $filedir
/// & '" -out="' & $outdir & '" *', $outdir, @SW_MINIMIZE, True, True,
/// False)` — program, argument order (including the concatenated
/// `-path="..."`/`-out="..."` tokens and the trailing `*`), the
/// `$outdir` working directory, and the minimized window.
#[test]
fn unreal_matches_source_invocation() {
    let inv = invocation(
        r"C:\UniExtract\bin\umodel.exe",
        r"C:\downloads",
        r"C:\downloads\archive_unpacked",
    );
    assert_eq!(inv.program, r"C:\UniExtract\bin\umodel.exe");
    assert_eq!(
        inv.args,
        vec![
            "-export".to_string(),
            "-all".to_string(),
            "-sounds".to_string(),
            "-3rdparty".to_string(),
            r#"-path="C:\downloads""#.to_string(),
            r#"-out="C:\downloads\archive_unpacked""#.to_string(),
            "*".to_string(),
        ]
    );
    assert_eq!(inv.working_dir, r"C:\downloads\archive_unpacked");
    assert_eq!(inv.window, WindowMode::Minimized);
}
