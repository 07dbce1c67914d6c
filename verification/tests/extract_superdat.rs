use rusty_extract::extract::WindowMode;
use rusty_extract::extract::superdat::{invocation};
/// The constructed invocation matches
/// UniExtract.au3:3038-3043's effective `<file> /LOGFILE
/// "<outdir>\SuperDAT.log" /e "<outdir>"` call.
#[test]
fn superdat_matches_source_invocation() {
    let inv = invocation(
        r"C:\downloads\updater.exe",
        r"C:\downloads\updater_unpacked",
    );
    assert_eq!(inv.program, r"C:\downloads\updater.exe");
    assert_eq!(
        inv.args,
        vec![
            "/LOGFILE".to_string(),
            r"C:\downloads\updater_unpacked\SuperDAT.log".to_string(),
            "/e".to_string(),
            r"C:\downloads\updater_unpacked".to_string(),
        ]
    );
    assert_eq!(inv.working_dir, r"C:\downloads\updater_unpacked");
    assert_eq!(inv.window, WindowMode::Show);
}
