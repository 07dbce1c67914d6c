use rusty_extract::ini::{IniFile};
#[test]
fn parses_sections_in_order_with_duplicate_keys() {
    let ini = IniFile::parse(
        "; comment\n[Trid]\nlbr=CrLZH compressed\nlbr=Crunch compressed archive\n\n[Extensions]\narc=arc\n",
    );
    let trid = ini.section("Trid").expect("Trid section present");
    assert_eq!(
        trid,
        &[
            ("lbr".to_string(), "CrLZH compressed".to_string()),
            ("lbr".to_string(), "Crunch compressed archive".to_string()),
        ]
    );
    let ext = ini
        .section("Extensions")
        .expect("Extensions section present");
    assert_eq!(ext, &[("arc".to_string(), "arc".to_string())]);
}

#[test]
fn section_lookup_is_case_insensitive_and_missing_returns_none() {
    let ini = IniFile::parse("[Extensions]\nuu=uu\n");
    assert!(ini.section("extensions").is_some());
    assert!(ini.section("Nope").is_none());
}
