//! Manual disambiguation: when testing cannot pick one extractor for a
//! format, `GUI_MethodSelect` offers the candidates. The dialog is GUI;
//! the candidate data per format and the selection policy (override
//! wins, then the silent-mode auto-pick, then the dialog) are here.
use vstd::prelude::*;
use crate::text::chars_of;

verus! {

/// One candidate: the `t(...)` call's two arguments kept as data — the
/// radio label's format key and the method name substituted into it.
#[derive(Debug, Clone, Copy, PartialEq, Eq)]
pub struct MethodCandidate {
    pub radio_label_key: &'static str,
    pub method_key: &'static str,
}

/// The candidate `(radio_label_key, method_key)`.
pub fn candidate(radio_label_key: &'static str, method_key: &'static str) -> (r: MethodCandidate)
    ensures
        r.radio_label_key == radio_label_key,
        r.method_key == method_key,
{
    MethodCandidate { radio_label_key, method_key }
}

/// The views of a candidate list's two keys.
pub open spec fn candidate_keys(v: Seq<MethodCandidate>) -> Seq<(Seq<char>, Seq<char>)> {
    v.map_values(|c: MethodCandidate| (c.radio_label_key@, c.method_key@))
}

/// `$TYPE_ISCAB`'s candidate list (UniExtract.au3:2663); choice `1` is the first entry.
pub fn iscab_candidates() -> (r: Vec<MethodCandidate>)
    ensures
        candidate_keys(r@) == seq![("METHOD_EXTRACTION_RADIO"@, "is6comp"@), ("METHOD_EXTRACTION_RADIO"@, "is5comp"@), ("METHOD_EXTRACTION_RADIO"@, "iscab"@)],
{
    let r = vec![candidate("METHOD_EXTRACTION_RADIO", "is6comp"), candidate("METHOD_EXTRACTION_RADIO", "is5comp"), candidate("METHOD_EXTRACTION_RADIO", "iscab")];
    assert(candidate_keys(r@) =~= seq![("METHOD_EXTRACTION_RADIO"@, "is6comp"@), ("METHOD_EXTRACTION_RADIO"@, "is5comp"@), ("METHOD_EXTRACTION_RADIO"@, "iscab"@)]);
    r
}

/// `$TYPE_ISEXE`'s candidate list (UniExtract.au3:2705).
pub fn isexe_candidates() -> (r: Vec<MethodCandidate>)
    ensures
        candidate_keys(r@) == seq![("METHOD_EXTRACTION_RADIO"@, "isxunpack"@), ("METHOD_SWITCH_RADIO"@, "InstallShield /b"@), ("METHOD_NOT_INSTALLER_RADIO"@, "InstallShield"@)],
{
    let r = vec![candidate("METHOD_EXTRACTION_RADIO", "isxunpack"), candidate("METHOD_SWITCH_RADIO", "InstallShield /b"), candidate("METHOD_NOT_INSTALLER_RADIO", "InstallShield")];
    assert(candidate_keys(r@) =~= seq![("METHOD_EXTRACTION_RADIO"@, "isxunpack"@), ("METHOD_SWITCH_RADIO"@, "InstallShield /b"@), ("METHOD_NOT_INSTALLER_RADIO"@, "InstallShield"@)]);
    r
}

/// The MSI candidate list after lessmsi failed (UniExtract.au3:2854).
pub fn msi_candidates() -> (r: Vec<MethodCandidate>)
    ensures
        candidate_keys(r@) == seq![("METHOD_EXTRACTION_RADIO"@, "jsMSI Unpacker"@), ("METHOD_EXTRACTION_RADIO"@, "MsiX"@), ("METHOD_EXTRACTION_RADIO"@, "MSI TC Packer"@), ("METHOD_ADMIN_RADIO"@, "MSI"@)],
{
    let r = vec![candidate("METHOD_EXTRACTION_RADIO", "jsMSI Unpacker"), candidate("METHOD_EXTRACTION_RADIO", "MsiX"), candidate("METHOD_EXTRACTION_RADIO", "MSI TC Packer"), candidate("METHOD_ADMIN_RADIO", "MSI")];
    assert(candidate_keys(r@) =~= seq![("METHOD_EXTRACTION_RADIO"@, "jsMSI Unpacker"@), ("METHOD_EXTRACTION_RADIO"@, "MsiX"@), ("METHOD_EXTRACTION_RADIO"@, "MSI TC Packer"@), ("METHOD_ADMIN_RADIO"@, "MSI"@)]);
    r
}

/// `$TYPE_MSP`'s candidate list (UniExtract.au3:2893).
pub fn msp_candidates() -> (r: Vec<MethodCandidate>)
    ensures
        candidate_keys(r@) == seq![("METHOD_EXTRACTION_RADIO"@, "7-Zip"@), ("METHOD_EXTRACTION_RADIO"@, "MSI TC Packer"@), ("METHOD_EXTRACTION_RADIO"@, "MsiX"@)],
{
    let r = vec![candidate("METHOD_EXTRACTION_RADIO", "7-Zip"), candidate("METHOD_EXTRACTION_RADIO", "MSI TC Packer"), candidate("METHOD_EXTRACTION_RADIO", "MsiX")];
    assert(candidate_keys(r@) =~= seq![("METHOD_EXTRACTION_RADIO"@, "7-Zip"@), ("METHOD_EXTRACTION_RADIO"@, "MSI TC Packer"@), ("METHOD_EXTRACTION_RADIO"@, "MsiX"@)]);
    r
}

/// The Wise candidate list after the Wise unpacker failed (UniExtract.au3:3337); numbered as `extract::wise::WiseChoice`.
pub fn wise_candidates() -> (r: Vec<MethodCandidate>)
    ensures
        candidate_keys(r@) == seq![("METHOD_UNPACKER_RADIO"@, "Wise UNpacker"@), ("METHOD_SWITCH_RADIO"@, "Wise Installer /x"@), ("METHOD_EXTRACTION_RADIO"@, "Wise MSI"@), ("METHOD_EXTRACTION_RADIO"@, "Unzip"@), ("METHOD_NOT_INSTALLER_RADIO"@, "Wise"@)],
{
    let r = vec![candidate("METHOD_UNPACKER_RADIO", "Wise UNpacker"), candidate("METHOD_SWITCH_RADIO", "Wise Installer /x"), candidate("METHOD_EXTRACTION_RADIO", "Wise MSI"), candidate("METHOD_EXTRACTION_RADIO", "Unzip"), candidate("METHOD_NOT_INSTALLER_RADIO", "Wise")];
    assert(candidate_keys(r@) =~= seq![("METHOD_UNPACKER_RADIO"@, "Wise UNpacker"@), ("METHOD_SWITCH_RADIO"@, "Wise Installer /x"@), ("METHOD_EXTRACTION_RADIO"@, "Wise MSI"@), ("METHOD_EXTRACTION_RADIO"@, "Unzip"@), ("METHOD_NOT_INSTALLER_RADIO"@, "Wise"@)]);
    r
}

/// What `GUI_MethodSelect` resolves to before its dialog
/// (UniExtract.au3:7499-7508).
#[derive(Debug, Clone, Copy, PartialEq, Eq, Structural)]
pub enum MethodSelectionOutcome {
    /// `$sMethodSelectOverride > 0`: the override's 1-based choice wins.
    Overridden(u32),
    /// No override, silent: choice `1`.
    AutoFirstCandidate,
    /// No override, interactive: the radio-button dialog.
    PromptInteractive,
}

/// `c` is an ASCII decimal digit.
pub open spec fn is_digit(c: char) -> bool {
    '0' <= c && c <= '9'
}

/// The value of a string of decimal digits.
pub open spec fn digits_value(s: Seq<char>) -> nat
    decreases s.len(),
{
    if s.len() == 0 {
        0
    } else {
        digits_value(s.drop_last()) * 10 + ((s.last() as nat) - 48) as nat
    }
}

/// `s` without one leading `+`.
pub open spec fn unsigned_part(s: Seq<char>) -> Seq<char> {
    if s.len() > 0 && s[0] == '+' {
        s.drop_first()
    } else {
        s
    }
}

/// Every character of `d` is an ASCII digit.
pub open spec fn all_digits(d: Seq<char>) -> bool {
    forall|i: int| 0 <= i < d.len() ==> is_digit(#[trigger] d[i])
}

/// What `str::parse::<u32>` accepts: an optional `+`, then one or more
/// ASCII digits whose value fits in `u32`.
pub open spec fn parse_u32(s: Seq<char>) -> Option<nat> {
    let d = unsigned_part(s);
    if d.len() > 0 && all_digits(d) && digits_value(d) <= u32::MAX {
        Some(digits_value(d))
    } else {
        None
    }
}

proof fn lemma_digits_value_monotone(s: Seq<char>, i: int, j: int)
    requires
        0 <= i <= j <= s.len(),
        forall|k: int| 0 <= k < s.len() ==> is_digit(#[trigger] s[k]),
    ensures
        digits_value(s.take(i)) <= digits_value(s.take(j)),
    decreases j - i,
{
    if i < j {
        lemma_digits_value_monotone(s, i, j - 1);
        assert(s.take(j).drop_last() =~= s.take(j - 1));
    }
}

/// `str::parse::<u32>`.
pub fn parse_u32_str(s: &str) -> (r: Option<u32>)
    ensures
        match r {
            Some(n) => parse_u32(s@) == Some(n as nat),
            None => parse_u32(s@) is None,
        },
{
    let v = chars_of(s);
    let start: usize = if v.len() > 0 && v[0] == '+' {
        1
    } else {
        0
    };
    let ghost d = if s@.len() > 0 && s@[0] == '+' {
        s@.drop_first()
    } else {
        s@
    };
    assert(d =~= v@.skip(start as int));
    if start >= v.len() {
        return None;
    }
    let mut acc: u64 = 0;
    let mut i = start;
    while i < v.len()
        invariant
            start <= i <= v.len(),
            v@ == s@,
            d == unsigned_part(s@),
            d == v@.skip(start as int),
            forall|k: int| 0 <= k < i - start ==> is_digit(#[trigger] d[k]),
            acc as nat == digits_value(d.take(i - start)),
            acc <= u32::MAX,
        decreases v.len() - i,
    {
        let c = v[i];
        if !('0' <= c && c <= '9') {
            assert(!is_digit(d[i - start]));
            return None;
        }
        assert(d.take(i - start + 1).drop_last() =~= d.take(i - start));
        acc = acc * 10 + ((c as u32) - 48) as u64;
        if acc > 0xffff_ffff {
            proof {
                assert(is_digit(d[i - start]));
                if all_digits(d) {
                    lemma_digits_value_monotone(d, i - start + 1, d.len() as int);
                    assert(d.take(d.len() as int) =~= d);
                }
            }
            return None;
        }
        i += 1;
    }
    assert(d.take(d.len() as int) =~= d);
    Some(acc as u32)
}

/// The override's numeric value: the parsed digits, or `0` when there is
/// no override or it does not parse.
pub open spec fn override_choice(method_select_override: Option<&str>) -> nat {
    match method_select_override {
        Some(d) => match parse_u32(d@) {
            Some(n) => n,
            None => 0,
        },
        None => 0,
    }
}

/// `GUI_MethodSelect`'s branch selection before its dialog
/// (UniExtract.au3:7500-7508). `method_select_override` is `None` for the
/// default `0`, or the digit string peeled off `/type`. A value that
/// does not parse as a `u32`, or parses to `0` (such as `"00"`), counts
/// as no override, as in the source's numeric `> 0` test.
pub fn decide_method_selection(method_select_override: Option<&str>, silent_mode: bool) -> (r: MethodSelectionOutcome)
    ensures
        r == (if override_choice(method_select_override) > 0 {
            MethodSelectionOutcome::Overridden(override_choice(method_select_override) as u32)
        } else if silent_mode {
            MethodSelectionOutcome::AutoFirstCandidate
        } else {
            MethodSelectionOutcome::PromptInteractive
        }),
{
    if let Some(digits) = method_select_override {
        if let Some(choice) = parse_u32_str(digits) {
            if choice > 0 {
                return MethodSelectionOutcome::Overridden(choice);
            }
        }
    }
    if silent_mode {
        MethodSelectionOutcome::AutoFirstCandidate
    } else {
        MethodSelectionOutcome::PromptInteractive
    }
}

} // verus!
