//! Plugin manager decisions: `GUI_Plugins`
//! (UniExtract.au3:7778-7859), `GUI_Plugins_Install`
//! (UniExtract.au3:7861-7916) and `GUI_Plugins_Update`
//! (UniExtract.au3:7919-7941).
//!
//! `StringRight($sPath, 3) == ".7z"` (UniExtract.au3:7879-7880) compares
//! three characters with a three-character string, so `.7z` plugin
//! archives are unpacked just as `rar` and `zip` ones are.
use vstd::prelude::*;
use crate::extract::cat2;
use crate::text::{
    chars_of, eq_ignore_ascii_case, lowercase, owned, str_contains_char, str_eq_ignore_ascii_case,
    str_equal, string_from_range, to_lower,
};

verus! {

/// How `GUI_Plugins_Install` brings a chosen file in
/// (UniExtract.au3:7879-7880).
#[derive(Debug, Clone, Copy, PartialEq, Eq)]
pub enum InstallMechanism {
    /// `.7z`/`rar`/`zip`: run 7-Zip against the downloaded archive.
    UnpackArchive,
    /// Anything else: copy the selected file(s) directly into `\bin\`.
    CopyFiles,
}

/// The last three characters of `s` (all of it when shorter).
pub open spec fn last_three(s: Seq<char>) -> Seq<char> {
    if s.len() >= 3 {
        s.skip(s.len() - 3)
    } else {
        s
    }
}

/// Whether a path is unpacked: its last three characters, lowercased,
/// are `.7z`, `rar` or `zip`.
pub open spec fn unpacks(path: Seq<char>) -> bool {
    let l = lowercase(last_three(path));
    l == ".7z"@ || l == "rar"@ || l == "zip"@
}

/// `StringRight($sPath, 3)` and the three-way comparison
/// (UniExtract.au3:7879-7880), without regard to case.
pub fn resolve_install_mechanism(path: &str) -> (r: InstallMechanism)
    ensures
        (r == InstallMechanism::UnpackArchive) == unpacks(path@),
{
    let chars = chars_of(path);
    let start: usize = if chars.len() >= 3 {
        chars.len() - 3
    } else {
        0
    };
    let tail = string_from_range(&chars, start, chars.len());
    assert(tail@ =~= last_three(path@));
    let l = to_lower(tail.as_str());
    if str_equal(l.as_str(), ".7z") || str_equal(l.as_str(), "rar") || str_equal(l.as_str(), "zip") {
        InstallMechanism::UnpackArchive
    } else {
        InstallMechanism::CopyFiles
    }
}

/// What the Select/Finish button does (UniExtract.au3:7831).
#[derive(Debug, Clone, Copy, PartialEq, Eq)]
pub enum SelectCloseAction {
    CloseDialog,
    PromptForFile,
}

/// The `$GUI_Plugins_SelectClose` guard (UniExtract.au3:7831):
/// `$current == -1 Or HasPlugin(...)` closes the dialog.
pub fn decide_select_close_action(has_selection: bool, plugin_already_installed: bool) -> (r: SelectCloseAction)
    ensures
        (r == SelectCloseAction::CloseDialog) == (!has_selection || plugin_already_installed),
{
    if !has_selection || plugin_already_installed {
        SelectCloseAction::CloseDialog
    } else {
        SelectCloseAction::PromptForFile
    }
}

/// The Download and Select/Finish buttons' state for a selection
/// (`GUI_Plugins_Update`, UniExtract.au3:7931-7938).
#[derive(Debug, Clone, Copy, PartialEq, Eq)]
pub struct PluginSelectionDisplay {
    pub download_button_enabled: bool,
    pub download_button_shows_installed: bool,
    pub select_close_button_shows_finish: bool,
}

/// `GUI_Plugins_Update`'s installed branch (UniExtract.au3:7931-7938):
/// a plugin shows as installed only when running compiled
/// (`@Compiled`) and it is installed.
pub fn resolve_plugin_selection_display(is_compiled: bool, already_installed: bool) -> (r: PluginSelectionDisplay)
    ensures
        r.download_button_enabled == !(is_compiled && already_installed),
        r.download_button_shows_installed == (is_compiled && already_installed),
        r.select_close_button_shows_finish == (is_compiled && already_installed),
{
    if is_compiled && already_installed {
        PluginSelectionDisplay {
            download_button_enabled: false,
            download_button_shows_installed: true,
            select_close_button_shows_finish: true,
        }
    } else {
        PluginSelectionDisplay {
            download_button_enabled: true,
            download_button_shows_installed: false,
            select_close_button_shows_finish: false,
        }
    }
}

/// Whether some selected part equals `required`, ignoring ASCII case.
pub open spec fn is_selected(required: Seq<char>, selected: Seq<String>) -> bool {
    exists|j: int| 0 <= j < selected.len() && eq_ignore_ascii_case(#[trigger] selected[j]@, required)
}

/// The required files that count as missing, in order: those without a
/// `*` that no selected part names.
pub open spec fn missing_files(required: Seq<String>, selected: Seq<String>) -> Seq<Seq<char>>
    decreases required.len(),
{
    if required.len() == 0 {
        Seq::empty()
    } else {
        let f = required.last()@;
        missing_files(required.drop_last(), selected) + if !f.contains('*') && !is_selected(
            f,
            selected,
        ) {
            seq![f]
        } else {
            Seq::empty()
        }
    }
}

fn any_selected(required: &str, raw_selected_parts: &[String]) -> (r: bool)
    ensures
        r == is_selected(required@, raw_selected_parts@),
{
    let mut j: usize = 0;
    while j < raw_selected_parts.len()
        invariant
            j <= raw_selected_parts@.len(),
            forall|k: int| 0 <= k < j ==> !eq_ignore_ascii_case(#[trigger] raw_selected_parts@[k]@, required@),
        decreases raw_selected_parts@.len() - j,
    {
        if str_eq_ignore_ascii_case(raw_selected_parts[j].as_str(), required) {
            return true;
        }
        j += 1;
    }
    false
}

/// The required-file check of `GUI_Plugins_Install`'s copy branch
/// (UniExtract.au3:7894-7900): every required file that no selected part
/// names (ignoring ASCII case). An entry holding `*` is never reported:
/// the source skips the check for wildcard entries. An empty result lets
/// the installation proceed.
pub fn missing_required_files(required_files: &[String], raw_selected_parts: &[String]) -> (r: Vec<String>)
    ensures
        r@.map_values(|s: String| s@) == missing_files(required_files@, raw_selected_parts@),
{
    let mut r: Vec<String> = Vec::new();
    let mut i: usize = 0;
    assert(required_files@.take(0) =~= Seq::<String>::empty());
    assert(r@.map_values(|s: String| s@) =~= Seq::<Seq<char>>::empty());
    while i < required_files.len()
        invariant
            i <= required_files@.len(),
            r@.map_values(|s: String| s@) == missing_files(required_files@.take(i as int), raw_selected_parts@),
        decreases required_files@.len() - i,
    {
        let req = required_files[i].as_str();
        assert(required_files@.take(i + 1).drop_last() =~= required_files@.take(i as int));
        assert(required_files@.take(i + 1).last() == required_files@[i as int]);
        if !str_contains_char(req, '*') && !any_selected(req, raw_selected_parts) {
            let ghost prev = r@;
            r.push(owned(req));
            assert(r@.map_values(|s: String| s@) =~= prev.map_values(|s: String| s@) + seq![req@]);
        }
        i += 1;
    }
    assert(required_files@.take(required_files@.len() as int) =~= required_files@);
    r
}

/// The copy plan of `GUI_Plugins_Install` (UniExtract.au3:7903-7914):
/// one file goes to `outdir` + `new_filename`; two or more keep their
/// names and go to `outdir`.
pub open spec fn copy_plan(files: Seq<String>, outdir: Seq<char>, new_filename: Seq<char>) -> Seq<(Seq<char>, Seq<char>)> {
    if files.len() == 0 {
        Seq::empty()
    } else if files.len() == 1 {
        seq![(files[0]@, outdir + new_filename)]
    } else {
        files.map_values(|f: String| (f@, outdir))
    }
}

/// Resolves where each selected file is copied
/// (UniExtract.au3:7903-7914). `files` are full paths.
pub fn resolve_copy_plan(files: &[String], outdir: &str, new_filename: &str) -> (r: Vec<(String, String)>)
    ensures
        r@.map_values(|p: (String, String)| (p.0@, p.1@)) == copy_plan(files@, outdir@, new_filename@),
{
    let mut r: Vec<(String, String)> = Vec::new();
    if files.len() == 0 {
        assert(r@.map_values(|p: (String, String)| (p.0@, p.1@)) =~= copy_plan(files@, outdir@, new_filename@));
        return r;
    }
    if files.len() == 1 {
        r.push((owned(files[0].as_str()), cat2(outdir, new_filename)));
        assert(r@.map_values(|p: (String, String)| (p.0@, p.1@)) =~= copy_plan(files@, outdir@, new_filename@));
        return r;
    }
    let mut i: usize = 0;
    while i < files.len()
        invariant
            i <= files@.len(),
            r@.map_values(|p: (String, String)| (p.0@, p.1@)) == files@.take(i as int).map_values(
                |f: String| (f@, outdir@),
            ),
        decreases files@.len() - i,
    {
        let a = owned(files[i].as_str());
        let b = owned(outdir);
        assert(a@ == files@[i as int]@ && b@ == outdir@);
        let ghost prev = r@;
        r.push((a, b));
        assert(r@.map_values(|p: (String, String)| (p.0@, p.1@)) =~= prev.map_values(
            |p: (String, String)| (p.0@, p.1@),
        ).push((files@[i as int]@, outdir@)));
        assert(r@.map_values(|p: (String, String)| (p.0@, p.1@)) =~= files@.take(i + 1).map_values(
            |f: String| (f@, outdir@),
        ));
        i += 1;
    }
    assert(files@.take(files@.len() as int) =~= files@);
    r
}

} // verus!
